//! A stub window binding: a plain-data [`WindowSource`] with configurable
//! handle values and a configurable failure mode, for exercising the holder,
//! capsule and accessor without a real platform binding.

use vstd::prelude::*;
use crate::handle::{DisplayHandleValue, HandleError, WindowHandleValue, WindowSource};

verus! {

/// A window binding that reports fixed handle values, or fails handle
/// production altogether when so configured.
///
/// Like a real binding, it owns a piece of native state: the `native` payload
/// is an arbitrary owned value that lives exactly as long as the stub, so a
/// caller can observe when the stub is destroyed (for instance through a
/// payload that counts its own destruction).
#[derive(Debug)]
pub struct StubWindowBinding<R> {
    native: R,
    id: u64,
    window_raw: u64,
    display_raw: u64,
    fail: bool,
}

impl<R> StubWindowBinding<R> {
    /// The native state this stub owns.
    pub closed spec fn spec_native(&self) -> R {
        self.native
    }

    /// The identity this stub was created with.
    pub closed spec fn spec_id(&self) -> u64 {
        self.id
    }

    /// Whether this stub was configured to fail handle production.
    pub closed spec fn spec_fails(&self) -> bool {
        self.fail
    }

    /// Creates a stub that owns `native`, identifies itself as `id`, and
    /// reports `window_raw` and `display_raw` as its handle values; with
    /// `fail` set, both handle productions report [`HandleError`] instead.
    pub fn new(native: R, id: u64, window_raw: u64, display_raw: u64, fail: bool) -> (r:
        StubWindowBinding<R>)
        ensures
            r.spec_native() == native,
            r.spec_id() == id,
            r.spec_fails() == fail,
            r.spec_window_handle() == if fail {
                Err::<WindowHandleValue, HandleError>(HandleError)
            } else {
                Ok::<WindowHandleValue, HandleError>(WindowHandleValue { raw: window_raw })
            },
            r.spec_display_handle() == if fail {
                Err::<DisplayHandleValue, HandleError>(HandleError)
            } else {
                Ok::<DisplayHandleValue, HandleError>(DisplayHandleValue { raw: display_raw })
            },
    {
        StubWindowBinding { native, id, window_raw, display_raw, fail }
    }

    /// Read-only access to the owned native state.
    pub fn native(&self) -> (r: &R)
        ensures
            *r == self.spec_native(),
    {
        &self.native
    }

    /// The identity this stub was created with.
    pub fn id(&self) -> (r: u64)
        ensures
            r == self.spec_id(),
    {
        self.id
    }
}

/// Law: a stub configured to fail handle production reports [`HandleError`]
/// from both productions, and one not so configured reports a handle from
/// both. Together with the accessor's contracts, a gated accessor over a
/// failing stub returns the error (and, being verified, does not panic).
pub proof fn lemma_stub_failure_mode<R>(s: &StubWindowBinding<R>)
    ensures
        s.spec_fails() ==> s.spec_window_handle() == Err::<WindowHandleValue, HandleError>(
            HandleError,
        ) && s.spec_display_handle() == Err::<DisplayHandleValue, HandleError>(HandleError),
        !s.spec_fails() ==> s.spec_window_handle() is Ok && s.spec_display_handle() is Ok,
{
}

impl<R> WindowSource for StubWindowBinding<R> {
    closed spec fn spec_window_handle(&self) -> Result<WindowHandleValue, HandleError> {
        if self.fail {
            Err(HandleError)
        } else {
            Ok(WindowHandleValue { raw: self.window_raw })
        }
    }

    closed spec fn spec_display_handle(&self) -> Result<DisplayHandleValue, HandleError> {
        if self.fail {
            Err(HandleError)
        } else {
            Ok(DisplayHandleValue { raw: self.display_raw })
        }
    }

    fn window_handle(&self) -> (r: Result<WindowHandleValue, HandleError>) {
        if self.fail {
            Err(HandleError)
        } else {
            Ok(WindowHandleValue { raw: self.window_raw })
        }
    }

    fn display_handle(&self) -> (r: Result<DisplayHandleValue, HandleError>) {
        if self.fail {
            Err(HandleError)
        } else {
            Ok(DisplayHandleValue { raw: self.display_raw })
        }
    }
}

} // verus!
