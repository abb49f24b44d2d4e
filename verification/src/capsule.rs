//! The cross-thread handle capsule and the thread-locked accessor derived
//! from it.

use vstd::prelude::*;
use std::marker::PhantomData;
use std::rc::Rc;
use std::sync::Arc;
use crate::handle::{DisplayHandleValue, HandleError, WindowHandleValue, WindowSource};
use crate::holder::WindowWrapper;

verus! {

/// A wrapper over a [`WindowSource`] that can be passed between subsystems
/// and stored freely (for example on the record that represents a window), so
/// that a consumer such as a renderer can pick it up later.
///
/// Depending on the platform, the underlying handle cannot be used on all
/// threads; the capsule therefore never produces a handle itself. Handle
/// production is reached only through [`RawHandleWrapper::get_handle`], whose
/// thread-context obligation is documented there. The capsule shares
/// ownership of the window resource with the [`WindowWrapper`] it was created
/// from, keeping the resource alive while any clone of the capsule survives.
#[derive(Debug)]
pub struct RawHandleWrapper<W: WindowSource> {
    pub(crate) window: Arc<W>,
}

impl<W: WindowSource + Send + Sync + 'static> RawHandleWrapper<W> {
    /// The handle source this capsule refers to.
    pub open(crate) spec fn source(&self) -> W {
        *self.window
    }

    /// Creates a `RawHandleWrapper` from a `WindowWrapper`, sharing ownership
    /// of the same window resource. Succeeds on every input: a failure to
    /// produce a handle surfaces later, from the accessor's operations, not
    /// here.
    pub fn new(window: &WindowWrapper<W>) -> (r: Result<RawHandleWrapper<W>, HandleError>)
        ensures
            r matches Ok(c) && c.source() == window.resource(),
    {
        Ok(RawHandleWrapper { window: window.reference.clone() })
    }

    /// Returns an accessor that exposes the window and display handles of the
    /// same source.
    ///
    /// Contract on the caller: the current thread must be a valid context,
    /// under the target platform's rules, for retrieving and using window and
    /// display handles (commonly the platform's designated main thread; which
    /// threads qualify is platform knowledge this crate does not hold). The
    /// accessor must be used on the thread that obtained it and discarded
    /// right after use, never cached. No runtime check of the thread context
    /// is possible generically, so none is made.
    pub fn get_handle(&self) -> (r: ThreadLockedRawWindowHandleWrapper<W>)
        ensures
            r.source() == self.source(),
    {
        ThreadLockedRawWindowHandleWrapper {
            capsule: RawHandleWrapper { window: self.window.clone() },
            thread_bound: PhantomData,
        }
    }
}

impl<W: WindowSource + Send + Sync + 'static> Clone for RawHandleWrapper<W> {
    /// The clone refers to the same source and shares ownership of the same
    /// window resource.
    fn clone(&self) -> (r: Self)
        ensures
            r.source() == self.source(),
    {
        RawHandleWrapper { window: self.window.clone() }
    }
}

/// A [`RawHandleWrapper`] bound to the thread it was obtained on.
///
/// This exposes the actual handle-producing operations. It can only be
/// constructed through [`RawHandleWrapper::get_handle`]; read the contract
/// there about platform-specific thread limitations. Unlike the capsule, it
/// is neither `Send` nor `Sync`, so it cannot leave the thread whose validity
/// the caller attested. Accessors are transient: obtained immediately before
/// a platform call and dropped immediately after.
pub struct ThreadLockedRawWindowHandleWrapper<W: WindowSource> {
    pub(crate) capsule: RawHandleWrapper<W>,
    // The gating is per thread: the accessor must stay on the thread whose
    // validity the caller attested, so the marker keeps it from being sent or
    // shared across threads.
    pub(crate) thread_bound: PhantomData<Rc<()>>,
}

impl<W: WindowSource + Send + Sync + 'static> ThreadLockedRawWindowHandleWrapper<W> {
    /// The handle source this accessor reads from: the same source as the
    /// capsule it was obtained from.
    pub open(crate) spec fn source(&self) -> W {
        self.capsule.source()
    }

    /// The window handle of the underlying source, exactly as the source
    /// reports it; the source's error when it cannot produce one.
    pub fn window_handle(&self) -> (r: Result<WindowHandleValue, HandleError>)
        ensures
            r == self.source().spec_window_handle(),
    {
        self.capsule.window.window_handle()
    }

    /// The display handle of the underlying source, exactly as the source
    /// reports it; the source's error when it cannot produce one.
    pub fn display_handle(&self) -> (r: Result<DisplayHandleValue, HandleError>)
        ensures
            r == self.source().spec_display_handle(),
    {
        self.capsule.window.display_handle()
    }
}

/// Law: handle production seen through the chain is pass-through. An accessor
/// gated from a capsule that was created from a holder ([`RawHandleWrapper::new`]
/// and [`RawHandleWrapper::get_handle`] ensure exactly the two premises, for
/// any number of capsule clones in between) reports the held resource's own
/// handle productions, unmodified — including the error when the resource
/// cannot produce a handle.
pub proof fn lemma_accessor_pass_through<W: WindowSource + Send + Sync + 'static>(
    holder: &WindowWrapper<W>,
    capsule: &RawHandleWrapper<W>,
    accessor: &ThreadLockedRawWindowHandleWrapper<W>,
)
    requires
        capsule.source() == holder.resource(),
        accessor.source() == capsule.source(),
    ensures
        accessor.source().spec_window_handle() == holder.resource().spec_window_handle(),
        accessor.source().spec_display_handle() == holder.resource().spec_display_handle(),
{
}

} // verus!
