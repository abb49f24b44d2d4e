//! The resource holder: reference-counted shared ownership of a window
//! resource, so the resource outlives its nominal owner while any consumer
//! still shares it.

use vstd::prelude::*;
use std::sync::Arc;

verus! {

/// A wrapper over a window resource.
///
/// This extends the lifetime of the window, so it does not get eagerly
/// dropped while a pipelined renderer still has frames in flight that need to
/// draw to it: the resource sits behind a reference-counted shared cell, and
/// is destroyed exactly when the last share (this holder, or any capsule
/// derived from it) is dropped. No holder mutates the resource; it is exposed
/// for read access only.
#[derive(Debug)]
pub struct WindowWrapper<W> {
    pub(crate) reference: Arc<W>,
}

impl<W: Send + Sync + 'static> WindowWrapper<W> {
    /// The resource this holder keeps alive.
    pub open(crate) spec fn resource(&self) -> W {
        *self.reference
    }

    /// Creates a `WindowWrapper` that takes ownership of a window resource.
    pub fn new(window: W) -> (r: WindowWrapper<W>)
        ensures
            r.resource() == window,
    {
        WindowWrapper { reference: Arc::new(window) }
    }

    /// Clones the underlying shared reference: another owner of the same
    /// window resource. The resource is destroyed exactly when the last share
    /// (this holder included) is dropped, which is how a consumer keeps the
    /// window alive past the point where its nominal owner releases it.
    pub fn share_reference(&self) -> (r: Arc<W>)
        ensures
            *r == self.resource(),
    {
        self.reference.clone()
    }

    /// Read-only access to the contained resource. Never absent: the resource
    /// is alive for as long as this holder is.
    pub fn dereference(&self) -> (r: &W)
        ensures
            *r == self.resource(),
    {
        &*self.reference
    }
}

} // verus!
