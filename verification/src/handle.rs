//! Handle values, the handle-production error, and the capability that a
//! window-binding type must offer.

use vstd::prelude::*;

verus! {

/// An opaque, platform-defined value that lets a consumer (such as a graphics
/// backend) address a specific window surface. This crate never inspects the
/// value; it is carried through unchanged.
#[derive(Clone, Copy, PartialEq, Eq, Structural, Debug)]
pub struct WindowHandleValue {
    /// The platform's raw designation of the window, as an inert number.
    pub raw: u64,
}

/// An opaque, platform-defined value that lets a consumer address the display
/// or screen a window lives on. Carried through unchanged, like
/// [`WindowHandleValue`].
#[derive(Clone, Copy, PartialEq, Eq, Structural, Debug)]
pub struct DisplayHandleValue {
    /// The platform's raw designation of the display, as an inert number.
    pub raw: u64,
}

/// The one error of this crate: the underlying window binding could not
/// produce a window or display handle (for example, the native resource has
/// already been torn down). It is passed through to the caller, never
/// swallowed or retried here.
#[derive(Clone, Copy, PartialEq, Eq, Structural, Debug)]
pub struct HandleError;

/// The capability a window-binding type must offer so that this crate can
/// wrap it: producing, on demand, a window handle and a display handle.
///
/// The two spec functions give the mathematical result of each production;
/// the two executable methods must return exactly that result. A concrete
/// binding is supplied by the caller (it varies by platform); this crate is
/// generic over it.
pub trait WindowSource: Sized {
    /// What producing a window handle from this source yields.
    spec fn spec_window_handle(&self) -> Result<WindowHandleValue, HandleError>;

    /// What producing a display handle from this source yields.
    spec fn spec_display_handle(&self) -> Result<DisplayHandleValue, HandleError>;

    /// Produce the window handle, or report that none can be produced.
    fn window_handle(&self) -> (r: Result<WindowHandleValue, HandleError>)
        ensures
            r == self.spec_window_handle(),
    ;

    /// Produce the display handle, or report that none can be produced.
    fn display_handle(&self) -> (r: Result<DisplayHandleValue, HandleError>)
        ensures
            r == self.spec_display_handle(),
    ;
}

} // verus!
