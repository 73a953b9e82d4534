//! Handles to the native application and browser-window objects.
//!
//! A native object is referred to by its address, kept as an integer: the
//! handle neither owns nor reads the object, and copying a handle copies the
//! reference, never the referent.
use vstd::prelude::*;

verus! {

/// The application object as the engine's function table sees it.
#[derive(Clone, Copy, PartialEq, Eq, Debug)]
pub struct ApplicationImpl {
    /// Address of the native application object.
    pub inner: usize,
}

/// Reference to the one running application, shared by both access modes.
#[derive(Clone, Copy, PartialEq, Eq, Debug)]
pub struct ApplicationHandle {
    pub ffi_handle: usize,
}

/// Reference to one browser window, shared by both access modes.
#[derive(Clone, Copy, PartialEq, Eq, Debug)]
pub struct BrowserHandle {
    pub ffi_handle: usize,
}

impl ApplicationImpl {
    pub fn handle(&self) -> (r: ApplicationHandle)
        ensures
            r.ffi_handle == self.inner,
    {
        ApplicationHandle::new(self.inner)
    }
}

impl ApplicationHandle {
    pub fn new(ffi_handle: usize) -> (r: Self)
        ensures
            r.ffi_handle == ffi_handle,
    {
        ApplicationHandle { ffi_handle }
    }

    pub fn app_handle(&self) -> (r: ApplicationHandle)
        ensures
            r == *self,
    {
        *self
    }
}

impl BrowserHandle {
    pub fn new(ffi_handle: usize) -> (r: Self)
        ensures
            r.ffi_handle == ffi_handle,
    {
        BrowserHandle { ffi_handle }
    }
}

} // verus!
