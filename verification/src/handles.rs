use vstd::prelude::*;

verus! {

/// An instance-level owning context, held as a plain opaque handle.
///
/// The proxy types keep such a handle by value and never manage its
/// lifetime: keeping the underlying context alive for as long as a proxy
/// forwards calls to it is the caller's obligation.
#[derive(Clone, Copy, PartialEq, Eq, Structural, Debug)]
pub struct Instance {
    pub handle: u64,
}

impl Instance {
    /// Wraps a raw instance handle.
    pub fn new(handle: u64) -> (i: Instance)
        ensures
            i.handle == handle,
    {
        Instance { handle }
    }

    /// The raw handle of this instance.
    pub fn handle(&self) -> (h: u64)
        ensures
            h == self.handle,
    {
        self.handle
    }
}

/// A device-level owning context, held as a plain opaque handle.
#[derive(Clone, Copy, PartialEq, Eq, Structural, Debug)]
pub struct Device {
    pub handle: u64,
}

impl Device {
    /// Wraps a raw device handle.
    pub fn new(handle: u64) -> (d: Device)
        ensures
            d.handle == handle,
    {
        Device { handle }
    }

    /// The raw handle of this device.
    pub fn handle(&self) -> (h: u64)
        ensures
            h == self.handle,
    {
        self.handle
    }
}

} // verus!
