//! Handles to the device through which replies go to the kernel.
use std::sync::Arc;
use vstd::prelude::*;

verus! {

/// Calls `Arc::clone`.
///
/// Trusted: the new pointer leads to the same value as `pointer`.
#[verifier::external_body]
fn share<T>(pointer: &Arc<T>) -> (r: Arc<T>)
    ensures
        r == *pointer,
{
    Arc::clone(pointer)
}

/// A handle to an open device `C` that replies are sent through.
///
/// Handles are cheap to clone, and the device stays open while one of them is alive.
#[derive(Debug)]
pub struct ChannelSender<C> {
    device: Arc<C>,
}

impl<C> ChannelSender<C> {
    /// The device.
    pub closed spec fn device_value(self) -> C {
        *self.device
    }

    /// Makes a handle to `device`.
    pub fn new(device: Arc<C>) -> (r: ChannelSender<C>)
        ensures
            r.device_value() == *device,
    {
        ChannelSender { device }
    }

    /// The device.
    pub fn device(&self) -> (r: &C)
        ensures
            *r == self.device_value(),
    {
        &self.device
    }
}

impl<C> Clone for ChannelSender<C> {
    fn clone(&self) -> (r: ChannelSender<C>)
        ensures
            r == *self,
    {
        ChannelSender { device: share(&self.device) }
    }
}

} // verus!
