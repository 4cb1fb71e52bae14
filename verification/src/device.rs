//! The device context: the engine's only channel to the GPU.
//!
//! The context owns the logical device and its command queue. It is
//! acquired once, by enumerating adapters and negotiating a device, and
//! every other component submits work through it.

use vstd::prelude::*;
use crate::backend;
use crate::error::Error;

verus! {

/// The exclusive owner of the device connection and the queue.
pub struct DeviceContext {
    pub device: wgpu::Device,
    pub queue: wgpu::Queue,
}

/// Enumerates the available adapters under the default preference
/// policy, selects one, and negotiates a logical device and queue. When
/// no adapter satisfies the requested set, the failure is exactly
/// `NoCompatibleDevice`.
pub fn acquire() -> (r: Result<DeviceContext, Error>)
    ensures
        r is Err ==> r == Result::<DeviceContext, Error>::Err(Error::NoCompatibleDevice),
{
    let instance = backend::new_instance();
    let adapter = match backend::request_adapter(&instance) {
        Some(a) => a,
        None => {
            return Err(Error::NoCompatibleDevice);
        },
    };
    match backend::request_device(&adapter) {
        Some((device, queue)) => Ok(DeviceContext { device, queue }),
        None => Err(Error::NoCompatibleDevice),
    }
}

impl DeviceContext {
    /// Drives device progress until the queue is empty, by when every
    /// pending map-completion callback has run. The host must call this
    /// for a map request to resolve; a pure host wait would deadlock.
    pub fn block_until_idle(&self) {
        backend::device_poll_wait(&self.device);
    }
}

} // verus!
