//! The wire contract between callers and the actor: the closed set of
//! requests, the responses they elicit, and the typed failures.
//!
//! Every response-bearing request elicits exactly one reply, success or
//! failure. In the running system each request carries its own reply
//! channel; here the protocol is the payloads alone, and the channel
//! plumbing lives with the callers.

use vstd::prelude::*;
use crate::descriptors::{BufferDescriptor, DeviceDescriptor, RequestAdapterOptions};
use crate::handles::{WebGPUAdapter, WebGPUBuffer, WebGPUDevice};

verus! {

/// A request a caller may send to the actor.
#[derive(Clone, Copy, Debug, PartialEq, Eq, Structural)]
pub enum WebGPURequest {
    /// Ask the backend for a compatible adapter.
    RequestAdapter(RequestAdapterOptions),
    /// Create a logical device from a previously returned adapter.
    RequestDevice(WebGPUAdapter, DeviceDescriptor),
    /// Allocate a buffer on a previously returned device.
    CreateBuffer(WebGPUDevice, BufferDescriptor),
    /// Destroy a buffer; a no-op when the handle is already gone. No reply.
    DestroyBuffer(WebGPUBuffer),
    /// Tear everything down in order, then acknowledge. Terminal: nothing
    /// is processed after it.
    Shutdown,
}

/// A successful answer from the actor.
#[derive(Debug)]
pub enum WebGPUResponse {
    /// The adapter's reported name and its handle.
    RequestAdapter(String, WebGPUAdapter),
    /// The new device and the descriptor it was created with.
    RequestDevice(WebGPUDevice, DeviceDescriptor),
    /// The new buffer.
    CreateBuffer(WebGPUBuffer),
}

/// A typed failure, carried back to the one caller that issued the request.
#[derive(Clone, Copy, Debug, PartialEq, Eq, Structural)]
pub enum WebGPUError {
    /// Adapter enumeration found no compatible backend.
    NoAdapter,
    /// The request referenced an adapter absent from the actor's records.
    UnknownAdapter,
    /// The request referenced a device absent from the registry.
    UnknownDevice,
    /// The backend rejected the device creation.
    DeviceCreationFailed,
    /// The backend rejected the buffer allocation.
    BufferCreationFailed,
}

/// What the actor sends back on a reply channel.
pub type WebGPUResponseResult = Result<WebGPUResponse, WebGPUError>;

impl WebGPUError {
    /// The human-readable reason reported with each failure.
    pub open spec fn spec_message(self) -> Seq<char> {
        match self {
            WebGPUError::NoAdapter => "failed to get an adapter"@,
            WebGPUError::UnknownAdapter => "unknown handle: adapter"@,
            WebGPUError::UnknownDevice => "unknown handle: device"@,
            WebGPUError::DeviceCreationFailed => "device creation failed"@,
            WebGPUError::BufferCreationFailed => "buffer creation failed"@,
        }
    }

    /// The human-readable reason for this failure.
    pub fn message(&self) -> (r: &'static str)
        ensures
            r@ == self.spec_message(),
    {
        match self {
            WebGPUError::NoAdapter => "failed to get an adapter",
            WebGPUError::UnknownAdapter => "unknown handle: adapter",
            WebGPUError::UnknownDevice => "unknown handle: device",
            WebGPUError::DeviceCreationFailed => "device creation failed",
            WebGPUError::BufferCreationFailed => "buffer creation failed",
        }
    }
}

} // verus!
