//! The actor's view of the backend invocation surface.
//!
//! The actor never talks to the graphics backend directly. It decides which
//! backend operation must run and hands that decision out as data: either a
//! [`PendingCall`], whose [`BackendOutcome`] is fed back to the actor, or a
//! list of fire-and-forget [`BackendCall`]s whose results it does not need.
//! The surrounding process performs the calls and relays the outcomes.

use vstd::prelude::*;
use crate::descriptors::{BufferDescriptor, DeviceDescriptor, RequestAdapterOptions};
use crate::handles::{WebGPUAdapter, WebGPUBuffer, WebGPUDevice};
use crate::protocol::WebGPUResponseResult;

verus! {

/// One backend operation, identified by the ids the actor assigned.
#[derive(Clone, Copy, Debug, PartialEq, Eq, Structural)]
pub enum BackendCall {
    /// Enumerate adapters; register the result under the given fresh handle.
    RequestAdapter(WebGPUAdapter, RequestAdapterOptions),
    /// Create a device on the adapter under the given fresh handle.
    RequestDevice(WebGPUAdapter, WebGPUDevice, DeviceDescriptor),
    /// Allocate a buffer on the device under the given fresh handle.
    CreateBuffer(WebGPUDevice, WebGPUBuffer, BufferDescriptor),
    /// Free the buffer.
    DestroyBuffer(WebGPUBuffer),
    /// Block until the device has finished its outstanding work.
    WaitIdle(WebGPUDevice),
    /// Free the device.
    DestroyDevice(WebGPUDevice),
    /// Release the backend instance itself.
    ReleaseInstance,
}

/// A backend creation call whose outcome decides the reply: the actor issued
/// a fresh handle and waits for [`BackendOutcome`] before it records
/// anything.
#[derive(Clone, Copy, Debug, PartialEq, Eq, Structural)]
pub enum PendingCall {
    RequestAdapter { fresh: WebGPUAdapter, options: RequestAdapterOptions },
    RequestDevice { adapter: WebGPUAdapter, fresh: WebGPUDevice, desc: DeviceDescriptor },
    CreateBuffer { device: WebGPUDevice, fresh: WebGPUBuffer, desc: BufferDescriptor },
}

/// What the backend reported for a [`PendingCall`].
#[derive(Debug)]
pub enum BackendOutcome {
    /// An adapter was found; its reported name.
    AdapterFound(String),
    /// No compatible adapter exists.
    AdapterUnavailable,
    /// The device was created.
    DeviceCreated,
    /// The backend rejected the device creation.
    DeviceFailed,
    /// The buffer was allocated.
    BufferCreated,
    /// The backend rejected the buffer allocation.
    BufferFailed,
}

/// The outcome variants that can answer the given pending call.
pub open spec fn outcome_fits(call: PendingCall, outcome: BackendOutcome) -> bool {
    match call {
        PendingCall::RequestAdapter { .. } => {
            outcome is AdapterFound || outcome is AdapterUnavailable
        },
        PendingCall::RequestDevice { .. } => outcome is DeviceCreated || outcome is DeviceFailed,
        PendingCall::CreateBuffer { .. } => outcome is BufferCreated || outcome is BufferFailed,
    }
}

/// What the actor decided to do with one request.
#[derive(Debug)]
pub enum Dispatch {
    /// Answered from the registry alone; the backend was not touched.
    Reply(WebGPUResponseResult),
    /// A backend call must run; feed its outcome back to the actor.
    Call(PendingCall),
    /// Fire-and-forget backend work; no reply is owed.
    Effects(Vec<BackendCall>),
    /// The ordered teardown sequence; acknowledge once it has run.
    Teardown(Vec<BackendCall>),
}

} // verus!
