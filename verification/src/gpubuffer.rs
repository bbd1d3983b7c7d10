//! The caller-side record of one buffer: the handles it was created with
//! and its mapping state.
//!
//! Destroying the record is local bookkeeping plus a request value for the
//! actor; the caller sends that request on its channel. Validity is never
//! judged here: the actor answers a stale handle with a typed failure.

use vstd::prelude::*;
use crate::handles::{WebGPUBuffer, WebGPUDevice};
use crate::protocol::WebGPURequest;

verus! {

/// The mapping state of a buffer as its holder sees it.
#[derive(Clone, Copy, Debug, PartialEq, Eq, Structural)]
pub enum GPUBufferState {
    Mapped,
    Unmapped,
    Destroyed,
}

/// One buffer as held by a caller.
pub struct GPUBuffer {
    /// The buffer's own handle.
    pub buffer: WebGPUBuffer,
    /// The device the buffer was created on.
    pub device: WebGPUDevice,
    /// The holder's view of the mapping state.
    pub state: GPUBufferState,
    /// An optional caller-chosen label.
    pub label: Option<String>,
    /// The allocated size in bytes.
    pub size: u64,
}

impl GPUBuffer {
    /// A fresh record for a buffer just created on `device`: unmapped,
    /// unlabelled.
    #[allow(non_snake_case)]
    pub fn new_inherited(buffer: WebGPUBuffer, device: WebGPUDevice) -> (r: GPUBuffer)
        ensures
            r.buffer == buffer,
            r.device == device,
            r.state is Unmapped,
            r.label is None,
            r.size == 0,
    {
        GPUBuffer { buffer, device, state: GPUBufferState::Unmapped, label: None, size: 0 }
    }

    /// Mark the buffer destroyed and produce the request that asks the
    /// actor to free it.
    #[allow(non_snake_case)]
    pub fn Destroy(&mut self) -> (req: WebGPURequest)
        ensures
            final(self).state is Destroyed,
            req == WebGPURequest::DestroyBuffer(old(self).buffer),
            final(self).buffer == old(self).buffer,
            final(self).device == old(self).device,
            final(self).label == old(self).label,
            final(self).size == old(self).size,
    {
        self.state = GPUBufferState::Destroyed;
        WebGPURequest::DestroyBuffer(self.buffer)
    }

    /// A copy of the label.
    #[allow(non_snake_case)]
    pub fn GetLabel(&self) -> (r: Option<String>)
        ensures
            match (r, self.label) {
                (Some(s), Some(t)) => s@ == t@,
                (None, None) => true,
                _ => false,
            },
    {
        match &self.label {
            Some(s) => Some(s.clone()),
            None => None,
        }
    }

    /// Replace the label.
    #[allow(non_snake_case)]
    pub fn SetLabel(&mut self, value: Option<String>)
        ensures
            final(self).label == value,
            final(self).buffer == old(self).buffer,
            final(self).device == old(self).device,
            final(self).state == old(self).state,
            final(self).size == old(self).size,
    {
        self.label = value;
    }
}

} // verus!
