//! Opaque resource handles.
//!
//! A handle wraps a backend-assigned id and has no behaviour of its own:
//! whether it refers to a live resource is a registry property, checked by
//! the actor, never by the handle. Callers may copy handles freely; a stale
//! handle is answered with a validation failure, not a crash.

use vstd::prelude::*;

verus! {

/// Identifier for a physical or logical graphics adapter.
#[derive(Clone, Copy, Debug, PartialEq, Eq, Structural, Hash)]
pub struct WebGPUAdapter(pub u64);

/// Identifier for a logical device created from an adapter.
#[derive(Clone, Copy, Debug, PartialEq, Eq, Structural, Hash)]
pub struct WebGPUDevice(pub u64);

/// Identifier for a buffer allocated on a device.
#[derive(Clone, Copy, Debug, PartialEq, Eq, Structural, Hash)]
pub struct WebGPUBuffer(pub u64);

} // verus!
