//! A single-threaded command actor that brokers access to a graphics backend.
//!
//! Callers hold opaque handles to adapters, devices and buffers. The actor
//! owns the ownership registry (device -> adapter, buffer -> device),
//! validates every request against it before any backend work is done,
//! and tears the resources down in order on shutdown.

pub mod actor;
pub mod backend;
pub mod descriptors;
pub mod gpubuffer;
pub mod handles;
pub mod inbox;
pub mod laws;
pub mod protocol;
pub mod registry;

use vstd::prelude::*;

verus! {

} // verus!
