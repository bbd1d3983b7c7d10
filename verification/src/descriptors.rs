//! Descriptor structs carried by requests: adapter options, device
//! descriptors and buffer descriptors, as plain values.

use vstd::prelude::*;

verus! {

/// Buffer usage bit: the buffer may be mapped for reading.
pub const MAP_READ: u32 = 0x0001;
/// Buffer usage bit: the buffer may be mapped for writing.
pub const MAP_WRITE: u32 = 0x0002;
/// Buffer usage bit: the buffer may be a copy source.
pub const COPY_SRC: u32 = 0x0004;
/// Buffer usage bit: the buffer may be a copy destination.
pub const COPY_DST: u32 = 0x0008;
/// Buffer usage bit: the buffer may hold indices.
pub const INDEX: u32 = 0x0010;
/// Buffer usage bit: the buffer may hold vertices.
pub const VERTEX: u32 = 0x0020;
/// Buffer usage bit: the buffer may back a uniform binding.
pub const UNIFORM: u32 = 0x0040;
/// Buffer usage bit: the buffer may back a storage binding.
pub const STORAGE: u32 = 0x0080;
/// Buffer usage bit: the buffer may hold indirect draw arguments.
pub const INDIRECT: u32 = 0x0100;

/// The caller's preference when the backend selects an adapter.
#[derive(Clone, Copy, Debug, PartialEq, Eq, Structural)]
pub enum PowerPreference {
    NoPreference,
    LowPower,
    HighPerformance,
}

/// Options handed to an adapter request.
#[derive(Clone, Copy, Debug, PartialEq, Eq, Structural)]
pub struct RequestAdapterOptions {
    pub power_preference: PowerPreference,
}

impl Default for RequestAdapterOptions {
    /// An adapter request with no stated preference.
    fn default() -> (r: Self)
        ensures
            r.power_preference is NoPreference,
    {
        RequestAdapterOptions { power_preference: PowerPreference::NoPreference }
    }
}

/// Optional device capabilities asked for at device creation.
#[derive(Clone, Copy, Debug, PartialEq, Eq, Structural)]
pub struct Extensions {
    pub anisotropic_filtering: bool,
}

/// Numeric limits asked for at device creation.
#[derive(Clone, Copy, Debug, PartialEq, Eq, Structural)]
pub struct Limits {
    pub max_bind_groups: u32,
}

/// What a device request asks of the backend.
#[derive(Clone, Copy, Debug, PartialEq, Eq, Structural)]
pub struct DeviceDescriptor {
    pub extensions: Extensions,
    pub limits: Limits,
}

impl Default for DeviceDescriptor {
    /// A device request asking for nothing optional and the baseline limits.
    fn default() -> (r: Self)
        ensures
            !r.extensions.anisotropic_filtering,
            r.limits.max_bind_groups == 4,
    {
        DeviceDescriptor {
            extensions: Extensions { anisotropic_filtering: false },
            limits: Limits { max_bind_groups: 4 },
        }
    }
}

/// Size and usage of a buffer to allocate.
#[derive(Clone, Copy, Debug, PartialEq, Eq, Structural)]
pub struct BufferDescriptor {
    pub size: u64,
    pub usage: u32,
}

impl BufferDescriptor {
    /// The usage mask lies inside the range of defined usage bits.
    pub open spec fn spec_usage_valid(self) -> bool {
        MAP_READ <= self.usage <= INDIRECT
    }

    /// Whether the usage mask lies inside the range of defined usage bits.
    pub fn usage_valid(&self) -> (r: bool)
        ensures
            r == self.spec_usage_valid(),
    {
        MAP_READ <= self.usage && self.usage <= INDIRECT
    }
}

} // verus!
