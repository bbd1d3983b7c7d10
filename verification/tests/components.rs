//! Unit tests for the queue model, the registry, the caller-side buffer
//! record, and the descriptor types.

use webgpu::descriptors::{BufferDescriptor, DeviceDescriptor, RequestAdapterOptions, INDIRECT, MAP_READ};
use webgpu::gpubuffer::{GPUBuffer, GPUBufferState};
use webgpu::handles::{WebGPUAdapter, WebGPUBuffer, WebGPUDevice};
use webgpu::inbox::Inbox;
use webgpu::protocol::WebGPURequest;
use webgpu::registry::Registry;

#[test]
fn inbox_delivers_in_arrival_order() {
    let mut inbox = Inbox::new();
    assert_eq!(inbox.recv(), None);

    // Caller A sends first; caller B second. Whatever the callers, the
    // earlier request comes out — and so is processed — first.
    let r1 = WebGPURequest::DestroyBuffer(WebGPUBuffer(1));
    let r2 = WebGPURequest::DestroyBuffer(WebGPUBuffer(2));
    inbox.send(r1);
    inbox.send(r2);
    assert_eq!(inbox.recv(), Some(r1));
    assert_eq!(inbox.recv(), Some(r2));
    assert_eq!(inbox.recv(), None);
}

#[test]
fn registry_records_and_forgets() {
    let mut reg = Registry::new();
    let d = WebGPUDevice(10);
    let a = WebGPUAdapter(3);
    let b = WebGPUBuffer(7);

    assert!(!reg.contains_device(d));
    reg.record_device(d, a);
    assert!(reg.contains_device(d));
    assert_eq!(reg.adapter_of(d), Some(a));

    reg.record_buffer(b, d);
    assert!(reg.contains_buffer(b));
    assert_eq!(reg.device_of(b), Some(d));

    // Removal is idempotent.
    assert!(reg.remove_buffer(b));
    assert!(!reg.remove_buffer(b));
    assert_eq!(reg.device_of(b), None);

    assert!(reg.remove_device(d));
    assert!(!reg.remove_device(d));
    assert_eq!(reg.adapter_of(d), None);
    assert_eq!(reg.device_count(), 0);
    assert_eq!(reg.buffer_count(), 0);
}

#[test]
fn registry_keeps_other_entries_on_removal() {
    let mut reg = Registry::new();
    let d = WebGPUDevice(1);
    reg.record_device(d, WebGPUAdapter(1));
    for id in [4u64, 5, 6] {
        reg.record_buffer(WebGPUBuffer(id), d);
    }
    assert!(reg.remove_buffer(WebGPUBuffer(5)));
    assert_eq!(reg.buffer_count(), 2);
    assert_eq!(reg.device_of(WebGPUBuffer(4)), Some(d));
    assert_eq!(reg.device_of(WebGPUBuffer(5)), None);
    assert_eq!(reg.device_of(WebGPUBuffer(6)), Some(d));
}

#[test]
fn registry_lists_what_an_owner_owns() {
    let mut reg = Registry::new();
    let d1 = WebGPUDevice(1);
    let d2 = WebGPUDevice(2);
    let a = WebGPUAdapter(1);
    reg.record_device(d1, a);
    reg.record_device(d2, a);
    reg.record_buffer(WebGPUBuffer(10), d1);
    reg.record_buffer(WebGPUBuffer(11), d2);
    reg.record_buffer(WebGPUBuffer(12), d1);

    assert_eq!(reg.buffers_of(d1), vec![WebGPUBuffer(10), WebGPUBuffer(12)]);
    assert_eq!(reg.buffers_of(d2), vec![WebGPUBuffer(11)]);
    assert_eq!(reg.buffers_of(WebGPUDevice(3)), vec![]);
    assert_eq!(reg.devices_of(a), vec![d1, d2]);
    assert_eq!(reg.devices_of(WebGPUAdapter(9)), vec![]);
}

#[test]
fn buffer_record_lifecycle() {
    let b = WebGPUBuffer(12);
    let d = WebGPUDevice(2);
    let mut record = GPUBuffer::new_inherited(b, d);
    assert_eq!(record.state, GPUBufferState::Unmapped);
    assert_eq!(record.buffer, b);
    assert_eq!(record.device, d);
    assert_eq!(record.GetLabel(), None);

    record.SetLabel(Some("vertex data".to_string()));
    assert_eq!(record.GetLabel(), Some("vertex data".to_string()));

    let req = record.Destroy();
    assert_eq!(req, WebGPURequest::DestroyBuffer(b));
    assert_eq!(record.state, GPUBufferState::Destroyed);
    // Destroying the record keeps everything else.
    assert_eq!(record.GetLabel(), Some("vertex data".to_string()));
}

#[test]
fn descriptor_defaults_and_usage_range() {
    let opts = RequestAdapterOptions::default();
    assert!(matches!(
        opts.power_preference,
        webgpu::descriptors::PowerPreference::NoPreference
    ));

    let desc = DeviceDescriptor::default();
    assert!(!desc.extensions.anisotropic_filtering);
    assert_eq!(desc.limits.max_bind_groups, 4);

    assert!(BufferDescriptor { size: 16, usage: MAP_READ }.usage_valid());
    assert!(BufferDescriptor { size: 16, usage: INDIRECT }.usage_valid());
    assert!(!BufferDescriptor { size: 16, usage: 0 }.usage_valid());
    assert!(!BufferDescriptor { size: 16, usage: INDIRECT + 1 }.usage_valid());
}

#[test]
fn handles_compare_by_id() {
    assert_eq!(WebGPUAdapter(1), WebGPUAdapter(1));
    assert_ne!(WebGPUAdapter(1), WebGPUAdapter(2));
    let copy = WebGPUDevice(9);
    let other = copy; // handles are plain copyable tokens
    assert_eq!(copy, other);
}
