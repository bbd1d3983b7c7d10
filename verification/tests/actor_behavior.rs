//! Behavioural properties of the actor: handle uniqueness, idempotent
//! destruction, validation before backend work, and teardown draining.

use webgpu::actor::WGPU;
use webgpu::backend::{BackendCall, BackendOutcome, Dispatch};
use webgpu::descriptors::{BufferDescriptor, DeviceDescriptor, RequestAdapterOptions, MAP_READ};
use webgpu::handles::{WebGPUAdapter, WebGPUBuffer, WebGPUDevice};
use webgpu::protocol::{WebGPUError, WebGPURequest, WebGPUResponse};

fn ready_device(w: &mut WGPU) -> WebGPUDevice {
    let pending = match w.begin(&WebGPURequest::RequestAdapter(RequestAdapterOptions::default()))
    {
        Dispatch::Call(p) => p,
        other => panic!("unexpected dispatch: {:?}", other),
    };
    let adapter = match w.finish(pending, BackendOutcome::AdapterFound("a".to_string())) {
        Ok(WebGPUResponse::RequestAdapter(_, a)) => a,
        other => panic!("unexpected reply: {:?}", other),
    };
    let pending = match w.begin(&WebGPURequest::RequestDevice(adapter, DeviceDescriptor::default()))
    {
        Dispatch::Call(p) => p,
        other => panic!("unexpected dispatch: {:?}", other),
    };
    match w.finish(pending, BackendOutcome::DeviceCreated) {
        Ok(WebGPUResponse::RequestDevice(d, _)) => d,
        other => panic!("unexpected reply: {:?}", other),
    }
}

fn make_buffer(w: &mut WGPU, device: WebGPUDevice) -> WebGPUBuffer {
    let pending = match w.begin(&WebGPURequest::CreateBuffer(
        device,
        BufferDescriptor { size: 16, usage: MAP_READ },
    )) {
        Dispatch::Call(p) => p,
        other => panic!("unexpected dispatch: {:?}", other),
    };
    match w.finish(pending, BackendOutcome::BufferCreated) {
        Ok(WebGPUResponse::CreateBuffer(b)) => b,
        other => panic!("unexpected reply: {:?}", other),
    }
}

#[test]
fn buffer_handles_are_unique_and_registered() {
    let mut w = WGPU::new();
    let device = ready_device(&mut w);
    let mut seen: Vec<WebGPUBuffer> = Vec::new();
    for _ in 0..8 {
        let b = make_buffer(&mut w, device);
        assert!(!seen.contains(&b), "a buffer handle was reused");
        assert_eq!(w.registry.device_of(b), Some(device));
        seen.push(b);
    }
    assert_eq!(w.registry.buffer_count(), 8);
}

#[test]
fn failed_creation_burns_the_id_and_records_nothing() {
    let mut w = WGPU::new();
    let device = ready_device(&mut w);
    let pending = match w.begin(&WebGPURequest::CreateBuffer(
        device,
        BufferDescriptor { size: 16, usage: MAP_READ },
    )) {
        Dispatch::Call(p) => p,
        other => panic!("unexpected dispatch: {:?}", other),
    };
    let reply = w.finish(pending, BackendOutcome::BufferFailed);
    match reply {
        Err(e) => assert_eq!(e, WebGPUError::BufferCreationFailed),
        other => panic!("a rejected allocation must fail: {:?}", other),
    }
    assert_eq!(w.registry.buffer_count(), 0);
    // The id drawn for the failed attempt is never handed out again.
    let b = make_buffer(&mut w, device);
    assert_eq!(w.registry.buffer_count(), 1);
    assert_eq!(w.registry.device_of(b), Some(device));
}

#[test]
fn destroy_buffer_is_idempotent_and_final() {
    let mut w = WGPU::new();
    let device = ready_device(&mut w);
    let b = make_buffer(&mut w, device);

    match w.begin(&WebGPURequest::DestroyBuffer(b)) {
        Dispatch::Effects(calls) => assert_eq!(calls, vec![BackendCall::DestroyBuffer(b)]),
        other => panic!("unexpected dispatch: {:?}", other),
    }
    assert_eq!(w.registry.device_of(b), None);

    // Destroying again is a no-op: no backend call, nothing changes.
    match w.begin(&WebGPURequest::DestroyBuffer(b)) {
        Dispatch::Effects(calls) => assert!(calls.is_empty()),
        other => panic!("unexpected dispatch: {:?}", other),
    }
    assert_eq!(w.registry.device_of(b), None);
    assert_eq!(w.registry.buffer_count(), 0);
}

#[test]
fn unknown_adapter_fails_before_any_backend_call() {
    let mut w = WGPU::new();
    let mut backend_invocations: usize = 0;
    let dispatch = w.begin(&WebGPURequest::RequestDevice(
        WebGPUAdapter(42),
        DeviceDescriptor::default(),
    ));
    match dispatch {
        Dispatch::Reply(Err(e)) => {
            assert_eq!(e, WebGPUError::UnknownAdapter);
            assert_eq!(e.message(), "unknown handle: adapter");
        },
        Dispatch::Call(_) => {
            backend_invocations += 1;
        },
        other => panic!("unexpected dispatch: {:?}", other),
    }
    assert_eq!(backend_invocations, 0);
    assert_eq!(w.registry.device_count(), 0);
    assert!(w.running);
}

#[test]
fn adapter_failure_reports_and_keeps_running() {
    let mut w = WGPU::new();
    let pending = match w.begin(&WebGPURequest::RequestAdapter(RequestAdapterOptions::default()))
    {
        Dispatch::Call(p) => p,
        other => panic!("unexpected dispatch: {:?}", other),
    };
    match w.finish(pending, BackendOutcome::AdapterUnavailable) {
        Err(e) => assert_eq!(e.message(), "failed to get an adapter"),
        other => panic!("unexpected reply: {:?}", other),
    }
    assert!(w.running);
    assert!(!w.contains_adapter(WebGPUAdapter(1)));
}

#[test]
fn drain_empties_everything_and_is_idempotent() {
    let mut w = WGPU::new();
    let device = ready_device(&mut w);
    let _b1 = make_buffer(&mut w, device);
    let _b2 = make_buffer(&mut w, device);

    let calls = w.drain();
    assert_eq!(calls.len(), 5); // wait + destroy per buffer, then the device
    assert_eq!(w.registry.buffer_count(), 0);
    assert_eq!(w.registry.device_count(), 0);

    // A second drain finds nothing to do.
    let again = w.drain();
    assert!(again.is_empty());
    assert_eq!(w.registry.buffer_count(), 0);
    assert_eq!(w.registry.device_count(), 0);
}

#[test]
fn every_failure_has_its_reason() {
    assert_eq!(WebGPUError::NoAdapter.message(), "failed to get an adapter");
    assert_eq!(WebGPUError::UnknownAdapter.message(), "unknown handle: adapter");
    assert_eq!(WebGPUError::UnknownDevice.message(), "unknown handle: device");
    assert_eq!(WebGPUError::DeviceCreationFailed.message(), "device creation failed");
    assert_eq!(WebGPUError::BufferCreationFailed.message(), "buffer creation failed");
}
