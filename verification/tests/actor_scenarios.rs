//! End-to-end scenarios: a caller's requests driven through the actor with
//! a backend that always succeeds.

use webgpu::actor::WGPU;
use webgpu::backend::{BackendCall, BackendOutcome, Dispatch, PendingCall};
use webgpu::descriptors::{
    BufferDescriptor, DeviceDescriptor, RequestAdapterOptions, COPY_DST, MAP_READ,
};
use webgpu::handles::{WebGPUAdapter, WebGPUBuffer, WebGPUDevice};
use webgpu::protocol::{WebGPURequest, WebGPUResponse};

fn request_adapter(w: &mut WGPU) -> WebGPUAdapter {
    let dispatch = w.begin(&WebGPURequest::RequestAdapter(RequestAdapterOptions::default()));
    let pending = match dispatch {
        Dispatch::Call(p) => p,
        other => panic!("adapter request did not reach the backend: {:?}", other),
    };
    assert!(matches!(pending, PendingCall::RequestAdapter { .. }));
    let reply = w.finish(pending, BackendOutcome::AdapterFound("test adapter".to_string()));
    match reply {
        Ok(WebGPUResponse::RequestAdapter(name, adapter)) => {
            assert_eq!(name, "test adapter");
            adapter
        },
        other => panic!("unexpected adapter reply: {:?}", other),
    }
}

fn request_device(w: &mut WGPU, adapter: WebGPUAdapter) -> WebGPUDevice {
    let desc = DeviceDescriptor::default();
    let dispatch = w.begin(&WebGPURequest::RequestDevice(adapter, desc));
    let pending = match dispatch {
        Dispatch::Call(p) => p,
        other => panic!("device request did not reach the backend: {:?}", other),
    };
    let reply = w.finish(pending, BackendOutcome::DeviceCreated);
    match reply {
        Ok(WebGPUResponse::RequestDevice(device, echoed)) => {
            assert_eq!(echoed, desc);
            device
        },
        other => panic!("unexpected device reply: {:?}", other),
    }
}

fn create_buffer(w: &mut WGPU, device: WebGPUDevice, desc: BufferDescriptor) -> WebGPUBuffer {
    let dispatch = w.begin(&WebGPURequest::CreateBuffer(device, desc));
    let pending = match dispatch {
        Dispatch::Call(p) => p,
        other => panic!("buffer request did not reach the backend: {:?}", other),
    };
    let reply = w.finish(pending, BackendOutcome::BufferCreated);
    match reply {
        Ok(WebGPUResponse::CreateBuffer(buffer)) => buffer,
        other => panic!("unexpected buffer reply: {:?}", other),
    }
}

#[test]
fn full_lifecycle_scenario() {
    let mut w = WGPU::new();

    let a1 = request_adapter(&mut w);
    assert!(w.contains_adapter(a1));

    let d1 = request_device(&mut w, a1);
    assert_eq!(w.registry.adapter_of(d1), Some(a1));
    assert_eq!(w.registry.device_count(), 1);

    let b1 = create_buffer(
        &mut w,
        d1,
        BufferDescriptor { size: 16, usage: MAP_READ | COPY_DST },
    );
    assert_eq!(w.registry.device_of(b1), Some(d1));

    let destroy = w.begin(&WebGPURequest::DestroyBuffer(b1));
    match destroy {
        Dispatch::Effects(calls) => assert_eq!(calls, vec![BackendCall::DestroyBuffer(b1)]),
        other => panic!("unexpected destroy dispatch: {:?}", other),
    }
    assert_eq!(w.registry.device_of(b1), None);

    let shutdown = w.begin(&WebGPURequest::Shutdown);
    match shutdown {
        Dispatch::Teardown(calls) => {
            assert_eq!(
                calls,
                vec![BackendCall::DestroyDevice(d1), BackendCall::ReleaseInstance]
            );
        },
        other => panic!("unexpected shutdown dispatch: {:?}", other),
    }
    assert_eq!(w.registry.device_count(), 0);
    assert_eq!(w.registry.buffer_count(), 0);
    assert!(!w.running);
}

#[test]
fn create_buffer_on_unknown_device_changes_nothing() {
    let mut w = WGPU::new();
    let a1 = request_adapter(&mut w);
    let d1 = request_device(&mut w, a1);

    let stale = WebGPUDevice(999);
    let dispatch = w.begin(&WebGPURequest::CreateBuffer(
        stale,
        BufferDescriptor { size: 4, usage: MAP_READ },
    ));
    match dispatch {
        Dispatch::Reply(Err(e)) => assert_eq!(e.message(), "unknown handle: device"),
        other => panic!("a stale device must be rejected before any backend call: {:?}", other),
    }
    // The registry is untouched and the real device still works.
    assert_eq!(w.registry.device_count(), 1);
    assert_eq!(w.registry.buffer_count(), 0);
    assert_eq!(w.registry.adapter_of(d1), Some(a1));
}

#[test]
fn shutdown_destroys_buffers_before_their_device() {
    let mut w = WGPU::new();
    let a1 = request_adapter(&mut w);
    let d1 = request_device(&mut w, a1);
    let b1 = create_buffer(&mut w, d1, BufferDescriptor { size: 16, usage: MAP_READ });
    let b2 = create_buffer(&mut w, d1, BufferDescriptor { size: 32, usage: COPY_DST });

    let shutdown = w.begin(&WebGPURequest::Shutdown);
    let calls = match shutdown {
        Dispatch::Teardown(calls) => calls,
        other => panic!("unexpected shutdown dispatch: {:?}", other),
    };
    assert_eq!(
        calls,
        vec![
            BackendCall::WaitIdle(d1),
            BackendCall::DestroyBuffer(b1),
            BackendCall::WaitIdle(d1),
            BackendCall::DestroyBuffer(b2),
            BackendCall::DestroyDevice(d1),
            BackendCall::ReleaseInstance,
        ]
    );
    // Both buffers fall before the device does.
    let device_at = calls
        .iter()
        .position(|c| matches!(c, BackendCall::DestroyDevice(_)))
        .unwrap();
    for (i, call) in calls.iter().enumerate() {
        if matches!(call, BackendCall::DestroyBuffer(_)) {
            assert!(i < device_at);
        }
    }
    assert_eq!(w.registry.buffer_count(), 0);
    assert_eq!(w.registry.device_count(), 0);
}
