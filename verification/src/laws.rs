//! Laws of the actor, stated once and proved from the contracts and the
//! invariant.

use vstd::prelude::*;
use crate::actor::{buffer_teardown_calls, device_teardown_calls, teardown_calls, WGPU};
use crate::backend::BackendCall;
use crate::handles::WebGPUBuffer;

verus! {

/// Law: under the actor's invariant, the next id of each kind is fresh —
/// it never names a live adapter, device or buffer. Every creation hands
/// out the counter's value, so no creation can return a handle that
/// collides with a live one.
pub proof fn lemma_next_ids_fresh(w: WGPU)
    requires
        w.wf(),
    ensures
        !w.adapter_live(w.next_adapter),
        !w.device_live(w.next_device),
        !w.buffer_live(w.next_buffer),
{
    if w.adapters@.contains(w.next_adapter) {
        let i = choose|i: int| 0 <= i < w.adapters@.len() && w.adapters@[i] == w.next_adapter;
        assert(w.adapters@[i] < w.next_adapter);
    }
}

/// Law: buffer handles are unique across a whole run. A creation returns
/// the buffer counter's value and leaves the counter strictly larger, and
/// no operation ever shrinks it; so of two buffers created at different
/// points — with any operations in between — the later carries the
/// strictly larger id.
pub proof fn lemma_buffer_handles_distinct(
    first: WGPU,
    after_first: WGPU,
    second: WGPU,
    b1: WebGPUBuffer,
    b2: WebGPUBuffer,
)
    requires
        b1.0 == first.next_buffer,
        after_first.next_buffer > b1.0,
        second.next_buffer >= after_first.next_buffer,
        b2.0 == second.next_buffer,
    ensures
        b2.0 > b1.0,
        b1 != b2,
{
}

/// Every call the buffer drain produces is buffer work.
proof fn lemma_buffer_calls_are_buffer_work(bufs: Seq<(u64, u64)>)
    ensures
        forall|k: int|
            0 <= k < buffer_teardown_calls(bufs).len() ==> ((#[trigger] buffer_teardown_calls(
                bufs,
            )[k]) is WaitIdle || buffer_teardown_calls(bufs)[k] is DestroyBuffer),
    decreases bufs.len(),
{
    if bufs.len() > 0 {
        lemma_buffer_calls_are_buffer_work(bufs.drop_last());
    }
}

/// Every call the device drain produces destroys a device.
proof fn lemma_device_calls_destroy_devices(devs: Seq<(u64, u64)>)
    ensures
        forall|k: int|
            0 <= k < device_teardown_calls(devs).len() ==> (#[trigger] device_teardown_calls(
                devs,
            )[k]) is DestroyDevice,
    decreases devs.len(),
{
    if devs.len() > 0 {
        lemma_device_calls_destroy_devices(devs.drop_last());
    }
}

/// Law: in the teardown sequence every buffer is destroyed before any
/// device is, whatever was live.
pub proof fn lemma_teardown_buffers_before_devices(bufs: Seq<(u64, u64)>, devs: Seq<(u64, u64)>)
    ensures
        forall|i: int, j: int|
            0 <= i < teardown_calls(bufs, devs).len() && 0 <= j < teardown_calls(
                bufs,
                devs,
            ).len() && (#[trigger] teardown_calls(bufs, devs)[i]) is DestroyBuffer && (
            #[trigger] teardown_calls(bufs, devs)[j]) is DestroyDevice ==> i < j,
{
    let calls = teardown_calls(bufs, devs);
    let n = buffer_teardown_calls(bufs).len() as int;
    lemma_buffer_calls_are_buffer_work(bufs);
    lemma_device_calls_destroy_devices(devs);
    assert forall|i: int, j: int|
        0 <= i < calls.len() && 0 <= j < calls.len() && (#[trigger] calls[i]) is DestroyBuffer
            && (#[trigger] calls[j]) is DestroyDevice implies i < j by {
        if i >= n {
            assert(calls[i] == device_teardown_calls(devs)[i - n]);
        }
        if j < n {
            assert(calls[j] == buffer_teardown_calls(bufs)[j]);
        }
    }
}

} // verus!


