//! The command actor: the single-threaded owner of the backend and of the
//! ownership registry.
//!
//! The actor is a state machine with two states, running and stopped; only
//! `Shutdown` stops it. For each request it validates the referenced
//! handles against the registry, and only then decides which backend
//! operation must run. Processing a request is split in two so that the
//! backend is never invoked for a request that fails validation:
//! [`WGPU::begin`] validates and either replies at once or names the one
//! backend call to make, and [`WGPU::finish`] takes what the backend
//! reported, updates the registry, and produces the reply. The loop that
//! receives requests and performs the calls lives with the process around
//! the actor; the actor itself never blocks.
//!
//! Ids come from per-resource-kind monotonic counters owned by the actor:
//! an id handed out once is never reused within the actor's lifetime, even
//! when the backend call it was allocated for fails.

use vstd::prelude::*;
use crate::backend::{outcome_fits, BackendCall, BackendOutcome, Dispatch, PendingCall};
use crate::handles::{WebGPUAdapter, WebGPUBuffer, WebGPUDevice};
use crate::protocol::{WebGPUError, WebGPURequest, WebGPUResponse, WebGPUResponseResult};
use crate::registry::Registry;

verus! {

/// The backend calls that tear down the given buffer entries, in entry
/// order: wait for the owning device, then destroy the buffer.
pub open spec fn buffer_teardown_calls(bufs: Seq<(u64, u64)>) -> Seq<BackendCall>
    decreases bufs.len(),
{
    if bufs.len() == 0 {
        Seq::empty()
    } else {
        buffer_teardown_calls(bufs.drop_last()) + seq![
            BackendCall::WaitIdle(WebGPUDevice(bufs.last().1)),
            BackendCall::DestroyBuffer(WebGPUBuffer(bufs.last().0)),
        ]
    }
}

/// The backend calls that tear down the given device entries, in entry
/// order.
pub open spec fn device_teardown_calls(devs: Seq<(u64, u64)>) -> Seq<BackendCall>
    decreases devs.len(),
{
    if devs.len() == 0 {
        Seq::empty()
    } else {
        device_teardown_calls(devs.drop_last()) + seq![
            BackendCall::DestroyDevice(WebGPUDevice(devs.last().0)),
        ]
    }
}

/// The full ordered teardown: every buffer before any device.
pub open spec fn teardown_calls(bufs: Seq<(u64, u64)>, devs: Seq<(u64, u64)>) -> Seq<
    BackendCall,
> {
    buffer_teardown_calls(bufs) + device_teardown_calls(devs)
}

/// Neither registry entries nor live adapters differ between the two
/// states.
pub open spec fn same_resources(pre: WGPU, post: WGPU) -> bool {
    &&& post.adapters@ == pre.adapters@
    &&& post.registry.dev_entries() == pre.registry.dev_entries()
    &&& post.registry.buf_entries() == pre.registry.buf_entries()
}

/// The id counters do not differ between the two states.
pub open spec fn same_counters(pre: WGPU, post: WGPU) -> bool {
    &&& post.next_adapter == pre.next_adapter
    &&& post.next_device == pre.next_device
    &&& post.next_buffer == pre.next_buffer
}

/// Nothing observable differs between the two states.
pub open spec fn same_state(pre: WGPU, post: WGPU) -> bool {
    &&& same_resources(pre, post)
    &&& same_counters(pre, post)
    &&& post.running == pre.running
}

/// The command actor's state: the lifecycle flag, the ownership registry,
/// the live adapters, and one monotonic id allocator per resource kind.
pub struct WGPU {
    /// False once `Shutdown` has been processed; no request is begun after
    /// that.
    pub running: bool,
    /// Device -> adapter and buffer -> device ownership.
    pub registry: Registry,
    /// Ids of the adapters handed out so far, in creation order.
    pub adapters: Vec<u64>,
    /// The next adapter id to hand out.
    pub next_adapter: u64,
    /// The next device id to hand out.
    pub next_device: u64,
    /// The next buffer id to hand out.
    pub next_buffer: u64,
}

impl WGPU {
    /// The adapter id is one the actor handed out and still honours.
    pub open spec fn adapter_live(self, a: u64) -> bool {
        self.adapters@.contains(a)
    }

    /// The device id is present in the registry.
    pub open spec fn device_live(self, d: u64) -> bool {
        self.registry.dev_map().dom().contains(d)
    }

    /// The buffer id is present in the registry.
    pub open spec fn buffer_live(self, b: u64) -> bool {
        self.registry.buf_map().dom().contains(b)
    }

    /// The actor's invariant, restored after every request:
    /// registry keys are unique; every id ever handed out is below its
    /// counter; every live buffer's owning device is live; every live
    /// device's owning adapter is live.
    pub open spec fn wf(self) -> bool {
        &&& self.registry.wf()
        &&& forall|i: int, j: int|
            0 <= i < j < self.adapters@.len() ==> (#[trigger] self.adapters@[i]) != (
            #[trigger] self.adapters@[j])
        &&& forall|i: int|
            0 <= i < self.adapters@.len() ==> (#[trigger] self.adapters@[i]) < self.next_adapter
        &&& forall|d: u64|
            #[trigger] self.registry.dev_map().dom().contains(d) ==> d < self.next_device
        &&& forall|b: u64|
            #[trigger] self.registry.buf_map().dom().contains(b) ==> b < self.next_buffer
        &&& forall|b: u64|
            #[trigger] self.registry.buf_map().dom().contains(b)
                ==> self.registry.dev_map().dom().contains(self.registry.buf_map()[b])
        &&& forall|d: u64|
            #[trigger] self.registry.dev_map().dom().contains(d) ==> self.adapters@.contains(
                self.registry.dev_map()[d],
            )
    }

    /// The fresh handle in a pending call was allocated by this actor, is
    /// not yet live, and whatever it is to be recorded under is live.
    pub open spec fn pending_ok(self, call: PendingCall) -> bool {
        match call {
            PendingCall::RequestAdapter { fresh, .. } => {
                &&& fresh.0 < self.next_adapter
                &&& !self.adapter_live(fresh.0)
            },
            PendingCall::RequestDevice { adapter, fresh, .. } => {
                &&& fresh.0 < self.next_device
                &&& !self.device_live(fresh.0)
                &&& self.adapter_live(adapter.0)
            },
            PendingCall::CreateBuffer { device, fresh, .. } => {
                &&& fresh.0 < self.next_buffer
                &&& !self.buffer_live(fresh.0)
                &&& self.device_live(device.0)
            },
        }
    }

    /// The id counter serving this request has room for one more id. Ids
    /// are never reused, so a counter at the top of the id space could not
    /// serve another creation.
    pub open spec fn id_headroom(self, req: WebGPURequest) -> bool {
        match req {
            WebGPURequest::RequestAdapter(_) => self.next_adapter < u64::MAX,
            WebGPURequest::RequestDevice(_, _) => self.next_device < u64::MAX,
            WebGPURequest::CreateBuffer(_, _) => self.next_buffer < u64::MAX,
            _ => true,
        }
    }

    /// A fresh actor: running, nothing live, counters at their start.
    pub fn new() -> (r: WGPU)
        ensures
            r.wf(),
            r.running,
            r.adapters@ == Seq::<u64>::empty(),
            r.registry.dev_entries() == Seq::<(u64, u64)>::empty(),
            r.registry.buf_entries() == Seq::<(u64, u64)>::empty(),
            r.next_adapter == 1,
            r.next_device == 1,
            r.next_buffer == 1,
    {
        let r = WGPU {
            running: true,
            registry: Registry::new(),
            adapters: Vec::new(),
            next_adapter: 1,
            next_device: 1,
            next_buffer: 1,
        };
        proof {
            crate::registry::lemma_pairs_map_dom(r.registry.devices@);
            crate::registry::lemma_pairs_map_dom(r.registry.buffers@);
        }
        r
    }

    /// Whether `adapter` is one this actor handed out.
    #[verifier::loop_isolation(false)]
    pub fn contains_adapter(&self, adapter: WebGPUAdapter) -> (r: bool)
        ensures
            r == self.adapter_live(adapter.0),
    {
        let mut i: usize = 0;
        while i < self.adapters.len()
            invariant
                0 <= i <= self.adapters@.len(),
                forall|j: int| 0 <= j < i ==> (#[trigger] self.adapters@[j]) != adapter.0,
            decreases self.adapters@.len() - i,
        {
            if self.adapters[i] == adapter.0 {
                return true;
            }
            i += 1;
        }
        false
    }

    /// Take in one request: validate it against the registry and decide
    /// what must happen, without touching the backend.
    ///
    /// A request that references an unknown handle is answered at once
    /// with the matching failure and changes nothing, so no backend call
    /// is ever attempted for it. A creation request on valid handles
    /// allocates a fresh id and names the backend call whose outcome
    /// [`WGPU::finish`] will record. `DestroyBuffer` takes effect at once
    /// and is idempotent. `Shutdown` empties the registry, stops the
    /// actor, and hands back the ordered teardown sequence.
    pub fn begin(&mut self, req: &WebGPURequest) -> (r: Dispatch)
        requires
            old(self).wf(),
            old(self).running,
            old(self).id_headroom(*req),
        ensures
            final(self).wf(),
            match *req {
                WebGPURequest::RequestAdapter(options) => {
                    &&& r matches Dispatch::Call(p)
                    &&& p == (PendingCall::RequestAdapter {
                        fresh: WebGPUAdapter(old(self).next_adapter),
                        options,
                    })
                    &&& final(self).pending_ok(p)
                    &&& final(self).next_adapter == old(self).next_adapter + 1
                    &&& final(self).next_device == old(self).next_device
                    &&& final(self).next_buffer == old(self).next_buffer
                    &&& same_resources(*old(self), *final(self))
                    &&& final(self).running
                },
                WebGPURequest::RequestDevice(adapter, desc) => {
                    if old(self).adapter_live(adapter.0) {
                        &&& r matches Dispatch::Call(p)
                        &&& p == (PendingCall::RequestDevice {
                            adapter,
                            fresh: WebGPUDevice(old(self).next_device),
                            desc,
                        })
                        &&& final(self).pending_ok(p)
                        &&& final(self).next_device == old(self).next_device + 1
                        &&& final(self).next_adapter == old(self).next_adapter
                        &&& final(self).next_buffer == old(self).next_buffer
                        &&& same_resources(*old(self), *final(self))
                        &&& final(self).running
                    } else {
                        &&& r matches Dispatch::Reply(rr)
                        &&& rr matches Err(e) && e == WebGPUError::UnknownAdapter
                        &&& same_state(*old(self), *final(self))
                    }
                },
                WebGPURequest::CreateBuffer(device, desc) => {
                    if old(self).device_live(device.0) {
                        &&& r matches Dispatch::Call(p)
                        &&& p == (PendingCall::CreateBuffer {
                            device,
                            fresh: WebGPUBuffer(old(self).next_buffer),
                            desc,
                        })
                        &&& final(self).pending_ok(p)
                        &&& final(self).next_buffer == old(self).next_buffer + 1
                        &&& final(self).next_adapter == old(self).next_adapter
                        &&& final(self).next_device == old(self).next_device
                        &&& same_resources(*old(self), *final(self))
                        &&& final(self).running
                    } else {
                        &&& r matches Dispatch::Reply(rr)
                        &&& rr matches Err(e) && e == WebGPUError::UnknownDevice
                        &&& same_state(*old(self), *final(self))
                    }
                },
                WebGPURequest::DestroyBuffer(buffer) => {
                    if old(self).buffer_live(buffer.0) {
                        &&& r matches Dispatch::Effects(calls)
                        &&& calls@ == seq![BackendCall::DestroyBuffer(buffer)]
                        &&& final(self).registry.buf_map() == old(self).registry.buf_map().remove(
                            buffer.0,
                        )
                        &&& final(self).registry.dev_entries() == old(
                            self,
                        ).registry.dev_entries()
                        &&& final(self).adapters@ == old(self).adapters@
                        &&& same_counters(*old(self), *final(self))
                        &&& final(self).running
                    } else {
                        &&& r matches Dispatch::Effects(calls)
                        &&& calls@ == Seq::<BackendCall>::empty()
                        &&& same_state(*old(self), *final(self))
                    }
                },
                WebGPURequest::Shutdown => {
                    &&& r matches Dispatch::Teardown(calls)
                    &&& calls@ == teardown_calls(
                        old(self).registry.buf_entries(),
                        old(self).registry.dev_entries(),
                    ).push(BackendCall::ReleaseInstance)
                    &&& final(self).registry.buf_entries() == Seq::<(u64, u64)>::empty()
                    &&& final(self).registry.dev_entries() == Seq::<(u64, u64)>::empty()
                    &&& final(self).adapters@ == old(self).adapters@
                    &&& same_counters(*old(self), *final(self))
                    &&& !final(self).running
                },
            },
    {
        match *req {
            WebGPURequest::RequestAdapter(options) => {
                let fresh = WebGPUAdapter(self.next_adapter);
                self.next_adapter = self.next_adapter + 1;
                proof {
                    if self.adapters@.contains(fresh.0) {
                        let i = choose|i: int|
                            0 <= i < self.adapters@.len() && self.adapters@[i] == fresh.0;
                        assert(old(self).adapters@[i] == fresh.0);
                        assert(old(self).adapters@[i] < old(self).next_adapter);
                        assert(false);
                    }
                }
                Dispatch::Call(PendingCall::RequestAdapter { fresh, options })
            },
            WebGPURequest::RequestDevice(adapter, desc) => {
                if self.contains_adapter(adapter) {
                    let fresh = WebGPUDevice(self.next_device);
                    self.next_device = self.next_device + 1;
                    Dispatch::Call(PendingCall::RequestDevice { adapter, fresh, desc })
                } else {
                    Dispatch::Reply(Err(WebGPUError::UnknownAdapter))
                }
            },
            WebGPURequest::CreateBuffer(device, desc) => {
                if self.registry.contains_device(device) {
                    let fresh = WebGPUBuffer(self.next_buffer);
                    self.next_buffer = self.next_buffer + 1;
                    Dispatch::Call(PendingCall::CreateBuffer { device, fresh, desc })
                } else {
                    Dispatch::Reply(Err(WebGPUError::UnknownDevice))
                }
            },
            WebGPURequest::DestroyBuffer(buffer) => {
                let was_live = self.registry.remove_buffer(buffer);
                let mut calls: Vec<BackendCall> = Vec::new();
                if was_live {
                    calls.push(BackendCall::DestroyBuffer(buffer));
                    proof {
                        assert(calls@ =~= seq![BackendCall::DestroyBuffer(buffer)]);
                    }
                } else {
                    proof {
                        assert(calls@ =~= Seq::<BackendCall>::empty());
                    }
                }
                Dispatch::Effects(calls)
            },
            WebGPURequest::Shutdown => {
                let mut calls = self.drain();
                calls.push(BackendCall::ReleaseInstance);
                self.running = false;
                Dispatch::Teardown(calls)
            },
        }
    }

    /// Record what the backend reported for a pending creation and build
    /// the one reply owed to the caller.
    ///
    /// On success the fresh handle becomes live, owned by what it was
    /// created on; on failure nothing is recorded and the matching typed
    /// failure is returned, so the caller is never left without a reply.
    /// A failed adapter enumeration is reported only to its own caller and
    /// leaves the actor running: a missing adapter must not take down the
    /// unrelated resources the actor still tracks.
    pub fn finish(&mut self, call: PendingCall, outcome: BackendOutcome) -> (r:
        WebGPUResponseResult)
        requires
            old(self).wf(),
            old(self).running,
            old(self).pending_ok(call),
            outcome_fits(call, outcome),
        ensures
            final(self).wf(),
            final(self).running,
            same_counters(*old(self), *final(self)),
            match call {
                PendingCall::RequestAdapter { fresh, .. } => match outcome {
                    BackendOutcome::AdapterFound(name) => {
                        &&& r matches Ok(resp)
                        &&& resp matches WebGPUResponse::RequestAdapter(n, a)
                        &&& n@ == name@
                        &&& a == fresh
                        &&& final(self).adapter_live(fresh.0)
                        &&& final(self).adapters@ == old(self).adapters@.push(fresh.0)
                        &&& final(self).registry.dev_entries() == old(
                            self,
                        ).registry.dev_entries()
                        &&& final(self).registry.buf_entries() == old(
                            self,
                        ).registry.buf_entries()
                    },
                    _ => {
                        &&& r matches Err(e)
                        &&& e == WebGPUError::NoAdapter
                        &&& same_state(*old(self), *final(self))
                    },
                },
                PendingCall::RequestDevice { adapter, fresh, desc } => match outcome {
                    BackendOutcome::DeviceCreated => {
                        &&& r matches Ok(resp)
                        &&& resp matches WebGPUResponse::RequestDevice(d, dd)
                        &&& d == fresh
                        &&& dd == desc
                        &&& final(self).device_live(fresh.0)
                        &&& final(self).registry.dev_entries() == old(
                            self,
                        ).registry.dev_entries().push((fresh.0, adapter.0))
                        &&& final(self).registry.dev_map() == old(
                            self,
                        ).registry.dev_map().insert(fresh.0, adapter.0)
                        &&& final(self).registry.buf_entries() == old(
                            self,
                        ).registry.buf_entries()
                        &&& final(self).adapters@ == old(self).adapters@
                    },
                    _ => {
                        &&& r matches Err(e)
                        &&& e == WebGPUError::DeviceCreationFailed
                        &&& same_state(*old(self), *final(self))
                    },
                },
                PendingCall::CreateBuffer { device, fresh, .. } => match outcome {
                    BackendOutcome::BufferCreated => {
                        &&& r matches Ok(resp)
                        &&& resp matches WebGPUResponse::CreateBuffer(b)
                        &&& b == fresh
                        &&& final(self).buffer_live(fresh.0)
                        &&& final(self).registry.buf_entries() == old(
                            self,
                        ).registry.buf_entries().push((fresh.0, device.0))
                        &&& final(self).registry.buf_map() == old(
                            self,
                        ).registry.buf_map().insert(fresh.0, device.0)
                        &&& final(self).registry.dev_entries() == old(
                            self,
                        ).registry.dev_entries()
                        &&& final(self).adapters@ == old(self).adapters@
                    },
                    _ => {
                        &&& r matches Err(e)
                        &&& e == WebGPUError::BufferCreationFailed
                        &&& same_state(*old(self), *final(self))
                    },
                },
            },
    {
        match call {
            PendingCall::RequestAdapter { fresh, .. } => match outcome {
                BackendOutcome::AdapterFound(name) => {
                    let ghost pre = self.adapters@;
                    self.adapters.push(fresh.0);
                    proof {
                        assert forall|x: u64| pre.contains(x) implies self.adapters@.contains(
                            x,
                        ) by {
                            let i = choose|i: int| 0 <= i < pre.len() && pre[i] == x;
                            assert(self.adapters@[i] == x);
                        }
                        assert forall|i: int, j: int|
                            0 <= i < j < self.adapters@.len() implies (
                        #[trigger] self.adapters@[i]) != (#[trigger] self.adapters@[j]) by {
                            if j == pre.len() && self.adapters@[i] == fresh.0 {
                                assert(pre[i] == fresh.0);
                                assert(pre.contains(fresh.0));
                            }
                        }
                        assert forall|i: int|
                            0 <= i < self.adapters@.len() implies (#[trigger] self.adapters@[i])
                            < self.next_adapter by {
                            if i < pre.len() {
                                assert(old(self).adapters@[i] < old(self).next_adapter);
                            }
                        }
                        assert(self.adapters@[pre.len() as int] == fresh.0);
                    }
                    Ok(WebGPUResponse::RequestAdapter(name, fresh))
                },
                _ => Err(WebGPUError::NoAdapter),
            },
            PendingCall::RequestDevice { adapter, fresh, desc } => match outcome {
                BackendOutcome::DeviceCreated => {
                    let ghost pre = *self;
                    self.registry.record_device(fresh, adapter);
                    proof {
                        assert forall|d: u64|
                            #[trigger] self.registry.dev_map().dom().contains(d) implies d
                            < self.next_device by {
                            if d != fresh.0 {
                                assert(pre.registry.dev_map().dom().contains(d));
                            }
                        }
                        assert forall|d: u64|
                            #[trigger] self.registry.dev_map().dom().contains(
                                d,
                            ) implies self.adapters@.contains(self.registry.dev_map()[d]) by {
                            if d != fresh.0 {
                                assert(pre.registry.dev_map().dom().contains(d));
                            }
                        }
                        assert forall|b: u64|
                            #[trigger] self.registry.buf_map().dom().contains(
                                b,
                            ) implies self.registry.dev_map().dom().contains(
                            self.registry.buf_map()[b],
                        ) by {
                            assert(pre.registry.dev_map().dom().contains(
                                pre.registry.buf_map()[b],
                            ));
                        }
                        assert forall|b: u64|
                            #[trigger] self.registry.buf_map().dom().contains(b) implies b
                            < self.next_buffer by {
                            assert(pre.registry.buf_map().dom().contains(b));
                        }
                    }
                    Ok(WebGPUResponse::RequestDevice(fresh, desc))
                },
                _ => Err(WebGPUError::DeviceCreationFailed),
            },
            PendingCall::CreateBuffer { device, fresh, .. } => match outcome {
                BackendOutcome::BufferCreated => {
                    let ghost pre = *self;
                    self.registry.record_buffer(fresh, device);
                    proof {
                        assert forall|b: u64|
                            #[trigger] self.registry.buf_map().dom().contains(b) implies b
                            < self.next_buffer by {
                            if b != fresh.0 {
                                assert(pre.registry.buf_map().dom().contains(b));
                            }
                        }
                        assert forall|b: u64|
                            #[trigger] self.registry.buf_map().dom().contains(
                                b,
                            ) implies self.registry.dev_map().dom().contains(
                            self.registry.buf_map()[b],
                        ) by {
                            if b != fresh.0 {
                                assert(pre.registry.buf_map().dom().contains(b));
                            }
                        }
                        assert forall|d: u64|
                            #[trigger] self.registry.dev_map().dom().contains(d) implies d
                            < self.next_device by {
                            assert(pre.registry.dev_map().dom().contains(d));
                        }
                    }
                    Ok(WebGPUResponse::CreateBuffer(fresh))
                },
                _ => Err(WebGPUError::BufferCreationFailed),
            },
        }
    }

    /// The teardown sequencer's drain: walk the buffer entries in order
    /// (waiting for each owning device, then destroying the buffer), then
    /// the device entries, and leave both mappings empty. Draining an
    /// already-empty registry does nothing and asks for no backend work.
    #[verifier::loop_isolation(false)]
    pub fn drain(&mut self) -> (calls: Vec<BackendCall>)
        requires
            old(self).wf(),
        ensures
            final(self).wf(),
            calls@ == teardown_calls(
                old(self).registry.buf_entries(),
                old(self).registry.dev_entries(),
            ),
            final(self).registry.buf_entries() == Seq::<(u64, u64)>::empty(),
            final(self).registry.dev_entries() == Seq::<(u64, u64)>::empty(),
            final(self).adapters@ == old(self).adapters@,
            same_counters(*old(self), *final(self)),
            final(self).running == old(self).running,
            old(self).registry.buf_entries().len() == 0 && old(self).registry.dev_entries().len()
                == 0 ==> calls@ == Seq::<BackendCall>::empty(),
    {
        let ghost bufs = self.registry.buffers@;
        let ghost devs = self.registry.devices@;
        let mut calls: Vec<BackendCall> = Vec::new();
        let mut i: usize = 0;
        while i < self.registry.buffers.len()
            invariant
                0 <= i <= bufs.len(),
                calls@ == buffer_teardown_calls(bufs.take(i as int)),
            decreases bufs.len() - i,
        {
            let entry = self.registry.buffers[i];
            proof {
                assert(bufs.take(i + 1).drop_last() =~= bufs.take(i as int));
                assert(bufs.take(i + 1).last() == bufs[i as int]);
            }
            calls.push(BackendCall::WaitIdle(WebGPUDevice(entry.1)));
            calls.push(BackendCall::DestroyBuffer(WebGPUBuffer(entry.0)));
            i += 1;
        }
        proof {
            assert(bufs.take(bufs.len() as int) =~= bufs);
        }
        self.registry.buffers.clear();
        // Defensive invariant of the sequencer: nothing may survive the
        // buffer drain. Here it is discharged statically.
        assert(self.registry.buf_entries().len() == 0);
        let mut i: usize = 0;
        while i < self.registry.devices.len()
            invariant
                0 <= i <= devs.len(),
                calls@ == buffer_teardown_calls(bufs) + device_teardown_calls(
                    devs.take(i as int),
                ),
            decreases devs.len() - i,
        {
            let entry = self.registry.devices[i];
            proof {
                assert(devs.take(i + 1).drop_last() =~= devs.take(i as int));
                assert(devs.take(i + 1).last() == devs[i as int]);
            }
            calls.push(BackendCall::DestroyDevice(WebGPUDevice(entry.0)));
            i += 1;
        }
        proof {
            assert(devs.take(devs.len() as int) =~= devs);
        }
        self.registry.devices.clear();
        assert(self.registry.dev_entries().len() == 0);
        proof {
            crate::registry::lemma_pairs_map_dom(self.registry.buffers@);
            crate::registry::lemma_pairs_map_dom(self.registry.devices@);
        }
        calls
    }
}

} // verus!
