//! The actor's ownership graph: which adapter owns each device, and which
//! device owns each buffer.
//!
//! Both mappings are kept as vectors of `(key, value)` id pairs with unique
//! keys; insertion order is immaterial to lookups but is what the teardown
//! sequencer walks. The mappings are the sole source of truth for liveness:
//! a handle absent from its map is destroyed. Lifecycle transitions are
//! insert and remove, never in-place mutation.

use vstd::prelude::*;
use crate::handles::{WebGPUAdapter, WebGPUBuffer, WebGPUDevice};

verus! {

/// The mapping described by an association list: a later entry for the same
/// key supersedes an earlier one, as with `Map::insert`.
pub open spec fn pairs_map(s: Seq<(u64, u64)>) -> Map<u64, u64>
    decreases s.len(),
{
    if s.len() == 0 {
        Map::empty()
    } else {
        pairs_map(s.drop_last()).insert(s.last().0, s.last().1)
    }
}

/// Some entry of `s` carries the key `k`.
pub open spec fn has_key(s: Seq<(u64, u64)>, k: u64) -> bool {
    exists|i: int| 0 <= i < s.len() && (#[trigger] s[i]).0 == k
}

/// No two entries of `s` share a key.
pub open spec fn unique_keys(s: Seq<(u64, u64)>) -> bool {
    forall|i: int, j: int| 0 <= i < j < s.len() ==> (#[trigger] s[i]).0 != (#[trigger] s[j]).0
}

/// The keys that `s` maps to `owner`, in entry order.
pub open spec fn keys_owned_by(s: Seq<(u64, u64)>, owner: u64) -> Seq<u64>
    decreases s.len(),
{
    if s.len() == 0 {
        Seq::empty()
    } else if s.last().1 == owner {
        keys_owned_by(s.drop_last(), owner).push(s.last().0)
    } else {
        keys_owned_by(s.drop_last(), owner)
    }
}

/// The domain of the described mapping is exactly the set of keys present.
pub proof fn lemma_pairs_map_dom(s: Seq<(u64, u64)>)
    ensures
        forall|k: u64| #[trigger] pairs_map(s).dom().contains(k) <==> has_key(s, k),
    decreases s.len(),
{
    if s.len() > 0 {
        let dl = s.drop_last();
        lemma_pairs_map_dom(dl);
        assert forall|k: u64| #[trigger] pairs_map(s).dom().contains(k) implies has_key(s, k) by {
            if k == s.last().0 {
                assert((s[s.len() - 1]).0 == k);
            } else {
                assert(pairs_map(dl).dom().contains(k));
                assert(has_key(dl, k));
                let i = choose|i: int| 0 <= i < dl.len() && (#[trigger] dl[i]).0 == k;
                assert(dl[i] == s[i]);
                assert((s[i]).0 == k);
            }
        }
        assert forall|k: u64| has_key(s, k) implies #[trigger] pairs_map(s).dom().contains(k) by {
            let i = choose|i: int| 0 <= i < s.len() && (#[trigger] s[i]).0 == k;
            if i < s.len() - 1 {
                assert(dl[i] == s[i]);
                assert((dl[i]).0 == k);
                assert(has_key(dl, k));
                assert(pairs_map(dl).dom().contains(k));
            } else {
                assert(k == s.last().0);
            }
        }
    }
}

/// With unique keys, the mapping sends each present key to its entry's value.
pub proof fn lemma_pairs_map_lookup(s: Seq<(u64, u64)>, i: int)
    requires
        unique_keys(s),
        0 <= i < s.len(),
    ensures
        pairs_map(s).dom().contains(s[i].0),
        pairs_map(s)[s[i].0] == s[i].1,
    decreases s.len(),
{
    lemma_pairs_map_dom(s);
    if i < s.len() - 1 {
        assert(unique_keys(s.drop_last()));
        assert(s.drop_last()[i] == s[i]);
        lemma_pairs_map_lookup(s.drop_last(), i);
        assert(s[i].0 != s.last().0);
    }
}

/// Appending an entry describes an insertion.
pub proof fn lemma_pairs_map_push(s: Seq<(u64, u64)>, k: u64, v: u64)
    ensures
        pairs_map(s.push((k, v))) == pairs_map(s).insert(k, v),
{
    assert(s.push((k, v)).drop_last() =~= s);
    assert(s.push((k, v)).last() == (k, v));
}

/// Dropping the entry at `i` describes removing its key, when keys are
/// unique.
pub proof fn lemma_pairs_map_remove(s: Seq<(u64, u64)>, i: int)
    requires
        unique_keys(s),
        0 <= i < s.len(),
    ensures
        pairs_map(s.remove(i)) =~= pairs_map(s).remove(s[i].0),
    decreases s.len(),
{
    let k = s[i].0;
    lemma_pairs_map_dom(s);
    if i == s.len() - 1 {
        assert(s.remove(i) =~= s.drop_last());
        assert(!has_key(s.drop_last(), k)) by {
            if has_key(s.drop_last(), k) {
                let j = choose|j: int|
                    0 <= j < s.drop_last().len() && (#[trigger] s.drop_last()[j]).0 == k;
                assert((s[j]).0 == k);
            }
        }
        lemma_pairs_map_dom(s.drop_last());
        assert(pairs_map(s.remove(i)) =~= pairs_map(s).remove(k));
    } else {
        assert(unique_keys(s.drop_last()));
        assert(s.drop_last()[i] == s[i]);
        lemma_pairs_map_remove(s.drop_last(), i);
        assert(s.remove(i).drop_last() =~= s.drop_last().remove(i));
        assert(s.remove(i).last() == s.last());
        assert(k != s.last().0);
        assert(pairs_map(s.remove(i)) =~= pairs_map(s.drop_last()).remove(k).insert(
            s.last().0,
            s.last().1,
        ));
        assert(pairs_map(s.drop_last()).remove(k).insert(s.last().0, s.last().1)
            =~= pairs_map(s.drop_last()).insert(s.last().0, s.last().1).remove(k));
    }
}

/// The two ownership mappings.
pub struct Registry {
    /// Device id -> owning adapter id, in insertion order.
    pub devices: Vec<(u64, u64)>,
    /// Buffer id -> owning device id, in insertion order.
    pub buffers: Vec<(u64, u64)>,
}

impl Registry {
    /// The device entries in insertion order.
    pub open spec fn dev_entries(self) -> Seq<(u64, u64)> {
        self.devices@
    }

    /// The buffer entries in insertion order.
    pub open spec fn buf_entries(self) -> Seq<(u64, u64)> {
        self.buffers@
    }

    /// Device id -> owning adapter id.
    pub open spec fn dev_map(self) -> Map<u64, u64> {
        pairs_map(self.devices@)
    }

    /// Buffer id -> owning device id.
    pub open spec fn buf_map(self) -> Map<u64, u64> {
        pairs_map(self.buffers@)
    }

    /// Keys are unique in both mappings.
    pub open spec fn wf(self) -> bool {
        unique_keys(self.devices@) && unique_keys(self.buffers@)
    }

    /// An empty registry: nothing is live.
    pub fn new() -> (r: Registry)
        ensures
            r.wf(),
            r.dev_entries() =~= Seq::<(u64, u64)>::empty(),
            r.buf_entries() =~= Seq::<(u64, u64)>::empty(),
    {
        Registry { devices: Vec::new(), buffers: Vec::new() }
    }

    /// Record that `device` was created on `adapter`.
    pub fn record_device(&mut self, device: WebGPUDevice, adapter: WebGPUAdapter)
        requires
            old(self).wf(),
            !old(self).dev_map().dom().contains(device.0),
        ensures
            final(self).wf(),
            final(self).dev_entries() == old(self).dev_entries().push((device.0, adapter.0)),
            final(self).dev_map() == old(self).dev_map().insert(device.0, adapter.0),
            final(self).buf_entries() == old(self).buf_entries(),
    {
        proof {
            lemma_pairs_map_dom(self.devices@);
            lemma_pairs_map_push(self.devices@, device.0, adapter.0);
            assert forall|i: int, j: int|
                0 <= i < j < self.devices@.push((device.0, adapter.0)).len() implies (
            #[trigger] self.devices@.push((device.0, adapter.0))[i]).0 != (
            #[trigger] self.devices@.push((device.0, adapter.0))[j]).0 by {
                if j == self.devices@.len() {
                    assert((self.devices@[i]).0 != device.0);
                }
            }
        }
        self.devices.push((device.0, adapter.0));
    }

    /// Record that `buffer` was allocated on `device`.
    pub fn record_buffer(&mut self, buffer: WebGPUBuffer, device: WebGPUDevice)
        requires
            old(self).wf(),
            !old(self).buf_map().dom().contains(buffer.0),
        ensures
            final(self).wf(),
            final(self).buf_entries() == old(self).buf_entries().push((buffer.0, device.0)),
            final(self).buf_map() == old(self).buf_map().insert(buffer.0, device.0),
            final(self).dev_entries() == old(self).dev_entries(),
    {
        proof {
            lemma_pairs_map_dom(self.buffers@);
            lemma_pairs_map_push(self.buffers@, buffer.0, device.0);
            assert forall|i: int, j: int|
                0 <= i < j < self.buffers@.push((buffer.0, device.0)).len() implies (
            #[trigger] self.buffers@.push((buffer.0, device.0))[i]).0 != (
            #[trigger] self.buffers@.push((buffer.0, device.0))[j]).0 by {
                if j == self.buffers@.len() {
                    assert((self.buffers@[i]).0 != buffer.0);
                }
            }
        }
        self.buffers.push((buffer.0, device.0));
    }

    /// Forget `buffer`. Idempotent: absent handles leave the registry as it
    /// was, and the entry order of the others is kept.
    #[verifier::loop_isolation(false)]
    pub fn remove_buffer(&mut self, buffer: WebGPUBuffer) -> (was_live: bool)
        requires
            old(self).wf(),
        ensures
            final(self).wf(),
            was_live == old(self).buf_map().dom().contains(buffer.0),
            final(self).buf_map() == old(self).buf_map().remove(buffer.0),
            final(self).dev_entries() == old(self).dev_entries(),
            !final(self).buf_map().dom().contains(buffer.0),
            !was_live ==> final(self).buf_entries() == old(self).buf_entries(),
    {
        proof {
            lemma_pairs_map_dom(self.buffers@);
        }
        let ghost entries = self.buffers@;
        let mut i: usize = 0;
        while i < self.buffers.len()
            invariant
                self.buffers@ == entries,
                self.devices@ == old(self).devices@,
                0 <= i <= entries.len(),
                forall|j: int| 0 <= j < i ==> (#[trigger] entries[j]).0 != buffer.0,
            decreases entries.len() - i,
        {
            if self.buffers[i].0 == buffer.0 {
                proof {
                    lemma_pairs_map_remove(entries, i as int);
                }
                self.buffers.remove(i);
                proof {
                    lemma_pairs_map_dom(self.buffers@);
                    assert forall|p: int, q: int|
                        0 <= p < q < self.buffers@.len() implies (
                    #[trigger] self.buffers@[p]).0 != (#[trigger] self.buffers@[q]).0 by {
                        assert(self.buffers@[p] == if p < i as int {
                            entries[p]
                        } else {
                            entries[p + 1]
                        });
                        assert(self.buffers@[q] == if q < i as int {
                            entries[q]
                        } else {
                            entries[q + 1]
                        });
                    }
                }
                return true;
            }
            i += 1;
        }
        proof {
            assert(!has_key(entries, buffer.0));
            assert(self.buf_map() =~= self.buf_map().remove(buffer.0));
        }
        false
    }

    /// Forget `device`. Idempotent; the teardown sequencer only calls this
    /// once the device's buffers are gone.
    #[verifier::loop_isolation(false)]
    pub fn remove_device(&mut self, device: WebGPUDevice) -> (was_live: bool)
        requires
            old(self).wf(),
        ensures
            final(self).wf(),
            was_live == old(self).dev_map().dom().contains(device.0),
            final(self).dev_map() == old(self).dev_map().remove(device.0),
            final(self).buf_entries() == old(self).buf_entries(),
            !final(self).dev_map().dom().contains(device.0),
            !was_live ==> final(self).dev_entries() == old(self).dev_entries(),
    {
        proof {
            lemma_pairs_map_dom(self.devices@);
        }
        let ghost entries = self.devices@;
        let mut i: usize = 0;
        while i < self.devices.len()
            invariant
                self.devices@ == entries,
                self.buffers@ == old(self).buffers@,
                0 <= i <= entries.len(),
                forall|j: int| 0 <= j < i ==> (#[trigger] entries[j]).0 != device.0,
            decreases entries.len() - i,
        {
            if self.devices[i].0 == device.0 {
                proof {
                    lemma_pairs_map_remove(entries, i as int);
                }
                self.devices.remove(i);
                proof {
                    lemma_pairs_map_dom(self.devices@);
                    assert forall|p: int, q: int|
                        0 <= p < q < self.devices@.len() implies (
                    #[trigger] self.devices@[p]).0 != (#[trigger] self.devices@[q]).0 by {
                        assert(self.devices@[p] == if p < i as int {
                            entries[p]
                        } else {
                            entries[p + 1]
                        });
                        assert(self.devices@[q] == if q < i as int {
                            entries[q]
                        } else {
                            entries[q + 1]
                        });
                    }
                }
                return true;
            }
            i += 1;
        }
        proof {
            assert(!has_key(entries, device.0));
            assert(self.dev_map() =~= self.dev_map().remove(device.0));
        }
        false
    }

    /// Whether `device` is live.
    #[verifier::loop_isolation(false)]
    pub fn contains_device(&self, device: WebGPUDevice) -> (r: bool)
        ensures
            r == self.dev_map().dom().contains(device.0),
    {
        proof {
            lemma_pairs_map_dom(self.devices@);
        }
        let mut i: usize = 0;
        while i < self.devices.len()
            invariant
                0 <= i <= self.devices@.len(),
                forall|j: int| 0 <= j < i ==> (#[trigger] self.devices@[j]).0 != device.0,
            decreases self.devices@.len() - i,
        {
            if self.devices[i].0 == device.0 {
                return true;
            }
            i += 1;
        }
        false
    }

    /// Whether `buffer` is live.
    #[verifier::loop_isolation(false)]
    pub fn contains_buffer(&self, buffer: WebGPUBuffer) -> (r: bool)
        ensures
            r == self.buf_map().dom().contains(buffer.0),
    {
        proof {
            lemma_pairs_map_dom(self.buffers@);
        }
        let mut i: usize = 0;
        while i < self.buffers.len()
            invariant
                0 <= i <= self.buffers@.len(),
                forall|j: int| 0 <= j < i ==> (#[trigger] self.buffers@[j]).0 != buffer.0,
            decreases self.buffers@.len() - i,
        {
            if self.buffers[i].0 == buffer.0 {
                return true;
            }
            i += 1;
        }
        false
    }

    /// The adapter that owns `device`, when the device is live.
    #[verifier::loop_isolation(false)]
    pub fn adapter_of(&self, device: WebGPUDevice) -> (r: Option<WebGPUAdapter>)
        requires
            self.wf(),
        ensures
            match r {
                Some(a) => self.dev_map().dom().contains(device.0)
                    && a.0 == self.dev_map()[device.0],
                None => !self.dev_map().dom().contains(device.0),
            },
    {
        proof {
            lemma_pairs_map_dom(self.devices@);
        }
        let mut i: usize = 0;
        while i < self.devices.len()
            invariant
                self.wf(),
                0 <= i <= self.devices@.len(),
                forall|j: int| 0 <= j < i ==> (#[trigger] self.devices@[j]).0 != device.0,
            decreases self.devices@.len() - i,
        {
            if self.devices[i].0 == device.0 {
                proof {
                    lemma_pairs_map_lookup(self.devices@, i as int);
                }
                return Some(WebGPUAdapter(self.devices[i].1));
            }
            i += 1;
        }
        None
    }

    /// The device that owns `buffer`, when the buffer is live.
    #[verifier::loop_isolation(false)]
    pub fn device_of(&self, buffer: WebGPUBuffer) -> (r: Option<WebGPUDevice>)
        requires
            self.wf(),
        ensures
            match r {
                Some(d) => self.buf_map().dom().contains(buffer.0)
                    && d.0 == self.buf_map()[buffer.0],
                None => !self.buf_map().dom().contains(buffer.0),
            },
    {
        proof {
            lemma_pairs_map_dom(self.buffers@);
        }
        let mut i: usize = 0;
        while i < self.buffers.len()
            invariant
                self.wf(),
                0 <= i <= self.buffers@.len(),
                forall|j: int| 0 <= j < i ==> (#[trigger] self.buffers@[j]).0 != buffer.0,
            decreases self.buffers@.len() - i,
        {
            if self.buffers[i].0 == buffer.0 {
                proof {
                    lemma_pairs_map_lookup(self.buffers@, i as int);
                }
                return Some(WebGPUDevice(self.buffers[i].1));
            }
            i += 1;
        }
        None
    }

    /// The buffers owned by `device`, in entry order. A lazy lookup for
    /// the teardown sequencer and for diagnosis; the drain itself walks
    /// the whole map.
    #[verifier::loop_isolation(false)]
    pub fn buffers_of(&self, device: WebGPUDevice) -> (r: Vec<WebGPUBuffer>)
        ensures
            r@.map_values(|b: WebGPUBuffer| b.0) == keys_owned_by(self.buf_entries(), device.0),
    {
        let mut r: Vec<WebGPUBuffer> = Vec::new();
        let mut i: usize = 0;
        while i < self.buffers.len()
            invariant
                0 <= i <= self.buffers@.len(),
                r@.map_values(|b: WebGPUBuffer| b.0) == keys_owned_by(
                    self.buffers@.take(i as int),
                    device.0,
                ),
            decreases self.buffers@.len() - i,
        {
            let entry = self.buffers[i];
            proof {
                assert(self.buffers@.take(i + 1).drop_last() =~= self.buffers@.take(i as int));
                assert(self.buffers@.take(i + 1).last() == self.buffers@[i as int]);
            }
            if entry.1 == device.0 {
                let ghost pre = r@;
                r.push(WebGPUBuffer(entry.0));
                proof {
                    assert(r@.map_values(|b: WebGPUBuffer| b.0) =~= pre.map_values(
                        |b: WebGPUBuffer| b.0,
                    ).push(entry.0));
                }
            }
            i += 1;
        }
        proof {
            assert(self.buffers@.take(self.buffers@.len() as int) =~= self.buffers@);
        }
        r
    }

    /// The devices owned by `adapter`, in entry order.
    #[verifier::loop_isolation(false)]
    pub fn devices_of(&self, adapter: WebGPUAdapter) -> (r: Vec<WebGPUDevice>)
        ensures
            r@.map_values(|d: WebGPUDevice| d.0) == keys_owned_by(
                self.dev_entries(),
                adapter.0,
            ),
    {
        let mut r: Vec<WebGPUDevice> = Vec::new();
        let mut i: usize = 0;
        while i < self.devices.len()
            invariant
                0 <= i <= self.devices@.len(),
                r@.map_values(|d: WebGPUDevice| d.0) == keys_owned_by(
                    self.devices@.take(i as int),
                    adapter.0,
                ),
            decreases self.devices@.len() - i,
        {
            let entry = self.devices[i];
            proof {
                assert(self.devices@.take(i + 1).drop_last() =~= self.devices@.take(i as int));
                assert(self.devices@.take(i + 1).last() == self.devices@[i as int]);
            }
            if entry.1 == adapter.0 {
                let ghost pre = r@;
                r.push(WebGPUDevice(entry.0));
                proof {
                    assert(r@.map_values(|d: WebGPUDevice| d.0) =~= pre.map_values(
                        |d: WebGPUDevice| d.0,
                    ).push(entry.0));
                }
            }
            i += 1;
        }
        proof {
            assert(self.devices@.take(self.devices@.len() as int) =~= self.devices@);
        }
        r
    }

    /// How many devices are live.
    pub fn device_count(&self) -> (r: usize)
        ensures
            r == self.dev_entries().len(),
    {
        self.devices.len()
    }

    /// How many buffers are live.
    pub fn buffer_count(&self) -> (r: usize)
        ensures
            r == self.buf_entries().len(),
    {
        self.buffers.len()
    }
}

} // verus!
