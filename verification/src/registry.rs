//! The device registry: a persistent map from hardware slot to device
//! record, kept as a vector in strictly ascending slot order. Entries are
//! created lazily on the first sighting of a slot and never removed.

use vstd::prelude::*;
use crate::pose::Position;
use crate::pose::Rotation;
use crate::tracking_messages::TrackedControllerRole;
use crate::tracking_messages::TrackedDeviceClass;
use crate::tracking_messages::VrDevice;
use crate::tracking_messages::VrDeviceClass;
use crate::tracking_messages::spec_classify;
use crate::tracking_messages::spec_fresh_device;
use crate::tracking_messages::spec_observe;

verus! {

/// One raw poll entry: the slot it concerns, whether the pose is valid
/// this cycle, the pose already converted to application coordinates,
/// and the hardware's class and role tags.
#[derive(Clone, Copy, Debug, PartialEq, Eq, Structural)]
pub struct RawPoseEntry {
    pub slot: usize,
    pub valid: bool,
    pub position: Position,
    pub rotation: Rotation,
    pub device_class: TrackedDeviceClass,
    pub controller_role: Option<TrackedControllerRole>,
}

/// True when every slot in `s` is strictly smaller than the slot that
/// follows it, which also makes the slots unique.
pub open spec fn sorted_by_id(s: Seq<VrDevice>) -> bool {
    forall|i: int, j: int| 0 <= i < j < s.len() ==> s[i].id < s[j].id
}

/// Whether some entry of `s` has slot `slot`.
pub open spec fn has_slot(s: Seq<VrDevice>, slot: usize) -> bool {
    exists|i: int| 0 <= i < s.len() && s[i].id == slot
}

/// The device at slot `slot`, if any.
pub open spec fn slot_lookup(s: Seq<VrDevice>, slot: usize) -> Option<VrDevice> {
    if has_slot(s, slot) {
        Some(s[choose|i: int| 0 <= i < s.len() && s[i].id == slot])
    } else {
        None
    }
}

/// The record a raw entry leaves at its slot, starting from `pre` (the
/// record already there, if any; a fresh default otherwise).
pub open spec fn spec_apply_entry(pre: Option<VrDevice>, e: RawPoseEntry) -> VrDevice {
    let d = match pre {
        Some(d) => d,
        None => spec_fresh_device(e.slot),
    };
    spec_observe(
        d,
        e.valid,
        e.position,
        e.rotation,
        spec_classify(e.device_class, e.controller_role),
    )
}

/// The record at slot `slot` after the entries of `entries` have been
/// applied in order on top of `pre`. Entries for other slots leave it
/// untouched; when several entries name the same slot, the later wins.
pub open spec fn spec_slot_after(
    pre: Option<VrDevice>,
    entries: Seq<RawPoseEntry>,
    slot: usize,
) -> Option<VrDevice>
    decreases entries.len(),
{
    if entries.len() == 0 {
        pre
    } else {
        let prev = spec_slot_after(pre, entries.drop_last(), slot);
        if entries.last().slot == slot {
            Some(spec_apply_entry(prev, entries.last()))
        } else {
            prev
        }
    }
}

/// The subsequence of `s` made of the devices whose `seen` latch is set,
/// in their original order.
pub open spec fn seen_only(s: Seq<VrDevice>) -> Seq<VrDevice>
    decreases s.len(),
{
    if s.len() == 0 {
        s
    } else if s.last().seen {
        seen_only(s.drop_last()).push(s.last())
    } else {
        seen_only(s.drop_last())
    }
}

/// Filtering by the `seen` latch keeps the strictly ascending slot
/// order, keeps only seen records, and invents none: every record of the
/// result stands somewhere in the source.
pub proof fn lemma_seen_only_sorted(s: Seq<VrDevice>)
    requires
        sorted_by_id(s),
    ensures
        sorted_by_id(seen_only(s)),
        forall|j: int| 0 <= j < seen_only(s).len() ==> (#[trigger] seen_only(s)[j]).seen,
        forall|j: int| #![trigger seen_only(s)[j]]
            0 <= j < seen_only(s).len() ==> exists|k: int|
                0 <= k < s.len() && seen_only(s)[j] == #[trigger] s[k],
    decreases s.len(),
{
    if s.len() > 0 {
        let t = s.drop_last();
        lemma_seen_only_sorted(t);
        let sub = seen_only(t);
        assert forall|j: int| #![trigger seen_only(s)[j]] 0 <= j < seen_only(s).len() implies exists|k: int|
            0 <= k < s.len() && seen_only(s)[j] == #[trigger] s[k] by {
            if j < sub.len() {
                let k = choose|k: int| 0 <= k < t.len() && sub[j] == t[k];
                assert(seen_only(s)[j] == s[k]);
            } else {
                assert(seen_only(s)[j] == s[s.len() - 1]);
            }
        }
        if s.last().seen {
            assert forall|a: int, b: int| 0 <= a < b < seen_only(s).len() implies seen_only(
                s,
            )[a].id < seen_only(s)[b].id by {
                if b < sub.len() {
                    assert(sub[a].id < sub[b].id);
                } else {
                    let k = choose|k: int| 0 <= k < t.len() && sub[a] == t[k];
                    assert(s[k].id < s[s.len() - 1].id);
                }
            }
        }
    }
}

/// Law: the filtered snapshot omits no seen device: every record whose
/// `seen` latch is set stands in `seen_only` of its registry.
pub proof fn lemma_seen_only_complete(s: Seq<VrDevice>, i: int)
    requires
        0 <= i < s.len(),
        s[i].seen,
    ensures
        seen_only(s).contains(s[i]),
    decreases s.len(),
{
    if i == s.len() - 1 {
        assert(seen_only(s).last() == s[i]);
    } else {
        let t = s.drop_last();
        lemma_seen_only_complete(t, i);
        let sub = seen_only(t);
        let j = choose|j: int| 0 <= j < sub.len() && sub[j] == t[i];
        assert(seen_only(s)[j] == s[i]);
    }
}

/// Law: `seen` is a one-way latch. A slot whose record is seen stays
/// seen through any sequence of ingested entries.
pub proof fn lemma_seen_latch(pre: Option<VrDevice>, entries: Seq<RawPoseEntry>, slot: usize)
    requires
        pre matches Some(d) && d.seen,
    ensures
        spec_slot_after(pre, entries, slot) matches Some(d2) && d2.seen,
    decreases entries.len(),
{
    if entries.len() > 0 {
        lemma_seen_latch(pre, entries.drop_last(), slot);
    }
}

/// Law: once a poll carries a valid entry for a slot, the record at that
/// slot reports `seen`, whatever entries follow in the same poll.
pub proof fn lemma_valid_observation_sets_seen(
    pre: Option<VrDevice>,
    entries: Seq<RawPoseEntry>,
    slot: usize,
    i: int,
)
    requires
        0 <= i < entries.len(),
        entries[i].slot == slot,
        entries[i].valid,
    ensures
        spec_slot_after(pre, entries, slot) matches Some(d) && d.seen,
    decreases entries.len(),
{
    if i < entries.len() - 1 {
        lemma_valid_observation_sets_seen(pre, entries.drop_last(), slot, i);
    }
}

/// Law: a poll leaves untouched every slot that none of its entries
/// names; in particular a slot absent from a poll keeps its last state,
/// with no forced change of its tracked flag.
pub proof fn lemma_absent_slot_unchanged(
    pre: Option<VrDevice>,
    entries: Seq<RawPoseEntry>,
    slot: usize,
)
    requires
        forall|i: int| 0 <= i < entries.len() ==> (#[trigger] entries[i]).slot != slot,
    ensures
        spec_slot_after(pre, entries, slot) == pre,
    decreases entries.len(),
{
    if entries.len() > 0 {
        assert(forall|i: int|
            0 <= i < entries.drop_last().len() ==> (#[trigger] entries.drop_last()[i]).slot
                != slot);
        lemma_absent_slot_unchanged(pre, entries.drop_last(), slot);
    }
}

/// Law: the registry only grows. A slot that has a record keeps one
/// through any sequence of ingested entries.
pub proof fn lemma_slot_persists(pre: Option<VrDevice>, entries: Seq<RawPoseEntry>, slot: usize)
    requires
        pre is Some,
    ensures
        spec_slot_after(pre, entries, slot) is Some,
        spec_slot_after(pre, entries, slot)->Some_0.id == pre->Some_0.id,
    decreases entries.len(),
{
    if entries.len() > 0 {
        lemma_slot_persists(pre, entries.drop_last(), slot);
    }
}

/// In a sorted sequence, the device at an index is what lookup by its
/// slot finds: sortedness makes slots unique, so the witness is unique.
proof fn lemma_lookup_at(s: Seq<VrDevice>, i: int)
    requires
        sorted_by_id(s),
        0 <= i < s.len(),
    ensures
        slot_lookup(s, s[i].id) == Some(s[i]),
{
    assert(has_slot(s, s[i].id));
    let j = choose|j: int| 0 <= j < s.len() && s[j].id == s[i].id;
    if i < j {
        assert(s[i].id < s[j].id);
    } else if j < i {
        assert(s[j].id < s[i].id);
    }
    assert(j == i);
}

/// Replacing the record at one index, without changing its slot, changes
/// lookup at that slot alone and keeps the order.
proof fn lemma_update_lookup(s: Seq<VrDevice>, i: int, d: VrDevice)
    requires
        sorted_by_id(s),
        0 <= i < s.len(),
        d.id == s[i].id,
    ensures
        sorted_by_id(s.update(i, d)),
        forall|slot: usize| #![auto]
            slot_lookup(s.update(i, d), slot) == if slot == d.id {
                Some(d)
            } else {
                slot_lookup(s, slot)
            },
{
    let s2 = s.update(i, d);
    assert forall|a: int, b: int| 0 <= a < b < s2.len() implies s2[a].id < s2[b].id by {
        assert(s[a].id < s[b].id);
    }
    assert forall|slot: usize| #![auto]
        slot_lookup(s2, slot) == if slot == d.id {
            Some(d)
        } else {
            slot_lookup(s, slot)
        } by {
        if slot == d.id {
            lemma_lookup_at(s2, i);
        } else {
            if has_slot(s2, slot) {
                let j = choose|j: int| 0 <= j < s2.len() && s2[j].id == slot;
                assert(j != i);
                assert(s2[j] == s[j]);
                lemma_lookup_at(s2, j);
                lemma_lookup_at(s, j);
            } else {
                assert forall|j: int| 0 <= j < s.len() implies s[j].id != slot by {
                    if j == i {
                        assert(s[j].id == d.id);
                    } else {
                        assert(s2[j] == s[j]);
                    }
                }
            }
        }
    }
}

/// Inserting a record between the smaller and the larger slots changes
/// lookup at its slot alone and keeps the order.
proof fn lemma_insert_lookup(s: Seq<VrDevice>, p: int, d: VrDevice)
    requires
        sorted_by_id(s),
        0 <= p <= s.len(),
        forall|j: int| 0 <= j < p ==> s[j].id < d.id,
        forall|j: int| p <= j < s.len() ==> s[j].id > d.id,
    ensures
        sorted_by_id(s.insert(p, d)),
        forall|slot: usize| #![auto]
            slot_lookup(s.insert(p, d), slot) == if slot == d.id {
                Some(d)
            } else {
                slot_lookup(s, slot)
            },
{
    let s2 = s.insert(p, d);
    assert forall|a: int, b: int| 0 <= a < b < s2.len() implies s2[a].id < s2[b].id by {
        if a < p {
            assert(s2[a] == s[a]);
        } else if a > p {
            assert(s2[a] == s[a - 1]);
        }
        if b < p {
            assert(s2[b] == s[b]);
        } else if b > p {
            assert(s2[b] == s[b - 1]);
        }
    }
    assert forall|slot: usize| #![auto]
        slot_lookup(s2, slot) == if slot == d.id {
            Some(d)
        } else {
            slot_lookup(s, slot)
        } by {
        if slot == d.id {
            assert(s2[p] == d);
            lemma_lookup_at(s2, p);
        } else {
            if has_slot(s, slot) {
                let j = choose|j: int| 0 <= j < s.len() && s[j].id == slot;
                if j < p {
                    assert(s2[j] == s[j]);
                    lemma_lookup_at(s2, j);
                } else {
                    assert(s2[j + 1] == s[j]);
                    lemma_lookup_at(s2, j + 1);
                }
                lemma_lookup_at(s, j);
            } else {
                assert forall|j: int| 0 <= j < s2.len() implies s2[j].id != slot by {
                    if j < p {
                        assert(s2[j] == s[j]);
                    } else if j > p {
                        assert(s2[j] == s[j - 1]);
                    }
                }
            }
        }
    }
}

/// The registry. Its vector is kept in strictly ascending slot order.
pub struct VrDeviceManager {
    devices: Vec<VrDevice>,
}

impl View for VrDeviceManager {
    type V = Seq<VrDevice>;

    closed spec fn view(&self) -> Seq<VrDevice> {
        self.devices@
    }
}

impl VrDeviceManager {
    pub open spec fn wf(self) -> bool {
        sorted_by_id(self@)
    }

    /// An empty registry.
    pub fn new() -> (r: VrDeviceManager)
        ensures
            r.wf(),
            r@ == Seq::<VrDevice>::empty(),
    {
        VrDeviceManager { devices: Vec::new() }
    }

    /// Where `slot` lives in the sorted vector: `Ok(i)` when the entry at
    /// `i` has that slot, `Err(p)` with the insertion point otherwise.
    fn find_slot(&self, slot: usize) -> (r: Result<usize, usize>)
        requires
            self.wf(),
        ensures
            match r {
                Ok(i) => i < self@.len() && self@[i as int].id == slot,
                Err(p) => {
                    &&& p <= self@.len()
                    &&& !has_slot(self@, slot)
                    &&& forall|j: int| 0 <= j < p ==> self@[j].id < slot
                    &&& forall|j: int| p <= j < self@.len() ==> self@[j].id > slot
                },
            },
    {
        let n = self.devices.len();
        let mut i: usize = 0;
        while i < n && self.devices[i].id < slot
            invariant
                n == self@.len(),
                i <= n,
                self.wf(),
                forall|j: int| 0 <= j < i ==> self@[j].id < slot,
            decreases n - i,
        {
            i += 1;
        }
        if i < n && self.devices[i].id == slot {
            Ok(i)
        } else {
            assert forall|j: int| i <= j < self@.len() implies self@[j].id > slot by {
                assert(self@[i as int].id >= slot);
                assert(self@[i as int].id != slot);
                if j > i {
                    assert(self@[i as int].id < self@[j].id);
                }
            }
            Err(i)
        }
    }

    /// Ingests one poll: every entry is applied in order; the slot it
    /// names is created with the pre-observation defaults if it is new,
    /// then observed with the entry's validity, pose and classified
    /// category. Slots no entry names keep their state untouched, and no
    /// slot is ever removed.
    pub fn update(&mut self, entries: &Vec<RawPoseEntry>)
        requires
            old(self).wf(),
        ensures
            final(self).wf(),
            forall|slot: usize| #![auto]
                slot_lookup(final(self)@, slot) == spec_slot_after(
                    slot_lookup(old(self)@, slot),
                    entries@,
                    slot,
                ),
    {
        let ghost pre0 = self@;
        let n = entries.len();
        for k in 0..n
            invariant
                n == entries@.len(),
                self.wf(),
                forall|slot: usize| #![auto]
                    slot_lookup(self@, slot) == spec_slot_after(
                        slot_lookup(pre0, slot),
                        entries@.take(k as int),
                        slot,
                    ),
        {
            let e = entries[k];
            let ghost pre_seq = self@;
            let class = VrDeviceClass::from_openvr_types(e.device_class, e.controller_role);
            match self.find_slot(e.slot) {
                Ok(i) => {
                    proof {
                        lemma_lookup_at(pre_seq, i as int);
                    }
                    let mut d = self.devices[i];
                    d.update(e.valid, e.position, e.rotation, class);
                    self.devices[i] = d;
                    proof {
                        lemma_update_lookup(pre_seq, i as int, d);
                    }
                }
                Err(p) => {
                    let mut d = VrDevice::new(e.slot);
                    d.update(e.valid, e.position, e.rotation, class);
                    self.devices.insert(p, d);
                    proof {
                        lemma_insert_lookup(pre_seq, p as int, d);
                    }
                }
            }
            proof {
                assert(entries@.take(k + 1).drop_last() =~= entries@.take(k as int));
                assert(entries@.take(k + 1).last() == entries@[k as int]);
                assert forall|slot: usize| #![auto]
                    slot_lookup(self@, slot) == spec_slot_after(
                        slot_lookup(pre0, slot),
                        entries@.take(k + 1),
                        slot,
                    ) by {
                    if slot == e.slot {
                        assert(slot_lookup(self@, slot) == Some(
                            spec_apply_entry(slot_lookup(pre_seq, slot), e),
                        ));
                    } else {
                        assert(slot_lookup(self@, slot) == slot_lookup(pre_seq, slot));
                    }
                }
            }
        }
        proof {
            assert(entries@.take(n as int) =~= entries@);
        }
    }

    /// The devices whose `seen` latch is set, in strictly ascending slot
    /// order: the filtered snapshot the publisher broadcasts.
    pub fn seen_devices(&self) -> (r: Vec<VrDevice>)
        requires
            self.wf(),
        ensures
            r@ == seen_only(self@),
            sorted_by_id(r@),
            forall|j: int| 0 <= j < r@.len() ==> (#[trigger] r@[j]).seen,
    {
        let mut out: Vec<VrDevice> = Vec::new();
        let n = self.devices.len();
        proof {
            assert(self@.take(0) =~= Seq::<VrDevice>::empty());
        }
        for i in 0..n
            invariant
                n == self@.len(),
                self.wf(),
                out@ == seen_only(self@.take(i as int)),
        {
            if self.devices[i].seen {
                out.push(self.devices[i]);
            }
            proof {
                assert(self@.take(i + 1).drop_last() =~= self@.take(i as int));
                assert(self@.take(i + 1).last() == self@[i as int]);
            }
        }
        proof {
            assert(self@.take(n as int) =~= self@);
            lemma_seen_only_sorted(self@);
        }
        out
    }

    /// All known devices, in strictly ascending slot order.
    pub fn device_list(&self) -> (r: Vec<VrDevice>)
        requires
            self.wf(),
        ensures
            r@ == self@,
            sorted_by_id(r@),
    {
        let mut out: Vec<VrDevice> = Vec::new();
        let n = self.devices.len();
        for i in 0..n
            invariant
                n == self.devices.len(),
                out@ == self@.take(i as int),
        {
            out.push(self.devices[i]);
            proof {
                assert(out@ =~= self@.take(i + 1 as int));
            }
        }
        proof {
            assert(self@.take(n as int) =~= self@);
        }
        out
    }
}

} // verus!
