//! The persistent buffers that expert layers write into, one set for each device and stream.

use crate::device::fork_after;
use crate::device::CudaDevice;
use crate::device::DeviceView;
use crate::device::ForkEvent;
use crate::device_id::law_id_is_its_number;
use crate::device_id::DeviceId;
use vstd::prelude::*;

verus! {

/// A device, and the address of one of its streams.
pub type MoeWorkspaceKey = (DeviceId, usize);

/// The workspace key of a device whose main and side streams are at these addresses: the stream is
/// the one where work is issued.
pub open spec fn workspace_key(
    d: DeviceView,
    main_ptr: usize,
    side_ptr: usize,
) -> MoeWorkspaceKey {
    (
        d.id,
        if d.on_side {
            side_ptr
        } else {
            main_ptr
        },
    )
}

/// The workspace key of a device, on the stream where its work is issued right now.
pub fn moe_workspace_key(dev: &CudaDevice, main_ptr: usize, side_ptr: usize) -> (r: MoeWorkspaceKey)
    ensures
        r == workspace_key(dev@, main_ptr, side_ptr),
{
    (dev.id(), dev.active_stream_ptr(main_ptr, side_ptr))
}

/// Work that a fork moved to the side stream gets a workspace of its own, until it moves back.
pub proof fn law_fork_changes_workspace_key(d: DeviceView, main_ptr: usize, side_ptr: usize)
    requires
        !d.on_side,
        main_ptr != side_ptr,
    ensures
        ({
            let created = if d.side_exists {
                d
            } else {
                fork_after(d, ForkEvent::Created { ok: true })
            };
            let forked = fork_after(created, ForkEvent::Fenced { ok: true });
            let back = DeviceView { on_side: false, ..forked };
            &&& workspace_key(forked, main_ptr, side_ptr) != workspace_key(d, main_ptr, side_ptr)
            &&& workspace_key(back, main_ptr, side_ptr) == workspace_key(d, main_ptr, side_ptr)
        }),
{
}

/// Off the side stream all handles of a device have one key, whatever else its state is.
pub proof fn law_workspace_key_is_shared(
    a: DeviceView,
    b: DeviceView,
    main_ptr: usize,
    side_a: usize,
    side_b: usize,
)
    requires
        a.id == b.id,
        !a.on_side,
        !b.on_side,
    ensures
        workspace_key(a, main_ptr, side_a) == workspace_key(b, main_ptr, side_b),
{
}

/// Devices with other identifiers have other keys, whatever their streams.
pub proof fn law_workspace_keys_tell_devices_apart(
    a: DeviceView,
    b: DeviceView,
    main_a: usize,
    side_a: usize,
    main_b: usize,
    side_b: usize,
)
    requires
        a.id != b.id,
    ensures
        workspace_key(a, main_a, side_a) != workspace_key(b, main_b, side_b),
{
}

/// The buffers of one device and stream: quantized input of `input_quant_capacity` bytes, and a
/// ring of output buffers, each with its own capacity in F32 elements.
#[derive(Debug)]
pub struct MoeWorkspaceEntry {
    key: MoeWorkspaceKey,
    out_slots: Vec<usize>,
    input_quant_capacity: usize,
    stream_ptr: usize,
}

/// The buffers of all devices and streams.
#[derive(Debug)]
pub struct MoeWorkspaces {
    entries: Vec<MoeWorkspaceEntry>,
}

/// What the workspace knows of one device and stream.
pub struct EntryView {
    /// Capacity of the quantized input, in bytes.
    pub input: usize,
    /// Capacities of the output buffers, in F32 elements.
    pub slots: Seq<usize>,
    /// The stream that the buffers were made for.
    pub stream_ptr: usize,
}

/// What happened last while a layer prepares its buffers.
#[derive(Clone, Copy, Debug)]
pub enum WorkspaceEvent<'a> {
    /// The layer asks for its buffers.
    Start,
    /// The input buffer that was asked for has been allocated.
    InputReady,
    /// The handles on each output buffer have been counted, the workspace's own among them.
    Counted { counts: &'a [usize] },
    /// The output buffer that was asked for has been allocated.
    OutReady { slot: usize },
}

/// What has to happen next.
#[derive(Clone, Copy, Debug, PartialEq, Eq, Structural)]
pub enum WorkspaceAction {
    /// Allocate the input buffer.
    AllocInput { bytes: usize, zeroed: bool },
    /// Count the handles on each output buffer.
    CountHandles,
    /// Allocate output buffer `slot`; the former buffer of that slot goes.
    AllocOut { slot: usize, elems: usize, zeroed: bool },
    /// The buffers are ready, and the output goes to `slot`.
    Ready { slot: usize },
}

/// The first buffer that nobody but the workspace holds, or the number of buffers.
pub open spec fn first_free(counts: Seq<usize>) -> int
    decreases counts.len(),
{
    if counts.len() == 0 || counts[0] <= 1 {
        0
    } else {
        1 + first_free(counts.skip(1))
    }
}

/// No buffer before the chosen one is free, and the chosen one is, unless none is.
pub proof fn law_first_free(counts: Seq<usize>)
    ensures
        0 <= first_free(counts) <= counts.len(),
        forall|i: int| 0 <= i < first_free(counts) ==> #[trigger] counts[i] > 1,
        first_free(counts) < counts.len() ==> counts[first_free(counts)] <= 1,
    decreases counts.len(),
{
    if counts.len() == 0 || counts[0] <= 1 {
    } else {
        let rest = counts.skip(1);
        law_first_free(rest);
        assert forall|i: int| 0 <= i < first_free(counts) implies #[trigger] counts[i] > 1 by {
            if i > 0 {
                assert(rest[i - 1] == counts[i]);
            }
        }
    }
}

/// The state of a workspace.
pub type WorkspaceView = Map<MoeWorkspaceKey, EntryView>;

/// The input buffer of `key` is there, with room for `bytes` bytes.
pub open spec fn input_ready(w: WorkspaceView, key: MoeWorkspaceKey, bytes: usize) -> bool {
    w.contains_key(key) && w[key].input >= bytes
}

/// Output buffer `slot` of `key` is there, with room for `elems` elements.
pub open spec fn slot_ready(
    w: WorkspaceView,
    key: MoeWorkspaceKey,
    slot: int,
    elems: usize,
) -> bool {
    w.contains_key(key) && 0 <= slot < w[key].slots.len() && w[key].slots[slot] >= elems
}

/// `w` with an input buffer of `bytes` bytes for `key`.
pub open spec fn with_input(w: WorkspaceView, key: MoeWorkspaceKey, bytes: usize) -> WorkspaceView {
    if w.contains_key(key) {
        w.insert(key, EntryView { input: bytes, ..w[key] })
    } else {
        w.insert(
            key,
            EntryView { input: bytes, slots: Seq::empty(), stream_ptr: key.1 },
        )
    }
}

/// `w` with an output buffer of `elems` elements as `slot` of `key`.
pub open spec fn with_slot(
    w: WorkspaceView,
    key: MoeWorkspaceKey,
    slot: int,
    elems: usize,
) -> WorkspaceView {
    let slots = w[key].slots;
    w.insert(
        key,
        EntryView {
            slots: if slot < slots.len() {
                slots.update(slot, elems)
            } else {
                slots.push(elems)
            },
            ..w[key]
        },
    )
}

/// The state after an event.
pub open spec fn workspace_after(
    w: WorkspaceView,
    key: MoeWorkspaceKey,
    out_elems: usize,
    input_bytes: usize,
    event: WorkspaceEvent,
) -> WorkspaceView {
    match event {
        WorkspaceEvent::Start => w,
        WorkspaceEvent::InputReady => with_input(w, key, input_bytes),
        WorkspaceEvent::Counted { .. } => w,
        WorkspaceEvent::OutReady { slot } => with_slot(w, key, slot as int, out_elems),
    }
}

/// What has to happen after an event.
pub open spec fn workspace_action(
    w: WorkspaceView,
    key: MoeWorkspaceKey,
    out_elems: usize,
    input_bytes: usize,
    event: WorkspaceEvent,
) -> WorkspaceAction {
    match event {
        WorkspaceEvent::Start => if input_ready(w, key, input_bytes) {
            WorkspaceAction::CountHandles
        } else {
            WorkspaceAction::AllocInput { bytes: input_bytes, zeroed: false }
        },
        WorkspaceEvent::InputReady => WorkspaceAction::CountHandles,
        WorkspaceEvent::Counted { counts } => {
            let slot = first_free(counts@);
            if slot_ready(w, key, slot, out_elems) {
                WorkspaceAction::Ready { slot: slot as usize }
            } else {
                WorkspaceAction::AllocOut { slot: slot as usize, elems: out_elems, zeroed: true }
            }
        },
        WorkspaceEvent::OutReady { slot } => WorkspaceAction::Ready { slot },
    }
}

/// The event can happen in this state.
pub open spec fn workspace_takes(
    w: WorkspaceView,
    key: MoeWorkspaceKey,
    event: WorkspaceEvent,
) -> bool {
    match event {
        WorkspaceEvent::Start | WorkspaceEvent::InputReady => true,
        WorkspaceEvent::Counted { counts } => w.contains_key(key) && counts@.len()
            == w[key].slots.len(),
        WorkspaceEvent::OutReady { slot } => w.contains_key(key) && slot <= w[key].slots.len(),
    }
}

impl MoeWorkspaceEntry {
    closed spec fn entry(&self) -> EntryView {
        EntryView {
            input: self.input_quant_capacity,
            slots: self.out_slots@,
            stream_ptr: self.stream_ptr,
        }
    }
}

impl View for MoeWorkspaces {
    type V = WorkspaceView;

    closed spec fn view(&self) -> WorkspaceView {
        Map::new(
            |key: MoeWorkspaceKey|
                exists|i: int|
                    0 <= i < self.entries@.len() && (#[trigger] self.entries@[i]).key == key,
            |key: MoeWorkspaceKey| self.entries@[self.at(key)].entry(),
        )
    }
}

impl MoeWorkspaces {
    closed spec fn at(&self, key: MoeWorkspaceKey) -> int {
        choose|i: int| 0 <= i < self.entries@.len() && (#[trigger] self.entries@[i]).key == key
    }

    /// No device and stream has two sets of buffers, and every set was made for its own stream.
    pub closed spec fn wf(&self) -> bool {
        &&& forall|i: int, j: int|
            0 <= i < j < self.entries@.len() ==> (#[trigger] self.entries@[i]).key != (
            #[trigger] self.entries@[j]).key
        &&& forall|i: int|
            0 <= i < self.entries@.len() ==> (#[trigger] self.entries@[i]).stream_ptr
                == self.entries@[i].key.1
    }

    /// A workspace without buffers.
    pub fn new() -> (r: MoeWorkspaces)
        ensures
            r.wf(),
            r@ == Map::<MoeWorkspaceKey, EntryView>::empty(),
    {
        let r: MoeWorkspaces = MoeWorkspaces { entries: Vec::new() };
        assert(r@ =~= Map::<MoeWorkspaceKey, EntryView>::empty());
        r
    }

    /// An entry is where its key is looked up.
    proof fn lemma_at(&self, i: int)
        requires
            self.wf(),
            0 <= i < self.entries@.len(),
        ensures
            self@.contains_key(self.entries@[i].key),
            self.at(self.entries@[i].key) == i,
            self@[self.entries@[i].key] == self.entries@[i].entry(),
    {
        let j = self.at(self.entries@[i].key);
        assert(self.entries@[j].key == self.entries@[i].key);
    }

    /// The buffers of a device and stream were made for that stream.
    pub proof fn law_stream_matches(&self, key: MoeWorkspaceKey)
        requires
            self.wf(),
            self@.contains_key(key),
        ensures
            self@[key].stream_ptr == key.1,
    {
        let i = self.at(key);
        self.lemma_at(i);
    }

    fn find(&self, key: MoeWorkspaceKey) -> (r: usize)
        requires
            self.wf(),
        ensures
            r <= self.entries@.len(),
            r < self.entries@.len() ==> self.entries@[r as int].key == key,
            r < self.entries@.len() <==> self@.contains_key(key),
            r < self.entries@.len() ==> self.at(key) == r && self@[key]
                == self.entries@[r as int].entry(),
    {
        let mut i: usize = 0;
        while i < self.entries.len()
            invariant
                self.wf(),
                i <= self.entries@.len(),
                forall|j: int| 0 <= j < i ==> (#[trigger] self.entries@[j]).key != key,
            decreases self.entries@.len() - i,
        {
            let k: MoeWorkspaceKey = self.entries[i].key;
            proof {
                law_id_is_its_number(k.0, key.0);
            }
            if k.0.same(&key.0) && k.1 == key.1 {
                assert(k == key);
                proof {
                    self.lemma_at(i as int);
                }
                return i;
            }
            i = i + 1;
        }
        i
    }

    /// The stream that the buffers of `key` were made for.
    pub fn stream_ptr(&self, key: MoeWorkspaceKey) -> (r: Option<usize>)
        requires
            self.wf(),
        ensures
            r == if self@.contains_key(key) {
                Some(self@[key].stream_ptr)
            } else {
                None
            },
    {
        let i: usize = self.find(key);
        if i < self.entries.len() {
            Some(self.entries[i].stream_ptr)
        } else {
            None
        }
    }

    /// The capacity of output buffer `slot` of `key`.
    pub fn slot_capacity(&self, key: MoeWorkspaceKey, slot: usize) -> (r: Option<usize>)
        requires
            self.wf(),
        ensures
            r == if self@.contains_key(key) && slot < self@[key].slots.len() {
                Some(self@[key].slots[slot as int])
            } else {
                None
            },
    {
        let i: usize = self.find(key);
        if i < self.entries.len() && slot < self.entries[i].out_slots.len() {
            Some(self.entries[i].out_slots[slot])
        } else {
            None
        }
    }

    fn set_input(&mut self, key: MoeWorkspaceKey, bytes: usize)
        requires
            old(self).wf(),
        ensures
            final(self).wf(),
            final(self)@ == with_input(old(self)@, key, bytes),
    {
        let i: usize = self.find(key);
        let ghost before = *self;
        if i < self.entries.len() {
            self.entries[i].input_quant_capacity = bytes;
            proof {
                assert(self.entries@[i as int].key == key);
                assert(self.entries@[i as int].entry() == EntryView { input: bytes, ..before@[key] });
                self.lemma_same_keys(before, i as int);
                assert(self@ =~= with_input(before@, key, bytes));
            }
        } else {
            self.entries.push(
                MoeWorkspaceEntry {
                    key,
                    out_slots: Vec::new(),
                    input_quant_capacity: bytes,
                    stream_ptr: key.1,
                },
            );
            proof {
                assert(forall|j: int|
                    0 <= j < before.entries@.len() ==> #[trigger] self.entries@[j]
                        == before.entries@[j]);
                assert(self.wf());
                self.lemma_at(i as int);
                assert forall|k: MoeWorkspaceKey| #[trigger]
                    self@.contains_key(k) <==> before@.contains_key(k) || k == key by {
                    if before@.contains_key(k) {
                        let j = before.at(k);
                        assert(self.entries@[j].key == k);
                    }
                    if self@.contains_key(k) && k != key {
                        let j = self.at(k);
                        assert(before.entries@[j].key == k);
                    }
                }
                assert forall|k: MoeWorkspaceKey| k != key && #[trigger]
                    self@.contains_key(k) implies self@[k] == before@[k] by {
                    let j = self.at(k);
                    assert(before.entries@[j].key == k);
                    self.lemma_at(j);
                    before.lemma_at(j);
                }
                assert(self.entries@[i as int].out_slots@ =~= Seq::<usize>::empty());
                assert(self@ =~= with_input(before@, key, bytes));
            }
        }
    }

    /// Changing one entry and none of its key leaves all the others.
    proof fn lemma_same_keys(&self, before: MoeWorkspaces, i: int)
        requires
            before.wf(),
            0 <= i < before.entries@.len(),
            self.entries@.len() == before.entries@.len(),
            forall|j: int|
                0 <= j < before.entries@.len() && j != i ==> #[trigger] self.entries@[j]
                    == before.entries@[j],
            self.entries@[i].key == before.entries@[i].key,
            self.entries@[i].stream_ptr == before.entries@[i].stream_ptr,
        ensures
            self.wf(),
            self@ =~= before@.insert(before.entries@[i].key, self.entries@[i].entry()),
    {
        assert(forall|j: int|
            0 <= j < before.entries@.len() ==> (#[trigger] self.entries@[j]).key
                == before.entries@[j].key && self.entries@[j].stream_ptr
                == before.entries@[j].stream_ptr);
        let key = before.entries@[i].key;
        before.lemma_at(i);
        self.lemma_at(i);
        assert forall|k: MoeWorkspaceKey| #[trigger]
            self@.contains_key(k) <==> before@.contains_key(k) by {
            if before@.contains_key(k) {
                let j = before.at(k);
                assert(self.entries@[j].key == k);
            }
            if self@.contains_key(k) {
                let j = self.at(k);
                assert(before.entries@[j].key == k);
            }
        }
        assert forall|k: MoeWorkspaceKey| k != key && #[trigger]
            self@.contains_key(k) implies self@[k] == before@[k] by {
            let j = self.at(k);
            assert(before.entries@[j].key == k);
            self.lemma_at(j);
            before.lemma_at(j);
        }
    }

    fn set_slot(&mut self, key: MoeWorkspaceKey, slot: usize, elems: usize)
        requires
            old(self).wf(),
            old(self)@.contains_key(key),
            slot <= old(self)@[key].slots.len(),
        ensures
            final(self).wf(),
            final(self)@ == with_slot(old(self)@, key, slot as int, elems),
    {
        let i: usize = self.find(key);
        let ghost before = *self;
        if slot < self.entries[i].out_slots.len() {
            self.entries[i].out_slots[slot] = elems;
        } else {
            self.entries[i].out_slots.push(elems);
        }
        proof {
            self.lemma_same_keys(before, i as int);
            assert(self@ =~= with_slot(before@, key, slot as int, elems));
        }
    }

    /// Makes sure that `key` has buffers for `out_elems` output elements and `input_bytes` bytes of
    /// quantized input, one step at a time: takes what has happened, and says what has to happen
    /// next. The output goes to the first buffer that nobody else holds; where every buffer is
    /// held, a new one is added.
    pub fn moe_workspace_ensure(
        &mut self,
        key: MoeWorkspaceKey,
        out_elems: usize,
        input_bytes: usize,
        event: WorkspaceEvent,
    ) -> (r: WorkspaceAction)
        requires
            old(self).wf(),
            workspace_takes(old(self)@, key, event),
        ensures
            final(self).wf(),
            final(self)@ == workspace_after(old(self)@, key, out_elems, input_bytes, event),
            r == workspace_action(old(self)@, key, out_elems, input_bytes, event),
    {
        match event {
            WorkspaceEvent::Start => {
                let i: usize = self.find(key);
                if i < self.entries.len() && self.entries[i].input_quant_capacity >= input_bytes {
                    WorkspaceAction::CountHandles
                } else {
                    WorkspaceAction::AllocInput { bytes: input_bytes, zeroed: false }
                }
            },
            WorkspaceEvent::InputReady => {
                self.set_input(key, input_bytes);
                WorkspaceAction::CountHandles
            },
            WorkspaceEvent::Counted { counts } => {
                let i: usize = self.find(key);
                let slot: usize = unaliased_slot(counts);
                if slot < self.entries[i].out_slots.len() && self.entries[i].out_slots[slot]
                    >= out_elems {
                    WorkspaceAction::Ready { slot }
                } else {
                    WorkspaceAction::AllocOut { slot, elems: out_elems, zeroed: true }
                }
            },
            WorkspaceEvent::OutReady { slot } => {
                self.set_slot(key, slot, out_elems);
                WorkspaceAction::Ready { slot }
            },
        }
    }
}

/// The first buffer that nobody but the workspace holds, or the number of buffers.
fn unaliased_slot(counts: &[usize]) -> (r: usize)
    ensures
        r == first_free(counts@),
{
    let mut i: usize = 0;
    assert(counts@.skip(0) =~= counts@);
    while i < counts.len() && counts[i] > 1
        invariant
            i <= counts@.len(),
            first_free(counts@) == i + first_free(counts@.skip(i as int)),
        decreases counts@.len() - i,
    {
        assert(counts@.skip(i as int).skip(1) =~= counts@.skip(i + 1));
        i = i + 1;
    }
    i
}

/// The event answers the action that was asked for in this state.
pub open spec fn workspace_due(
    w: WorkspaceView,
    key: MoeWorkspaceKey,
    out_elems: usize,
    input_bytes: usize,
    event: WorkspaceEvent,
) -> bool {
    match event {
        WorkspaceEvent::Start => true,
        WorkspaceEvent::InputReady => !input_ready(w, key, input_bytes),
        WorkspaceEvent::Counted { .. } => workspace_takes(w, key, event) && input_ready(
            w,
            key,
            input_bytes,
        ),
        WorkspaceEvent::OutReady { slot } => workspace_takes(w, key, event) && input_ready(
            w,
            key,
            input_bytes,
        ) && !slot_ready(w, key, slot as int, out_elems),
    }
}

/// Buffers once made stay: none goes away and none loses capacity, and the buffers of other
/// devices and streams are not touched.
pub proof fn law_workspace_only_grows(
    w: WorkspaceView,
    key: MoeWorkspaceKey,
    out_elems: usize,
    input_bytes: usize,
    event: WorkspaceEvent,
)
    requires
        workspace_due(w, key, out_elems, input_bytes, event),
    ensures
        ({
            let after = workspace_after(w, key, out_elems, input_bytes, event);
            &&& forall|k: MoeWorkspaceKey|
                k != key ==> (#[trigger] after.contains_key(k) <==> w.contains_key(k))
            &&& forall|k: MoeWorkspaceKey|
                k != key && w.contains_key(k) ==> #[trigger] after[k] == w[k]
            &&& w.contains_key(key) ==> after.contains_key(key) && after[key].input
                >= w[key].input && after[key].slots.len() >= w[key].slots.len() && forall|i: int|
                0 <= i < w[key].slots.len() ==> #[trigger] after[key].slots[i] >= w[key].slots[i]
        }),
{
}

/// Whatever has happened, the buffers that the next action relies on are there: once handles are
/// to be counted the input has room, and once an output buffer is ready it has room too. A new
/// output buffer holds zeros.
pub proof fn law_workspace_ready_has_room(
    w: WorkspaceView,
    key: MoeWorkspaceKey,
    out_elems: usize,
    input_bytes: usize,
    event: WorkspaceEvent,
)
    requires
        workspace_due(w, key, out_elems, input_bytes, event),
    ensures
        ({
            let after = workspace_after(w, key, out_elems, input_bytes, event);
            match workspace_action(w, key, out_elems, input_bytes, event) {
                WorkspaceAction::AllocInput { bytes, zeroed } => bytes == input_bytes && !zeroed,
                WorkspaceAction::CountHandles => input_ready(after, key, input_bytes),
                WorkspaceAction::AllocOut { slot, elems, zeroed } => elems == out_elems && zeroed
                    && slot <= after[key].slots.len(),
                WorkspaceAction::Ready { slot } => input_ready(after, key, input_bytes)
                    && slot_ready(after, key, slot as int, out_elems),
            }
        }),
{
    match event {
        WorkspaceEvent::Counted { counts } => {
            law_first_free(counts@);
            assert(counts@.len() == counts.len());
        },
        _ => {},
    }
}

/// A buffer that somebody else still holds is never written to: a layer gets a buffer with no
/// other holder, or a new one. So two outputs that are alive at once never share a buffer.
pub proof fn law_workspace_never_aliases(
    w: WorkspaceView,
    key: MoeWorkspaceKey,
    out_elems: usize,
    input_bytes: usize,
    counts: &[usize],
    held: int,
)
    requires
        workspace_takes(w, key, WorkspaceEvent::Counted { counts }),
        0 <= held < counts@.len(),
        counts@[held] > 1,
    ensures
        match workspace_action(
            w,
            key,
            out_elems,
            input_bytes,
            WorkspaceEvent::Counted { counts },
        ) {
            WorkspaceAction::Ready { slot } => slot != held && counts@[slot as int] <= 1,
            WorkspaceAction::AllocOut { slot, .. } => slot != held && (slot == counts@.len()
                || counts@[slot as int] <= 1),
            _ => false,
        },
{
    law_first_free(counts@);
    assert(counts@.len() == counts.len());
}

/// Once a demand has been met with buffer `slot`, a demand that is no larger, made when that
/// buffer is the first free one, is met with the same buffer and without any allocation.
pub proof fn law_workspace_steady_state(
    w: WorkspaceView,
    key: MoeWorkspaceKey,
    slot: int,
    out_elems: usize,
    input_bytes: usize,
    counts: &[usize],
)
    requires
        input_ready(w, key, input_bytes),
        slot_ready(w, key, slot, out_elems),
        counts@.len() == w[key].slots.len(),
        first_free(counts@) == slot,
    ensures
        forall|out2: usize, in2: usize|
            #![trigger workspace_action(w, key, out2, in2, WorkspaceEvent::Start)]
            out2 <= out_elems && in2 <= input_bytes ==> workspace_action(
                w,
                key,
                out2,
                in2,
                WorkspaceEvent::Start,
            ) == WorkspaceAction::CountHandles && workspace_action(
                w,
                key,
                out2,
                in2,
                WorkspaceEvent::Counted { counts },
            ) == (WorkspaceAction::Ready { slot: slot as usize }),
{
}

/// Output goes to the first buffer that nobody else holds, which grows where it is too small; a
/// buffer is added only where every one is held.
pub proof fn law_workspace_takes_first_free(
    w: WorkspaceView,
    key: MoeWorkspaceKey,
    out_elems: usize,
    input_bytes: usize,
    counts: &[usize],
)
    requires
        workspace_takes(w, key, WorkspaceEvent::Counted { counts }),
    ensures
        ({
            let (slot, fits) = match workspace_action(
                w,
                key,
                out_elems,
                input_bytes,
                WorkspaceEvent::Counted { counts },
            ) {
                WorkspaceAction::Ready { slot } => (slot as int, true),
                WorkspaceAction::AllocOut { slot, .. } => (slot as int, false),
                _ => (-1, false),
            };
            &&& 0 <= slot <= counts@.len()
            &&& forall|j: int| 0 <= j < slot ==> #[trigger] counts@[j] > 1
            &&& slot < counts@.len() ==> counts@[slot] <= 1
            &&& fits <==> slot < counts@.len() && w[key].slots[slot] >= out_elems
        }),
{
    law_first_free(counts@);
    assert(counts@.len() == counts.len());
}

/// A buffer that has been allocated is there with the size that was asked for, as the slot that was
/// asked for, and all other slots are as they were. Input that has been allocated leaves the output.
pub proof fn law_workspace_keeps_other_slots(
    w: WorkspaceView,
    key: MoeWorkspaceKey,
    out_elems: usize,
    input_bytes: usize,
    slot: usize,
    other: int,
)
    requires
        w.contains_key(key),
        slot <= w[key].slots.len(),
        0 <= other < w[key].slots.len(),
        other != slot,
    ensures
        ({
            let after = workspace_after(
                w,
                key,
                out_elems,
                input_bytes,
                WorkspaceEvent::OutReady { slot },
            );
            let fed = workspace_after(w, key, out_elems, input_bytes, WorkspaceEvent::InputReady);
            &&& after[key].slots[slot as int] == out_elems
            &&& after[key].slots[other] == w[key].slots[other]
            &&& after[key].input == w[key].input
            &&& after[key].stream_ptr == w[key].stream_ptr
            &&& fed[key].slots == w[key].slots
            &&& fed[key].input == input_bytes
            &&& fed[key].stream_ptr == w[key].stream_ptr
        }),
{
}

/// The first input of a device and stream makes its set of buffers: no output yet, and bound to the
/// stream of its key.
pub proof fn law_workspace_starts_with_input(
    w: WorkspaceView,
    key: MoeWorkspaceKey,
    out_elems: usize,
    input_bytes: usize,
)
    requires
        !w.contains_key(key),
    ensures
        workspace_action(w, key, out_elems, input_bytes, WorkspaceEvent::Start)
            == (WorkspaceAction::AllocInput { bytes: input_bytes, zeroed: false }),
        ({
            let made = workspace_after(w, key, out_elems, input_bytes, WorkspaceEvent::InputReady);
            &&& made.contains_key(key)
            &&& made[key].input == input_bytes
            &&& made[key].slots.len() == 0
            &&& made[key].stream_ptr == key.1
        }),
{
}

} // verus!
