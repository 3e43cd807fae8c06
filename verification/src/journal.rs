//! The trail as mathematics.
//!
//! A journal is what a manager keeps, with the types of the values forgotten: the
//! stores, the trail of archived slots and one mark for each level. This file says
//! which journals are well formed and which history a journal stands for, and
//! proves that each step of the manager on its journal is the step of the same
//! name on the history.
//!
//! The frame of an open snapshot is not kept anywhere. It is what the trail
//! gives back: a cell of that frame is in the first record made for it since the
//! snapshot, and in the store if no record was made. The proofs below follow the
//! first record of a cell through every step.

use vstd::prelude::*;
use crate::history::{Cell, Frame, History, Kind};

verus! {

/// A cell together with the position that it was created at.
pub struct Slot {
    pub id: nat,
    pub cell: Cell,
}

/// An entry of the trail: a slot as it was before the first write of an epoch,
/// and the store that it belongs to.
pub struct Record {
    pub kind: Kind,
    pub slot: Slot,
}

/// What a level remembers: the length of the trail and of every store at the
/// time the level was opened.
#[verifier::ext_equal]
pub struct Mark {
    pub trail_len: nat,
    pub lens: Map<Kind, nat>,
}

/// The clock, the stores, the trail and the marks of the levels, the root level
/// first.
#[verifier::ext_equal]
pub struct Journal {
    pub clock: nat,
    pub stores: Map<Kind, Seq<Slot>>,
    pub trail: Seq<Record>,
    pub marks: Seq<Mark>,
}

/// Whether `record` archives the cell at position `p` of the store `kind`.
pub open spec fn archives(record: Record, kind: Kind, p: int) -> bool {
    record.kind == kind && record.slot.id == p
}

/// The index of the first record in `trail[lo..hi]` that archives the cell, or
/// `hi` if there is none.
pub open spec fn first_record(trail: Seq<Record>, lo: int, hi: int, kind: Kind, p: int) -> int
    decreases hi - lo,
{
    if lo >= hi {
        hi
    } else if archives(trail[lo], kind, p) {
        lo
    } else {
        first_record(trail, lo + 1, hi, kind, p)
    }
}

/// The first record of a range lies in the range or at its end, it archives the
/// cell, and no record before it does.
pub proof fn lemma_first_record(trail: Seq<Record>, lo: int, hi: int, kind: Kind, p: int)
    requires
        lo <= hi,
    ensures
        lo <= first_record(trail, lo, hi, kind, p) <= hi,
        first_record(trail, lo, hi, kind, p) < hi ==> archives(
            trail[first_record(trail, lo, hi, kind, p)],
            kind,
            p,
        ),
        forall|i: int|
            lo <= i < first_record(trail, lo, hi, kind, p) ==> !archives(
                #[trigger] trail[i],
                kind,
                p,
            ),
    decreases hi - lo,
{
    if lo < hi && !archives(trail[lo], kind, p) {
        lemma_first_record(trail, lo + 1, hi, kind, p);
    }
}

/// The first record of a range does not depend on the trail outside the range.
pub proof fn lemma_first_record_local(
    a: Seq<Record>,
    b: Seq<Record>,
    lo: int,
    hi: int,
    kind: Kind,
    p: int,
)
    requires
        lo <= hi,
        forall|i: int| lo <= i < hi ==> a[i] == b[i],
    ensures
        first_record(a, lo, hi, kind, p) == first_record(b, lo, hi, kind, p),
    decreases hi - lo,
{
    if lo < hi {
        lemma_first_record_local(a, b, lo + 1, hi, kind, p);
    }
}

/// The first record of a range is the first record of its lower part, or, if
/// that part has none, the first record of its upper part.
pub proof fn lemma_first_record_split(
    trail: Seq<Record>,
    lo: int,
    mid: int,
    hi: int,
    kind: Kind,
    p: int,
)
    requires
        lo <= mid <= hi,
    ensures
        first_record(trail, lo, hi, kind, p) == if first_record(trail, lo, mid, kind, p) < mid {
            first_record(trail, lo, mid, kind, p)
        } else {
            first_record(trail, mid, hi, kind, p)
        },
    decreases mid - lo,
{
    if lo < mid {
        lemma_first_record_split(trail, lo + 1, mid, hi, kind, p);
    }
}

/// A record that archives the cell bounds the first one from above.
pub proof fn lemma_first_record_at_most(
    trail: Seq<Record>,
    lo: int,
    hi: int,
    kind: Kind,
    p: int,
    i: int,
)
    requires
        lo <= i < hi,
        archives(trail[i], kind, p),
    ensures
        first_record(trail, lo, hi, kind, p) <= i,
{
    lemma_first_record(trail, lo, hi, kind, p);
}

impl Journal {
    /// The journal of a new manager: the root level alone.
    pub open spec fn empty() -> Journal {
        Journal {
            clock: 0,
            stores: Map::total(|kind: Kind| Seq::<Slot>::empty()),
            trail: Seq::empty(),
            marks: seq![Mark { trail_len: 0, lens: Map::total(|kind: Kind| 0nat) }],
        }
    }

    /// The lengths of the stores.
    pub open spec fn lens(self) -> Map<Kind, nat> {
        Map::total(|kind: Kind| self.stores[kind].len())
    }

    /// A slot of generation `generation` is accounted for in `trail[..end]`: it
    /// belongs to the root epoch, or it was created after the mark of its epoch,
    /// or a record made since that mark archives what it replaced.
    pub open spec fn covered(self, kind: Kind, p: int, generation: nat, end: int) -> bool {
        generation >= 1 ==> {
            ||| p >= self.marks[generation as int].lens[kind]
            ||| first_record(
                self.trail,
                self.marks[generation as int].trail_len as int,
                end,
                kind,
                p,
            ) < end
        }
    }

    /// What holds of the slot at position `p` of the store `kind`: it knows its
    /// position, holds a value of the store's type, is no younger than the clock
    /// and is accounted for in the trail.
    pub open spec fn slot_wf(self, kind: Kind, p: int) -> bool {
        let slot = self.stores[kind][p];
        &&& slot.id == p
        &&& kind.admits(slot.cell.value)
        &&& slot.cell.generation <= self.clock
        &&& self.covered(kind, p, slot.cell.generation, self.trail.len() as int)
    }

    /// What holds of the record at index `i` of the trail. Its slot lies within
    /// the store, and within what every later level has marked of the store. It
    /// holds a value of the store's type. It was made in a later epoch than the one
    /// that its slot belongs to, and its slot is accounted for in the trail
    /// below it.
    pub open spec fn record_wf(self, i: int) -> bool {
        let record = self.trail[i];
        let generation = record.slot.cell.generation;
        &&& record.slot.id < self.stores[record.kind].len()
        &&& record.kind.admits(record.slot.cell.value)
        &&& forall|j: int|
            0 <= j < self.marks.len() && i < (#[trigger] self.marks[j]).trail_len
                ==> record.slot.id < self.marks[j].lens[record.kind]
        &&& generation + 1 < self.marks.len()
        &&& self.marks[generation as int + 1].trail_len <= i
        &&& self.covered(record.kind, record.slot.id as int, generation, i)
    }

    /// The journals that a manager can have. There is one mark for the root level
    /// and one for each saved state. From one mark to the next, and from the last
    /// mark to the present, neither the trail nor a store gets shorter. Every slot
    /// and every record is well formed.
    pub open spec fn wf(self) -> bool {
        &&& self.marks.len() == self.clock + 1
        &&& forall|kind: Kind| #[trigger] self.stores.dom().contains(kind)
        &&& forall|j: int, kind: Kind|
            0 <= j < self.marks.len() ==> #[trigger] self.marks[j].lens.dom().contains(kind)
        &&& forall|i: int, j: int|
            0 <= i <= j < self.marks.len() ==> (#[trigger] self.marks[i]).trail_len <= (
            #[trigger] self.marks[j]).trail_len
        &&& forall|j: int|
            0 <= j < self.marks.len() ==> (#[trigger] self.marks[j]).trail_len <= self.trail.len()
        &&& forall|i: int, j: int, kind: Kind|
            0 <= i <= j < self.marks.len() ==> #[trigger] self.marks[i].lens[kind]
                <= #[trigger] self.marks[j].lens[kind]
        &&& forall|j: int, kind: Kind|
            0 <= j < self.marks.len() ==> #[trigger] self.marks[j].lens[kind]
                <= self.stores[kind].len()
        &&& forall|kind: Kind, p: int|
            0 <= p < self.stores[kind].len() ==> #[trigger] self.slot_wf(kind, p)
        &&& forall|i: int| 0 <= i < self.trail.len() ==> #[trigger] self.record_wf(i)
    }

    /// The slot that position `p` of `kind` held when the trail was `n` long: what
    /// the first record since then archived, or, without such a record, what the
    /// store holds.
    pub open spec fn slot_at(self, n: int, kind: Kind, p: int) -> Slot {
        let i = first_record(self.trail, n, self.trail.len() as int, kind, p);
        if i < self.trail.len() {
            self.trail[i].slot
        } else {
            self.stores[kind][p]
        }
    }

    /// The frame that was in force when level `j` was opened.
    pub open spec fn frame_at(self, j: int) -> Frame {
        let mark = self.marks[j];
        Frame {
            stores: Map::total(
                |kind: Kind|
                    Seq::new(
                        mark.lens[kind],
                        |p: int| self.slot_at(mark.trail_len as int, kind, p).cell,
                    ),
            ),
            trail_len: mark.trail_len,
        }
    }

    /// The frame in force.
    pub open spec fn current(self) -> Frame {
        Frame {
            stores: Map::total(
                |kind: Kind|
                    Seq::new(self.stores[kind].len(), |p: int| self.stores[kind][p].cell),
            ),
            trail_len: self.trail.len(),
        }
    }

    /// The history that the journal stands for.
    pub open spec fn history(self) -> History {
        History {
            current: self.current(),
            saved: Seq::new((self.marks.len() - 1) as nat, |j: int| self.frame_at(j + 1)),
        }
    }

    /// A new slot at the end of the store `kind`.
    pub open spec fn create(self, kind: Kind, value: Option<int>) -> Journal {
        let slot = Slot {
            id: self.stores[kind].len(),
            cell: Cell { generation: self.clock, value },
        };
        Journal { stores: self.stores.insert(kind, self.stores[kind].push(slot)), ..self }
    }

    /// The journal of a new manager is well formed and stands for the empty
    /// history.
    pub proof fn lemma_empty()
        ensures
            Self::empty().wf(),
            Self::empty().history() == History::empty(),
    {
        let j = Self::empty();
        assert(j.history().current.stores =~~= Frame::empty().stores);
    }

    /// Creating a slot is creating a cell.
    pub proof fn lemma_create(self, kind: Kind, value: Option<int>)
        requires
            self.wf(),
            kind.admits(value),
        ensures
            self.create(kind, value).wf(),
            self.create(kind, value).history() == self.history().create(kind, value),
    {
        let next = self.create(kind, value);
        assert forall|k: Kind, p: int| 0 <= p < next.stores[k].len() implies #[trigger]
            next.slot_wf(k, p) by {
            if k != kind || p != self.stores[kind].len() {
                assert(self.slot_wf(k, p));
            }
        }
        assert forall|i: int| 0 <= i < next.trail.len() implies #[trigger] next.record_wf(i) by {
            assert(self.record_wf(i));
        }
        let a = next.history();
        let b = self.history().create(kind, value);
        assert(a.current.stores =~~= b.current.stores);
        assert forall|j: int| 0 <= j < a.saved.len() implies a.saved[j] == b.saved[j] by {
            assert(next.frame_at(j + 1).stores =~~= self.frame_at(j + 1).stores);
        }
    }

    /// A new value in a slot that already belongs to the current epoch.
    pub open spec fn overwrite(self, kind: Kind, p: int, value: Option<int>) -> Journal {
        let slot = self.stores[kind][p];
        let next = Slot { id: slot.id, cell: Cell { generation: slot.cell.generation, value } };
        Journal { stores: self.stores.insert(kind, self.stores[kind].update(p, next)), ..self }
    }

    /// A new value in a slot of an earlier epoch: the slot goes to the trail
    /// first, and its successor is stamped with the clock.
    pub open spec fn archive(self, kind: Kind, p: int, value: Option<int>) -> Journal {
        let slot = self.stores[kind][p];
        let next = Slot { id: slot.id, cell: Cell { generation: self.clock, value } };
        Journal {
            stores: self.stores.insert(kind, self.stores[kind].update(p, next)),
            trail: self.trail.push(Record { kind, slot }),
            ..self
        }
    }

    /// Overwriting a slot of the current epoch is a write that logs nothing: the
    /// frame of every open snapshot has the cell from a record, or does not reach
    /// it.
    pub proof fn lemma_overwrite(self, kind: Kind, p: int, value: Option<int>)
        requires
            self.wf(),
            kind.admits(value),
            0 <= p < self.stores[kind].len(),
            self.stores[kind][p].cell.generation >= self.clock,
            self.stores[kind][p].cell.value != value,
        ensures
            self.overwrite(kind, p, value).wf(),
            self.overwrite(kind, p, value).history() == self.history().write(
                kind,
                p as nat,
                value,
            ),
    {
        let next = self.overwrite(kind, p, value);
        let len = self.trail.len() as int;
        assert(self.slot_wf(kind, p));
        assert forall|k: Kind, q: int| 0 <= q < next.stores[k].len() implies #[trigger]
            next.slot_wf(k, q) by {
            assert(self.slot_wf(k, q));
        }
        assert forall|i: int| 0 <= i < next.trail.len() implies #[trigger] next.record_wf(i) by {
            assert(self.record_wf(i));
        }
        let a = next.history();
        let b = self.history().write(kind, p as nat, value);
        assert(a.current.stores =~~= b.current.stores);
        assert forall|j: int| 0 <= j < a.saved.len() implies a.saved[j] == b.saved[j] by {
            let mark = self.marks[j + 1];
            assert forall|k: Kind, q: int| 0 <= q < mark.lens[k] implies next.slot_at(
                mark.trail_len as int,
                k,
                q,
            ) == self.slot_at(mark.trail_len as int, k, q) by {
                if k == kind && q == p {
                    let top = self.marks[self.clock as int];
                    lemma_first_record(self.trail, top.trail_len as int, len, kind, p);
                    lemma_first_record_at_most(
                        self.trail,
                        mark.trail_len as int,
                        len,
                        kind,
                        p,
                        first_record(self.trail, top.trail_len as int, len, kind, p),
                    );
                }
            }
            assert(next.frame_at(j + 1).stores =~~= self.frame_at(j + 1).stores);
        }
    }

    /// Archiving a slot and replacing it is a write that logs one record: the
    /// frames that had the cell from the store have it from the new record.
    pub proof fn lemma_archive(self, kind: Kind, p: int, value: Option<int>)
        requires
            self.wf(),
            kind.admits(value),
            0 <= p < self.stores[kind].len(),
            self.stores[kind][p].cell.generation < self.clock,
            self.stores[kind][p].cell.value != value,
        ensures
            self.archive(kind, p, value).wf(),
            self.archive(kind, p, value).history() == self.history().write(kind, p as nat, value),
    {
        let next = self.archive(kind, p, value);
        let len = self.trail.len() as int;
        assert(self.slot_wf(kind, p));
        // How the first record of a range changes with the new record.
        assert forall|lo: int, k: Kind, q: int| 0 <= lo <= len implies #[trigger] first_record(
            next.trail,
            lo,
            len + 1,
            k,
            q,
        ) == if first_record(self.trail, lo, len, k, q) < len {
            first_record(self.trail, lo, len, k, q)
        } else if k == kind && q == p {
            len
        } else {
            len + 1
        } by {
            lemma_first_record_split(next.trail, lo, len, len + 1, k, q);
            lemma_first_record_local(self.trail, next.trail, lo, len, k, q);
            assert(first_record(next.trail, len + 1, len + 1, k, q) == len + 1);
        }
        assert forall|k: Kind, q: int| 0 <= q < next.stores[k].len() implies #[trigger]
            next.slot_wf(k, q) by {
            assert(self.slot_wf(k, q));
        }
        assert forall|i: int| 0 <= i < next.trail.len() implies #[trigger] next.record_wf(i) by {
            let g = next.trail[i].slot.cell.generation;
            if i < len {
                assert(self.record_wf(i));
                lemma_first_record_local(
                    self.trail,
                    next.trail,
                    self.marks[g as int].trail_len as int,
                    i,
                    next.trail[i].kind,
                    next.trail[i].slot.id as int,
                );
            } else {
                lemma_first_record_local(
                    self.trail,
                    next.trail,
                    self.marks[g as int].trail_len as int,
                    len,
                    kind,
                    p,
                );
            }
        }
        let a = next.history();
        let b = self.history().write(kind, p as nat, value);
        assert(a.current.stores =~~= b.current.stores);
        assert forall|j: int| 0 <= j < a.saved.len() implies a.saved[j] == b.saved[j] by {
            let mark = self.marks[j + 1];
            assert forall|k: Kind, q: int| 0 <= q < mark.lens[k] implies next.slot_at(
                mark.trail_len as int,
                k,
                q,
            ) == self.slot_at(mark.trail_len as int, k, q) by {
                lemma_first_record(self.trail, mark.trail_len as int, len, k, q);
            }
            assert(next.frame_at(j + 1).stores =~~= self.frame_at(j + 1).stores);
        }
    }

    /// A write as the manager performs it.
    pub open spec fn write(self, kind: Kind, p: int, value: Option<int>) -> Journal {
        let cell = self.stores[kind][p].cell;
        if cell.value == value {
            self
        } else if cell.generation < self.clock {
            self.archive(kind, p, value)
        } else {
            self.overwrite(kind, p, value)
        }
    }

    /// A new level, marked with the present lengths.
    pub open spec fn snapshot(self) -> Journal {
        Journal {
            clock: self.clock + 1,
            marks: self.marks.push(Mark { trail_len: self.trail.len(), lens: self.lens() }),
            ..self
        }
    }

    /// The last level closed: every slot is what it was at the mark, and the
    /// trail and the stores have the lengths of the mark again.
    pub open spec fn rollback(self) -> Journal {
        let mark = self.marks.last();
        Journal {
            clock: (self.clock - 1) as nat,
            stores: Map::total(
                |kind: Kind|
                    Seq::new(
                        mark.lens[kind],
                        |p: int| self.slot_at(mark.trail_len as int, kind, p),
                    ),
            ),
            trail: self.trail.take(mark.trail_len as int),
            marks: self.marks.drop_last(),
        }
    }

    /// A write on the journal is a write on the history.
    pub proof fn lemma_write(self, kind: Kind, p: int, value: Option<int>)
        requires
            self.wf(),
            kind.admits(value),
            0 <= p < self.stores[kind].len(),
        ensures
            self.write(kind, p, value).wf(),
            self.write(kind, p, value).history() == self.history().write(kind, p as nat, value),
    {
        let cell = self.stores[kind][p].cell;
        if cell.value == value {
        } else if cell.generation < self.clock {
            self.lemma_archive(kind, p, value);
        } else {
            self.lemma_overwrite(kind, p, value);
        }
    }

    /// Opening a level is a snapshot: the frame of the new level is the frame in
    /// force.
    pub proof fn lemma_snapshot(self)
        requires
            self.wf(),
        ensures
            self.snapshot().wf(),
            self.snapshot().history() == self.history().snapshot(),
    {
        let next = self.snapshot();
        assert forall|k: Kind, q: int| 0 <= q < next.stores[k].len() implies #[trigger]
            next.slot_wf(k, q) by {
            assert(self.slot_wf(k, q));
        }
        assert forall|i: int| 0 <= i < next.trail.len() implies #[trigger] next.record_wf(i) by {
            assert(self.record_wf(i));
        }
        let a = next.history();
        let b = self.history().snapshot();
        assert forall|j: int| 0 <= j < a.saved.len() implies a.saved[j] == b.saved[j] by {
            if j + 1 < self.marks.len() {
                assert(next.frame_at(j + 1).stores =~~= self.frame_at(j + 1).stores);
            } else {
                assert(next.frame_at(j + 1).stores =~~= self.current().stores);
            }
        }
    }

    /// Closing the last level is a rollback. The frames of the levels below are
    /// what they were: a cell that they had from a record above the mark, or from
    /// the store, they now have from the store.
    pub proof fn lemma_rollback(self)
        requires
            self.wf(),
            self.clock >= 1,
        ensures
            self.rollback().wf(),
            self.rollback().history() == self.history().rollback(),
    {
        let next = self.rollback();
        let c = self.clock as int;
        let mark = self.marks[c];
        let n = mark.trail_len as int;
        let len = self.trail.len() as int;
        assert forall|k: Kind, q: int| 0 <= q < next.stores[k].len() implies #[trigger]
            next.slot_wf(k, q) by {
            assert(self.slot_wf(k, q));
            lemma_first_record(self.trail, n, len, k, q);
            let first = first_record(self.trail, n, len, k, q);
            let g = next.stores[k][q].cell.generation as int;
            if first < len {
                assert(self.record_wf(first));
                if g >= 1 && q < self.marks[g].lens[k] {
                    let m = self.marks[g].trail_len as int;
                    lemma_first_record(self.trail, m, first, k, q);
                    let earlier = first_record(self.trail, m, first, k, q);
                    lemma_first_record_at_most(next.trail, m, n, k, q, earlier);
                }
            } else {
                if g >= 1 && q < self.marks[g].lens[k] {
                    let m = self.marks[g].trail_len as int;
                    lemma_first_record_split(self.trail, m, n, len, k, q);
                    lemma_first_record_local(self.trail, next.trail, m, n, k, q);
                }
            }
        }
        assert forall|i: int| 0 <= i < next.trail.len() implies #[trigger] next.record_wf(i) by {
            assert(self.record_wf(i));
            let record = self.trail[i];
            let g = record.slot.cell.generation as int;
            lemma_first_record_local(
                self.trail,
                next.trail,
                self.marks[g].trail_len as int,
                i,
                record.kind,
                record.slot.id as int,
            );
        }
        let a = next.history();
        let b = self.history().rollback();
        assert(a.current.stores =~~= b.current.stores);
        assert forall|j: int| 0 <= j < a.saved.len() implies a.saved[j] == b.saved[j] by {
            let lower = self.marks[j + 1];
            let m = lower.trail_len as int;
            assert forall|k: Kind, q: int| 0 <= q < lower.lens[k] implies next.slot_at(m, k, q)
                == self.slot_at(m, k, q) by {
                lemma_first_record_split(self.trail, m, n, len, k, q);
                lemma_first_record_local(self.trail, next.trail, m, n, k, q);
                lemma_first_record(self.trail, m, n, k, q);
            }
            assert(next.frame_at(j + 1).stores =~~= self.frame_at(j + 1).stores);
        }
    }

    /// The history of a well-formed journal is well formed.
    pub proof fn lemma_history_wf(self)
        requires
            self.wf(),
        ensures
            self.history().wf(),
    {
        let h = self.history();
        let len = self.trail.len() as int;
        assert forall|k: Kind, q: int| 0 <= q < h.current.stores[k].len() implies {
            &&& (#[trigger] h.current.stores[k][q]).generation <= h.depth()
            &&& k.admits(h.current.stores[k][q].value)
        } by {
            assert(self.slot_wf(k, q));
        }
        assert forall|j: int| 0 <= j < h.saved.len() implies (#[trigger] h.saved[j]).wf(
            j as nat,
        ) by {
            self.lemma_frame_wf(j + 1);
        }
        if len > 0 {
            assert(self.record_wf(0));
        }
    }

    /// No cell of the frame of level `j` is younger than the clock at which the
    /// level was opened, and each holds a value of its store's type.
    proof fn lemma_frame_wf(self, j: int)
        requires
            self.wf(),
            1 <= j < self.marks.len(),
        ensures
            self.frame_at(j).wf((j - 1) as nat),
    {
        let frame = self.frame_at(j);
        let len = self.trail.len() as int;
        let mark = self.marks[j];
        let m = mark.trail_len as int;
        assert forall|k: Kind, q: int| 0 <= q < frame.stores[k].len() implies {
            &&& (#[trigger] frame.stores[k][q]).generation <= j - 1
            &&& k.admits(frame.stores[k][q].value)
        } by {
            assert(self.slot_wf(k, q));
            lemma_first_record(self.trail, m, len, k, q);
            let first = first_record(self.trail, m, len, k, q);
            let g = frame.stores[k][q].generation as int;
            if first < len {
                assert(self.record_wf(first));
            }
            if g >= j {
                let from = self.marks[g].trail_len as int;
                let end = if first < len {
                    first
                } else {
                    len
                };
                lemma_first_record(self.trail, from, end, k, q);
            }
        }
    }
}

} // verus!
