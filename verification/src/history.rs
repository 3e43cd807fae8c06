//! The mathematical model of a state manager.
//!
//! A manager is described by the frame in force and by the frames that its open
//! snapshots have put aside. A frame holds every cell of every store, with its
//! value and its generation, and the length of the trail. Every operation of the
//! manager is a function on this model: the contracts of the manager say which,
//! and the laws at the end of this file are proved about these functions alone.

use vstd::prelude::*;

verus! {

/// A store of the manager: one for each integer type, and one for each optional
/// integer type. Managed booleans are cells of `Usize`, and managed optional
/// booleans are cells of `OptionUsize`.
#[derive(Clone, Copy, Debug, PartialEq, Eq, Hash, Structural)]
pub enum Kind {
    U8,
    U16,
    U32,
    U64,
    U128,
    Usize,
    I8,
    I16,
    I32,
    I64,
    I128,
    Isize,
    OptionU8,
    OptionU16,
    OptionU32,
    OptionU64,
    OptionU128,
    OptionUsize,
    OptionI8,
    OptionI16,
    OptionI32,
    OptionI64,
    OptionI128,
    OptionIsize,
}

impl Kind {
    /// The least value of the integer type that the store is for.
    pub open spec fn min(self) -> int {
        match self {
            Kind::U8 | Kind::OptionU8 => u8::MIN as int,
            Kind::U16 | Kind::OptionU16 => u16::MIN as int,
            Kind::U32 | Kind::OptionU32 => u32::MIN as int,
            Kind::U64 | Kind::OptionU64 => u64::MIN as int,
            Kind::U128 | Kind::OptionU128 => u128::MIN as int,
            Kind::Usize | Kind::OptionUsize => usize::MIN as int,
            Kind::I8 | Kind::OptionI8 => i8::MIN as int,
            Kind::I16 | Kind::OptionI16 => i16::MIN as int,
            Kind::I32 | Kind::OptionI32 => i32::MIN as int,
            Kind::I64 | Kind::OptionI64 => i64::MIN as int,
            Kind::I128 | Kind::OptionI128 => i128::MIN as int,
            Kind::Isize | Kind::OptionIsize => isize::MIN as int,
        }
    }

    /// The greatest value of the integer type that the store is for.
    pub open spec fn max(self) -> int {
        match self {
            Kind::U8 | Kind::OptionU8 => u8::MAX as int,
            Kind::U16 | Kind::OptionU16 => u16::MAX as int,
            Kind::U32 | Kind::OptionU32 => u32::MAX as int,
            Kind::U64 | Kind::OptionU64 => u64::MAX as int,
            Kind::U128 | Kind::OptionU128 => u128::MAX as int,
            Kind::Usize | Kind::OptionUsize => usize::MAX as int,
            Kind::I8 | Kind::OptionI8 => i8::MAX as int,
            Kind::I16 | Kind::OptionI16 => i16::MAX as int,
            Kind::I32 | Kind::OptionI32 => i32::MAX as int,
            Kind::I64 | Kind::OptionI64 => i64::MAX as int,
            Kind::I128 | Kind::OptionI128 => i128::MAX as int,
            Kind::Isize | Kind::OptionIsize => isize::MAX as int,
        }
    }

    /// Whether a cell of the store may be without a value.
    pub open spec fn optional(self) -> bool {
        match self {
            Kind::U8 => false,
            Kind::U16 => false,
            Kind::U32 => false,
            Kind::U64 => false,
            Kind::U128 => false,
            Kind::Usize => false,
            Kind::I8 => false,
            Kind::I16 => false,
            Kind::I32 => false,
            Kind::I64 => false,
            Kind::I128 => false,
            Kind::Isize => false,
            Kind::OptionU8 => true,
            Kind::OptionU16 => true,
            Kind::OptionU32 => true,
            Kind::OptionU64 => true,
            Kind::OptionU128 => true,
            Kind::OptionUsize => true,
            Kind::OptionI8 => true,
            Kind::OptionI16 => true,
            Kind::OptionI32 => true,
            Kind::OptionI64 => true,
            Kind::OptionI128 => true,
            Kind::OptionIsize => true,
        }
    }

    /// Whether a cell of the store can hold `value`.
    pub open spec fn admits(self, value: Option<int>) -> bool {
        match value {
            Some(v) => self.min() <= v <= self.max(),
            None => self.optional(),
        }
    }
}

/// What a cell holds: its value, written as an integer (`None` for an optional
/// cell without a value), and the clock of the epoch that last archived or
/// created it.
pub struct Cell {
    pub generation: nat,
    pub value: Option<int>,
}

/// Everything a manager shows at one moment: the cells of every store, in the
/// order of their creation, and the length of the trail, the log of what the
/// writes have replaced.
#[verifier::ext_equal]
pub struct Frame {
    pub stores: Map<Kind, Seq<Cell>>,
    pub trail_len: nat,
}

/// The frame in force, and below it the frames of the open snapshots, oldest
/// first. The clock is the number of open snapshots.
#[verifier::ext_equal]
pub struct History {
    pub current: Frame,
    pub saved: Seq<Frame>,
}

impl Frame {
    /// The frame of a new manager: no cell, nothing logged.
    pub open spec fn empty() -> Frame {
        Frame { stores: Map::total(|kind: Kind| Seq::<Cell>::empty()), trail_len: 0 }
    }

    /// Every store is present, and every cell holds a value of its store's type
    /// and is no younger than `clock`.
    pub open spec fn wf(self, clock: nat) -> bool {
        &&& forall|kind: Kind| #[trigger] self.stores.dom().contains(kind)
        &&& forall|kind: Kind, p: int|
            0 <= p < self.stores[kind].len() ==> {
                &&& (#[trigger] self.stores[kind][p]).generation <= clock
                &&& kind.admits(self.stores[kind][p].value)
            }
    }

    /// Neither the trail nor a store is longer in this frame than in `later`.
    pub open spec fn precedes(self, later: Frame) -> bool {
        &&& self.trail_len <= later.trail_len
        &&& forall|kind: Kind| #[trigger] self.stores[kind].len() <= later.stores[kind].len()
    }

    /// This frame with one cell of `kind` replaced.
    pub open spec fn put(self, kind: Kind, p: nat, cell: Cell) -> Frame {
        Frame { stores: self.stores.insert(kind, self.stores[kind].update(p as int, cell)), ..self }
    }

    /// This frame with one more cell at the end of `kind`.
    pub open spec fn grow(self, kind: Kind, cell: Cell) -> Frame {
        Frame { stores: self.stores.insert(kind, self.stores[kind].push(cell)), ..self }
    }
}

impl History {
    /// The model of a new manager.
    pub open spec fn empty() -> History {
        History { current: Frame::empty(), saved: Seq::empty() }
    }

    /// The number of open snapshots, which is also the clock.
    pub open spec fn depth(self) -> nat {
        self.saved.len()
    }

    /// The number of cells in the store `kind`.
    pub open spec fn len(self, kind: Kind) -> nat {
        self.current.stores[kind].len()
    }

    /// Whether position `p` addresses a cell of the store `kind`.
    pub open spec fn holds(self, kind: Kind, p: nat) -> bool {
        p < self.len(kind)
    }

    /// The cell at position `p` of the store `kind`.
    pub open spec fn cell(self, kind: Kind, p: nat) -> Cell {
        self.current.stores[kind][p as int]
    }

    /// The value of the cell at position `p` of the store `kind`.
    pub open spec fn read(self, kind: Kind, p: nat) -> Option<int> {
        self.cell(kind, p).value
    }

    /// The length of the trail.
    pub open spec fn trail_len(self) -> nat {
        self.current.trail_len
    }

    /// Whether the cell already belongs to the current epoch, so that a write
    /// to it archives nothing.
    pub open spec fn settled(self, kind: Kind, p: nat) -> bool {
        self.cell(kind, p).generation >= self.depth()
    }

    /// What holds of the history of every manager. The frames are well formed,
    /// each for the clock that it was in force at. From one frame to the next no
    /// store gets shorter, nor does the trail. Nothing is logged before the first
    /// snapshot.
    pub open spec fn wf(self) -> bool {
        &&& self.current.wf(self.depth())
        &&& forall|j: int| 0 <= j < self.saved.len() ==> (#[trigger] self.saved[j]).wf(j as nat)
        &&& forall|j: int|
            0 <= j < self.saved.len() ==> (#[trigger] self.saved[j]).precedes(self.current)
        &&& forall|i: int, j: int|
            0 <= i <= j < self.saved.len() ==> (#[trigger] self.saved[i]).precedes(
                #[trigger] self.saved[j],
            )
        &&& self.saved.len() == 0 ==> self.current.trail_len == 0
        &&& self.saved.len() > 0 ==> self.saved[0].trail_len == 0
    }

    /// A new cell with `value` at the end of the store `kind`.
    pub open spec fn create(self, kind: Kind, value: Option<int>) -> History {
        History {
            current: self.current.grow(kind, Cell { generation: self.depth(), value }),
            ..self
        }
    }

    /// `value` written to the cell at `p`. Writing the value that the cell has
    /// changes nothing. Any other write stamps the cell with the clock, and the
    /// first such write of an epoch adds one record to the trail.
    pub open spec fn write(self, kind: Kind, p: nat, value: Option<int>) -> History {
        if self.read(kind, p) == value {
            self
        } else {
            let logged: nat = if self.settled(kind, p) {
                self.trail_len()
            } else {
                self.trail_len() + 1
            };
            History {
                current: Frame {
                    trail_len: logged,
                    ..self.current.put(kind, p, Cell { generation: self.depth(), value })
                },
                ..self
            }
        }
    }

    /// The cell's value plus one. Meant for a cell that holds a value.
    pub open spec fn increment(self, kind: Kind, p: nat) -> History {
        self.write(kind, p, Some(self.read(kind, p).unwrap() + 1))
    }

    /// The cell's value minus one. Meant for a cell that holds a value.
    pub open spec fn decrement(self, kind: Kind, p: nat) -> History {
        self.write(kind, p, Some(self.read(kind, p).unwrap() - 1))
    }

    /// A new epoch: the current frame is put aside and stays in force.
    pub open spec fn snapshot(self) -> History {
        History { current: self.current, saved: self.saved.push(self.current) }
    }

    /// The last epoch undone: the frame put aside last is in force again.
    /// Meant for a history with an open snapshot.
    pub open spec fn rollback(self) -> History {
        History { current: self.saved.last(), saved: self.saved.drop_last() }
    }
}

/// One operation on a history.
pub enum Step {
    /// A new cell with the given value.
    Create { kind: Kind, value: Option<int> },
    /// A value written to the cell at a position.
    Write { kind: Kind, position: nat, value: Option<int> },
    /// A new epoch.
    Snapshot,
    /// The last epoch undone.
    Rollback,
}

impl History {
    /// The history after one step.
    pub open spec fn step(self, step: Step) -> History {
        match step {
            Step::Create { kind, value } => self.create(kind, value),
            Step::Write { kind, position, value } => self.write(kind, position, value),
            Step::Snapshot => self.snapshot(),
            Step::Rollback => self.rollback(),
        }
    }

    /// The history after the steps, taken in their order.
    pub open spec fn run(self, steps: Seq<Step>) -> History
        decreases steps.len(),
    {
        if steps.len() == 0 {
            self
        } else {
            self.run(steps.drop_last()).step(steps.last())
        }
    }

    /// Whether the steps, taken from this history, leave the first `floor`
    /// snapshots open: each rollback among them undoes a later snapshot.
    pub open spec fn nests(self, steps: Seq<Step>, floor: nat) -> bool
        decreases steps.len(),
    {
        if steps.len() == 0 {
            true
        } else {
            &&& self.nests(steps.drop_last(), floor)
            &&& steps.last() is Rollback ==> self.run(steps.drop_last()).depth() > floor
        }
    }

    /// The history after the values were written to one cell, in their order.
    pub open spec fn write_all(self, kind: Kind, p: nat, values: Seq<Option<int>>) -> History
        decreases values.len(),
    {
        if values.len() == 0 {
            self
        } else {
            self.write_all(kind, p, values.drop_last()).write(kind, p, values.last())
        }
    }

    /// Reading a cell right after a write to it gives the value written.
    pub proof fn lemma_read_after_write(self, kind: Kind, p: nat, value: Option<int>)
        requires
            self.holds(kind, p),
        ensures
            self.write(kind, p, value).read(kind, p) == value,
    {
    }

    /// A write leaves every other cell as it was, creates and retracts no cell
    /// and changes no frame of an open snapshot.
    pub proof fn lemma_write_is_local(
        self,
        kind: Kind,
        p: nat,
        value: Option<int>,
        other: Kind,
        q: nat,
    )
        requires
            self.wf(),
            self.holds(kind, p),
            other != kind || q != p,
        ensures
            self.write(kind, p, value).len(other) == self.len(other),
            self.holds(other, q) ==> self.write(kind, p, value).cell(other, q) == self.cell(
                other,
                q,
            ),
            self.write(kind, p, value).saved == self.saved,
    {
    }

    /// A new cell is the last of its store and holds the value given. Creating
    /// it leaves every other cell as it was, logs nothing and changes no frame of
    /// an open snapshot.
    pub proof fn lemma_create_is_local(self, kind: Kind, value: Option<int>, other: Kind, q: nat)
        requires
            self.wf(),
            self.holds(other, q),
        ensures
            self.create(kind, value).len(kind) == self.len(kind) + 1,
            self.create(kind, value).read(kind, self.len(kind)) == value,
            self.create(kind, value).cell(other, q) == self.cell(other, q),
            self.create(kind, value).trail_len() == self.trail_len(),
            self.create(kind, value).saved == self.saved,
    {
    }

    /// Snapshots nest like a stack. After a snapshot, a write, a second snapshot
    /// and a second write, the first rollback gives the history after the first
    /// write, and the second gives the history before the first snapshot.
    pub proof fn lemma_stack_discipline(
        self,
        kind: Kind,
        p: nat,
        first: Option<int>,
        second: Option<int>,
    )
        requires
            self.holds(kind, p),
        ensures
            ({
                let inner = self.snapshot().write(kind, p, first);
                let outer = inner.snapshot().write(kind, p, second);
                &&& inner.read(kind, p) == first
                &&& outer.read(kind, p) == second
                &&& outer.rollback() == inner
                &&& outer.rollback().rollback() == self
            }),
    {
        let inner = self.snapshot().write(kind, p, first);
        assert(inner.snapshot().saved.drop_last() =~= inner.saved);
        assert(self.snapshot().saved.drop_last() =~= self.saved);
    }

    /// Steps that leave the first `floor` snapshots open leave the frames of
    /// these snapshots as they are.
    pub proof fn lemma_run_keeps_frames(self, steps: Seq<Step>, floor: nat)
        requires
            floor <= self.depth(),
            self.nests(steps, floor),
        ensures
            floor <= self.run(steps).depth(),
            self.run(steps).saved.take(floor as int) == self.saved.take(floor as int),
        decreases steps.len(),
    {
        if steps.len() > 0 {
            let before = self.run(steps.drop_last());
            self.lemma_run_keeps_frames(steps.drop_last(), floor);
            assert(before.step(steps.last()).saved.take(floor as int) =~= before.saved.take(
                floor as int,
            ));
        }
    }

    /// A rollback undoes everything since the matching snapshot. Whatever was
    /// created, written, saved and restored in between, the history is the one
    /// before the snapshot: every value, every store's length, the length of the
    /// trail and the clock.
    pub proof fn lemma_rollback_restores(self, steps: Seq<Step>)
        requires
            self.snapshot().nests(steps, self.depth() + 1),
            self.snapshot().run(steps).depth() == self.depth() + 1,
        ensures
            self.snapshot().run(steps).rollback() == self,
    {
        let saved = self.snapshot().run(steps).saved;
        let floor = self.depth() + 1;
        self.snapshot().lemma_run_keeps_frames(steps, floor);
        assert(saved =~= saved.take(floor as int));
        assert(self.snapshot().saved =~= self.snapshot().saved.take(floor as int));
        assert(self.snapshot().saved.drop_last() =~= self.saved);
    }

    /// Writing the value that a cell has changes nothing: the trail does
    /// not grow.
    pub proof fn lemma_idempotent_write(self, kind: Kind, p: nat)
        ensures
            self.write(kind, p, self.read(kind, p)) == self,
    {
    }

    /// A write adds at most one record to the trail, and none if the cell
    /// belongs to the current epoch already. A write that changes the value
    /// makes the cell belong to the current epoch.
    pub proof fn lemma_write_logs_once(self, kind: Kind, p: nat, value: Option<int>)
        requires
            self.holds(kind, p),
        ensures
            self.trail_len() <= self.write(kind, p, value).trail_len() <= self.trail_len() + 1,
            self.settled(kind, p) ==> self.write(kind, p, value).trail_len() == self.trail_len(),
            self.settled(kind, p) || self.read(kind, p) != value ==> self.write(
                kind,
                p,
                value,
            ).settled(kind, p),
            self.write(kind, p, value).depth() == self.depth(),
    {
    }

    /// After a snapshot no cell belongs to the current epoch: the first write
    /// that changes a cell logs one record.
    pub proof fn lemma_snapshot_unsettles(self, kind: Kind, p: nat, value: Option<int>)
        requires
            self.wf(),
            self.holds(kind, p),
            self.read(kind, p) != value,
        ensures
            !self.snapshot().settled(kind, p),
            self.snapshot().write(kind, p, value).trail_len() == self.trail_len() + 1,
    {
    }

    /// A cell that belongs to the current epoch keeps doing so while the epoch
    /// lasts: whatever else is created or written, a write to the cell logs
    /// nothing.
    pub proof fn lemma_step_keeps_settled(self, step: Step, kind: Kind, p: nat)
        requires
            self.wf(),
            self.holds(kind, p),
            self.settled(kind, p),
            step is Create || step is Write,
            step matches Step::Write { kind, position, .. } ==> self.holds(kind, position),
        ensures
            self.step(step).holds(kind, p),
            self.step(step).settled(kind, p),
            forall|value: Option<int>|
                (#[trigger] self.step(step).write(kind, p, value)).trail_len() == self.step(
                    step,
                ).trail_len(),
    {
    }

    /// However often one cell is written to within an epoch, the trail grows
    /// by one record at most.
    pub proof fn lemma_one_record_per_epoch(self, kind: Kind, p: nat, values: Seq<Option<int>>)
        requires
            self.holds(kind, p),
        ensures
            self.trail_len() <= self.write_all(kind, p, values).trail_len() <= self.trail_len() + 1,
            self.write_all(kind, p, values).depth() == self.depth(),
    {
        self.lemma_write_all(kind, p, values);
    }

    /// After writes to one cell, either nothing was logged and the cell belongs
    /// to the epoch it belonged to, or one record was logged and the cell belongs
    /// to the current epoch.
    proof fn lemma_write_all(self, kind: Kind, p: nat, values: Seq<Option<int>>)
        requires
            self.holds(kind, p),
        ensures
            ({
                let after = self.write_all(kind, p, values);
                &&& after.holds(kind, p)
                &&& after.depth() == self.depth()
                &&& {
                    ||| after.trail_len() == self.trail_len() && after.settled(kind, p)
                        == self.settled(kind, p)
                    ||| after.trail_len() == self.trail_len() + 1 && after.settled(kind, p)
                }
            }),
        decreases values.len(),
    {
        if values.len() > 0 {
            self.lemma_write_all(kind, p, values.drop_last());
        }
    }

    /// Incrementing and then decrementing a cell gives it the value it had. If the
    /// cell belongs to the current epoch, nothing at all has changed. If not, the
    /// cell belongs to it now and one record was logged.
    pub proof fn lemma_increment_then_decrement(self, kind: Kind, p: nat)
        requires
            self.wf(),
            self.holds(kind, p),
            self.read(kind, p).is_some(),
        ensures
            self.increment(kind, p).read(kind, p) == Some(self.read(kind, p).unwrap() + 1),
            self.increment(kind, p).decrement(kind, p).read(kind, p) == self.read(kind, p),
            self.settled(kind, p) ==> self.increment(kind, p).decrement(kind, p) == self,
            !self.settled(kind, p) ==> self.increment(kind, p).decrement(kind, p).trail_len()
                == self.trail_len() + 1,
    {
        let twice = self.increment(kind, p).decrement(kind, p);
        if self.settled(kind, p) {
            assert(twice.current.stores =~~= self.current.stores);
        }
    }

    /// A cell created after a snapshot is gone after the matching rollback: its
    /// position addresses no cell.
    pub proof fn lemma_rollback_retracts_created(
        self,
        kind: Kind,
        value: Option<int>,
        steps: Seq<Step>,
    )
        requires
            self.snapshot().create(kind, value).nests(steps, self.depth() + 1),
            self.snapshot().create(kind, value).run(steps).depth() == self.depth() + 1,
        ensures
            self.snapshot().create(kind, value).holds(kind, self.len(kind)),
            !self.snapshot().create(kind, value).run(steps).rollback().holds(
                kind,
                self.len(kind),
            ),
    {
        let start = self.snapshot();
        let first = seq![Step::Create { kind, value }];
        assert(start.run(first.drop_last()) == start);
        assert(start.nests(first.drop_last(), self.depth() + 1));
        start.lemma_run_then(first, steps, self.depth() + 1);
        self.lemma_rollback_restores(first + steps);
    }

    /// Steps taken in two runs, one after the other, are the steps of one run.
    pub proof fn lemma_run_then(self, first: Seq<Step>, then: Seq<Step>, floor: nat)
        ensures
            self.run(first + then) == self.run(first).run(then),
            self.nests(first + then, floor) == (self.nests(first, floor) && self.run(first).nests(
                then,
                floor,
            )),
        decreases then.len(),
    {
        if then.len() == 0 {
            assert(first + then =~= first);
        } else {
            self.lemma_run_then(first, then.drop_last(), floor);
            assert((first + then).drop_last() =~= first + then.drop_last());
        }
    }

    /// A new history is well formed.
    pub proof fn lemma_empty_wf()
        ensures
            Self::empty().wf(),
    {
    }

    /// Every step keeps a history well formed. A rollback gives the clock and
    /// the trail the values that they had at the matching snapshot.
    pub proof fn lemma_step_keeps_wf(self, step: Step)
        requires
            self.wf(),
            step matches Step::Create { kind, value } ==> kind.admits(value),
            step matches Step::Write { kind, position, value } ==> self.holds(kind, position)
                && kind.admits(value),
            step is Rollback ==> self.depth() > 0,
        ensures
            self.step(step).wf(),
            step is Rollback ==> self.step(step).depth() == self.depth() - 1
                && self.step(step).trail_len() == self.saved.last().trail_len,
    {
    }
}

} // verus!
