//! Managed `u64` values, and managed `Option<u64>` values.

use vstd::prelude::*;
use crate::history::{Cell, Kind};
use crate::journal::Slot;
use crate::manager::{SaveAndRestore, StateManager, TrailEntry};

verus! {

/// An index of a managed `u64`
#[derive(Debug, Clone, Copy, PartialEq, Eq, Hash)]
pub struct ReversibleU64(pub(crate) usize);

/// A state for a managed `u64`
#[derive(Debug, Clone, Copy)]
pub(crate) struct StateU64 {
    /// Index of the resource in the associated vector of the manager
    pub(crate) id: ReversibleU64,
    /// Clock of the resource. If less than the clock of the manager, the data
    /// needs to be saved on the trail if modified
    pub(crate) clock: usize,
    /// The value of the managed resource
    pub(crate) value: u64,
}

/// An index of a managed `Option<u64>`
#[derive(Debug, Clone, Copy, PartialEq, Eq, Hash)]
pub struct ReversibleOptionU64(pub(crate) usize);

/// A state for a managed `Option<u64>`
#[derive(Debug, Clone, Copy)]
pub(crate) struct StateOptionU64 {
    /// Index of the resource in the associated vector of the manager
    pub(crate) id: ReversibleOptionU64,
    /// Clock of the resource. If less than the clock of the manager, the data
    /// needs to be saved on the trail if modified
    pub(crate) clock: usize,
    /// The value of the managed resource
    pub(crate) value: Option<u64>,
}

/// An optional `u64` as the value of a cell.
pub open spec fn optional_u64(value: Option<u64>) -> Option<int> {
    match value {
        Some(v) => Some(v as int),
        None => None,
    }
}

impl View for ReversibleU64 {
    type V = nat;

    /// The position of the resource in the store `Kind::U64`.
    closed spec fn view(&self) -> nat {
        self.0 as nat
    }
}

impl View for ReversibleOptionU64 {
    type V = nat;

    /// The position of the resource in the store `Kind::OptionU64`.
    closed spec fn view(&self) -> nat {
        self.0 as nat
    }
}

impl ReversibleU64 {
    /// The position of the resource in its store.
    pub fn index(&self) -> (index: usize)
        ensures
            index == self@,
    {
        self.0
    }
}

impl ReversibleOptionU64 {
    /// The position of the resource in its store.
    pub fn index(&self) -> (index: usize)
        ensures
            index == self@,
    {
        self.0
    }
}

impl StateU64 {
    /// The state as a slot of the journal.
    pub(crate) open spec fn slot(self) -> Slot {
        Slot {
            id: self.id.0 as nat,
            cell: Cell { generation: self.clock as nat, value: Some(self.value as int) },
        }
    }

    /// The states of a store as slots of the journal.
    pub(crate) open spec fn slots(states: Seq<StateU64>) -> Seq<Slot> {
        states.map_values(|state: StateU64| state.slot())
    }
}

impl StateOptionU64 {
    /// The state as a slot of the journal.
    pub(crate) open spec fn slot(self) -> Slot {
        Slot {
            id: self.id.0 as nat,
            cell: Cell { generation: self.clock as nat, value: optional_u64(self.value) },
        }
    }

    /// The states of a store as slots of the journal.
    pub(crate) open spec fn slots(states: Seq<StateOptionU64>) -> Seq<Slot> {
        states.map_values(|state: StateOptionU64| state.slot())
    }
}

/// The operations on a managed `u64`
pub trait U64Manager: SaveAndRestore {
    /// Creates a new managed resource. Returns the index of the resource in the
    /// corresponding vector
    fn manage_u64(&mut self, value: u64) -> (id: ReversibleU64)
        requires
            old(self).inv(),
        ensures
            final(self).inv(),
            final(self)@ == old(self)@.create(Kind::U64, Some(value as int)),
            id@ == old(self)@.len(Kind::U64),
    ;

    /// Returns the value of the resource at the given index
    fn get_u64(&self, id: ReversibleU64) -> (value: u64)
        requires
            self.inv(),
            self@.holds(Kind::U64, id@),
        ensures
            self@.read(Kind::U64, id@) == Some(value as int),
    ;

    /// Sets the resource at the given index to the given value and returns the
    /// new value
    fn set_u64(&mut self, id: ReversibleU64, value: u64) -> (written: u64)
        requires
            old(self).inv(),
            old(self)@.holds(Kind::U64, id@),
        ensures
            final(self).inv(),
            final(self)@ == old(self)@.write(Kind::U64, id@, Some(value as int)),
            written == value,
    ;

    /// Increments the value of the resource at the given index and returns the
    /// new value
    fn increment_u64(&mut self, id: ReversibleU64) -> (value: u64)
        requires
            old(self).inv(),
            old(self)@.holds(Kind::U64, id@),
            old(self)@.read(Kind::U64, id@) != Some(u64::MAX as int),
        ensures
            final(self).inv(),
            final(self)@ == old(self)@.increment(Kind::U64, id@),
            final(self)@.read(Kind::U64, id@) == Some(value as int),
    ;

    /// Decrements the value of the resource at the given index and returns the
    /// new value
    fn decrement_u64(&mut self, id: ReversibleU64) -> (value: u64)
        requires
            old(self).inv(),
            old(self)@.holds(Kind::U64, id@),
            old(self)@.read(Kind::U64, id@) != Some(u64::MIN as int),
        ensures
            final(self).inv(),
            final(self)@ == old(self)@.decrement(Kind::U64, id@),
            final(self)@.read(Kind::U64, id@) == Some(value as int),
    ;
}

/// The operations on a managed `Option<u64>`
pub trait OptionU64Manager: SaveAndRestore {
    /// Creates a new managed resource. Returns the index of the resource in the
    /// corresponding vector
    fn manage_option_u64(&mut self, value: Option<u64>) -> (id: ReversibleOptionU64)
        requires
            old(self).inv(),
        ensures
            final(self).inv(),
            final(self)@ == old(self)@.create(Kind::OptionU64, optional_u64(value)),
            id@ == old(self)@.len(Kind::OptionU64),
    ;

    /// Returns the value of the resource at the given index
    fn get_option_u64(&self, id: ReversibleOptionU64) -> (value: Option<u64>)
        requires
            self.inv(),
            self@.holds(Kind::OptionU64, id@),
        ensures
            self@.read(Kind::OptionU64, id@) == optional_u64(value),
    ;

    /// Returns true if the managed resource is not None
    fn is_option_u64_some(&self, id: ReversibleOptionU64) -> (some: bool)
        requires
            self.inv(),
            self@.holds(Kind::OptionU64, id@),
        ensures
            some == self@.read(Kind::OptionU64, id@).is_some(),
    {
        self.get_option_u64(id).is_some()
    }

    /// Returns true if the managed resource is None
    fn is_option_u64_none(&self, id: ReversibleOptionU64) -> (none: bool)
        requires
            self.inv(),
            self@.holds(Kind::OptionU64, id@),
        ensures
            none == self@.read(Kind::OptionU64, id@).is_none(),
    {
        self.get_option_u64(id).is_none()
    }

    /// Sets the resource at the given index to the given value and returns the
    /// new value
    fn set_option_u64(
        &mut self,
        id: ReversibleOptionU64,
        value: Option<u64>,
    ) -> (written: Option<u64>)
        requires
            old(self).inv(),
            old(self)@.holds(Kind::OptionU64, id@),
        ensures
            final(self).inv(),
            final(self)@ == old(self)@.write(Kind::OptionU64, id@, optional_u64(value)),
            written == value,
    ;

    /// Increments the value of the resource at the given index and returns the
    /// new value. The resource must hold a value.
    fn increment_option_u64(&mut self, id: ReversibleOptionU64) -> (value: u64)
        requires
            old(self).inv(),
            old(self)@.holds(Kind::OptionU64, id@),
            old(self)@.read(Kind::OptionU64, id@).is_some(),
            old(self)@.read(Kind::OptionU64, id@) != Some(u64::MAX as int),
        ensures
            final(self).inv(),
            final(self)@ == old(self)@.increment(Kind::OptionU64, id@),
            final(self)@.read(Kind::OptionU64, id@) == Some(value as int),
    ;

    /// Decrements the value of the resource at the given index and returns the
    /// new value. The resource must hold a value.
    fn decrement_option_u64(&mut self, id: ReversibleOptionU64) -> (value: u64)
        requires
            old(self).inv(),
            old(self)@.holds(Kind::OptionU64, id@),
            old(self)@.read(Kind::OptionU64, id@).is_some(),
            old(self)@.read(Kind::OptionU64, id@) != Some(u64::MIN as int),
        ensures
            final(self).inv(),
            final(self)@ == old(self)@.decrement(Kind::OptionU64, id@),
            final(self)@.read(Kind::OptionU64, id@) == Some(value as int),
    ;
}

impl U64Manager for StateManager {
    fn manage_u64(&mut self, value: u64) -> (id: ReversibleU64) {
        let id = ReversibleU64(self.numbers_u64.len());
        self.numbers_u64.push(StateU64 { id, clock: self.clock, value });
        proof {
            let before = old(self).journal();
            assert(self.journal() =~~= before.create(Kind::U64, Some(value as int)));
            before.lemma_create(Kind::U64, Some(value as int));
        }
        id
    }

    fn get_u64(&self, id: ReversibleU64) -> (value: u64) {
        self.numbers_u64[id.0].value
    }

    fn set_u64(&mut self, id: ReversibleU64, value: u64) -> (written: u64) {
        let curr = self.numbers_u64[id.0];
        proof {
            let before = old(self).journal();
            assert(before.slot_wf(Kind::U64, id.0 as int));
            before.lemma_write(Kind::U64, id.0 as int, Some(value as int));
        }
        if value != curr.value {
            if curr.clock < self.clock {
                self.trail.push(TrailEntry::U64Entry(curr));
                self.numbers_u64[id.0] = StateU64 { id, clock: self.clock, value };
            } else {
                self.numbers_u64[id.0].value = value;
            }
            assert(self.journal() =~~= old(self).journal().write(
                Kind::U64,
                id.0 as int,
                Some(value as int),
            ));
        }
        value
    }

    fn increment_u64(&mut self, id: ReversibleU64) -> (value: u64) {
        let value = self.get_u64(id) + 1;
        self.set_u64(id, value)
    }

    fn decrement_u64(&mut self, id: ReversibleU64) -> (value: u64) {
        let value = self.get_u64(id) - 1;
        self.set_u64(id, value)
    }
}

impl OptionU64Manager for StateManager {
    fn manage_option_u64(&mut self, value: Option<u64>) -> (id: ReversibleOptionU64) {
        let id = ReversibleOptionU64(self.numbers_option_u64.len());
        self.numbers_option_u64.push(StateOptionU64 { id, clock: self.clock, value });
        proof {
            let before = old(self).journal();
            assert(self.journal() =~~= before.create(Kind::OptionU64, optional_u64(value)));
            before.lemma_create(Kind::OptionU64, optional_u64(value));
        }
        id
    }

    fn get_option_u64(&self, id: ReversibleOptionU64) -> (value: Option<u64>) {
        self.numbers_option_u64[id.0].value
    }

    fn set_option_u64(
        &mut self,
        id: ReversibleOptionU64,
        value: Option<u64>,
    ) -> (written: Option<u64>) {
        let curr = self.numbers_option_u64[id.0];
        proof {
            let before = old(self).journal();
            assert(before.slot_wf(Kind::OptionU64, id.0 as int));
            before.lemma_write(Kind::OptionU64, id.0 as int, optional_u64(value));
        }
        if value != curr.value {
            if curr.clock < self.clock {
                self.trail.push(TrailEntry::OptionU64Entry(curr));
                self.numbers_option_u64[id.0] = StateOptionU64 { id, clock: self.clock, value };
            } else {
                self.numbers_option_u64[id.0].value = value;
            }
            assert(self.journal() =~~= old(self).journal().write(
                Kind::OptionU64,
                id.0 as int,
                optional_u64(value),
            ));
        }
        value
    }

    fn increment_option_u64(&mut self, id: ReversibleOptionU64) -> (value: u64) {
        let value = self.numbers_option_u64[id.0].value.unwrap();
        self.set_option_u64(id, Some(value + 1));
        value + 1
    }

    fn decrement_option_u64(&mut self, id: ReversibleOptionU64) -> (value: u64) {
        let value = self.numbers_option_u64[id.0].value.unwrap();
        self.set_option_u64(id, Some(value - 1));
        value - 1
    }
}

} // verus!
