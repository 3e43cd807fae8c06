//! Managed `i64` values, and managed `Option<i64>` values.

use vstd::prelude::*;
use crate::history::{Cell, Kind};
use crate::journal::Slot;
use crate::manager::{SaveAndRestore, StateManager, TrailEntry};

verus! {

/// An index of a managed `i64`
#[derive(Debug, Clone, Copy, PartialEq, Eq, Hash)]
pub struct ReversibleI64(pub(crate) usize);

/// A state for a managed `i64`
#[derive(Debug, Clone, Copy)]
pub(crate) struct StateI64 {
    /// Index of the resource in the associated vector of the manager
    pub(crate) id: ReversibleI64,
    /// Clock of the resource. If less than the clock of the manager, the data
    /// needs to be saved on the trail if modified
    pub(crate) clock: usize,
    /// The value of the managed resource
    pub(crate) value: i64,
}

/// An index of a managed `Option<i64>`
#[derive(Debug, Clone, Copy, PartialEq, Eq, Hash)]
pub struct ReversibleOptionI64(pub(crate) usize);

/// A state for a managed `Option<i64>`
#[derive(Debug, Clone, Copy)]
pub(crate) struct StateOptionI64 {
    /// Index of the resource in the associated vector of the manager
    pub(crate) id: ReversibleOptionI64,
    /// Clock of the resource. If less than the clock of the manager, the data
    /// needs to be saved on the trail if modified
    pub(crate) clock: usize,
    /// The value of the managed resource
    pub(crate) value: Option<i64>,
}

/// An optional `i64` as the value of a cell.
pub open spec fn optional_i64(value: Option<i64>) -> Option<int> {
    match value {
        Some(v) => Some(v as int),
        None => None,
    }
}

impl View for ReversibleI64 {
    type V = nat;

    /// The position of the resource in the store `Kind::I64`.
    closed spec fn view(&self) -> nat {
        self.0 as nat
    }
}

impl View for ReversibleOptionI64 {
    type V = nat;

    /// The position of the resource in the store `Kind::OptionI64`.
    closed spec fn view(&self) -> nat {
        self.0 as nat
    }
}

impl ReversibleI64 {
    /// The position of the resource in its store.
    pub fn index(&self) -> (index: usize)
        ensures
            index == self@,
    {
        self.0
    }
}

impl ReversibleOptionI64 {
    /// The position of the resource in its store.
    pub fn index(&self) -> (index: usize)
        ensures
            index == self@,
    {
        self.0
    }
}

impl StateI64 {
    /// The state as a slot of the journal.
    pub(crate) open spec fn slot(self) -> Slot {
        Slot {
            id: self.id.0 as nat,
            cell: Cell { generation: self.clock as nat, value: Some(self.value as int) },
        }
    }

    /// The states of a store as slots of the journal.
    pub(crate) open spec fn slots(states: Seq<StateI64>) -> Seq<Slot> {
        states.map_values(|state: StateI64| state.slot())
    }
}

impl StateOptionI64 {
    /// The state as a slot of the journal.
    pub(crate) open spec fn slot(self) -> Slot {
        Slot {
            id: self.id.0 as nat,
            cell: Cell { generation: self.clock as nat, value: optional_i64(self.value) },
        }
    }

    /// The states of a store as slots of the journal.
    pub(crate) open spec fn slots(states: Seq<StateOptionI64>) -> Seq<Slot> {
        states.map_values(|state: StateOptionI64| state.slot())
    }
}

/// The operations on a managed `i64`
pub trait I64Manager: SaveAndRestore {
    /// Creates a new managed resource. Returns the index of the resource in the
    /// corresponding vector
    fn manage_i64(&mut self, value: i64) -> (id: ReversibleI64)
        requires
            old(self).inv(),
        ensures
            final(self).inv(),
            final(self)@ == old(self)@.create(Kind::I64, Some(value as int)),
            id@ == old(self)@.len(Kind::I64),
    ;

    /// Returns the value of the resource at the given index
    fn get_i64(&self, id: ReversibleI64) -> (value: i64)
        requires
            self.inv(),
            self@.holds(Kind::I64, id@),
        ensures
            self@.read(Kind::I64, id@) == Some(value as int),
    ;

    /// Sets the resource at the given index to the given value and returns the
    /// new value
    fn set_i64(&mut self, id: ReversibleI64, value: i64) -> (written: i64)
        requires
            old(self).inv(),
            old(self)@.holds(Kind::I64, id@),
        ensures
            final(self).inv(),
            final(self)@ == old(self)@.write(Kind::I64, id@, Some(value as int)),
            written == value,
    ;

    /// Increments the value of the resource at the given index and returns the
    /// new value
    fn increment_i64(&mut self, id: ReversibleI64) -> (value: i64)
        requires
            old(self).inv(),
            old(self)@.holds(Kind::I64, id@),
            old(self)@.read(Kind::I64, id@) != Some(i64::MAX as int),
        ensures
            final(self).inv(),
            final(self)@ == old(self)@.increment(Kind::I64, id@),
            final(self)@.read(Kind::I64, id@) == Some(value as int),
    ;

    /// Decrements the value of the resource at the given index and returns the
    /// new value
    fn decrement_i64(&mut self, id: ReversibleI64) -> (value: i64)
        requires
            old(self).inv(),
            old(self)@.holds(Kind::I64, id@),
            old(self)@.read(Kind::I64, id@) != Some(i64::MIN as int),
        ensures
            final(self).inv(),
            final(self)@ == old(self)@.decrement(Kind::I64, id@),
            final(self)@.read(Kind::I64, id@) == Some(value as int),
    ;
}

/// The operations on a managed `Option<i64>`
pub trait OptionI64Manager: SaveAndRestore {
    /// Creates a new managed resource. Returns the index of the resource in the
    /// corresponding vector
    fn manage_option_i64(&mut self, value: Option<i64>) -> (id: ReversibleOptionI64)
        requires
            old(self).inv(),
        ensures
            final(self).inv(),
            final(self)@ == old(self)@.create(Kind::OptionI64, optional_i64(value)),
            id@ == old(self)@.len(Kind::OptionI64),
    ;

    /// Returns the value of the resource at the given index
    fn get_option_i64(&self, id: ReversibleOptionI64) -> (value: Option<i64>)
        requires
            self.inv(),
            self@.holds(Kind::OptionI64, id@),
        ensures
            self@.read(Kind::OptionI64, id@) == optional_i64(value),
    ;

    /// Returns true if the managed resource is not None
    fn is_option_i64_some(&self, id: ReversibleOptionI64) -> (some: bool)
        requires
            self.inv(),
            self@.holds(Kind::OptionI64, id@),
        ensures
            some == self@.read(Kind::OptionI64, id@).is_some(),
    {
        self.get_option_i64(id).is_some()
    }

    /// Returns true if the managed resource is None
    fn is_option_i64_none(&self, id: ReversibleOptionI64) -> (none: bool)
        requires
            self.inv(),
            self@.holds(Kind::OptionI64, id@),
        ensures
            none == self@.read(Kind::OptionI64, id@).is_none(),
    {
        self.get_option_i64(id).is_none()
    }

    /// Sets the resource at the given index to the given value and returns the
    /// new value
    fn set_option_i64(
        &mut self,
        id: ReversibleOptionI64,
        value: Option<i64>,
    ) -> (written: Option<i64>)
        requires
            old(self).inv(),
            old(self)@.holds(Kind::OptionI64, id@),
        ensures
            final(self).inv(),
            final(self)@ == old(self)@.write(Kind::OptionI64, id@, optional_i64(value)),
            written == value,
    ;

    /// Increments the value of the resource at the given index and returns the
    /// new value. The resource must hold a value.
    fn increment_option_i64(&mut self, id: ReversibleOptionI64) -> (value: i64)
        requires
            old(self).inv(),
            old(self)@.holds(Kind::OptionI64, id@),
            old(self)@.read(Kind::OptionI64, id@).is_some(),
            old(self)@.read(Kind::OptionI64, id@) != Some(i64::MAX as int),
        ensures
            final(self).inv(),
            final(self)@ == old(self)@.increment(Kind::OptionI64, id@),
            final(self)@.read(Kind::OptionI64, id@) == Some(value as int),
    ;

    /// Decrements the value of the resource at the given index and returns the
    /// new value. The resource must hold a value.
    fn decrement_option_i64(&mut self, id: ReversibleOptionI64) -> (value: i64)
        requires
            old(self).inv(),
            old(self)@.holds(Kind::OptionI64, id@),
            old(self)@.read(Kind::OptionI64, id@).is_some(),
            old(self)@.read(Kind::OptionI64, id@) != Some(i64::MIN as int),
        ensures
            final(self).inv(),
            final(self)@ == old(self)@.decrement(Kind::OptionI64, id@),
            final(self)@.read(Kind::OptionI64, id@) == Some(value as int),
    ;
}

impl I64Manager for StateManager {
    fn manage_i64(&mut self, value: i64) -> (id: ReversibleI64) {
        let id = ReversibleI64(self.numbers_i64.len());
        self.numbers_i64.push(StateI64 { id, clock: self.clock, value });
        proof {
            let before = old(self).journal();
            assert(self.journal() =~~= before.create(Kind::I64, Some(value as int)));
            before.lemma_create(Kind::I64, Some(value as int));
        }
        id
    }

    fn get_i64(&self, id: ReversibleI64) -> (value: i64) {
        self.numbers_i64[id.0].value
    }

    fn set_i64(&mut self, id: ReversibleI64, value: i64) -> (written: i64) {
        let curr = self.numbers_i64[id.0];
        proof {
            let before = old(self).journal();
            assert(before.slot_wf(Kind::I64, id.0 as int));
            before.lemma_write(Kind::I64, id.0 as int, Some(value as int));
        }
        if value != curr.value {
            if curr.clock < self.clock {
                self.trail.push(TrailEntry::I64Entry(curr));
                self.numbers_i64[id.0] = StateI64 { id, clock: self.clock, value };
            } else {
                self.numbers_i64[id.0].value = value;
            }
            assert(self.journal() =~~= old(self).journal().write(
                Kind::I64,
                id.0 as int,
                Some(value as int),
            ));
        }
        value
    }

    fn increment_i64(&mut self, id: ReversibleI64) -> (value: i64) {
        let value = self.get_i64(id) + 1;
        self.set_i64(id, value)
    }

    fn decrement_i64(&mut self, id: ReversibleI64) -> (value: i64) {
        let value = self.get_i64(id) - 1;
        self.set_i64(id, value)
    }
}

impl OptionI64Manager for StateManager {
    fn manage_option_i64(&mut self, value: Option<i64>) -> (id: ReversibleOptionI64) {
        let id = ReversibleOptionI64(self.numbers_option_i64.len());
        self.numbers_option_i64.push(StateOptionI64 { id, clock: self.clock, value });
        proof {
            let before = old(self).journal();
            assert(self.journal() =~~= before.create(Kind::OptionI64, optional_i64(value)));
            before.lemma_create(Kind::OptionI64, optional_i64(value));
        }
        id
    }

    fn get_option_i64(&self, id: ReversibleOptionI64) -> (value: Option<i64>) {
        self.numbers_option_i64[id.0].value
    }

    fn set_option_i64(
        &mut self,
        id: ReversibleOptionI64,
        value: Option<i64>,
    ) -> (written: Option<i64>) {
        let curr = self.numbers_option_i64[id.0];
        proof {
            let before = old(self).journal();
            assert(before.slot_wf(Kind::OptionI64, id.0 as int));
            before.lemma_write(Kind::OptionI64, id.0 as int, optional_i64(value));
        }
        if value != curr.value {
            if curr.clock < self.clock {
                self.trail.push(TrailEntry::OptionI64Entry(curr));
                self.numbers_option_i64[id.0] = StateOptionI64 { id, clock: self.clock, value };
            } else {
                self.numbers_option_i64[id.0].value = value;
            }
            assert(self.journal() =~~= old(self).journal().write(
                Kind::OptionI64,
                id.0 as int,
                optional_i64(value),
            ));
        }
        value
    }

    fn increment_option_i64(&mut self, id: ReversibleOptionI64) -> (value: i64) {
        let value = self.numbers_option_i64[id.0].value.unwrap();
        self.set_option_i64(id, Some(value + 1));
        value + 1
    }

    fn decrement_option_i64(&mut self, id: ReversibleOptionI64) -> (value: i64) {
        let value = self.numbers_option_i64[id.0].value.unwrap();
        self.set_option_i64(id, Some(value - 1));
        value - 1
    }
}

} // verus!
