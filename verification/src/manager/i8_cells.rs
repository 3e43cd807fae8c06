//! Managed `i8` values, and managed `Option<i8>` values.

use vstd::prelude::*;
use crate::history::{Cell, Kind};
use crate::journal::Slot;
use crate::manager::{SaveAndRestore, StateManager, TrailEntry};

verus! {

/// An index of a managed `i8`
#[derive(Debug, Clone, Copy, PartialEq, Eq, Hash)]
pub struct ReversibleI8(pub(crate) usize);

/// A state for a managed `i8`
#[derive(Debug, Clone, Copy)]
pub(crate) struct StateI8 {
    /// Index of the resource in the associated vector of the manager
    pub(crate) id: ReversibleI8,
    /// Clock of the resource. If less than the clock of the manager, the data
    /// needs to be saved on the trail if modified
    pub(crate) clock: usize,
    /// The value of the managed resource
    pub(crate) value: i8,
}

/// An index of a managed `Option<i8>`
#[derive(Debug, Clone, Copy, PartialEq, Eq, Hash)]
pub struct ReversibleOptionI8(pub(crate) usize);

/// A state for a managed `Option<i8>`
#[derive(Debug, Clone, Copy)]
pub(crate) struct StateOptionI8 {
    /// Index of the resource in the associated vector of the manager
    pub(crate) id: ReversibleOptionI8,
    /// Clock of the resource. If less than the clock of the manager, the data
    /// needs to be saved on the trail if modified
    pub(crate) clock: usize,
    /// The value of the managed resource
    pub(crate) value: Option<i8>,
}

/// An optional `i8` as the value of a cell.
pub open spec fn optional_i8(value: Option<i8>) -> Option<int> {
    match value {
        Some(v) => Some(v as int),
        None => None,
    }
}

impl View for ReversibleI8 {
    type V = nat;

    /// The position of the resource in the store `Kind::I8`.
    closed spec fn view(&self) -> nat {
        self.0 as nat
    }
}

impl View for ReversibleOptionI8 {
    type V = nat;

    /// The position of the resource in the store `Kind::OptionI8`.
    closed spec fn view(&self) -> nat {
        self.0 as nat
    }
}

impl ReversibleI8 {
    /// The position of the resource in its store.
    pub fn index(&self) -> (index: usize)
        ensures
            index == self@,
    {
        self.0
    }
}

impl ReversibleOptionI8 {
    /// The position of the resource in its store.
    pub fn index(&self) -> (index: usize)
        ensures
            index == self@,
    {
        self.0
    }
}

impl StateI8 {
    /// The state as a slot of the journal.
    pub(crate) open spec fn slot(self) -> Slot {
        Slot {
            id: self.id.0 as nat,
            cell: Cell { generation: self.clock as nat, value: Some(self.value as int) },
        }
    }

    /// The states of a store as slots of the journal.
    pub(crate) open spec fn slots(states: Seq<StateI8>) -> Seq<Slot> {
        states.map_values(|state: StateI8| state.slot())
    }
}

impl StateOptionI8 {
    /// The state as a slot of the journal.
    pub(crate) open spec fn slot(self) -> Slot {
        Slot {
            id: self.id.0 as nat,
            cell: Cell { generation: self.clock as nat, value: optional_i8(self.value) },
        }
    }

    /// The states of a store as slots of the journal.
    pub(crate) open spec fn slots(states: Seq<StateOptionI8>) -> Seq<Slot> {
        states.map_values(|state: StateOptionI8| state.slot())
    }
}

/// The operations on a managed `i8`
pub trait I8Manager: SaveAndRestore {
    /// Creates a new managed resource. Returns the index of the resource in the
    /// corresponding vector
    fn manage_i8(&mut self, value: i8) -> (id: ReversibleI8)
        requires
            old(self).inv(),
        ensures
            final(self).inv(),
            final(self)@ == old(self)@.create(Kind::I8, Some(value as int)),
            id@ == old(self)@.len(Kind::I8),
    ;

    /// Returns the value of the resource at the given index
    fn get_i8(&self, id: ReversibleI8) -> (value: i8)
        requires
            self.inv(),
            self@.holds(Kind::I8, id@),
        ensures
            self@.read(Kind::I8, id@) == Some(value as int),
    ;

    /// Sets the resource at the given index to the given value and returns the
    /// new value
    fn set_i8(&mut self, id: ReversibleI8, value: i8) -> (written: i8)
        requires
            old(self).inv(),
            old(self)@.holds(Kind::I8, id@),
        ensures
            final(self).inv(),
            final(self)@ == old(self)@.write(Kind::I8, id@, Some(value as int)),
            written == value,
    ;

    /// Increments the value of the resource at the given index and returns the
    /// new value
    fn increment_i8(&mut self, id: ReversibleI8) -> (value: i8)
        requires
            old(self).inv(),
            old(self)@.holds(Kind::I8, id@),
            old(self)@.read(Kind::I8, id@) != Some(i8::MAX as int),
        ensures
            final(self).inv(),
            final(self)@ == old(self)@.increment(Kind::I8, id@),
            final(self)@.read(Kind::I8, id@) == Some(value as int),
    ;

    /// Decrements the value of the resource at the given index and returns the
    /// new value
    fn decrement_i8(&mut self, id: ReversibleI8) -> (value: i8)
        requires
            old(self).inv(),
            old(self)@.holds(Kind::I8, id@),
            old(self)@.read(Kind::I8, id@) != Some(i8::MIN as int),
        ensures
            final(self).inv(),
            final(self)@ == old(self)@.decrement(Kind::I8, id@),
            final(self)@.read(Kind::I8, id@) == Some(value as int),
    ;
}

/// The operations on a managed `Option<i8>`
pub trait OptionI8Manager: SaveAndRestore {
    /// Creates a new managed resource. Returns the index of the resource in the
    /// corresponding vector
    fn manage_option_i8(&mut self, value: Option<i8>) -> (id: ReversibleOptionI8)
        requires
            old(self).inv(),
        ensures
            final(self).inv(),
            final(self)@ == old(self)@.create(Kind::OptionI8, optional_i8(value)),
            id@ == old(self)@.len(Kind::OptionI8),
    ;

    /// Returns the value of the resource at the given index
    fn get_option_i8(&self, id: ReversibleOptionI8) -> (value: Option<i8>)
        requires
            self.inv(),
            self@.holds(Kind::OptionI8, id@),
        ensures
            self@.read(Kind::OptionI8, id@) == optional_i8(value),
    ;

    /// Returns true if the managed resource is not None
    fn is_option_i8_some(&self, id: ReversibleOptionI8) -> (some: bool)
        requires
            self.inv(),
            self@.holds(Kind::OptionI8, id@),
        ensures
            some == self@.read(Kind::OptionI8, id@).is_some(),
    {
        self.get_option_i8(id).is_some()
    }

    /// Returns true if the managed resource is None
    fn is_option_i8_none(&self, id: ReversibleOptionI8) -> (none: bool)
        requires
            self.inv(),
            self@.holds(Kind::OptionI8, id@),
        ensures
            none == self@.read(Kind::OptionI8, id@).is_none(),
    {
        self.get_option_i8(id).is_none()
    }

    /// Sets the resource at the given index to the given value and returns the
    /// new value
    fn set_option_i8(
        &mut self,
        id: ReversibleOptionI8,
        value: Option<i8>,
    ) -> (written: Option<i8>)
        requires
            old(self).inv(),
            old(self)@.holds(Kind::OptionI8, id@),
        ensures
            final(self).inv(),
            final(self)@ == old(self)@.write(Kind::OptionI8, id@, optional_i8(value)),
            written == value,
    ;

    /// Increments the value of the resource at the given index and returns the
    /// new value. The resource must hold a value.
    fn increment_option_i8(&mut self, id: ReversibleOptionI8) -> (value: i8)
        requires
            old(self).inv(),
            old(self)@.holds(Kind::OptionI8, id@),
            old(self)@.read(Kind::OptionI8, id@).is_some(),
            old(self)@.read(Kind::OptionI8, id@) != Some(i8::MAX as int),
        ensures
            final(self).inv(),
            final(self)@ == old(self)@.increment(Kind::OptionI8, id@),
            final(self)@.read(Kind::OptionI8, id@) == Some(value as int),
    ;

    /// Decrements the value of the resource at the given index and returns the
    /// new value. The resource must hold a value.
    fn decrement_option_i8(&mut self, id: ReversibleOptionI8) -> (value: i8)
        requires
            old(self).inv(),
            old(self)@.holds(Kind::OptionI8, id@),
            old(self)@.read(Kind::OptionI8, id@).is_some(),
            old(self)@.read(Kind::OptionI8, id@) != Some(i8::MIN as int),
        ensures
            final(self).inv(),
            final(self)@ == old(self)@.decrement(Kind::OptionI8, id@),
            final(self)@.read(Kind::OptionI8, id@) == Some(value as int),
    ;
}

impl I8Manager for StateManager {
    fn manage_i8(&mut self, value: i8) -> (id: ReversibleI8) {
        let id = ReversibleI8(self.numbers_i8.len());
        self.numbers_i8.push(StateI8 { id, clock: self.clock, value });
        proof {
            let before = old(self).journal();
            assert(self.journal() =~~= before.create(Kind::I8, Some(value as int)));
            before.lemma_create(Kind::I8, Some(value as int));
        }
        id
    }

    fn get_i8(&self, id: ReversibleI8) -> (value: i8) {
        self.numbers_i8[id.0].value
    }

    fn set_i8(&mut self, id: ReversibleI8, value: i8) -> (written: i8) {
        let curr = self.numbers_i8[id.0];
        proof {
            let before = old(self).journal();
            assert(before.slot_wf(Kind::I8, id.0 as int));
            before.lemma_write(Kind::I8, id.0 as int, Some(value as int));
        }
        if value != curr.value {
            if curr.clock < self.clock {
                self.trail.push(TrailEntry::I8Entry(curr));
                self.numbers_i8[id.0] = StateI8 { id, clock: self.clock, value };
            } else {
                self.numbers_i8[id.0].value = value;
            }
            assert(self.journal() =~~= old(self).journal().write(
                Kind::I8,
                id.0 as int,
                Some(value as int),
            ));
        }
        value
    }

    fn increment_i8(&mut self, id: ReversibleI8) -> (value: i8) {
        let value = self.get_i8(id) + 1;
        self.set_i8(id, value)
    }

    fn decrement_i8(&mut self, id: ReversibleI8) -> (value: i8) {
        let value = self.get_i8(id) - 1;
        self.set_i8(id, value)
    }
}

impl OptionI8Manager for StateManager {
    fn manage_option_i8(&mut self, value: Option<i8>) -> (id: ReversibleOptionI8) {
        let id = ReversibleOptionI8(self.numbers_option_i8.len());
        self.numbers_option_i8.push(StateOptionI8 { id, clock: self.clock, value });
        proof {
            let before = old(self).journal();
            assert(self.journal() =~~= before.create(Kind::OptionI8, optional_i8(value)));
            before.lemma_create(Kind::OptionI8, optional_i8(value));
        }
        id
    }

    fn get_option_i8(&self, id: ReversibleOptionI8) -> (value: Option<i8>) {
        self.numbers_option_i8[id.0].value
    }

    fn set_option_i8(
        &mut self,
        id: ReversibleOptionI8,
        value: Option<i8>,
    ) -> (written: Option<i8>) {
        let curr = self.numbers_option_i8[id.0];
        proof {
            let before = old(self).journal();
            assert(before.slot_wf(Kind::OptionI8, id.0 as int));
            before.lemma_write(Kind::OptionI8, id.0 as int, optional_i8(value));
        }
        if value != curr.value {
            if curr.clock < self.clock {
                self.trail.push(TrailEntry::OptionI8Entry(curr));
                self.numbers_option_i8[id.0] = StateOptionI8 { id, clock: self.clock, value };
            } else {
                self.numbers_option_i8[id.0].value = value;
            }
            assert(self.journal() =~~= old(self).journal().write(
                Kind::OptionI8,
                id.0 as int,
                optional_i8(value),
            ));
        }
        value
    }

    fn increment_option_i8(&mut self, id: ReversibleOptionI8) -> (value: i8) {
        let value = self.numbers_option_i8[id.0].value.unwrap();
        self.set_option_i8(id, Some(value + 1));
        value + 1
    }

    fn decrement_option_i8(&mut self, id: ReversibleOptionI8) -> (value: i8) {
        let value = self.numbers_option_i8[id.0].value.unwrap();
        self.set_option_i8(id, Some(value - 1));
        value - 1
    }
}

} // verus!
