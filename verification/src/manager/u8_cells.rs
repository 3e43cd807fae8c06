//! Managed `u8` values, and managed `Option<u8>` values.

use vstd::prelude::*;
use crate::history::{Cell, Kind};
use crate::journal::Slot;
use crate::manager::{SaveAndRestore, StateManager, TrailEntry};

verus! {

/// An index of a managed `u8`
#[derive(Debug, Clone, Copy, PartialEq, Eq, Hash)]
pub struct ReversibleU8(pub(crate) usize);

/// A state for a managed `u8`
#[derive(Debug, Clone, Copy)]
pub(crate) struct StateU8 {
    /// Index of the resource in the associated vector of the manager
    pub(crate) id: ReversibleU8,
    /// Clock of the resource. If less than the clock of the manager, the data
    /// needs to be saved on the trail if modified
    pub(crate) clock: usize,
    /// The value of the managed resource
    pub(crate) value: u8,
}

/// An index of a managed `Option<u8>`
#[derive(Debug, Clone, Copy, PartialEq, Eq, Hash)]
pub struct ReversibleOptionU8(pub(crate) usize);

/// A state for a managed `Option<u8>`
#[derive(Debug, Clone, Copy)]
pub(crate) struct StateOptionU8 {
    /// Index of the resource in the associated vector of the manager
    pub(crate) id: ReversibleOptionU8,
    /// Clock of the resource. If less than the clock of the manager, the data
    /// needs to be saved on the trail if modified
    pub(crate) clock: usize,
    /// The value of the managed resource
    pub(crate) value: Option<u8>,
}

/// An optional `u8` as the value of a cell.
pub open spec fn optional_u8(value: Option<u8>) -> Option<int> {
    match value {
        Some(v) => Some(v as int),
        None => None,
    }
}

impl View for ReversibleU8 {
    type V = nat;

    /// The position of the resource in the store `Kind::U8`.
    closed spec fn view(&self) -> nat {
        self.0 as nat
    }
}

impl View for ReversibleOptionU8 {
    type V = nat;

    /// The position of the resource in the store `Kind::OptionU8`.
    closed spec fn view(&self) -> nat {
        self.0 as nat
    }
}

impl ReversibleU8 {
    /// The position of the resource in its store.
    pub fn index(&self) -> (index: usize)
        ensures
            index == self@,
    {
        self.0
    }
}

impl ReversibleOptionU8 {
    /// The position of the resource in its store.
    pub fn index(&self) -> (index: usize)
        ensures
            index == self@,
    {
        self.0
    }
}

impl StateU8 {
    /// The state as a slot of the journal.
    pub(crate) open spec fn slot(self) -> Slot {
        Slot {
            id: self.id.0 as nat,
            cell: Cell { generation: self.clock as nat, value: Some(self.value as int) },
        }
    }

    /// The states of a store as slots of the journal.
    pub(crate) open spec fn slots(states: Seq<StateU8>) -> Seq<Slot> {
        states.map_values(|state: StateU8| state.slot())
    }
}

impl StateOptionU8 {
    /// The state as a slot of the journal.
    pub(crate) open spec fn slot(self) -> Slot {
        Slot {
            id: self.id.0 as nat,
            cell: Cell { generation: self.clock as nat, value: optional_u8(self.value) },
        }
    }

    /// The states of a store as slots of the journal.
    pub(crate) open spec fn slots(states: Seq<StateOptionU8>) -> Seq<Slot> {
        states.map_values(|state: StateOptionU8| state.slot())
    }
}

/// The operations on a managed `u8`
pub trait U8Manager: SaveAndRestore {
    /// Creates a new managed resource. Returns the index of the resource in the
    /// corresponding vector
    fn manage_u8(&mut self, value: u8) -> (id: ReversibleU8)
        requires
            old(self).inv(),
        ensures
            final(self).inv(),
            final(self)@ == old(self)@.create(Kind::U8, Some(value as int)),
            id@ == old(self)@.len(Kind::U8),
    ;

    /// Returns the value of the resource at the given index
    fn get_u8(&self, id: ReversibleU8) -> (value: u8)
        requires
            self.inv(),
            self@.holds(Kind::U8, id@),
        ensures
            self@.read(Kind::U8, id@) == Some(value as int),
    ;

    /// Sets the resource at the given index to the given value and returns the
    /// new value
    fn set_u8(&mut self, id: ReversibleU8, value: u8) -> (written: u8)
        requires
            old(self).inv(),
            old(self)@.holds(Kind::U8, id@),
        ensures
            final(self).inv(),
            final(self)@ == old(self)@.write(Kind::U8, id@, Some(value as int)),
            written == value,
    ;

    /// Increments the value of the resource at the given index and returns the
    /// new value
    fn increment_u8(&mut self, id: ReversibleU8) -> (value: u8)
        requires
            old(self).inv(),
            old(self)@.holds(Kind::U8, id@),
            old(self)@.read(Kind::U8, id@) != Some(u8::MAX as int),
        ensures
            final(self).inv(),
            final(self)@ == old(self)@.increment(Kind::U8, id@),
            final(self)@.read(Kind::U8, id@) == Some(value as int),
    ;

    /// Decrements the value of the resource at the given index and returns the
    /// new value
    fn decrement_u8(&mut self, id: ReversibleU8) -> (value: u8)
        requires
            old(self).inv(),
            old(self)@.holds(Kind::U8, id@),
            old(self)@.read(Kind::U8, id@) != Some(u8::MIN as int),
        ensures
            final(self).inv(),
            final(self)@ == old(self)@.decrement(Kind::U8, id@),
            final(self)@.read(Kind::U8, id@) == Some(value as int),
    ;
}

/// The operations on a managed `Option<u8>`
pub trait OptionU8Manager: SaveAndRestore {
    /// Creates a new managed resource. Returns the index of the resource in the
    /// corresponding vector
    fn manage_option_u8(&mut self, value: Option<u8>) -> (id: ReversibleOptionU8)
        requires
            old(self).inv(),
        ensures
            final(self).inv(),
            final(self)@ == old(self)@.create(Kind::OptionU8, optional_u8(value)),
            id@ == old(self)@.len(Kind::OptionU8),
    ;

    /// Returns the value of the resource at the given index
    fn get_option_u8(&self, id: ReversibleOptionU8) -> (value: Option<u8>)
        requires
            self.inv(),
            self@.holds(Kind::OptionU8, id@),
        ensures
            self@.read(Kind::OptionU8, id@) == optional_u8(value),
    ;

    /// Returns true if the managed resource is not None
    fn is_option_u8_some(&self, id: ReversibleOptionU8) -> (some: bool)
        requires
            self.inv(),
            self@.holds(Kind::OptionU8, id@),
        ensures
            some == self@.read(Kind::OptionU8, id@).is_some(),
    {
        self.get_option_u8(id).is_some()
    }

    /// Returns true if the managed resource is None
    fn is_option_u8_none(&self, id: ReversibleOptionU8) -> (none: bool)
        requires
            self.inv(),
            self@.holds(Kind::OptionU8, id@),
        ensures
            none == self@.read(Kind::OptionU8, id@).is_none(),
    {
        self.get_option_u8(id).is_none()
    }

    /// Sets the resource at the given index to the given value and returns the
    /// new value
    fn set_option_u8(
        &mut self,
        id: ReversibleOptionU8,
        value: Option<u8>,
    ) -> (written: Option<u8>)
        requires
            old(self).inv(),
            old(self)@.holds(Kind::OptionU8, id@),
        ensures
            final(self).inv(),
            final(self)@ == old(self)@.write(Kind::OptionU8, id@, optional_u8(value)),
            written == value,
    ;

    /// Increments the value of the resource at the given index and returns the
    /// new value. The resource must hold a value.
    fn increment_option_u8(&mut self, id: ReversibleOptionU8) -> (value: u8)
        requires
            old(self).inv(),
            old(self)@.holds(Kind::OptionU8, id@),
            old(self)@.read(Kind::OptionU8, id@).is_some(),
            old(self)@.read(Kind::OptionU8, id@) != Some(u8::MAX as int),
        ensures
            final(self).inv(),
            final(self)@ == old(self)@.increment(Kind::OptionU8, id@),
            final(self)@.read(Kind::OptionU8, id@) == Some(value as int),
    ;

    /// Decrements the value of the resource at the given index and returns the
    /// new value. The resource must hold a value.
    fn decrement_option_u8(&mut self, id: ReversibleOptionU8) -> (value: u8)
        requires
            old(self).inv(),
            old(self)@.holds(Kind::OptionU8, id@),
            old(self)@.read(Kind::OptionU8, id@).is_some(),
            old(self)@.read(Kind::OptionU8, id@) != Some(u8::MIN as int),
        ensures
            final(self).inv(),
            final(self)@ == old(self)@.decrement(Kind::OptionU8, id@),
            final(self)@.read(Kind::OptionU8, id@) == Some(value as int),
    ;
}

impl U8Manager for StateManager {
    fn manage_u8(&mut self, value: u8) -> (id: ReversibleU8) {
        let id = ReversibleU8(self.numbers_u8.len());
        self.numbers_u8.push(StateU8 { id, clock: self.clock, value });
        proof {
            let before = old(self).journal();
            assert(self.journal() =~~= before.create(Kind::U8, Some(value as int)));
            before.lemma_create(Kind::U8, Some(value as int));
        }
        id
    }

    fn get_u8(&self, id: ReversibleU8) -> (value: u8) {
        self.numbers_u8[id.0].value
    }

    fn set_u8(&mut self, id: ReversibleU8, value: u8) -> (written: u8) {
        let curr = self.numbers_u8[id.0];
        proof {
            let before = old(self).journal();
            assert(before.slot_wf(Kind::U8, id.0 as int));
            before.lemma_write(Kind::U8, id.0 as int, Some(value as int));
        }
        if value != curr.value {
            if curr.clock < self.clock {
                self.trail.push(TrailEntry::U8Entry(curr));
                self.numbers_u8[id.0] = StateU8 { id, clock: self.clock, value };
            } else {
                self.numbers_u8[id.0].value = value;
            }
            assert(self.journal() =~~= old(self).journal().write(
                Kind::U8,
                id.0 as int,
                Some(value as int),
            ));
        }
        value
    }

    fn increment_u8(&mut self, id: ReversibleU8) -> (value: u8) {
        let value = self.get_u8(id) + 1;
        self.set_u8(id, value)
    }

    fn decrement_u8(&mut self, id: ReversibleU8) -> (value: u8) {
        let value = self.get_u8(id) - 1;
        self.set_u8(id, value)
    }
}

impl OptionU8Manager for StateManager {
    fn manage_option_u8(&mut self, value: Option<u8>) -> (id: ReversibleOptionU8) {
        let id = ReversibleOptionU8(self.numbers_option_u8.len());
        self.numbers_option_u8.push(StateOptionU8 { id, clock: self.clock, value });
        proof {
            let before = old(self).journal();
            assert(self.journal() =~~= before.create(Kind::OptionU8, optional_u8(value)));
            before.lemma_create(Kind::OptionU8, optional_u8(value));
        }
        id
    }

    fn get_option_u8(&self, id: ReversibleOptionU8) -> (value: Option<u8>) {
        self.numbers_option_u8[id.0].value
    }

    fn set_option_u8(
        &mut self,
        id: ReversibleOptionU8,
        value: Option<u8>,
    ) -> (written: Option<u8>) {
        let curr = self.numbers_option_u8[id.0];
        proof {
            let before = old(self).journal();
            assert(before.slot_wf(Kind::OptionU8, id.0 as int));
            before.lemma_write(Kind::OptionU8, id.0 as int, optional_u8(value));
        }
        if value != curr.value {
            if curr.clock < self.clock {
                self.trail.push(TrailEntry::OptionU8Entry(curr));
                self.numbers_option_u8[id.0] = StateOptionU8 { id, clock: self.clock, value };
            } else {
                self.numbers_option_u8[id.0].value = value;
            }
            assert(self.journal() =~~= old(self).journal().write(
                Kind::OptionU8,
                id.0 as int,
                optional_u8(value),
            ));
        }
        value
    }

    fn increment_option_u8(&mut self, id: ReversibleOptionU8) -> (value: u8) {
        let value = self.numbers_option_u8[id.0].value.unwrap();
        self.set_option_u8(id, Some(value + 1));
        value + 1
    }

    fn decrement_option_u8(&mut self, id: ReversibleOptionU8) -> (value: u8) {
        let value = self.numbers_option_u8[id.0].value.unwrap();
        self.set_option_u8(id, Some(value - 1));
        value - 1
    }
}

} // verus!
