//! Managed `u128` values, and managed `Option<u128>` values.

use vstd::prelude::*;
use crate::history::{Cell, Kind};
use crate::journal::Slot;
use crate::manager::{SaveAndRestore, StateManager, TrailEntry};

verus! {

/// An index of a managed `u128`
#[derive(Debug, Clone, Copy, PartialEq, Eq, Hash)]
pub struct ReversibleU128(pub(crate) usize);

/// A state for a managed `u128`
#[derive(Debug, Clone, Copy)]
pub(crate) struct StateU128 {
    /// Index of the resource in the associated vector of the manager
    pub(crate) id: ReversibleU128,
    /// Clock of the resource. If less than the clock of the manager, the data
    /// needs to be saved on the trail if modified
    pub(crate) clock: usize,
    /// The value of the managed resource
    pub(crate) value: u128,
}

/// An index of a managed `Option<u128>`
#[derive(Debug, Clone, Copy, PartialEq, Eq, Hash)]
pub struct ReversibleOptionU128(pub(crate) usize);

/// A state for a managed `Option<u128>`
#[derive(Debug, Clone, Copy)]
pub(crate) struct StateOptionU128 {
    /// Index of the resource in the associated vector of the manager
    pub(crate) id: ReversibleOptionU128,
    /// Clock of the resource. If less than the clock of the manager, the data
    /// needs to be saved on the trail if modified
    pub(crate) clock: usize,
    /// The value of the managed resource
    pub(crate) value: Option<u128>,
}

/// An optional `u128` as the value of a cell.
pub open spec fn optional_u128(value: Option<u128>) -> Option<int> {
    match value {
        Some(v) => Some(v as int),
        None => None,
    }
}

impl View for ReversibleU128 {
    type V = nat;

    /// The position of the resource in the store `Kind::U128`.
    closed spec fn view(&self) -> nat {
        self.0 as nat
    }
}

impl View for ReversibleOptionU128 {
    type V = nat;

    /// The position of the resource in the store `Kind::OptionU128`.
    closed spec fn view(&self) -> nat {
        self.0 as nat
    }
}

impl ReversibleU128 {
    /// The position of the resource in its store.
    pub fn index(&self) -> (index: usize)
        ensures
            index == self@,
    {
        self.0
    }
}

impl ReversibleOptionU128 {
    /// The position of the resource in its store.
    pub fn index(&self) -> (index: usize)
        ensures
            index == self@,
    {
        self.0
    }
}

impl StateU128 {
    /// The state as a slot of the journal.
    pub(crate) open spec fn slot(self) -> Slot {
        Slot {
            id: self.id.0 as nat,
            cell: Cell { generation: self.clock as nat, value: Some(self.value as int) },
        }
    }

    /// The states of a store as slots of the journal.
    pub(crate) open spec fn slots(states: Seq<StateU128>) -> Seq<Slot> {
        states.map_values(|state: StateU128| state.slot())
    }
}

impl StateOptionU128 {
    /// The state as a slot of the journal.
    pub(crate) open spec fn slot(self) -> Slot {
        Slot {
            id: self.id.0 as nat,
            cell: Cell { generation: self.clock as nat, value: optional_u128(self.value) },
        }
    }

    /// The states of a store as slots of the journal.
    pub(crate) open spec fn slots(states: Seq<StateOptionU128>) -> Seq<Slot> {
        states.map_values(|state: StateOptionU128| state.slot())
    }
}

/// The operations on a managed `u128`
pub trait U128Manager: SaveAndRestore {
    /// Creates a new managed resource. Returns the index of the resource in the
    /// corresponding vector
    fn manage_u128(&mut self, value: u128) -> (id: ReversibleU128)
        requires
            old(self).inv(),
        ensures
            final(self).inv(),
            final(self)@ == old(self)@.create(Kind::U128, Some(value as int)),
            id@ == old(self)@.len(Kind::U128),
    ;

    /// Returns the value of the resource at the given index
    fn get_u128(&self, id: ReversibleU128) -> (value: u128)
        requires
            self.inv(),
            self@.holds(Kind::U128, id@),
        ensures
            self@.read(Kind::U128, id@) == Some(value as int),
    ;

    /// Sets the resource at the given index to the given value and returns the
    /// new value
    fn set_u128(&mut self, id: ReversibleU128, value: u128) -> (written: u128)
        requires
            old(self).inv(),
            old(self)@.holds(Kind::U128, id@),
        ensures
            final(self).inv(),
            final(self)@ == old(self)@.write(Kind::U128, id@, Some(value as int)),
            written == value,
    ;

    /// Increments the value of the resource at the given index and returns the
    /// new value
    fn increment_u128(&mut self, id: ReversibleU128) -> (value: u128)
        requires
            old(self).inv(),
            old(self)@.holds(Kind::U128, id@),
            old(self)@.read(Kind::U128, id@) != Some(u128::MAX as int),
        ensures
            final(self).inv(),
            final(self)@ == old(self)@.increment(Kind::U128, id@),
            final(self)@.read(Kind::U128, id@) == Some(value as int),
    ;

    /// Decrements the value of the resource at the given index and returns the
    /// new value
    fn decrement_u128(&mut self, id: ReversibleU128) -> (value: u128)
        requires
            old(self).inv(),
            old(self)@.holds(Kind::U128, id@),
            old(self)@.read(Kind::U128, id@) != Some(u128::MIN as int),
        ensures
            final(self).inv(),
            final(self)@ == old(self)@.decrement(Kind::U128, id@),
            final(self)@.read(Kind::U128, id@) == Some(value as int),
    ;
}

/// The operations on a managed `Option<u128>`
pub trait OptionU128Manager: SaveAndRestore {
    /// Creates a new managed resource. Returns the index of the resource in the
    /// corresponding vector
    fn manage_option_u128(&mut self, value: Option<u128>) -> (id: ReversibleOptionU128)
        requires
            old(self).inv(),
        ensures
            final(self).inv(),
            final(self)@ == old(self)@.create(Kind::OptionU128, optional_u128(value)),
            id@ == old(self)@.len(Kind::OptionU128),
    ;

    /// Returns the value of the resource at the given index
    fn get_option_u128(&self, id: ReversibleOptionU128) -> (value: Option<u128>)
        requires
            self.inv(),
            self@.holds(Kind::OptionU128, id@),
        ensures
            self@.read(Kind::OptionU128, id@) == optional_u128(value),
    ;

    /// Returns true if the managed resource is not None
    fn is_option_u128_some(&self, id: ReversibleOptionU128) -> (some: bool)
        requires
            self.inv(),
            self@.holds(Kind::OptionU128, id@),
        ensures
            some == self@.read(Kind::OptionU128, id@).is_some(),
    {
        self.get_option_u128(id).is_some()
    }

    /// Returns true if the managed resource is None
    fn is_option_u128_none(&self, id: ReversibleOptionU128) -> (none: bool)
        requires
            self.inv(),
            self@.holds(Kind::OptionU128, id@),
        ensures
            none == self@.read(Kind::OptionU128, id@).is_none(),
    {
        self.get_option_u128(id).is_none()
    }

    /// Sets the resource at the given index to the given value and returns the
    /// new value
    fn set_option_u128(
        &mut self,
        id: ReversibleOptionU128,
        value: Option<u128>,
    ) -> (written: Option<u128>)
        requires
            old(self).inv(),
            old(self)@.holds(Kind::OptionU128, id@),
        ensures
            final(self).inv(),
            final(self)@ == old(self)@.write(Kind::OptionU128, id@, optional_u128(value)),
            written == value,
    ;

    /// Increments the value of the resource at the given index and returns the
    /// new value. The resource must hold a value.
    fn increment_option_u128(&mut self, id: ReversibleOptionU128) -> (value: u128)
        requires
            old(self).inv(),
            old(self)@.holds(Kind::OptionU128, id@),
            old(self)@.read(Kind::OptionU128, id@).is_some(),
            old(self)@.read(Kind::OptionU128, id@) != Some(u128::MAX as int),
        ensures
            final(self).inv(),
            final(self)@ == old(self)@.increment(Kind::OptionU128, id@),
            final(self)@.read(Kind::OptionU128, id@) == Some(value as int),
    ;

    /// Decrements the value of the resource at the given index and returns the
    /// new value. The resource must hold a value.
    fn decrement_option_u128(&mut self, id: ReversibleOptionU128) -> (value: u128)
        requires
            old(self).inv(),
            old(self)@.holds(Kind::OptionU128, id@),
            old(self)@.read(Kind::OptionU128, id@).is_some(),
            old(self)@.read(Kind::OptionU128, id@) != Some(u128::MIN as int),
        ensures
            final(self).inv(),
            final(self)@ == old(self)@.decrement(Kind::OptionU128, id@),
            final(self)@.read(Kind::OptionU128, id@) == Some(value as int),
    ;
}

impl U128Manager for StateManager {
    fn manage_u128(&mut self, value: u128) -> (id: ReversibleU128) {
        let id = ReversibleU128(self.numbers_u128.len());
        self.numbers_u128.push(StateU128 { id, clock: self.clock, value });
        proof {
            let before = old(self).journal();
            assert(self.journal() =~~= before.create(Kind::U128, Some(value as int)));
            before.lemma_create(Kind::U128, Some(value as int));
        }
        id
    }

    fn get_u128(&self, id: ReversibleU128) -> (value: u128) {
        self.numbers_u128[id.0].value
    }

    fn set_u128(&mut self, id: ReversibleU128, value: u128) -> (written: u128) {
        let curr = self.numbers_u128[id.0];
        proof {
            let before = old(self).journal();
            assert(before.slot_wf(Kind::U128, id.0 as int));
            before.lemma_write(Kind::U128, id.0 as int, Some(value as int));
        }
        if value != curr.value {
            if curr.clock < self.clock {
                self.trail.push(TrailEntry::U128Entry(curr));
                self.numbers_u128[id.0] = StateU128 { id, clock: self.clock, value };
            } else {
                self.numbers_u128[id.0].value = value;
            }
            assert(self.journal() =~~= old(self).journal().write(
                Kind::U128,
                id.0 as int,
                Some(value as int),
            ));
        }
        value
    }

    fn increment_u128(&mut self, id: ReversibleU128) -> (value: u128) {
        let value = self.get_u128(id) + 1;
        self.set_u128(id, value)
    }

    fn decrement_u128(&mut self, id: ReversibleU128) -> (value: u128) {
        let value = self.get_u128(id) - 1;
        self.set_u128(id, value)
    }
}

impl OptionU128Manager for StateManager {
    fn manage_option_u128(&mut self, value: Option<u128>) -> (id: ReversibleOptionU128) {
        let id = ReversibleOptionU128(self.numbers_option_u128.len());
        self.numbers_option_u128.push(StateOptionU128 { id, clock: self.clock, value });
        proof {
            let before = old(self).journal();
            assert(self.journal() =~~= before.create(Kind::OptionU128, optional_u128(value)));
            before.lemma_create(Kind::OptionU128, optional_u128(value));
        }
        id
    }

    fn get_option_u128(&self, id: ReversibleOptionU128) -> (value: Option<u128>) {
        self.numbers_option_u128[id.0].value
    }

    fn set_option_u128(
        &mut self,
        id: ReversibleOptionU128,
        value: Option<u128>,
    ) -> (written: Option<u128>) {
        let curr = self.numbers_option_u128[id.0];
        proof {
            let before = old(self).journal();
            assert(before.slot_wf(Kind::OptionU128, id.0 as int));
            before.lemma_write(Kind::OptionU128, id.0 as int, optional_u128(value));
        }
        if value != curr.value {
            if curr.clock < self.clock {
                self.trail.push(TrailEntry::OptionU128Entry(curr));
                self.numbers_option_u128[id.0] = StateOptionU128 { id, clock: self.clock, value };
            } else {
                self.numbers_option_u128[id.0].value = value;
            }
            assert(self.journal() =~~= old(self).journal().write(
                Kind::OptionU128,
                id.0 as int,
                optional_u128(value),
            ));
        }
        value
    }

    fn increment_option_u128(&mut self, id: ReversibleOptionU128) -> (value: u128) {
        let value = self.numbers_option_u128[id.0].value.unwrap();
        self.set_option_u128(id, Some(value + 1));
        value + 1
    }

    fn decrement_option_u128(&mut self, id: ReversibleOptionU128) -> (value: u128) {
        let value = self.numbers_option_u128[id.0].value.unwrap();
        self.set_option_u128(id, Some(value - 1));
        value - 1
    }
}

} // verus!
