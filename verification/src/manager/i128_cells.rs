//! Managed `i128` values, and managed `Option<i128>` values.

use vstd::prelude::*;
use crate::history::{Cell, Kind};
use crate::journal::Slot;
use crate::manager::{SaveAndRestore, StateManager, TrailEntry};

verus! {

/// An index of a managed `i128`
#[derive(Debug, Clone, Copy, PartialEq, Eq, Hash)]
pub struct ReversibleI128(pub(crate) usize);

/// A state for a managed `i128`
#[derive(Debug, Clone, Copy)]
pub(crate) struct StateI128 {
    /// Index of the resource in the associated vector of the manager
    pub(crate) id: ReversibleI128,
    /// Clock of the resource. If less than the clock of the manager, the data
    /// needs to be saved on the trail if modified
    pub(crate) clock: usize,
    /// The value of the managed resource
    pub(crate) value: i128,
}

/// An index of a managed `Option<i128>`
#[derive(Debug, Clone, Copy, PartialEq, Eq, Hash)]
pub struct ReversibleOptionI128(pub(crate) usize);

/// A state for a managed `Option<i128>`
#[derive(Debug, Clone, Copy)]
pub(crate) struct StateOptionI128 {
    /// Index of the resource in the associated vector of the manager
    pub(crate) id: ReversibleOptionI128,
    /// Clock of the resource. If less than the clock of the manager, the data
    /// needs to be saved on the trail if modified
    pub(crate) clock: usize,
    /// The value of the managed resource
    pub(crate) value: Option<i128>,
}

/// An optional `i128` as the value of a cell.
pub open spec fn optional_i128(value: Option<i128>) -> Option<int> {
    match value {
        Some(v) => Some(v as int),
        None => None,
    }
}

impl View for ReversibleI128 {
    type V = nat;

    /// The position of the resource in the store `Kind::I128`.
    closed spec fn view(&self) -> nat {
        self.0 as nat
    }
}

impl View for ReversibleOptionI128 {
    type V = nat;

    /// The position of the resource in the store `Kind::OptionI128`.
    closed spec fn view(&self) -> nat {
        self.0 as nat
    }
}

impl ReversibleI128 {
    /// The position of the resource in its store.
    pub fn index(&self) -> (index: usize)
        ensures
            index == self@,
    {
        self.0
    }
}

impl ReversibleOptionI128 {
    /// The position of the resource in its store.
    pub fn index(&self) -> (index: usize)
        ensures
            index == self@,
    {
        self.0
    }
}

impl StateI128 {
    /// The state as a slot of the journal.
    pub(crate) open spec fn slot(self) -> Slot {
        Slot {
            id: self.id.0 as nat,
            cell: Cell { generation: self.clock as nat, value: Some(self.value as int) },
        }
    }

    /// The states of a store as slots of the journal.
    pub(crate) open spec fn slots(states: Seq<StateI128>) -> Seq<Slot> {
        states.map_values(|state: StateI128| state.slot())
    }
}

impl StateOptionI128 {
    /// The state as a slot of the journal.
    pub(crate) open spec fn slot(self) -> Slot {
        Slot {
            id: self.id.0 as nat,
            cell: Cell { generation: self.clock as nat, value: optional_i128(self.value) },
        }
    }

    /// The states of a store as slots of the journal.
    pub(crate) open spec fn slots(states: Seq<StateOptionI128>) -> Seq<Slot> {
        states.map_values(|state: StateOptionI128| state.slot())
    }
}

/// The operations on a managed `i128`
pub trait I128Manager: SaveAndRestore {
    /// Creates a new managed resource. Returns the index of the resource in the
    /// corresponding vector
    fn manage_i128(&mut self, value: i128) -> (id: ReversibleI128)
        requires
            old(self).inv(),
        ensures
            final(self).inv(),
            final(self)@ == old(self)@.create(Kind::I128, Some(value as int)),
            id@ == old(self)@.len(Kind::I128),
    ;

    /// Returns the value of the resource at the given index
    fn get_i128(&self, id: ReversibleI128) -> (value: i128)
        requires
            self.inv(),
            self@.holds(Kind::I128, id@),
        ensures
            self@.read(Kind::I128, id@) == Some(value as int),
    ;

    /// Sets the resource at the given index to the given value and returns the
    /// new value
    fn set_i128(&mut self, id: ReversibleI128, value: i128) -> (written: i128)
        requires
            old(self).inv(),
            old(self)@.holds(Kind::I128, id@),
        ensures
            final(self).inv(),
            final(self)@ == old(self)@.write(Kind::I128, id@, Some(value as int)),
            written == value,
    ;

    /// Increments the value of the resource at the given index and returns the
    /// new value
    fn increment_i128(&mut self, id: ReversibleI128) -> (value: i128)
        requires
            old(self).inv(),
            old(self)@.holds(Kind::I128, id@),
            old(self)@.read(Kind::I128, id@) != Some(i128::MAX as int),
        ensures
            final(self).inv(),
            final(self)@ == old(self)@.increment(Kind::I128, id@),
            final(self)@.read(Kind::I128, id@) == Some(value as int),
    ;

    /// Decrements the value of the resource at the given index and returns the
    /// new value
    fn decrement_i128(&mut self, id: ReversibleI128) -> (value: i128)
        requires
            old(self).inv(),
            old(self)@.holds(Kind::I128, id@),
            old(self)@.read(Kind::I128, id@) != Some(i128::MIN as int),
        ensures
            final(self).inv(),
            final(self)@ == old(self)@.decrement(Kind::I128, id@),
            final(self)@.read(Kind::I128, id@) == Some(value as int),
    ;
}

/// The operations on a managed `Option<i128>`
pub trait OptionI128Manager: SaveAndRestore {
    /// Creates a new managed resource. Returns the index of the resource in the
    /// corresponding vector
    fn manage_option_i128(&mut self, value: Option<i128>) -> (id: ReversibleOptionI128)
        requires
            old(self).inv(),
        ensures
            final(self).inv(),
            final(self)@ == old(self)@.create(Kind::OptionI128, optional_i128(value)),
            id@ == old(self)@.len(Kind::OptionI128),
    ;

    /// Returns the value of the resource at the given index
    fn get_option_i128(&self, id: ReversibleOptionI128) -> (value: Option<i128>)
        requires
            self.inv(),
            self@.holds(Kind::OptionI128, id@),
        ensures
            self@.read(Kind::OptionI128, id@) == optional_i128(value),
    ;

    /// Returns true if the managed resource is not None
    fn is_option_i128_some(&self, id: ReversibleOptionI128) -> (some: bool)
        requires
            self.inv(),
            self@.holds(Kind::OptionI128, id@),
        ensures
            some == self@.read(Kind::OptionI128, id@).is_some(),
    {
        self.get_option_i128(id).is_some()
    }

    /// Returns true if the managed resource is None
    fn is_option_i128_none(&self, id: ReversibleOptionI128) -> (none: bool)
        requires
            self.inv(),
            self@.holds(Kind::OptionI128, id@),
        ensures
            none == self@.read(Kind::OptionI128, id@).is_none(),
    {
        self.get_option_i128(id).is_none()
    }

    /// Sets the resource at the given index to the given value and returns the
    /// new value
    fn set_option_i128(
        &mut self,
        id: ReversibleOptionI128,
        value: Option<i128>,
    ) -> (written: Option<i128>)
        requires
            old(self).inv(),
            old(self)@.holds(Kind::OptionI128, id@),
        ensures
            final(self).inv(),
            final(self)@ == old(self)@.write(Kind::OptionI128, id@, optional_i128(value)),
            written == value,
    ;

    /// Increments the value of the resource at the given index and returns the
    /// new value. The resource must hold a value.
    fn increment_option_i128(&mut self, id: ReversibleOptionI128) -> (value: i128)
        requires
            old(self).inv(),
            old(self)@.holds(Kind::OptionI128, id@),
            old(self)@.read(Kind::OptionI128, id@).is_some(),
            old(self)@.read(Kind::OptionI128, id@) != Some(i128::MAX as int),
        ensures
            final(self).inv(),
            final(self)@ == old(self)@.increment(Kind::OptionI128, id@),
            final(self)@.read(Kind::OptionI128, id@) == Some(value as int),
    ;

    /// Decrements the value of the resource at the given index and returns the
    /// new value. The resource must hold a value.
    fn decrement_option_i128(&mut self, id: ReversibleOptionI128) -> (value: i128)
        requires
            old(self).inv(),
            old(self)@.holds(Kind::OptionI128, id@),
            old(self)@.read(Kind::OptionI128, id@).is_some(),
            old(self)@.read(Kind::OptionI128, id@) != Some(i128::MIN as int),
        ensures
            final(self).inv(),
            final(self)@ == old(self)@.decrement(Kind::OptionI128, id@),
            final(self)@.read(Kind::OptionI128, id@) == Some(value as int),
    ;
}

impl I128Manager for StateManager {
    fn manage_i128(&mut self, value: i128) -> (id: ReversibleI128) {
        let id = ReversibleI128(self.numbers_i128.len());
        self.numbers_i128.push(StateI128 { id, clock: self.clock, value });
        proof {
            let before = old(self).journal();
            assert(self.journal() =~~= before.create(Kind::I128, Some(value as int)));
            before.lemma_create(Kind::I128, Some(value as int));
        }
        id
    }

    fn get_i128(&self, id: ReversibleI128) -> (value: i128) {
        self.numbers_i128[id.0].value
    }

    fn set_i128(&mut self, id: ReversibleI128, value: i128) -> (written: i128) {
        let curr = self.numbers_i128[id.0];
        proof {
            let before = old(self).journal();
            assert(before.slot_wf(Kind::I128, id.0 as int));
            before.lemma_write(Kind::I128, id.0 as int, Some(value as int));
        }
        if value != curr.value {
            if curr.clock < self.clock {
                self.trail.push(TrailEntry::I128Entry(curr));
                self.numbers_i128[id.0] = StateI128 { id, clock: self.clock, value };
            } else {
                self.numbers_i128[id.0].value = value;
            }
            assert(self.journal() =~~= old(self).journal().write(
                Kind::I128,
                id.0 as int,
                Some(value as int),
            ));
        }
        value
    }

    fn increment_i128(&mut self, id: ReversibleI128) -> (value: i128) {
        let value = self.get_i128(id) + 1;
        self.set_i128(id, value)
    }

    fn decrement_i128(&mut self, id: ReversibleI128) -> (value: i128) {
        let value = self.get_i128(id) - 1;
        self.set_i128(id, value)
    }
}

impl OptionI128Manager for StateManager {
    fn manage_option_i128(&mut self, value: Option<i128>) -> (id: ReversibleOptionI128) {
        let id = ReversibleOptionI128(self.numbers_option_i128.len());
        self.numbers_option_i128.push(StateOptionI128 { id, clock: self.clock, value });
        proof {
            let before = old(self).journal();
            assert(self.journal() =~~= before.create(Kind::OptionI128, optional_i128(value)));
            before.lemma_create(Kind::OptionI128, optional_i128(value));
        }
        id
    }

    fn get_option_i128(&self, id: ReversibleOptionI128) -> (value: Option<i128>) {
        self.numbers_option_i128[id.0].value
    }

    fn set_option_i128(
        &mut self,
        id: ReversibleOptionI128,
        value: Option<i128>,
    ) -> (written: Option<i128>) {
        let curr = self.numbers_option_i128[id.0];
        proof {
            let before = old(self).journal();
            assert(before.slot_wf(Kind::OptionI128, id.0 as int));
            before.lemma_write(Kind::OptionI128, id.0 as int, optional_i128(value));
        }
        if value != curr.value {
            if curr.clock < self.clock {
                self.trail.push(TrailEntry::OptionI128Entry(curr));
                self.numbers_option_i128[id.0] = StateOptionI128 { id, clock: self.clock, value };
            } else {
                self.numbers_option_i128[id.0].value = value;
            }
            assert(self.journal() =~~= old(self).journal().write(
                Kind::OptionI128,
                id.0 as int,
                optional_i128(value),
            ));
        }
        value
    }

    fn increment_option_i128(&mut self, id: ReversibleOptionI128) -> (value: i128) {
        let value = self.numbers_option_i128[id.0].value.unwrap();
        self.set_option_i128(id, Some(value + 1));
        value + 1
    }

    fn decrement_option_i128(&mut self, id: ReversibleOptionI128) -> (value: i128) {
        let value = self.numbers_option_i128[id.0].value.unwrap();
        self.set_option_i128(id, Some(value - 1));
        value - 1
    }
}

} // verus!
