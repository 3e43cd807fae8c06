//! Managed `i32` values, and managed `Option<i32>` values.

use vstd::prelude::*;
use crate::history::{Cell, Kind};
use crate::journal::Slot;
use crate::manager::{SaveAndRestore, StateManager, TrailEntry};

verus! {

/// An index of a managed `i32`
#[derive(Debug, Clone, Copy, PartialEq, Eq, Hash)]
pub struct ReversibleI32(pub(crate) usize);

/// A state for a managed `i32`
#[derive(Debug, Clone, Copy)]
pub(crate) struct StateI32 {
    /// Index of the resource in the associated vector of the manager
    pub(crate) id: ReversibleI32,
    /// Clock of the resource. If less than the clock of the manager, the data
    /// needs to be saved on the trail if modified
    pub(crate) clock: usize,
    /// The value of the managed resource
    pub(crate) value: i32,
}

/// An index of a managed `Option<i32>`
#[derive(Debug, Clone, Copy, PartialEq, Eq, Hash)]
pub struct ReversibleOptionI32(pub(crate) usize);

/// A state for a managed `Option<i32>`
#[derive(Debug, Clone, Copy)]
pub(crate) struct StateOptionI32 {
    /// Index of the resource in the associated vector of the manager
    pub(crate) id: ReversibleOptionI32,
    /// Clock of the resource. If less than the clock of the manager, the data
    /// needs to be saved on the trail if modified
    pub(crate) clock: usize,
    /// The value of the managed resource
    pub(crate) value: Option<i32>,
}

/// An optional `i32` as the value of a cell.
pub open spec fn optional_i32(value: Option<i32>) -> Option<int> {
    match value {
        Some(v) => Some(v as int),
        None => None,
    }
}

impl View for ReversibleI32 {
    type V = nat;

    /// The position of the resource in the store `Kind::I32`.
    closed spec fn view(&self) -> nat {
        self.0 as nat
    }
}

impl View for ReversibleOptionI32 {
    type V = nat;

    /// The position of the resource in the store `Kind::OptionI32`.
    closed spec fn view(&self) -> nat {
        self.0 as nat
    }
}

impl ReversibleI32 {
    /// The position of the resource in its store.
    pub fn index(&self) -> (index: usize)
        ensures
            index == self@,
    {
        self.0
    }
}

impl ReversibleOptionI32 {
    /// The position of the resource in its store.
    pub fn index(&self) -> (index: usize)
        ensures
            index == self@,
    {
        self.0
    }
}

impl StateI32 {
    /// The state as a slot of the journal.
    pub(crate) open spec fn slot(self) -> Slot {
        Slot {
            id: self.id.0 as nat,
            cell: Cell { generation: self.clock as nat, value: Some(self.value as int) },
        }
    }

    /// The states of a store as slots of the journal.
    pub(crate) open spec fn slots(states: Seq<StateI32>) -> Seq<Slot> {
        states.map_values(|state: StateI32| state.slot())
    }
}

impl StateOptionI32 {
    /// The state as a slot of the journal.
    pub(crate) open spec fn slot(self) -> Slot {
        Slot {
            id: self.id.0 as nat,
            cell: Cell { generation: self.clock as nat, value: optional_i32(self.value) },
        }
    }

    /// The states of a store as slots of the journal.
    pub(crate) open spec fn slots(states: Seq<StateOptionI32>) -> Seq<Slot> {
        states.map_values(|state: StateOptionI32| state.slot())
    }
}

/// The operations on a managed `i32`
pub trait I32Manager: SaveAndRestore {
    /// Creates a new managed resource. Returns the index of the resource in the
    /// corresponding vector
    fn manage_i32(&mut self, value: i32) -> (id: ReversibleI32)
        requires
            old(self).inv(),
        ensures
            final(self).inv(),
            final(self)@ == old(self)@.create(Kind::I32, Some(value as int)),
            id@ == old(self)@.len(Kind::I32),
    ;

    /// Returns the value of the resource at the given index
    fn get_i32(&self, id: ReversibleI32) -> (value: i32)
        requires
            self.inv(),
            self@.holds(Kind::I32, id@),
        ensures
            self@.read(Kind::I32, id@) == Some(value as int),
    ;

    /// Sets the resource at the given index to the given value and returns the
    /// new value
    fn set_i32(&mut self, id: ReversibleI32, value: i32) -> (written: i32)
        requires
            old(self).inv(),
            old(self)@.holds(Kind::I32, id@),
        ensures
            final(self).inv(),
            final(self)@ == old(self)@.write(Kind::I32, id@, Some(value as int)),
            written == value,
    ;

    /// Increments the value of the resource at the given index and returns the
    /// new value
    fn increment_i32(&mut self, id: ReversibleI32) -> (value: i32)
        requires
            old(self).inv(),
            old(self)@.holds(Kind::I32, id@),
            old(self)@.read(Kind::I32, id@) != Some(i32::MAX as int),
        ensures
            final(self).inv(),
            final(self)@ == old(self)@.increment(Kind::I32, id@),
            final(self)@.read(Kind::I32, id@) == Some(value as int),
    ;

    /// Decrements the value of the resource at the given index and returns the
    /// new value
    fn decrement_i32(&mut self, id: ReversibleI32) -> (value: i32)
        requires
            old(self).inv(),
            old(self)@.holds(Kind::I32, id@),
            old(self)@.read(Kind::I32, id@) != Some(i32::MIN as int),
        ensures
            final(self).inv(),
            final(self)@ == old(self)@.decrement(Kind::I32, id@),
            final(self)@.read(Kind::I32, id@) == Some(value as int),
    ;
}

/// The operations on a managed `Option<i32>`
pub trait OptionI32Manager: SaveAndRestore {
    /// Creates a new managed resource. Returns the index of the resource in the
    /// corresponding vector
    fn manage_option_i32(&mut self, value: Option<i32>) -> (id: ReversibleOptionI32)
        requires
            old(self).inv(),
        ensures
            final(self).inv(),
            final(self)@ == old(self)@.create(Kind::OptionI32, optional_i32(value)),
            id@ == old(self)@.len(Kind::OptionI32),
    ;

    /// Returns the value of the resource at the given index
    fn get_option_i32(&self, id: ReversibleOptionI32) -> (value: Option<i32>)
        requires
            self.inv(),
            self@.holds(Kind::OptionI32, id@),
        ensures
            self@.read(Kind::OptionI32, id@) == optional_i32(value),
    ;

    /// Returns true if the managed resource is not None
    fn is_option_i32_some(&self, id: ReversibleOptionI32) -> (some: bool)
        requires
            self.inv(),
            self@.holds(Kind::OptionI32, id@),
        ensures
            some == self@.read(Kind::OptionI32, id@).is_some(),
    {
        self.get_option_i32(id).is_some()
    }

    /// Returns true if the managed resource is None
    fn is_option_i32_none(&self, id: ReversibleOptionI32) -> (none: bool)
        requires
            self.inv(),
            self@.holds(Kind::OptionI32, id@),
        ensures
            none == self@.read(Kind::OptionI32, id@).is_none(),
    {
        self.get_option_i32(id).is_none()
    }

    /// Sets the resource at the given index to the given value and returns the
    /// new value
    fn set_option_i32(
        &mut self,
        id: ReversibleOptionI32,
        value: Option<i32>,
    ) -> (written: Option<i32>)
        requires
            old(self).inv(),
            old(self)@.holds(Kind::OptionI32, id@),
        ensures
            final(self).inv(),
            final(self)@ == old(self)@.write(Kind::OptionI32, id@, optional_i32(value)),
            written == value,
    ;

    /// Increments the value of the resource at the given index and returns the
    /// new value. The resource must hold a value.
    fn increment_option_i32(&mut self, id: ReversibleOptionI32) -> (value: i32)
        requires
            old(self).inv(),
            old(self)@.holds(Kind::OptionI32, id@),
            old(self)@.read(Kind::OptionI32, id@).is_some(),
            old(self)@.read(Kind::OptionI32, id@) != Some(i32::MAX as int),
        ensures
            final(self).inv(),
            final(self)@ == old(self)@.increment(Kind::OptionI32, id@),
            final(self)@.read(Kind::OptionI32, id@) == Some(value as int),
    ;

    /// Decrements the value of the resource at the given index and returns the
    /// new value. The resource must hold a value.
    fn decrement_option_i32(&mut self, id: ReversibleOptionI32) -> (value: i32)
        requires
            old(self).inv(),
            old(self)@.holds(Kind::OptionI32, id@),
            old(self)@.read(Kind::OptionI32, id@).is_some(),
            old(self)@.read(Kind::OptionI32, id@) != Some(i32::MIN as int),
        ensures
            final(self).inv(),
            final(self)@ == old(self)@.decrement(Kind::OptionI32, id@),
            final(self)@.read(Kind::OptionI32, id@) == Some(value as int),
    ;
}

impl I32Manager for StateManager {
    fn manage_i32(&mut self, value: i32) -> (id: ReversibleI32) {
        let id = ReversibleI32(self.numbers_i32.len());
        self.numbers_i32.push(StateI32 { id, clock: self.clock, value });
        proof {
            let before = old(self).journal();
            assert(self.journal() =~~= before.create(Kind::I32, Some(value as int)));
            before.lemma_create(Kind::I32, Some(value as int));
        }
        id
    }

    fn get_i32(&self, id: ReversibleI32) -> (value: i32) {
        self.numbers_i32[id.0].value
    }

    fn set_i32(&mut self, id: ReversibleI32, value: i32) -> (written: i32) {
        let curr = self.numbers_i32[id.0];
        proof {
            let before = old(self).journal();
            assert(before.slot_wf(Kind::I32, id.0 as int));
            before.lemma_write(Kind::I32, id.0 as int, Some(value as int));
        }
        if value != curr.value {
            if curr.clock < self.clock {
                self.trail.push(TrailEntry::I32Entry(curr));
                self.numbers_i32[id.0] = StateI32 { id, clock: self.clock, value };
            } else {
                self.numbers_i32[id.0].value = value;
            }
            assert(self.journal() =~~= old(self).journal().write(
                Kind::I32,
                id.0 as int,
                Some(value as int),
            ));
        }
        value
    }

    fn increment_i32(&mut self, id: ReversibleI32) -> (value: i32) {
        let value = self.get_i32(id) + 1;
        self.set_i32(id, value)
    }

    fn decrement_i32(&mut self, id: ReversibleI32) -> (value: i32) {
        let value = self.get_i32(id) - 1;
        self.set_i32(id, value)
    }
}

impl OptionI32Manager for StateManager {
    fn manage_option_i32(&mut self, value: Option<i32>) -> (id: ReversibleOptionI32) {
        let id = ReversibleOptionI32(self.numbers_option_i32.len());
        self.numbers_option_i32.push(StateOptionI32 { id, clock: self.clock, value });
        proof {
            let before = old(self).journal();
            assert(self.journal() =~~= before.create(Kind::OptionI32, optional_i32(value)));
            before.lemma_create(Kind::OptionI32, optional_i32(value));
        }
        id
    }

    fn get_option_i32(&self, id: ReversibleOptionI32) -> (value: Option<i32>) {
        self.numbers_option_i32[id.0].value
    }

    fn set_option_i32(
        &mut self,
        id: ReversibleOptionI32,
        value: Option<i32>,
    ) -> (written: Option<i32>) {
        let curr = self.numbers_option_i32[id.0];
        proof {
            let before = old(self).journal();
            assert(before.slot_wf(Kind::OptionI32, id.0 as int));
            before.lemma_write(Kind::OptionI32, id.0 as int, optional_i32(value));
        }
        if value != curr.value {
            if curr.clock < self.clock {
                self.trail.push(TrailEntry::OptionI32Entry(curr));
                self.numbers_option_i32[id.0] = StateOptionI32 { id, clock: self.clock, value };
            } else {
                self.numbers_option_i32[id.0].value = value;
            }
            assert(self.journal() =~~= old(self).journal().write(
                Kind::OptionI32,
                id.0 as int,
                optional_i32(value),
            ));
        }
        value
    }

    fn increment_option_i32(&mut self, id: ReversibleOptionI32) -> (value: i32) {
        let value = self.numbers_option_i32[id.0].value.unwrap();
        self.set_option_i32(id, Some(value + 1));
        value + 1
    }

    fn decrement_option_i32(&mut self, id: ReversibleOptionI32) -> (value: i32) {
        let value = self.numbers_option_i32[id.0].value.unwrap();
        self.set_option_i32(id, Some(value - 1));
        value - 1
    }
}

} // verus!
