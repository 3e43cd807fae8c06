//! Managed `u32` values, and managed `Option<u32>` values.

use vstd::prelude::*;
use crate::history::{Cell, Kind};
use crate::journal::Slot;
use crate::manager::{SaveAndRestore, StateManager, TrailEntry};

verus! {

/// An index of a managed `u32`
#[derive(Debug, Clone, Copy, PartialEq, Eq, Hash)]
pub struct ReversibleU32(pub(crate) usize);

/// A state for a managed `u32`
#[derive(Debug, Clone, Copy)]
pub(crate) struct StateU32 {
    /// Index of the resource in the associated vector of the manager
    pub(crate) id: ReversibleU32,
    /// Clock of the resource. If less than the clock of the manager, the data
    /// needs to be saved on the trail if modified
    pub(crate) clock: usize,
    /// The value of the managed resource
    pub(crate) value: u32,
}

/// An index of a managed `Option<u32>`
#[derive(Debug, Clone, Copy, PartialEq, Eq, Hash)]
pub struct ReversibleOptionU32(pub(crate) usize);

/// A state for a managed `Option<u32>`
#[derive(Debug, Clone, Copy)]
pub(crate) struct StateOptionU32 {
    /// Index of the resource in the associated vector of the manager
    pub(crate) id: ReversibleOptionU32,
    /// Clock of the resource. If less than the clock of the manager, the data
    /// needs to be saved on the trail if modified
    pub(crate) clock: usize,
    /// The value of the managed resource
    pub(crate) value: Option<u32>,
}

/// An optional `u32` as the value of a cell.
pub open spec fn optional_u32(value: Option<u32>) -> Option<int> {
    match value {
        Some(v) => Some(v as int),
        None => None,
    }
}

impl View for ReversibleU32 {
    type V = nat;

    /// The position of the resource in the store `Kind::U32`.
    closed spec fn view(&self) -> nat {
        self.0 as nat
    }
}

impl View for ReversibleOptionU32 {
    type V = nat;

    /// The position of the resource in the store `Kind::OptionU32`.
    closed spec fn view(&self) -> nat {
        self.0 as nat
    }
}

impl ReversibleU32 {
    /// The position of the resource in its store.
    pub fn index(&self) -> (index: usize)
        ensures
            index == self@,
    {
        self.0
    }
}

impl ReversibleOptionU32 {
    /// The position of the resource in its store.
    pub fn index(&self) -> (index: usize)
        ensures
            index == self@,
    {
        self.0
    }
}

impl StateU32 {
    /// The state as a slot of the journal.
    pub(crate) open spec fn slot(self) -> Slot {
        Slot {
            id: self.id.0 as nat,
            cell: Cell { generation: self.clock as nat, value: Some(self.value as int) },
        }
    }

    /// The states of a store as slots of the journal.
    pub(crate) open spec fn slots(states: Seq<StateU32>) -> Seq<Slot> {
        states.map_values(|state: StateU32| state.slot())
    }
}

impl StateOptionU32 {
    /// The state as a slot of the journal.
    pub(crate) open spec fn slot(self) -> Slot {
        Slot {
            id: self.id.0 as nat,
            cell: Cell { generation: self.clock as nat, value: optional_u32(self.value) },
        }
    }

    /// The states of a store as slots of the journal.
    pub(crate) open spec fn slots(states: Seq<StateOptionU32>) -> Seq<Slot> {
        states.map_values(|state: StateOptionU32| state.slot())
    }
}

/// The operations on a managed `u32`
pub trait U32Manager: SaveAndRestore {
    /// Creates a new managed resource. Returns the index of the resource in the
    /// corresponding vector
    fn manage_u32(&mut self, value: u32) -> (id: ReversibleU32)
        requires
            old(self).inv(),
        ensures
            final(self).inv(),
            final(self)@ == old(self)@.create(Kind::U32, Some(value as int)),
            id@ == old(self)@.len(Kind::U32),
    ;

    /// Returns the value of the resource at the given index
    fn get_u32(&self, id: ReversibleU32) -> (value: u32)
        requires
            self.inv(),
            self@.holds(Kind::U32, id@),
        ensures
            self@.read(Kind::U32, id@) == Some(value as int),
    ;

    /// Sets the resource at the given index to the given value and returns the
    /// new value
    fn set_u32(&mut self, id: ReversibleU32, value: u32) -> (written: u32)
        requires
            old(self).inv(),
            old(self)@.holds(Kind::U32, id@),
        ensures
            final(self).inv(),
            final(self)@ == old(self)@.write(Kind::U32, id@, Some(value as int)),
            written == value,
    ;

    /// Increments the value of the resource at the given index and returns the
    /// new value
    fn increment_u32(&mut self, id: ReversibleU32) -> (value: u32)
        requires
            old(self).inv(),
            old(self)@.holds(Kind::U32, id@),
            old(self)@.read(Kind::U32, id@) != Some(u32::MAX as int),
        ensures
            final(self).inv(),
            final(self)@ == old(self)@.increment(Kind::U32, id@),
            final(self)@.read(Kind::U32, id@) == Some(value as int),
    ;

    /// Decrements the value of the resource at the given index and returns the
    /// new value
    fn decrement_u32(&mut self, id: ReversibleU32) -> (value: u32)
        requires
            old(self).inv(),
            old(self)@.holds(Kind::U32, id@),
            old(self)@.read(Kind::U32, id@) != Some(u32::MIN as int),
        ensures
            final(self).inv(),
            final(self)@ == old(self)@.decrement(Kind::U32, id@),
            final(self)@.read(Kind::U32, id@) == Some(value as int),
    ;
}

/// The operations on a managed `Option<u32>`
pub trait OptionU32Manager: SaveAndRestore {
    /// Creates a new managed resource. Returns the index of the resource in the
    /// corresponding vector
    fn manage_option_u32(&mut self, value: Option<u32>) -> (id: ReversibleOptionU32)
        requires
            old(self).inv(),
        ensures
            final(self).inv(),
            final(self)@ == old(self)@.create(Kind::OptionU32, optional_u32(value)),
            id@ == old(self)@.len(Kind::OptionU32),
    ;

    /// Returns the value of the resource at the given index
    fn get_option_u32(&self, id: ReversibleOptionU32) -> (value: Option<u32>)
        requires
            self.inv(),
            self@.holds(Kind::OptionU32, id@),
        ensures
            self@.read(Kind::OptionU32, id@) == optional_u32(value),
    ;

    /// Returns true if the managed resource is not None
    fn is_option_u32_some(&self, id: ReversibleOptionU32) -> (some: bool)
        requires
            self.inv(),
            self@.holds(Kind::OptionU32, id@),
        ensures
            some == self@.read(Kind::OptionU32, id@).is_some(),
    {
        self.get_option_u32(id).is_some()
    }

    /// Returns true if the managed resource is None
    fn is_option_u32_none(&self, id: ReversibleOptionU32) -> (none: bool)
        requires
            self.inv(),
            self@.holds(Kind::OptionU32, id@),
        ensures
            none == self@.read(Kind::OptionU32, id@).is_none(),
    {
        self.get_option_u32(id).is_none()
    }

    /// Sets the resource at the given index to the given value and returns the
    /// new value
    fn set_option_u32(
        &mut self,
        id: ReversibleOptionU32,
        value: Option<u32>,
    ) -> (written: Option<u32>)
        requires
            old(self).inv(),
            old(self)@.holds(Kind::OptionU32, id@),
        ensures
            final(self).inv(),
            final(self)@ == old(self)@.write(Kind::OptionU32, id@, optional_u32(value)),
            written == value,
    ;

    /// Increments the value of the resource at the given index and returns the
    /// new value. The resource must hold a value.
    fn increment_option_u32(&mut self, id: ReversibleOptionU32) -> (value: u32)
        requires
            old(self).inv(),
            old(self)@.holds(Kind::OptionU32, id@),
            old(self)@.read(Kind::OptionU32, id@).is_some(),
            old(self)@.read(Kind::OptionU32, id@) != Some(u32::MAX as int),
        ensures
            final(self).inv(),
            final(self)@ == old(self)@.increment(Kind::OptionU32, id@),
            final(self)@.read(Kind::OptionU32, id@) == Some(value as int),
    ;

    /// Decrements the value of the resource at the given index and returns the
    /// new value. The resource must hold a value.
    fn decrement_option_u32(&mut self, id: ReversibleOptionU32) -> (value: u32)
        requires
            old(self).inv(),
            old(self)@.holds(Kind::OptionU32, id@),
            old(self)@.read(Kind::OptionU32, id@).is_some(),
            old(self)@.read(Kind::OptionU32, id@) != Some(u32::MIN as int),
        ensures
            final(self).inv(),
            final(self)@ == old(self)@.decrement(Kind::OptionU32, id@),
            final(self)@.read(Kind::OptionU32, id@) == Some(value as int),
    ;
}

impl U32Manager for StateManager {
    fn manage_u32(&mut self, value: u32) -> (id: ReversibleU32) {
        let id = ReversibleU32(self.numbers_u32.len());
        self.numbers_u32.push(StateU32 { id, clock: self.clock, value });
        proof {
            let before = old(self).journal();
            assert(self.journal() =~~= before.create(Kind::U32, Some(value as int)));
            before.lemma_create(Kind::U32, Some(value as int));
        }
        id
    }

    fn get_u32(&self, id: ReversibleU32) -> (value: u32) {
        self.numbers_u32[id.0].value
    }

    fn set_u32(&mut self, id: ReversibleU32, value: u32) -> (written: u32) {
        let curr = self.numbers_u32[id.0];
        proof {
            let before = old(self).journal();
            assert(before.slot_wf(Kind::U32, id.0 as int));
            before.lemma_write(Kind::U32, id.0 as int, Some(value as int));
        }
        if value != curr.value {
            if curr.clock < self.clock {
                self.trail.push(TrailEntry::U32Entry(curr));
                self.numbers_u32[id.0] = StateU32 { id, clock: self.clock, value };
            } else {
                self.numbers_u32[id.0].value = value;
            }
            assert(self.journal() =~~= old(self).journal().write(
                Kind::U32,
                id.0 as int,
                Some(value as int),
            ));
        }
        value
    }

    fn increment_u32(&mut self, id: ReversibleU32) -> (value: u32) {
        let value = self.get_u32(id) + 1;
        self.set_u32(id, value)
    }

    fn decrement_u32(&mut self, id: ReversibleU32) -> (value: u32) {
        let value = self.get_u32(id) - 1;
        self.set_u32(id, value)
    }
}

impl OptionU32Manager for StateManager {
    fn manage_option_u32(&mut self, value: Option<u32>) -> (id: ReversibleOptionU32) {
        let id = ReversibleOptionU32(self.numbers_option_u32.len());
        self.numbers_option_u32.push(StateOptionU32 { id, clock: self.clock, value });
        proof {
            let before = old(self).journal();
            assert(self.journal() =~~= before.create(Kind::OptionU32, optional_u32(value)));
            before.lemma_create(Kind::OptionU32, optional_u32(value));
        }
        id
    }

    fn get_option_u32(&self, id: ReversibleOptionU32) -> (value: Option<u32>) {
        self.numbers_option_u32[id.0].value
    }

    fn set_option_u32(
        &mut self,
        id: ReversibleOptionU32,
        value: Option<u32>,
    ) -> (written: Option<u32>) {
        let curr = self.numbers_option_u32[id.0];
        proof {
            let before = old(self).journal();
            assert(before.slot_wf(Kind::OptionU32, id.0 as int));
            before.lemma_write(Kind::OptionU32, id.0 as int, optional_u32(value));
        }
        if value != curr.value {
            if curr.clock < self.clock {
                self.trail.push(TrailEntry::OptionU32Entry(curr));
                self.numbers_option_u32[id.0] = StateOptionU32 { id, clock: self.clock, value };
            } else {
                self.numbers_option_u32[id.0].value = value;
            }
            assert(self.journal() =~~= old(self).journal().write(
                Kind::OptionU32,
                id.0 as int,
                optional_u32(value),
            ));
        }
        value
    }

    fn increment_option_u32(&mut self, id: ReversibleOptionU32) -> (value: u32) {
        let value = self.numbers_option_u32[id.0].value.unwrap();
        self.set_option_u32(id, Some(value + 1));
        value + 1
    }

    fn decrement_option_u32(&mut self, id: ReversibleOptionU32) -> (value: u32) {
        let value = self.numbers_option_u32[id.0].value.unwrap();
        self.set_option_u32(id, Some(value - 1));
        value - 1
    }
}

} // verus!
