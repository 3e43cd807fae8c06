//! Managed `u16` values, and managed `Option<u16>` values.

use vstd::prelude::*;
use crate::history::{Cell, Kind};
use crate::journal::Slot;
use crate::manager::{SaveAndRestore, StateManager, TrailEntry};

verus! {

/// An index of a managed `u16`
#[derive(Debug, Clone, Copy, PartialEq, Eq, Hash)]
pub struct ReversibleU16(pub(crate) usize);

/// A state for a managed `u16`
#[derive(Debug, Clone, Copy)]
pub(crate) struct StateU16 {
    /// Index of the resource in the associated vector of the manager
    pub(crate) id: ReversibleU16,
    /// Clock of the resource. If less than the clock of the manager, the data
    /// needs to be saved on the trail if modified
    pub(crate) clock: usize,
    /// The value of the managed resource
    pub(crate) value: u16,
}

/// An index of a managed `Option<u16>`
#[derive(Debug, Clone, Copy, PartialEq, Eq, Hash)]
pub struct ReversibleOptionU16(pub(crate) usize);

/// A state for a managed `Option<u16>`
#[derive(Debug, Clone, Copy)]
pub(crate) struct StateOptionU16 {
    /// Index of the resource in the associated vector of the manager
    pub(crate) id: ReversibleOptionU16,
    /// Clock of the resource. If less than the clock of the manager, the data
    /// needs to be saved on the trail if modified
    pub(crate) clock: usize,
    /// The value of the managed resource
    pub(crate) value: Option<u16>,
}

/// An optional `u16` as the value of a cell.
pub open spec fn optional_u16(value: Option<u16>) -> Option<int> {
    match value {
        Some(v) => Some(v as int),
        None => None,
    }
}

impl View for ReversibleU16 {
    type V = nat;

    /// The position of the resource in the store `Kind::U16`.
    closed spec fn view(&self) -> nat {
        self.0 as nat
    }
}

impl View for ReversibleOptionU16 {
    type V = nat;

    /// The position of the resource in the store `Kind::OptionU16`.
    closed spec fn view(&self) -> nat {
        self.0 as nat
    }
}

impl ReversibleU16 {
    /// The position of the resource in its store.
    pub fn index(&self) -> (index: usize)
        ensures
            index == self@,
    {
        self.0
    }
}

impl ReversibleOptionU16 {
    /// The position of the resource in its store.
    pub fn index(&self) -> (index: usize)
        ensures
            index == self@,
    {
        self.0
    }
}

impl StateU16 {
    /// The state as a slot of the journal.
    pub(crate) open spec fn slot(self) -> Slot {
        Slot {
            id: self.id.0 as nat,
            cell: Cell { generation: self.clock as nat, value: Some(self.value as int) },
        }
    }

    /// The states of a store as slots of the journal.
    pub(crate) open spec fn slots(states: Seq<StateU16>) -> Seq<Slot> {
        states.map_values(|state: StateU16| state.slot())
    }
}

impl StateOptionU16 {
    /// The state as a slot of the journal.
    pub(crate) open spec fn slot(self) -> Slot {
        Slot {
            id: self.id.0 as nat,
            cell: Cell { generation: self.clock as nat, value: optional_u16(self.value) },
        }
    }

    /// The states of a store as slots of the journal.
    pub(crate) open spec fn slots(states: Seq<StateOptionU16>) -> Seq<Slot> {
        states.map_values(|state: StateOptionU16| state.slot())
    }
}

/// The operations on a managed `u16`
pub trait U16Manager: SaveAndRestore {
    /// Creates a new managed resource. Returns the index of the resource in the
    /// corresponding vector
    fn manage_u16(&mut self, value: u16) -> (id: ReversibleU16)
        requires
            old(self).inv(),
        ensures
            final(self).inv(),
            final(self)@ == old(self)@.create(Kind::U16, Some(value as int)),
            id@ == old(self)@.len(Kind::U16),
    ;

    /// Returns the value of the resource at the given index
    fn get_u16(&self, id: ReversibleU16) -> (value: u16)
        requires
            self.inv(),
            self@.holds(Kind::U16, id@),
        ensures
            self@.read(Kind::U16, id@) == Some(value as int),
    ;

    /// Sets the resource at the given index to the given value and returns the
    /// new value
    fn set_u16(&mut self, id: ReversibleU16, value: u16) -> (written: u16)
        requires
            old(self).inv(),
            old(self)@.holds(Kind::U16, id@),
        ensures
            final(self).inv(),
            final(self)@ == old(self)@.write(Kind::U16, id@, Some(value as int)),
            written == value,
    ;

    /// Increments the value of the resource at the given index and returns the
    /// new value
    fn increment_u16(&mut self, id: ReversibleU16) -> (value: u16)
        requires
            old(self).inv(),
            old(self)@.holds(Kind::U16, id@),
            old(self)@.read(Kind::U16, id@) != Some(u16::MAX as int),
        ensures
            final(self).inv(),
            final(self)@ == old(self)@.increment(Kind::U16, id@),
            final(self)@.read(Kind::U16, id@) == Some(value as int),
    ;

    /// Decrements the value of the resource at the given index and returns the
    /// new value
    fn decrement_u16(&mut self, id: ReversibleU16) -> (value: u16)
        requires
            old(self).inv(),
            old(self)@.holds(Kind::U16, id@),
            old(self)@.read(Kind::U16, id@) != Some(u16::MIN as int),
        ensures
            final(self).inv(),
            final(self)@ == old(self)@.decrement(Kind::U16, id@),
            final(self)@.read(Kind::U16, id@) == Some(value as int),
    ;
}

/// The operations on a managed `Option<u16>`
pub trait OptionU16Manager: SaveAndRestore {
    /// Creates a new managed resource. Returns the index of the resource in the
    /// corresponding vector
    fn manage_option_u16(&mut self, value: Option<u16>) -> (id: ReversibleOptionU16)
        requires
            old(self).inv(),
        ensures
            final(self).inv(),
            final(self)@ == old(self)@.create(Kind::OptionU16, optional_u16(value)),
            id@ == old(self)@.len(Kind::OptionU16),
    ;

    /// Returns the value of the resource at the given index
    fn get_option_u16(&self, id: ReversibleOptionU16) -> (value: Option<u16>)
        requires
            self.inv(),
            self@.holds(Kind::OptionU16, id@),
        ensures
            self@.read(Kind::OptionU16, id@) == optional_u16(value),
    ;

    /// Returns true if the managed resource is not None
    fn is_option_u16_some(&self, id: ReversibleOptionU16) -> (some: bool)
        requires
            self.inv(),
            self@.holds(Kind::OptionU16, id@),
        ensures
            some == self@.read(Kind::OptionU16, id@).is_some(),
    {
        self.get_option_u16(id).is_some()
    }

    /// Returns true if the managed resource is None
    fn is_option_u16_none(&self, id: ReversibleOptionU16) -> (none: bool)
        requires
            self.inv(),
            self@.holds(Kind::OptionU16, id@),
        ensures
            none == self@.read(Kind::OptionU16, id@).is_none(),
    {
        self.get_option_u16(id).is_none()
    }

    /// Sets the resource at the given index to the given value and returns the
    /// new value
    fn set_option_u16(
        &mut self,
        id: ReversibleOptionU16,
        value: Option<u16>,
    ) -> (written: Option<u16>)
        requires
            old(self).inv(),
            old(self)@.holds(Kind::OptionU16, id@),
        ensures
            final(self).inv(),
            final(self)@ == old(self)@.write(Kind::OptionU16, id@, optional_u16(value)),
            written == value,
    ;

    /// Increments the value of the resource at the given index and returns the
    /// new value. The resource must hold a value.
    fn increment_option_u16(&mut self, id: ReversibleOptionU16) -> (value: u16)
        requires
            old(self).inv(),
            old(self)@.holds(Kind::OptionU16, id@),
            old(self)@.read(Kind::OptionU16, id@).is_some(),
            old(self)@.read(Kind::OptionU16, id@) != Some(u16::MAX as int),
        ensures
            final(self).inv(),
            final(self)@ == old(self)@.increment(Kind::OptionU16, id@),
            final(self)@.read(Kind::OptionU16, id@) == Some(value as int),
    ;

    /// Decrements the value of the resource at the given index and returns the
    /// new value. The resource must hold a value.
    fn decrement_option_u16(&mut self, id: ReversibleOptionU16) -> (value: u16)
        requires
            old(self).inv(),
            old(self)@.holds(Kind::OptionU16, id@),
            old(self)@.read(Kind::OptionU16, id@).is_some(),
            old(self)@.read(Kind::OptionU16, id@) != Some(u16::MIN as int),
        ensures
            final(self).inv(),
            final(self)@ == old(self)@.decrement(Kind::OptionU16, id@),
            final(self)@.read(Kind::OptionU16, id@) == Some(value as int),
    ;
}

impl U16Manager for StateManager {
    fn manage_u16(&mut self, value: u16) -> (id: ReversibleU16) {
        let id = ReversibleU16(self.numbers_u16.len());
        self.numbers_u16.push(StateU16 { id, clock: self.clock, value });
        proof {
            let before = old(self).journal();
            assert(self.journal() =~~= before.create(Kind::U16, Some(value as int)));
            before.lemma_create(Kind::U16, Some(value as int));
        }
        id
    }

    fn get_u16(&self, id: ReversibleU16) -> (value: u16) {
        self.numbers_u16[id.0].value
    }

    fn set_u16(&mut self, id: ReversibleU16, value: u16) -> (written: u16) {
        let curr = self.numbers_u16[id.0];
        proof {
            let before = old(self).journal();
            assert(before.slot_wf(Kind::U16, id.0 as int));
            before.lemma_write(Kind::U16, id.0 as int, Some(value as int));
        }
        if value != curr.value {
            if curr.clock < self.clock {
                self.trail.push(TrailEntry::U16Entry(curr));
                self.numbers_u16[id.0] = StateU16 { id, clock: self.clock, value };
            } else {
                self.numbers_u16[id.0].value = value;
            }
            assert(self.journal() =~~= old(self).journal().write(
                Kind::U16,
                id.0 as int,
                Some(value as int),
            ));
        }
        value
    }

    fn increment_u16(&mut self, id: ReversibleU16) -> (value: u16) {
        let value = self.get_u16(id) + 1;
        self.set_u16(id, value)
    }

    fn decrement_u16(&mut self, id: ReversibleU16) -> (value: u16) {
        let value = self.get_u16(id) - 1;
        self.set_u16(id, value)
    }
}

impl OptionU16Manager for StateManager {
    fn manage_option_u16(&mut self, value: Option<u16>) -> (id: ReversibleOptionU16) {
        let id = ReversibleOptionU16(self.numbers_option_u16.len());
        self.numbers_option_u16.push(StateOptionU16 { id, clock: self.clock, value });
        proof {
            let before = old(self).journal();
            assert(self.journal() =~~= before.create(Kind::OptionU16, optional_u16(value)));
            before.lemma_create(Kind::OptionU16, optional_u16(value));
        }
        id
    }

    fn get_option_u16(&self, id: ReversibleOptionU16) -> (value: Option<u16>) {
        self.numbers_option_u16[id.0].value
    }

    fn set_option_u16(
        &mut self,
        id: ReversibleOptionU16,
        value: Option<u16>,
    ) -> (written: Option<u16>) {
        let curr = self.numbers_option_u16[id.0];
        proof {
            let before = old(self).journal();
            assert(before.slot_wf(Kind::OptionU16, id.0 as int));
            before.lemma_write(Kind::OptionU16, id.0 as int, optional_u16(value));
        }
        if value != curr.value {
            if curr.clock < self.clock {
                self.trail.push(TrailEntry::OptionU16Entry(curr));
                self.numbers_option_u16[id.0] = StateOptionU16 { id, clock: self.clock, value };
            } else {
                self.numbers_option_u16[id.0].value = value;
            }
            assert(self.journal() =~~= old(self).journal().write(
                Kind::OptionU16,
                id.0 as int,
                optional_u16(value),
            ));
        }
        value
    }

    fn increment_option_u16(&mut self, id: ReversibleOptionU16) -> (value: u16) {
        let value = self.numbers_option_u16[id.0].value.unwrap();
        self.set_option_u16(id, Some(value + 1));
        value + 1
    }

    fn decrement_option_u16(&mut self, id: ReversibleOptionU16) -> (value: u16) {
        let value = self.numbers_option_u16[id.0].value.unwrap();
        self.set_option_u16(id, Some(value - 1));
        value - 1
    }
}

} // verus!
