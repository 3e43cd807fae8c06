//! Managed `i16` values, and managed `Option<i16>` values.

use vstd::prelude::*;
use crate::history::{Cell, Kind};
use crate::journal::Slot;
use crate::manager::{SaveAndRestore, StateManager, TrailEntry};

verus! {

/// An index of a managed `i16`
#[derive(Debug, Clone, Copy, PartialEq, Eq, Hash)]
pub struct ReversibleI16(pub(crate) usize);

/// A state for a managed `i16`
#[derive(Debug, Clone, Copy)]
pub(crate) struct StateI16 {
    /// Index of the resource in the associated vector of the manager
    pub(crate) id: ReversibleI16,
    /// Clock of the resource. If less than the clock of the manager, the data
    /// needs to be saved on the trail if modified
    pub(crate) clock: usize,
    /// The value of the managed resource
    pub(crate) value: i16,
}

/// An index of a managed `Option<i16>`
#[derive(Debug, Clone, Copy, PartialEq, Eq, Hash)]
pub struct ReversibleOptionI16(pub(crate) usize);

/// A state for a managed `Option<i16>`
#[derive(Debug, Clone, Copy)]
pub(crate) struct StateOptionI16 {
    /// Index of the resource in the associated vector of the manager
    pub(crate) id: ReversibleOptionI16,
    /// Clock of the resource. If less than the clock of the manager, the data
    /// needs to be saved on the trail if modified
    pub(crate) clock: usize,
    /// The value of the managed resource
    pub(crate) value: Option<i16>,
}

/// An optional `i16` as the value of a cell.
pub open spec fn optional_i16(value: Option<i16>) -> Option<int> {
    match value {
        Some(v) => Some(v as int),
        None => None,
    }
}

impl View for ReversibleI16 {
    type V = nat;

    /// The position of the resource in the store `Kind::I16`.
    closed spec fn view(&self) -> nat {
        self.0 as nat
    }
}

impl View for ReversibleOptionI16 {
    type V = nat;

    /// The position of the resource in the store `Kind::OptionI16`.
    closed spec fn view(&self) -> nat {
        self.0 as nat
    }
}

impl ReversibleI16 {
    /// The position of the resource in its store.
    pub fn index(&self) -> (index: usize)
        ensures
            index == self@,
    {
        self.0
    }
}

impl ReversibleOptionI16 {
    /// The position of the resource in its store.
    pub fn index(&self) -> (index: usize)
        ensures
            index == self@,
    {
        self.0
    }
}

impl StateI16 {
    /// The state as a slot of the journal.
    pub(crate) open spec fn slot(self) -> Slot {
        Slot {
            id: self.id.0 as nat,
            cell: Cell { generation: self.clock as nat, value: Some(self.value as int) },
        }
    }

    /// The states of a store as slots of the journal.
    pub(crate) open spec fn slots(states: Seq<StateI16>) -> Seq<Slot> {
        states.map_values(|state: StateI16| state.slot())
    }
}

impl StateOptionI16 {
    /// The state as a slot of the journal.
    pub(crate) open spec fn slot(self) -> Slot {
        Slot {
            id: self.id.0 as nat,
            cell: Cell { generation: self.clock as nat, value: optional_i16(self.value) },
        }
    }

    /// The states of a store as slots of the journal.
    pub(crate) open spec fn slots(states: Seq<StateOptionI16>) -> Seq<Slot> {
        states.map_values(|state: StateOptionI16| state.slot())
    }
}

/// The operations on a managed `i16`
pub trait I16Manager: SaveAndRestore {
    /// Creates a new managed resource. Returns the index of the resource in the
    /// corresponding vector
    fn manage_i16(&mut self, value: i16) -> (id: ReversibleI16)
        requires
            old(self).inv(),
        ensures
            final(self).inv(),
            final(self)@ == old(self)@.create(Kind::I16, Some(value as int)),
            id@ == old(self)@.len(Kind::I16),
    ;

    /// Returns the value of the resource at the given index
    fn get_i16(&self, id: ReversibleI16) -> (value: i16)
        requires
            self.inv(),
            self@.holds(Kind::I16, id@),
        ensures
            self@.read(Kind::I16, id@) == Some(value as int),
    ;

    /// Sets the resource at the given index to the given value and returns the
    /// new value
    fn set_i16(&mut self, id: ReversibleI16, value: i16) -> (written: i16)
        requires
            old(self).inv(),
            old(self)@.holds(Kind::I16, id@),
        ensures
            final(self).inv(),
            final(self)@ == old(self)@.write(Kind::I16, id@, Some(value as int)),
            written == value,
    ;

    /// Increments the value of the resource at the given index and returns the
    /// new value
    fn increment_i16(&mut self, id: ReversibleI16) -> (value: i16)
        requires
            old(self).inv(),
            old(self)@.holds(Kind::I16, id@),
            old(self)@.read(Kind::I16, id@) != Some(i16::MAX as int),
        ensures
            final(self).inv(),
            final(self)@ == old(self)@.increment(Kind::I16, id@),
            final(self)@.read(Kind::I16, id@) == Some(value as int),
    ;

    /// Decrements the value of the resource at the given index and returns the
    /// new value
    fn decrement_i16(&mut self, id: ReversibleI16) -> (value: i16)
        requires
            old(self).inv(),
            old(self)@.holds(Kind::I16, id@),
            old(self)@.read(Kind::I16, id@) != Some(i16::MIN as int),
        ensures
            final(self).inv(),
            final(self)@ == old(self)@.decrement(Kind::I16, id@),
            final(self)@.read(Kind::I16, id@) == Some(value as int),
    ;
}

/// The operations on a managed `Option<i16>`
pub trait OptionI16Manager: SaveAndRestore {
    /// Creates a new managed resource. Returns the index of the resource in the
    /// corresponding vector
    fn manage_option_i16(&mut self, value: Option<i16>) -> (id: ReversibleOptionI16)
        requires
            old(self).inv(),
        ensures
            final(self).inv(),
            final(self)@ == old(self)@.create(Kind::OptionI16, optional_i16(value)),
            id@ == old(self)@.len(Kind::OptionI16),
    ;

    /// Returns the value of the resource at the given index
    fn get_option_i16(&self, id: ReversibleOptionI16) -> (value: Option<i16>)
        requires
            self.inv(),
            self@.holds(Kind::OptionI16, id@),
        ensures
            self@.read(Kind::OptionI16, id@) == optional_i16(value),
    ;

    /// Returns true if the managed resource is not None
    fn is_option_i16_some(&self, id: ReversibleOptionI16) -> (some: bool)
        requires
            self.inv(),
            self@.holds(Kind::OptionI16, id@),
        ensures
            some == self@.read(Kind::OptionI16, id@).is_some(),
    {
        self.get_option_i16(id).is_some()
    }

    /// Returns true if the managed resource is None
    fn is_option_i16_none(&self, id: ReversibleOptionI16) -> (none: bool)
        requires
            self.inv(),
            self@.holds(Kind::OptionI16, id@),
        ensures
            none == self@.read(Kind::OptionI16, id@).is_none(),
    {
        self.get_option_i16(id).is_none()
    }

    /// Sets the resource at the given index to the given value and returns the
    /// new value
    fn set_option_i16(
        &mut self,
        id: ReversibleOptionI16,
        value: Option<i16>,
    ) -> (written: Option<i16>)
        requires
            old(self).inv(),
            old(self)@.holds(Kind::OptionI16, id@),
        ensures
            final(self).inv(),
            final(self)@ == old(self)@.write(Kind::OptionI16, id@, optional_i16(value)),
            written == value,
    ;

    /// Increments the value of the resource at the given index and returns the
    /// new value. The resource must hold a value.
    fn increment_option_i16(&mut self, id: ReversibleOptionI16) -> (value: i16)
        requires
            old(self).inv(),
            old(self)@.holds(Kind::OptionI16, id@),
            old(self)@.read(Kind::OptionI16, id@).is_some(),
            old(self)@.read(Kind::OptionI16, id@) != Some(i16::MAX as int),
        ensures
            final(self).inv(),
            final(self)@ == old(self)@.increment(Kind::OptionI16, id@),
            final(self)@.read(Kind::OptionI16, id@) == Some(value as int),
    ;

    /// Decrements the value of the resource at the given index and returns the
    /// new value. The resource must hold a value.
    fn decrement_option_i16(&mut self, id: ReversibleOptionI16) -> (value: i16)
        requires
            old(self).inv(),
            old(self)@.holds(Kind::OptionI16, id@),
            old(self)@.read(Kind::OptionI16, id@).is_some(),
            old(self)@.read(Kind::OptionI16, id@) != Some(i16::MIN as int),
        ensures
            final(self).inv(),
            final(self)@ == old(self)@.decrement(Kind::OptionI16, id@),
            final(self)@.read(Kind::OptionI16, id@) == Some(value as int),
    ;
}

impl I16Manager for StateManager {
    fn manage_i16(&mut self, value: i16) -> (id: ReversibleI16) {
        let id = ReversibleI16(self.numbers_i16.len());
        self.numbers_i16.push(StateI16 { id, clock: self.clock, value });
        proof {
            let before = old(self).journal();
            assert(self.journal() =~~= before.create(Kind::I16, Some(value as int)));
            before.lemma_create(Kind::I16, Some(value as int));
        }
        id
    }

    fn get_i16(&self, id: ReversibleI16) -> (value: i16) {
        self.numbers_i16[id.0].value
    }

    fn set_i16(&mut self, id: ReversibleI16, value: i16) -> (written: i16) {
        let curr = self.numbers_i16[id.0];
        proof {
            let before = old(self).journal();
            assert(before.slot_wf(Kind::I16, id.0 as int));
            before.lemma_write(Kind::I16, id.0 as int, Some(value as int));
        }
        if value != curr.value {
            if curr.clock < self.clock {
                self.trail.push(TrailEntry::I16Entry(curr));
                self.numbers_i16[id.0] = StateI16 { id, clock: self.clock, value };
            } else {
                self.numbers_i16[id.0].value = value;
            }
            assert(self.journal() =~~= old(self).journal().write(
                Kind::I16,
                id.0 as int,
                Some(value as int),
            ));
        }
        value
    }

    fn increment_i16(&mut self, id: ReversibleI16) -> (value: i16) {
        let value = self.get_i16(id) + 1;
        self.set_i16(id, value)
    }

    fn decrement_i16(&mut self, id: ReversibleI16) -> (value: i16) {
        let value = self.get_i16(id) - 1;
        self.set_i16(id, value)
    }
}

impl OptionI16Manager for StateManager {
    fn manage_option_i16(&mut self, value: Option<i16>) -> (id: ReversibleOptionI16) {
        let id = ReversibleOptionI16(self.numbers_option_i16.len());
        self.numbers_option_i16.push(StateOptionI16 { id, clock: self.clock, value });
        proof {
            let before = old(self).journal();
            assert(self.journal() =~~= before.create(Kind::OptionI16, optional_i16(value)));
            before.lemma_create(Kind::OptionI16, optional_i16(value));
        }
        id
    }

    fn get_option_i16(&self, id: ReversibleOptionI16) -> (value: Option<i16>) {
        self.numbers_option_i16[id.0].value
    }

    fn set_option_i16(
        &mut self,
        id: ReversibleOptionI16,
        value: Option<i16>,
    ) -> (written: Option<i16>) {
        let curr = self.numbers_option_i16[id.0];
        proof {
            let before = old(self).journal();
            assert(before.slot_wf(Kind::OptionI16, id.0 as int));
            before.lemma_write(Kind::OptionI16, id.0 as int, optional_i16(value));
        }
        if value != curr.value {
            if curr.clock < self.clock {
                self.trail.push(TrailEntry::OptionI16Entry(curr));
                self.numbers_option_i16[id.0] = StateOptionI16 { id, clock: self.clock, value };
            } else {
                self.numbers_option_i16[id.0].value = value;
            }
            assert(self.journal() =~~= old(self).journal().write(
                Kind::OptionI16,
                id.0 as int,
                optional_i16(value),
            ));
        }
        value
    }

    fn increment_option_i16(&mut self, id: ReversibleOptionI16) -> (value: i16) {
        let value = self.numbers_option_i16[id.0].value.unwrap();
        self.set_option_i16(id, Some(value + 1));
        value + 1
    }

    fn decrement_option_i16(&mut self, id: ReversibleOptionI16) -> (value: i16) {
        let value = self.numbers_option_i16[id.0].value.unwrap();
        self.set_option_i16(id, Some(value - 1));
        value - 1
    }
}

} // verus!
