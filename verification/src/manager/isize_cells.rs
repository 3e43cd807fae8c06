//! Managed `isize` values, and managed `Option<isize>` values.

use vstd::prelude::*;
use crate::history::{Cell, Kind};
use crate::journal::Slot;
use crate::manager::{SaveAndRestore, StateManager, TrailEntry};

verus! {

/// An index of a managed `isize`
#[derive(Debug, Clone, Copy, PartialEq, Eq, Hash)]
pub struct ReversibleIsize(pub(crate) usize);

/// A state for a managed `isize`
#[derive(Debug, Clone, Copy)]
pub(crate) struct StateIsize {
    /// Index of the resource in the associated vector of the manager
    pub(crate) id: ReversibleIsize,
    /// Clock of the resource. If less than the clock of the manager, the data
    /// needs to be saved on the trail if modified
    pub(crate) clock: usize,
    /// The value of the managed resource
    pub(crate) value: isize,
}

/// An index of a managed `Option<isize>`
#[derive(Debug, Clone, Copy, PartialEq, Eq, Hash)]
pub struct ReversibleOptionIsize(pub(crate) usize);

/// A state for a managed `Option<isize>`
#[derive(Debug, Clone, Copy)]
pub(crate) struct StateOptionIsize {
    /// Index of the resource in the associated vector of the manager
    pub(crate) id: ReversibleOptionIsize,
    /// Clock of the resource. If less than the clock of the manager, the data
    /// needs to be saved on the trail if modified
    pub(crate) clock: usize,
    /// The value of the managed resource
    pub(crate) value: Option<isize>,
}

/// An optional `isize` as the value of a cell.
pub open spec fn optional_isize(value: Option<isize>) -> Option<int> {
    match value {
        Some(v) => Some(v as int),
        None => None,
    }
}

impl View for ReversibleIsize {
    type V = nat;

    /// The position of the resource in the store `Kind::Isize`.
    closed spec fn view(&self) -> nat {
        self.0 as nat
    }
}

impl View for ReversibleOptionIsize {
    type V = nat;

    /// The position of the resource in the store `Kind::OptionIsize`.
    closed spec fn view(&self) -> nat {
        self.0 as nat
    }
}

impl ReversibleIsize {
    /// The position of the resource in its store.
    pub fn index(&self) -> (index: usize)
        ensures
            index == self@,
    {
        self.0
    }
}

impl ReversibleOptionIsize {
    /// The position of the resource in its store.
    pub fn index(&self) -> (index: usize)
        ensures
            index == self@,
    {
        self.0
    }
}

impl StateIsize {
    /// The state as a slot of the journal.
    pub(crate) open spec fn slot(self) -> Slot {
        Slot {
            id: self.id.0 as nat,
            cell: Cell { generation: self.clock as nat, value: Some(self.value as int) },
        }
    }

    /// The states of a store as slots of the journal.
    pub(crate) open spec fn slots(states: Seq<StateIsize>) -> Seq<Slot> {
        states.map_values(|state: StateIsize| state.slot())
    }
}

impl StateOptionIsize {
    /// The state as a slot of the journal.
    pub(crate) open spec fn slot(self) -> Slot {
        Slot {
            id: self.id.0 as nat,
            cell: Cell { generation: self.clock as nat, value: optional_isize(self.value) },
        }
    }

    /// The states of a store as slots of the journal.
    pub(crate) open spec fn slots(states: Seq<StateOptionIsize>) -> Seq<Slot> {
        states.map_values(|state: StateOptionIsize| state.slot())
    }
}

/// The operations on a managed `isize`
pub trait IsizeManager: SaveAndRestore {
    /// Creates a new managed resource. Returns the index of the resource in the
    /// corresponding vector
    fn manage_isize(&mut self, value: isize) -> (id: ReversibleIsize)
        requires
            old(self).inv(),
        ensures
            final(self).inv(),
            final(self)@ == old(self)@.create(Kind::Isize, Some(value as int)),
            id@ == old(self)@.len(Kind::Isize),
    ;

    /// Returns the value of the resource at the given index
    fn get_isize(&self, id: ReversibleIsize) -> (value: isize)
        requires
            self.inv(),
            self@.holds(Kind::Isize, id@),
        ensures
            self@.read(Kind::Isize, id@) == Some(value as int),
    ;

    /// Sets the resource at the given index to the given value and returns the
    /// new value
    fn set_isize(&mut self, id: ReversibleIsize, value: isize) -> (written: isize)
        requires
            old(self).inv(),
            old(self)@.holds(Kind::Isize, id@),
        ensures
            final(self).inv(),
            final(self)@ == old(self)@.write(Kind::Isize, id@, Some(value as int)),
            written == value,
    ;

    /// Increments the value of the resource at the given index and returns the
    /// new value
    fn increment_isize(&mut self, id: ReversibleIsize) -> (value: isize)
        requires
            old(self).inv(),
            old(self)@.holds(Kind::Isize, id@),
            old(self)@.read(Kind::Isize, id@) != Some(isize::MAX as int),
        ensures
            final(self).inv(),
            final(self)@ == old(self)@.increment(Kind::Isize, id@),
            final(self)@.read(Kind::Isize, id@) == Some(value as int),
    ;

    /// Decrements the value of the resource at the given index and returns the
    /// new value
    fn decrement_isize(&mut self, id: ReversibleIsize) -> (value: isize)
        requires
            old(self).inv(),
            old(self)@.holds(Kind::Isize, id@),
            old(self)@.read(Kind::Isize, id@) != Some(isize::MIN as int),
        ensures
            final(self).inv(),
            final(self)@ == old(self)@.decrement(Kind::Isize, id@),
            final(self)@.read(Kind::Isize, id@) == Some(value as int),
    ;
}

/// The operations on a managed `Option<isize>`
pub trait OptionIsizeManager: SaveAndRestore {
    /// Creates a new managed resource. Returns the index of the resource in the
    /// corresponding vector
    fn manage_option_isize(&mut self, value: Option<isize>) -> (id: ReversibleOptionIsize)
        requires
            old(self).inv(),
        ensures
            final(self).inv(),
            final(self)@ == old(self)@.create(Kind::OptionIsize, optional_isize(value)),
            id@ == old(self)@.len(Kind::OptionIsize),
    ;

    /// Returns the value of the resource at the given index
    fn get_option_isize(&self, id: ReversibleOptionIsize) -> (value: Option<isize>)
        requires
            self.inv(),
            self@.holds(Kind::OptionIsize, id@),
        ensures
            self@.read(Kind::OptionIsize, id@) == optional_isize(value),
    ;

    /// Returns true if the managed resource is not None
    fn is_option_isize_some(&self, id: ReversibleOptionIsize) -> (some: bool)
        requires
            self.inv(),
            self@.holds(Kind::OptionIsize, id@),
        ensures
            some == self@.read(Kind::OptionIsize, id@).is_some(),
    {
        self.get_option_isize(id).is_some()
    }

    /// Returns true if the managed resource is None
    fn is_option_isize_none(&self, id: ReversibleOptionIsize) -> (none: bool)
        requires
            self.inv(),
            self@.holds(Kind::OptionIsize, id@),
        ensures
            none == self@.read(Kind::OptionIsize, id@).is_none(),
    {
        self.get_option_isize(id).is_none()
    }

    /// Sets the resource at the given index to the given value and returns the
    /// new value
    fn set_option_isize(
        &mut self,
        id: ReversibleOptionIsize,
        value: Option<isize>,
    ) -> (written: Option<isize>)
        requires
            old(self).inv(),
            old(self)@.holds(Kind::OptionIsize, id@),
        ensures
            final(self).inv(),
            final(self)@ == old(self)@.write(Kind::OptionIsize, id@, optional_isize(value)),
            written == value,
    ;

    /// Increments the value of the resource at the given index and returns the
    /// new value. The resource must hold a value.
    fn increment_option_isize(&mut self, id: ReversibleOptionIsize) -> (value: isize)
        requires
            old(self).inv(),
            old(self)@.holds(Kind::OptionIsize, id@),
            old(self)@.read(Kind::OptionIsize, id@).is_some(),
            old(self)@.read(Kind::OptionIsize, id@) != Some(isize::MAX as int),
        ensures
            final(self).inv(),
            final(self)@ == old(self)@.increment(Kind::OptionIsize, id@),
            final(self)@.read(Kind::OptionIsize, id@) == Some(value as int),
    ;

    /// Decrements the value of the resource at the given index and returns the
    /// new value. The resource must hold a value.
    fn decrement_option_isize(&mut self, id: ReversibleOptionIsize) -> (value: isize)
        requires
            old(self).inv(),
            old(self)@.holds(Kind::OptionIsize, id@),
            old(self)@.read(Kind::OptionIsize, id@).is_some(),
            old(self)@.read(Kind::OptionIsize, id@) != Some(isize::MIN as int),
        ensures
            final(self).inv(),
            final(self)@ == old(self)@.decrement(Kind::OptionIsize, id@),
            final(self)@.read(Kind::OptionIsize, id@) == Some(value as int),
    ;
}

impl IsizeManager for StateManager {
    fn manage_isize(&mut self, value: isize) -> (id: ReversibleIsize) {
        let id = ReversibleIsize(self.numbers_isize.len());
        self.numbers_isize.push(StateIsize { id, clock: self.clock, value });
        proof {
            let before = old(self).journal();
            assert(self.journal() =~~= before.create(Kind::Isize, Some(value as int)));
            before.lemma_create(Kind::Isize, Some(value as int));
        }
        id
    }

    fn get_isize(&self, id: ReversibleIsize) -> (value: isize) {
        self.numbers_isize[id.0].value
    }

    fn set_isize(&mut self, id: ReversibleIsize, value: isize) -> (written: isize) {
        let curr = self.numbers_isize[id.0];
        proof {
            let before = old(self).journal();
            assert(before.slot_wf(Kind::Isize, id.0 as int));
            before.lemma_write(Kind::Isize, id.0 as int, Some(value as int));
        }
        if value != curr.value {
            if curr.clock < self.clock {
                self.trail.push(TrailEntry::IsizeEntry(curr));
                self.numbers_isize[id.0] = StateIsize { id, clock: self.clock, value };
            } else {
                self.numbers_isize[id.0].value = value;
            }
            assert(self.journal() =~~= old(self).journal().write(
                Kind::Isize,
                id.0 as int,
                Some(value as int),
            ));
        }
        value
    }

    fn increment_isize(&mut self, id: ReversibleIsize) -> (value: isize) {
        let value = self.get_isize(id) + 1;
        self.set_isize(id, value)
    }

    fn decrement_isize(&mut self, id: ReversibleIsize) -> (value: isize) {
        let value = self.get_isize(id) - 1;
        self.set_isize(id, value)
    }
}

impl OptionIsizeManager for StateManager {
    fn manage_option_isize(&mut self, value: Option<isize>) -> (id: ReversibleOptionIsize) {
        let id = ReversibleOptionIsize(self.numbers_option_isize.len());
        self.numbers_option_isize.push(StateOptionIsize { id, clock: self.clock, value });
        proof {
            let before = old(self).journal();
            assert(self.journal() =~~= before.create(Kind::OptionIsize, optional_isize(value)));
            before.lemma_create(Kind::OptionIsize, optional_isize(value));
        }
        id
    }

    fn get_option_isize(&self, id: ReversibleOptionIsize) -> (value: Option<isize>) {
        self.numbers_option_isize[id.0].value
    }

    fn set_option_isize(
        &mut self,
        id: ReversibleOptionIsize,
        value: Option<isize>,
    ) -> (written: Option<isize>) {
        let curr = self.numbers_option_isize[id.0];
        proof {
            let before = old(self).journal();
            assert(before.slot_wf(Kind::OptionIsize, id.0 as int));
            before.lemma_write(Kind::OptionIsize, id.0 as int, optional_isize(value));
        }
        if value != curr.value {
            if curr.clock < self.clock {
                self.trail.push(TrailEntry::OptionIsizeEntry(curr));
                self.numbers_option_isize[id.0] = StateOptionIsize { id, clock: self.clock, value };
            } else {
                self.numbers_option_isize[id.0].value = value;
            }
            assert(self.journal() =~~= old(self).journal().write(
                Kind::OptionIsize,
                id.0 as int,
                optional_isize(value),
            ));
        }
        value
    }

    fn increment_option_isize(&mut self, id: ReversibleOptionIsize) -> (value: isize) {
        let value = self.numbers_option_isize[id.0].value.unwrap();
        self.set_option_isize(id, Some(value + 1));
        value + 1
    }

    fn decrement_option_isize(&mut self, id: ReversibleOptionIsize) -> (value: isize) {
        let value = self.numbers_option_isize[id.0].value.unwrap();
        self.set_option_isize(id, Some(value - 1));
        value - 1
    }
}

} // verus!
