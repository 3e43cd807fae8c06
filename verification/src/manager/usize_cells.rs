//! Managed `usize` values, and managed `Option<usize>` values.

use vstd::prelude::*;
use crate::history::{Cell, Kind};
use crate::journal::Slot;
use crate::manager::{SaveAndRestore, StateManager, TrailEntry};

verus! {

/// An index of a managed `usize`
#[derive(Debug, Clone, Copy, PartialEq, Eq, Hash)]
pub struct ReversibleUsize(pub(crate) usize);

/// A state for a managed `usize`
#[derive(Debug, Clone, Copy)]
pub(crate) struct StateUsize {
    /// Index of the resource in the associated vector of the manager
    pub(crate) id: ReversibleUsize,
    /// Clock of the resource. If less than the clock of the manager, the data
    /// needs to be saved on the trail if modified
    pub(crate) clock: usize,
    /// The value of the managed resource
    pub(crate) value: usize,
}

/// An index of a managed `Option<usize>`
#[derive(Debug, Clone, Copy, PartialEq, Eq, Hash)]
pub struct ReversibleOptionUsize(pub(crate) usize);

/// A state for a managed `Option<usize>`
#[derive(Debug, Clone, Copy)]
pub(crate) struct StateOptionUsize {
    /// Index of the resource in the associated vector of the manager
    pub(crate) id: ReversibleOptionUsize,
    /// Clock of the resource. If less than the clock of the manager, the data
    /// needs to be saved on the trail if modified
    pub(crate) clock: usize,
    /// The value of the managed resource
    pub(crate) value: Option<usize>,
}

/// An optional `usize` as the value of a cell.
pub open spec fn optional_usize(value: Option<usize>) -> Option<int> {
    match value {
        Some(v) => Some(v as int),
        None => None,
    }
}

impl View for ReversibleUsize {
    type V = nat;

    /// The position of the resource in the store `Kind::Usize`.
    closed spec fn view(&self) -> nat {
        self.0 as nat
    }
}

impl View for ReversibleOptionUsize {
    type V = nat;

    /// The position of the resource in the store `Kind::OptionUsize`.
    closed spec fn view(&self) -> nat {
        self.0 as nat
    }
}

impl ReversibleUsize {
    /// The position of the resource in its store.
    pub fn index(&self) -> (index: usize)
        ensures
            index == self@,
    {
        self.0
    }
}

impl ReversibleOptionUsize {
    /// The position of the resource in its store.
    pub fn index(&self) -> (index: usize)
        ensures
            index == self@,
    {
        self.0
    }
}

impl StateUsize {
    /// The state as a slot of the journal.
    pub(crate) open spec fn slot(self) -> Slot {
        Slot {
            id: self.id.0 as nat,
            cell: Cell { generation: self.clock as nat, value: Some(self.value as int) },
        }
    }

    /// The states of a store as slots of the journal.
    pub(crate) open spec fn slots(states: Seq<StateUsize>) -> Seq<Slot> {
        states.map_values(|state: StateUsize| state.slot())
    }
}

impl StateOptionUsize {
    /// The state as a slot of the journal.
    pub(crate) open spec fn slot(self) -> Slot {
        Slot {
            id: self.id.0 as nat,
            cell: Cell { generation: self.clock as nat, value: optional_usize(self.value) },
        }
    }

    /// The states of a store as slots of the journal.
    pub(crate) open spec fn slots(states: Seq<StateOptionUsize>) -> Seq<Slot> {
        states.map_values(|state: StateOptionUsize| state.slot())
    }
}

/// The operations on a managed `usize`
pub trait UsizeManager: SaveAndRestore {
    /// Creates a new managed resource. Returns the index of the resource in the
    /// corresponding vector
    fn manage_usize(&mut self, value: usize) -> (id: ReversibleUsize)
        requires
            old(self).inv(),
        ensures
            final(self).inv(),
            final(self)@ == old(self)@.create(Kind::Usize, Some(value as int)),
            id@ == old(self)@.len(Kind::Usize),
    ;

    /// Returns the value of the resource at the given index
    fn get_usize(&self, id: ReversibleUsize) -> (value: usize)
        requires
            self.inv(),
            self@.holds(Kind::Usize, id@),
        ensures
            self@.read(Kind::Usize, id@) == Some(value as int),
    ;

    /// Sets the resource at the given index to the given value and returns the
    /// new value
    fn set_usize(&mut self, id: ReversibleUsize, value: usize) -> (written: usize)
        requires
            old(self).inv(),
            old(self)@.holds(Kind::Usize, id@),
        ensures
            final(self).inv(),
            final(self)@ == old(self)@.write(Kind::Usize, id@, Some(value as int)),
            written == value,
    ;

    /// Increments the value of the resource at the given index and returns the
    /// new value
    fn increment_usize(&mut self, id: ReversibleUsize) -> (value: usize)
        requires
            old(self).inv(),
            old(self)@.holds(Kind::Usize, id@),
            old(self)@.read(Kind::Usize, id@) != Some(usize::MAX as int),
        ensures
            final(self).inv(),
            final(self)@ == old(self)@.increment(Kind::Usize, id@),
            final(self)@.read(Kind::Usize, id@) == Some(value as int),
    ;

    /// Decrements the value of the resource at the given index and returns the
    /// new value
    fn decrement_usize(&mut self, id: ReversibleUsize) -> (value: usize)
        requires
            old(self).inv(),
            old(self)@.holds(Kind::Usize, id@),
            old(self)@.read(Kind::Usize, id@) != Some(usize::MIN as int),
        ensures
            final(self).inv(),
            final(self)@ == old(self)@.decrement(Kind::Usize, id@),
            final(self)@.read(Kind::Usize, id@) == Some(value as int),
    ;
}

/// The operations on a managed `Option<usize>`
pub trait OptionUsizeManager: SaveAndRestore {
    /// Creates a new managed resource. Returns the index of the resource in the
    /// corresponding vector
    fn manage_option_usize(&mut self, value: Option<usize>) -> (id: ReversibleOptionUsize)
        requires
            old(self).inv(),
        ensures
            final(self).inv(),
            final(self)@ == old(self)@.create(Kind::OptionUsize, optional_usize(value)),
            id@ == old(self)@.len(Kind::OptionUsize),
    ;

    /// Returns the value of the resource at the given index
    fn get_option_usize(&self, id: ReversibleOptionUsize) -> (value: Option<usize>)
        requires
            self.inv(),
            self@.holds(Kind::OptionUsize, id@),
        ensures
            self@.read(Kind::OptionUsize, id@) == optional_usize(value),
    ;

    /// Returns true if the managed resource is not None
    fn is_option_usize_some(&self, id: ReversibleOptionUsize) -> (some: bool)
        requires
            self.inv(),
            self@.holds(Kind::OptionUsize, id@),
        ensures
            some == self@.read(Kind::OptionUsize, id@).is_some(),
    {
        self.get_option_usize(id).is_some()
    }

    /// Returns true if the managed resource is None
    fn is_option_usize_none(&self, id: ReversibleOptionUsize) -> (none: bool)
        requires
            self.inv(),
            self@.holds(Kind::OptionUsize, id@),
        ensures
            none == self@.read(Kind::OptionUsize, id@).is_none(),
    {
        self.get_option_usize(id).is_none()
    }

    /// Sets the resource at the given index to the given value and returns the
    /// new value
    fn set_option_usize(
        &mut self,
        id: ReversibleOptionUsize,
        value: Option<usize>,
    ) -> (written: Option<usize>)
        requires
            old(self).inv(),
            old(self)@.holds(Kind::OptionUsize, id@),
        ensures
            final(self).inv(),
            final(self)@ == old(self)@.write(Kind::OptionUsize, id@, optional_usize(value)),
            written == value,
    ;

    /// Increments the value of the resource at the given index and returns the
    /// new value. The resource must hold a value.
    fn increment_option_usize(&mut self, id: ReversibleOptionUsize) -> (value: usize)
        requires
            old(self).inv(),
            old(self)@.holds(Kind::OptionUsize, id@),
            old(self)@.read(Kind::OptionUsize, id@).is_some(),
            old(self)@.read(Kind::OptionUsize, id@) != Some(usize::MAX as int),
        ensures
            final(self).inv(),
            final(self)@ == old(self)@.increment(Kind::OptionUsize, id@),
            final(self)@.read(Kind::OptionUsize, id@) == Some(value as int),
    ;

    /// Decrements the value of the resource at the given index and returns the
    /// new value. The resource must hold a value.
    fn decrement_option_usize(&mut self, id: ReversibleOptionUsize) -> (value: usize)
        requires
            old(self).inv(),
            old(self)@.holds(Kind::OptionUsize, id@),
            old(self)@.read(Kind::OptionUsize, id@).is_some(),
            old(self)@.read(Kind::OptionUsize, id@) != Some(usize::MIN as int),
        ensures
            final(self).inv(),
            final(self)@ == old(self)@.decrement(Kind::OptionUsize, id@),
            final(self)@.read(Kind::OptionUsize, id@) == Some(value as int),
    ;
}

impl UsizeManager for StateManager {
    fn manage_usize(&mut self, value: usize) -> (id: ReversibleUsize) {
        let id = ReversibleUsize(self.numbers_usize.len());
        self.numbers_usize.push(StateUsize { id, clock: self.clock, value });
        proof {
            let before = old(self).journal();
            assert(self.journal() =~~= before.create(Kind::Usize, Some(value as int)));
            before.lemma_create(Kind::Usize, Some(value as int));
        }
        id
    }

    fn get_usize(&self, id: ReversibleUsize) -> (value: usize) {
        self.numbers_usize[id.0].value
    }

    fn set_usize(&mut self, id: ReversibleUsize, value: usize) -> (written: usize) {
        let curr = self.numbers_usize[id.0];
        proof {
            let before = old(self).journal();
            assert(before.slot_wf(Kind::Usize, id.0 as int));
            before.lemma_write(Kind::Usize, id.0 as int, Some(value as int));
        }
        if value != curr.value {
            if curr.clock < self.clock {
                self.trail.push(TrailEntry::UsizeEntry(curr));
                self.numbers_usize[id.0] = StateUsize { id, clock: self.clock, value };
            } else {
                self.numbers_usize[id.0].value = value;
            }
            assert(self.journal() =~~= old(self).journal().write(
                Kind::Usize,
                id.0 as int,
                Some(value as int),
            ));
        }
        value
    }

    fn increment_usize(&mut self, id: ReversibleUsize) -> (value: usize) {
        let value = self.get_usize(id) + 1;
        self.set_usize(id, value)
    }

    fn decrement_usize(&mut self, id: ReversibleUsize) -> (value: usize) {
        let value = self.get_usize(id) - 1;
        self.set_usize(id, value)
    }
}

impl OptionUsizeManager for StateManager {
    fn manage_option_usize(&mut self, value: Option<usize>) -> (id: ReversibleOptionUsize) {
        let id = ReversibleOptionUsize(self.numbers_option_usize.len());
        self.numbers_option_usize.push(StateOptionUsize { id, clock: self.clock, value });
        proof {
            let before = old(self).journal();
            assert(self.journal() =~~= before.create(Kind::OptionUsize, optional_usize(value)));
            before.lemma_create(Kind::OptionUsize, optional_usize(value));
        }
        id
    }

    fn get_option_usize(&self, id: ReversibleOptionUsize) -> (value: Option<usize>) {
        self.numbers_option_usize[id.0].value
    }

    fn set_option_usize(
        &mut self,
        id: ReversibleOptionUsize,
        value: Option<usize>,
    ) -> (written: Option<usize>) {
        let curr = self.numbers_option_usize[id.0];
        proof {
            let before = old(self).journal();
            assert(before.slot_wf(Kind::OptionUsize, id.0 as int));
            before.lemma_write(Kind::OptionUsize, id.0 as int, optional_usize(value));
        }
        if value != curr.value {
            if curr.clock < self.clock {
                self.trail.push(TrailEntry::OptionUsizeEntry(curr));
                self.numbers_option_usize[id.0] = StateOptionUsize { id, clock: self.clock, value };
            } else {
                self.numbers_option_usize[id.0].value = value;
            }
            assert(self.journal() =~~= old(self).journal().write(
                Kind::OptionUsize,
                id.0 as int,
                optional_usize(value),
            ));
        }
        value
    }

    fn increment_option_usize(&mut self, id: ReversibleOptionUsize) -> (value: usize) {
        let value = self.numbers_option_usize[id.0].value.unwrap();
        self.set_option_usize(id, Some(value + 1));
        value + 1
    }

    fn decrement_option_usize(&mut self, id: ReversibleOptionUsize) -> (value: usize) {
        let value = self.numbers_option_usize[id.0].value.unwrap();
        self.set_option_usize(id, Some(value - 1));
        value - 1
    }
}

} // verus!
