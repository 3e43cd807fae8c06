//! Managed booleans, and managed optional booleans. A boolean is kept as a managed
//! `usize` that holds 0 or 1, so that nothing of the trail is written twice.

use vstd::prelude::*;
use crate::history::Kind;
use crate::manager::usize_cells::{
    OptionUsizeManager,
    ReversibleOptionUsize,
    ReversibleUsize,
    UsizeManager,
};
use crate::manager::{SaveAndRestore, StateManager};

verus! {

/// Index for a managed bool. Note that this only redirects towards a managed usize
#[derive(Debug, Clone, Copy, PartialEq, Eq, Hash)]
pub struct ReversibleBool(ReversibleUsize);

/// Index for a managed optional bool. Note that this only redirects towards a
/// managed optional usize
#[derive(Debug, Clone, Copy, PartialEq, Eq, Hash)]
pub struct ReversibleOptionBool(ReversibleOptionUsize);

impl View for ReversibleBool {
    type V = nat;

    /// The position of the resource in the store `Kind::Usize`.
    closed spec fn view(&self) -> nat {
        self.0@
    }
}

impl View for ReversibleOptionBool {
    type V = nat;

    /// The position of the resource in the store `Kind::OptionUsize`.
    closed spec fn view(&self) -> nat {
        self.0@
    }
}

impl ReversibleBool {
    /// The position of the resource in its store.
    pub fn index(&self) -> (index: usize)
        ensures
            index == self@,
    {
        self.0.index()
    }
}

impl ReversibleOptionBool {
    /// The position of the resource in its store.
    pub fn index(&self) -> (index: usize)
        ensures
            index == self@,
    {
        self.0.index()
    }
}

/// A boolean as the value of a cell: 1 for `true`, 0 for `false`.
pub open spec fn bool_value(value: bool) -> Option<int> {
    Some(
        if value {
            1int
        } else {
            0int
        },
    )
}

/// An optional boolean as the value of a cell.
pub open spec fn optional_bool(value: Option<bool>) -> Option<int> {
    match value {
        Some(b) => bool_value(b),
        None => None,
    }
}

/// The boolean that the value of a cell stands for: `false` for 0, `true`
/// for anything else.
pub open spec fn as_bool(value: Option<int>) -> bool {
    value != Some(0int)
}

/// The optional boolean that the value of a cell stands for.
pub open spec fn as_optional_bool(value: Option<int>) -> Option<bool> {
    match value {
        Some(n) => Some(n != 0),
        None => None,
    }
}

/// The number that a boolean is kept as.
fn number(value: bool) -> (n: usize)
    ensures
        Some(n as int) == bool_value(value),
{
    if value {
        1
    } else {
        0
    }
}

/// The operations on a managed boolean.
pub trait BoolManager: SaveAndRestore {
    /// Creates a new managed boolean
    fn manage_bool(&mut self, value: bool) -> (id: ReversibleBool)
        requires
            old(self).inv(),
        ensures
            final(self).inv(),
            final(self)@ == old(self)@.create(Kind::Usize, bool_value(value)),
            id@ == old(self)@.len(Kind::Usize),
    ;

    /// Returns the value of a managed boolean
    fn get_bool(&self, id: ReversibleBool) -> (value: bool)
        requires
            self.inv(),
            self@.holds(Kind::Usize, id@),
        ensures
            value == as_bool(self@.read(Kind::Usize, id@)),
    ;

    /// Sets the value of a managed boolean to the given value and returns the
    /// new value
    fn set_bool(&mut self, id: ReversibleBool, value: bool) -> (written: bool)
        requires
            old(self).inv(),
            old(self)@.holds(Kind::Usize, id@),
        ensures
            final(self).inv(),
            final(self)@ == old(self)@.write(Kind::Usize, id@, bool_value(value)),
            written == value,
    ;

    /// Flips the value of a managed boolean and returns the new value
    fn flip_bool(&mut self, id: ReversibleBool) -> (flipped: bool)
        requires
            old(self).inv(),
            old(self)@.holds(Kind::Usize, id@),
        ensures
            final(self).inv(),
            final(self)@ == old(self)@.write(Kind::Usize, id@, bool_value(flipped)),
            flipped == !as_bool(old(self)@.read(Kind::Usize, id@)),
    {
        let value = self.get_bool(id);
        self.set_bool(id, !value)
    }
}

impl BoolManager for StateManager {
    fn manage_bool(&mut self, value: bool) -> (id: ReversibleBool) {
        ReversibleBool(self.manage_usize(number(value)))
    }

    fn get_bool(&self, id: ReversibleBool) -> (value: bool) {
        self.get_usize(id.0) != 0
    }

    fn set_bool(&mut self, id: ReversibleBool, value: bool) -> (written: bool) {
        self.set_usize(id.0, number(value)) != 0
    }
}

/// The operations on a managed optional boolean.
pub trait OptionBoolManager: SaveAndRestore {
    /// Creates a new managed optional boolean
    fn manage_option_bool(&mut self, value: Option<bool>) -> (id: ReversibleOptionBool)
        requires
            old(self).inv(),
        ensures
            final(self).inv(),
            final(self)@ == old(self)@.create(Kind::OptionUsize, optional_bool(value)),
            id@ == old(self)@.len(Kind::OptionUsize),
    ;

    /// Returns the value of a managed optional boolean
    fn get_option_bool(&self, id: ReversibleOptionBool) -> (value: Option<bool>)
        requires
            self.inv(),
            self@.holds(Kind::OptionUsize, id@),
        ensures
            value == as_optional_bool(self@.read(Kind::OptionUsize, id@)),
    ;

    /// Sets the value of a managed optional boolean to the given value and
    /// returns the new value
    fn set_option_bool(&mut self, id: ReversibleOptionBool, value: bool) -> (written: bool)
        requires
            old(self).inv(),
            old(self)@.holds(Kind::OptionUsize, id@),
        ensures
            final(self).inv(),
            final(self)@ == old(self)@.write(Kind::OptionUsize, id@, bool_value(value)),
            written == value,
    ;

    /// Sets the value of a managed optional boolean to None
    fn set_option_bool_none(&mut self, id: ReversibleOptionBool)
        requires
            old(self).inv(),
            old(self)@.holds(Kind::OptionUsize, id@),
        ensures
            final(self).inv(),
            final(self)@ == old(self)@.write(Kind::OptionUsize, id@, None),
    ;

    /// Flips the value of a managed optional boolean and returns the new value.
    /// The resource must hold a value.
    fn flip_option_bool(&mut self, id: ReversibleOptionBool) -> (flipped: bool)
        requires
            old(self).inv(),
            old(self)@.holds(Kind::OptionUsize, id@),
            old(self)@.read(Kind::OptionUsize, id@).is_some(),
        ensures
            final(self).inv(),
            final(self)@ == old(self)@.write(Kind::OptionUsize, id@, bool_value(flipped)),
            Some(!flipped) == as_optional_bool(old(self)@.read(Kind::OptionUsize, id@)),
    {
        let value = self.get_option_bool(id).unwrap();
        self.set_option_bool(id, !value)
    }

    /// Returns true iff the option is some
    fn is_option_bool_some(&self, id: ReversibleOptionBool) -> (some: bool)
        requires
            self.inv(),
            self@.holds(Kind::OptionUsize, id@),
        ensures
            some == self@.read(Kind::OptionUsize, id@).is_some(),
    {
        self.get_option_bool(id).is_some()
    }

    /// Returns true iff the option is none
    fn is_option_bool_none(&self, id: ReversibleOptionBool) -> (none: bool)
        requires
            self.inv(),
            self@.holds(Kind::OptionUsize, id@),
        ensures
            none == self@.read(Kind::OptionUsize, id@).is_none(),
    {
        self.get_option_bool(id).is_none()
    }
}

impl OptionBoolManager for StateManager {
    fn manage_option_bool(&mut self, value: Option<bool>) -> (id: ReversibleOptionBool) {
        if let Some(b) = value {
            ReversibleOptionBool(self.manage_option_usize(Some(number(b))))
        } else {
            ReversibleOptionBool(self.manage_option_usize(None))
        }
    }

    fn get_option_bool(&self, id: ReversibleOptionBool) -> (value: Option<bool>) {
        if let Some(v) = self.get_option_usize(id.0) {
            Some(v != 0)
        } else {
            None
        }
    }

    fn set_option_bool(&mut self, id: ReversibleOptionBool, value: bool) -> (written: bool) {
        self.set_option_usize(id.0, Some(number(value)));
        value
    }

    fn set_option_bool_none(&mut self, id: ReversibleOptionBool) {
        self.set_option_usize(id.0, None);
    }
}

} // verus!
