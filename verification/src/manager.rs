//! The state manager: the stores, the trail and the levels, and how a state is
//! saved and restored.

use vstd::prelude::*;
use crate::history::{History, Kind};
use crate::journal::{Journal, Mark, Record, Slot};
use crate::manager::u8_cells::{StateU8, StateOptionU8};
use crate::manager::u16_cells::{StateU16, StateOptionU16};
use crate::manager::u32_cells::{StateU32, StateOptionU32};
use crate::manager::u64_cells::{StateU64, StateOptionU64};
use crate::manager::u128_cells::{StateU128, StateOptionU128};
use crate::manager::usize_cells::{StateUsize, StateOptionUsize};
use crate::manager::i8_cells::{StateI8, StateOptionI8};
use crate::manager::i16_cells::{StateI16, StateOptionI16};
use crate::manager::i32_cells::{StateI32, StateOptionI32};
use crate::manager::i64_cells::{StateI64, StateOptionI64};
use crate::manager::i128_cells::{StateI128, StateOptionI128};
use crate::manager::isize_cells::{StateIsize, StateOptionIsize};

pub mod bool_cells;
pub mod i8_cells;
pub mod i16_cells;
pub mod i32_cells;
pub mod i64_cells;
pub mod i128_cells;
pub mod isize_cells;
pub mod u8_cells;
pub mod u16_cells;
pub mod u32_cells;
pub mod u64_cells;
pub mod u128_cells;
pub mod usize_cells;

verus! {

/// The length of the trail and the number of managed resources of each kind at
/// the moment a level was started. Restoring the level truncates the trail and
/// the stores to these lengths.
#[derive(Debug, Clone, Copy)]
pub(crate) struct Level {
    /// The length of the trail at the moment this level was started
    trail_size: usize,
    len_u8: usize,
    len_option_u8: usize,
    len_u16: usize,
    len_option_u16: usize,
    len_u32: usize,
    len_option_u32: usize,
    len_u64: usize,
    len_option_u64: usize,
    len_u128: usize,
    len_option_u128: usize,
    len_usize: usize,
    len_option_usize: usize,
    len_i8: usize,
    len_option_i8: usize,
    len_i16: usize,
    len_option_i16: usize,
    len_i32: usize,
    len_option_i32: usize,
    len_i64: usize,
    len_option_i64: usize,
    len_i128: usize,
    len_option_i128: usize,
    len_isize: usize,
    len_option_isize: usize,
}

/// An entry that is used to restore data from the trail
#[derive(Debug, Clone, Copy)]
pub(crate) enum TrailEntry {
    U8Entry(StateU8),
    OptionU8Entry(StateOptionU8),
    U16Entry(StateU16),
    OptionU16Entry(StateOptionU16),
    U32Entry(StateU32),
    OptionU32Entry(StateOptionU32),
    U64Entry(StateU64),
    OptionU64Entry(StateOptionU64),
    U128Entry(StateU128),
    OptionU128Entry(StateOptionU128),
    UsizeEntry(StateUsize),
    OptionUsizeEntry(StateOptionUsize),
    I8Entry(StateI8),
    OptionI8Entry(StateOptionI8),
    I16Entry(StateI16),
    OptionI16Entry(StateOptionI16),
    I32Entry(StateI32),
    OptionI32Entry(StateOptionI32),
    I64Entry(StateI64),
    OptionI64Entry(StateOptionI64),
    I128Entry(StateI128),
    OptionI128Entry(StateOptionI128),
    IsizeEntry(StateIsize),
    OptionIsizeEntry(StateOptionIsize),
}

/// A manager that can save a state and restore it later. It stores each integer
/// type, with or without a value, and booleans. The states are saved and restored
/// like a stack: restoring gives every managed value the value it had when the
/// state was saved last, and retracts the resources created since.
///
/// # Example
///
/// ```
/// use search_trail::{SaveAndRestore, StateManager, UsizeManager};
///
/// let mut mgr = StateManager::default();
/// let n = mgr.manage_usize(0);
/// assert_eq!(0, mgr.get_usize(n));
///
/// mgr.save_state();
///
/// mgr.set_usize(n, 20);
/// assert_eq!(20, mgr.get_usize(n));
///
/// mgr.save_state();
///
/// mgr.set_usize(n, 42);
/// assert_eq!(42, mgr.get_usize(n));
///
/// mgr.restore_state();
/// assert_eq!(20, mgr.get_usize(n));
///
/// mgr.restore_state();
/// assert_eq!(0, mgr.get_usize(n));
/// ```
#[derive(Debug)]
pub struct StateManager {
    /// Tells whether a resource goes to the trail before it is changed: a
    /// resource X does if X.clock < clock, and has X.clock = clock afterwards.
    /// The clock is the number of saved states.
    clock: usize,
    /// The states saved on the trail, which `restore_state()` puts back
    trail: Vec<TrailEntry>,
    /// One level for each saved state, above the root level
    levels: Vec<Level>,
    numbers_u8: Vec<StateU8>,
    numbers_option_u8: Vec<StateOptionU8>,
    numbers_u16: Vec<StateU16>,
    numbers_option_u16: Vec<StateOptionU16>,
    numbers_u32: Vec<StateU32>,
    numbers_option_u32: Vec<StateOptionU32>,
    numbers_u64: Vec<StateU64>,
    numbers_option_u64: Vec<StateOptionU64>,
    numbers_u128: Vec<StateU128>,
    numbers_option_u128: Vec<StateOptionU128>,
    numbers_usize: Vec<StateUsize>,
    numbers_option_usize: Vec<StateOptionUsize>,
    numbers_i8: Vec<StateI8>,
    numbers_option_i8: Vec<StateOptionI8>,
    numbers_i16: Vec<StateI16>,
    numbers_option_i16: Vec<StateOptionI16>,
    numbers_i32: Vec<StateI32>,
    numbers_option_i32: Vec<StateOptionI32>,
    numbers_i64: Vec<StateI64>,
    numbers_option_i64: Vec<StateOptionI64>,
    numbers_i128: Vec<StateI128>,
    numbers_option_i128: Vec<StateOptionI128>,
    numbers_isize: Vec<StateIsize>,
    numbers_option_isize: Vec<StateOptionIsize>,
}

/// Saving the state of every managed resource, and restoring the state saved
/// last.
pub trait SaveAndRestore: View<V = History> {
    /// What holds of a manager between any two calls. A new manager has it, and
    /// every operation keeps it.
    spec fn inv(&self) -> bool;

    /// The history of a manager is well formed.
    proof fn lemma_view_wf(&self)
        requires
            self.inv(),
        ensures
            self@.wf(),
    ;

    /// Saves the current state of all managed resources: a new epoch begins.
    fn save_state(&mut self)
        requires
            old(self).inv(),
        ensures
            final(self).inv(),
            final(self)@ == old(self)@.snapshot(),
    ;

    /// Restores the previous state of all managed resources: the values, the
    /// resources that exist, the trail and the clock are what they were when the
    /// state was saved. There must be a saved state.
    fn restore_state(&mut self)
        requires
            old(self).inv(),
            old(self)@.depth() > 0,
        ensures
            final(self).inv(),
            final(self)@ == old(self)@.rollback(),
    ;
}

impl Level {
    /// The recorded length of the store `kind`.
    spec fn len(self, kind: Kind) -> usize {
        match kind {
            Kind::U8 => self.len_u8,
            Kind::U16 => self.len_u16,
            Kind::U32 => self.len_u32,
            Kind::U64 => self.len_u64,
            Kind::U128 => self.len_u128,
            Kind::Usize => self.len_usize,
            Kind::I8 => self.len_i8,
            Kind::I16 => self.len_i16,
            Kind::I32 => self.len_i32,
            Kind::I64 => self.len_i64,
            Kind::I128 => self.len_i128,
            Kind::Isize => self.len_isize,
            Kind::OptionU8 => self.len_option_u8,
            Kind::OptionU16 => self.len_option_u16,
            Kind::OptionU32 => self.len_option_u32,
            Kind::OptionU64 => self.len_option_u64,
            Kind::OptionU128 => self.len_option_u128,
            Kind::OptionUsize => self.len_option_usize,
            Kind::OptionI8 => self.len_option_i8,
            Kind::OptionI16 => self.len_option_i16,
            Kind::OptionI32 => self.len_option_i32,
            Kind::OptionI64 => self.len_option_i64,
            Kind::OptionI128 => self.len_option_i128,
            Kind::OptionIsize => self.len_option_isize,
        }
    }

    /// The level as a mark of the journal.
    spec fn mark(self) -> Mark {
        Mark {
            trail_len: self.trail_size as nat,
            lens: Map::total(|kind: Kind| self.len(kind) as nat),
        }
    }
}

impl TrailEntry {
    /// The store that the entry belongs to.
    spec fn kind(self) -> Kind {
        match self {
            TrailEntry::U8Entry(_) => Kind::U8,
            TrailEntry::OptionU8Entry(_) => Kind::OptionU8,
            TrailEntry::U16Entry(_) => Kind::U16,
            TrailEntry::OptionU16Entry(_) => Kind::OptionU16,
            TrailEntry::U32Entry(_) => Kind::U32,
            TrailEntry::OptionU32Entry(_) => Kind::OptionU32,
            TrailEntry::U64Entry(_) => Kind::U64,
            TrailEntry::OptionU64Entry(_) => Kind::OptionU64,
            TrailEntry::U128Entry(_) => Kind::U128,
            TrailEntry::OptionU128Entry(_) => Kind::OptionU128,
            TrailEntry::UsizeEntry(_) => Kind::Usize,
            TrailEntry::OptionUsizeEntry(_) => Kind::OptionUsize,
            TrailEntry::I8Entry(_) => Kind::I8,
            TrailEntry::OptionI8Entry(_) => Kind::OptionI8,
            TrailEntry::I16Entry(_) => Kind::I16,
            TrailEntry::OptionI16Entry(_) => Kind::OptionI16,
            TrailEntry::I32Entry(_) => Kind::I32,
            TrailEntry::OptionI32Entry(_) => Kind::OptionI32,
            TrailEntry::I64Entry(_) => Kind::I64,
            TrailEntry::OptionI64Entry(_) => Kind::OptionI64,
            TrailEntry::I128Entry(_) => Kind::I128,
            TrailEntry::OptionI128Entry(_) => Kind::OptionI128,
            TrailEntry::IsizeEntry(_) => Kind::Isize,
            TrailEntry::OptionIsizeEntry(_) => Kind::OptionIsize,
        }
    }

    /// The state that the entry holds, as a slot of the journal.
    spec fn slot(self) -> Slot {
        match self {
            TrailEntry::U8Entry(state) => state.slot(),
            TrailEntry::OptionU8Entry(state) => state.slot(),
            TrailEntry::U16Entry(state) => state.slot(),
            TrailEntry::OptionU16Entry(state) => state.slot(),
            TrailEntry::U32Entry(state) => state.slot(),
            TrailEntry::OptionU32Entry(state) => state.slot(),
            TrailEntry::U64Entry(state) => state.slot(),
            TrailEntry::OptionU64Entry(state) => state.slot(),
            TrailEntry::U128Entry(state) => state.slot(),
            TrailEntry::OptionU128Entry(state) => state.slot(),
            TrailEntry::UsizeEntry(state) => state.slot(),
            TrailEntry::OptionUsizeEntry(state) => state.slot(),
            TrailEntry::I8Entry(state) => state.slot(),
            TrailEntry::OptionI8Entry(state) => state.slot(),
            TrailEntry::I16Entry(state) => state.slot(),
            TrailEntry::OptionI16Entry(state) => state.slot(),
            TrailEntry::I32Entry(state) => state.slot(),
            TrailEntry::OptionI32Entry(state) => state.slot(),
            TrailEntry::I64Entry(state) => state.slot(),
            TrailEntry::OptionI64Entry(state) => state.slot(),
            TrailEntry::I128Entry(state) => state.slot(),
            TrailEntry::OptionI128Entry(state) => state.slot(),
            TrailEntry::IsizeEntry(state) => state.slot(),
            TrailEntry::OptionIsizeEntry(state) => state.slot(),
        }
    }

    /// The entry as a record of the journal.
    spec fn record(self) -> Record {
        Record { kind: self.kind(), slot: self.slot() }
    }
}

impl StateManager {
    /// The store `kind` as slots.
    spec fn slots(&self, kind: Kind) -> Seq<Slot> {
        match kind {
            Kind::U8 => StateU8::slots(self.numbers_u8@),
            Kind::U16 => StateU16::slots(self.numbers_u16@),
            Kind::U32 => StateU32::slots(self.numbers_u32@),
            Kind::U64 => StateU64::slots(self.numbers_u64@),
            Kind::U128 => StateU128::slots(self.numbers_u128@),
            Kind::Usize => StateUsize::slots(self.numbers_usize@),
            Kind::I8 => StateI8::slots(self.numbers_i8@),
            Kind::I16 => StateI16::slots(self.numbers_i16@),
            Kind::I32 => StateI32::slots(self.numbers_i32@),
            Kind::I64 => StateI64::slots(self.numbers_i64@),
            Kind::I128 => StateI128::slots(self.numbers_i128@),
            Kind::Isize => StateIsize::slots(self.numbers_isize@),
            Kind::OptionU8 => StateOptionU8::slots(self.numbers_option_u8@),
            Kind::OptionU16 => StateOptionU16::slots(self.numbers_option_u16@),
            Kind::OptionU32 => StateOptionU32::slots(self.numbers_option_u32@),
            Kind::OptionU64 => StateOptionU64::slots(self.numbers_option_u64@),
            Kind::OptionU128 => StateOptionU128::slots(self.numbers_option_u128@),
            Kind::OptionUsize => StateOptionUsize::slots(self.numbers_option_usize@),
            Kind::OptionI8 => StateOptionI8::slots(self.numbers_option_i8@),
            Kind::OptionI16 => StateOptionI16::slots(self.numbers_option_i16@),
            Kind::OptionI32 => StateOptionI32::slots(self.numbers_option_i32@),
            Kind::OptionI64 => StateOptionI64::slots(self.numbers_option_i64@),
            Kind::OptionI128 => StateOptionI128::slots(self.numbers_option_i128@),
            Kind::OptionIsize => StateOptionIsize::slots(self.numbers_option_isize@),
        }
    }

    /// What the manager keeps, as a journal.
    spec fn journal(&self) -> Journal {
        Journal {
            clock: self.clock as nat,
            stores: Map::total(|kind: Kind| self.slots(kind)),
            trail: self.trail@.map_values(|entry: TrailEntry| entry.record()),
            marks: self.levels@.map_values(|level: Level| level.mark()),
        }
    }

    /// The number of saved states that can be restored.
    pub fn depth(&self) -> (depth: usize)
        requires
            self.inv(),
        ensures
            depth == self@.depth(),
    {
        self.clock
    }

    /// The number of entries on the trail.
    pub fn trail_len(&self) -> (len: usize)
        requires
            self.inv(),
        ensures
            len == self@.trail_len(),
    {
        self.trail.len()
    }

    /// The number of managed resources of one kind.
    pub fn count(&self, kind: Kind) -> (count: usize)
        requires
            self.inv(),
        ensures
            count == self@.len(kind),
    {
        match kind {
            Kind::U8 => self.numbers_u8.len(),
            Kind::U16 => self.numbers_u16.len(),
            Kind::U32 => self.numbers_u32.len(),
            Kind::U64 => self.numbers_u64.len(),
            Kind::U128 => self.numbers_u128.len(),
            Kind::Usize => self.numbers_usize.len(),
            Kind::I8 => self.numbers_i8.len(),
            Kind::I16 => self.numbers_i16.len(),
            Kind::I32 => self.numbers_i32.len(),
            Kind::I64 => self.numbers_i64.len(),
            Kind::I128 => self.numbers_i128.len(),
            Kind::Isize => self.numbers_isize.len(),
            Kind::OptionU8 => self.numbers_option_u8.len(),
            Kind::OptionU16 => self.numbers_option_u16.len(),
            Kind::OptionU32 => self.numbers_option_u32.len(),
            Kind::OptionU64 => self.numbers_option_u64.len(),
            Kind::OptionU128 => self.numbers_option_u128.len(),
            Kind::OptionUsize => self.numbers_option_usize.len(),
            Kind::OptionI8 => self.numbers_option_i8.len(),
            Kind::OptionI16 => self.numbers_option_i16.len(),
            Kind::OptionI32 => self.numbers_option_i32.len(),
            Kind::OptionI64 => self.numbers_option_i64.len(),
            Kind::OptionI128 => self.numbers_option_i128.len(),
            Kind::OptionIsize => self.numbers_option_isize.len(),
        }
    }

    /// The lengths of the trail and of the stores, as a level.
    fn level(&self) -> (level: Level)
        ensures
            level.mark() == (Mark {
                trail_len: self.journal().trail.len(),
                lens: self.journal().lens(),
            }),
    {
        Level {
            trail_size: self.trail.len(),
            len_u8: self.numbers_u8.len(),
            len_option_u8: self.numbers_option_u8.len(),
            len_u16: self.numbers_u16.len(),
            len_option_u16: self.numbers_option_u16.len(),
            len_u32: self.numbers_u32.len(),
            len_option_u32: self.numbers_option_u32.len(),
            len_u64: self.numbers_u64.len(),
            len_option_u64: self.numbers_option_u64.len(),
            len_u128: self.numbers_u128.len(),
            len_option_u128: self.numbers_option_u128.len(),
            len_usize: self.numbers_usize.len(),
            len_option_usize: self.numbers_option_usize.len(),
            len_i8: self.numbers_i8.len(),
            len_option_i8: self.numbers_option_i8.len(),
            len_i16: self.numbers_i16.len(),
            len_option_i16: self.numbers_option_i16.len(),
            len_i32: self.numbers_i32.len(),
            len_option_i32: self.numbers_option_i32.len(),
            len_i64: self.numbers_i64.len(),
            len_option_i64: self.numbers_option_i64.len(),
            len_i128: self.numbers_i128.len(),
            len_option_i128: self.numbers_option_i128.len(),
            len_isize: self.numbers_isize.len(),
            len_option_isize: self.numbers_option_isize.len(),
        }
    }

    /// Puts one entry of the trail back in its store.
    fn put_back(&mut self, entry: TrailEntry)
        requires
            entry.record().slot.id < old(self).journal().stores[entry.record().kind].len(),
        ensures
            final(self).clock == old(self).clock,
            final(self).trail == old(self).trail,
            final(self).levels == old(self).levels,
            final(self).journal().stores == old(self).journal().stores.insert(
                entry.record().kind,
                old(self).journal().stores[entry.record().kind].update(
                    entry.record().slot.id as int,
                    entry.record().slot,
                ),
            ),
    {
        match entry {
            TrailEntry::U8Entry(state) => self.numbers_u8[state.id.0] = state,
            TrailEntry::OptionU8Entry(state) => self.numbers_option_u8[state.id.0] = state,
            TrailEntry::U16Entry(state) => self.numbers_u16[state.id.0] = state,
            TrailEntry::OptionU16Entry(state) => self.numbers_option_u16[state.id.0] = state,
            TrailEntry::U32Entry(state) => self.numbers_u32[state.id.0] = state,
            TrailEntry::OptionU32Entry(state) => self.numbers_option_u32[state.id.0] = state,
            TrailEntry::U64Entry(state) => self.numbers_u64[state.id.0] = state,
            TrailEntry::OptionU64Entry(state) => self.numbers_option_u64[state.id.0] = state,
            TrailEntry::U128Entry(state) => self.numbers_u128[state.id.0] = state,
            TrailEntry::OptionU128Entry(state) => self.numbers_option_u128[state.id.0] = state,
            TrailEntry::UsizeEntry(state) => self.numbers_usize[state.id.0] = state,
            TrailEntry::OptionUsizeEntry(state) => self.numbers_option_usize[state.id.0] = state,
            TrailEntry::I8Entry(state) => self.numbers_i8[state.id.0] = state,
            TrailEntry::OptionI8Entry(state) => self.numbers_option_i8[state.id.0] = state,
            TrailEntry::I16Entry(state) => self.numbers_i16[state.id.0] = state,
            TrailEntry::OptionI16Entry(state) => self.numbers_option_i16[state.id.0] = state,
            TrailEntry::I32Entry(state) => self.numbers_i32[state.id.0] = state,
            TrailEntry::OptionI32Entry(state) => self.numbers_option_i32[state.id.0] = state,
            TrailEntry::I64Entry(state) => self.numbers_i64[state.id.0] = state,
            TrailEntry::OptionI64Entry(state) => self.numbers_option_i64[state.id.0] = state,
            TrailEntry::I128Entry(state) => self.numbers_i128[state.id.0] = state,
            TrailEntry::OptionI128Entry(state) => self.numbers_option_i128[state.id.0] = state,
            TrailEntry::IsizeEntry(state) => self.numbers_isize[state.id.0] = state,
            TrailEntry::OptionIsizeEntry(state) => self.numbers_option_isize[state.id.0] = state,
        }
        assert(self.journal().stores =~~= old(self).journal().stores.insert(
            entry.record().kind,
            old(self).journal().stores[entry.record().kind].update(
                entry.record().slot.id as int,
                entry.record().slot,
            ),
        ));
    }

    /// Shortens every store to the length that `level` has recorded for it.
    fn truncate_stores(&mut self, level: Level)
        requires
            forall|kind: Kind|
                level.len(kind) <= (#[trigger] old(self).journal().stores[kind]).len(),
        ensures
            final(self).clock == old(self).clock,
            final(self).trail == old(self).trail,
            final(self).levels == old(self).levels,
            final(self).journal().stores == Map::total(
                |kind: Kind| old(self).journal().stores[kind].take(level.len(kind) as int),
            ),
    {
        let ghost stores = self.journal().stores;
        assert(level.len_u8 <= stores[Kind::U8].len());
        self.numbers_u8.truncate(level.len_u8);
        assert(level.len_option_u8 <= stores[Kind::OptionU8].len());
        self.numbers_option_u8.truncate(level.len_option_u8);
        assert(level.len_u16 <= stores[Kind::U16].len());
        self.numbers_u16.truncate(level.len_u16);
        assert(level.len_option_u16 <= stores[Kind::OptionU16].len());
        self.numbers_option_u16.truncate(level.len_option_u16);
        assert(level.len_u32 <= stores[Kind::U32].len());
        self.numbers_u32.truncate(level.len_u32);
        assert(level.len_option_u32 <= stores[Kind::OptionU32].len());
        self.numbers_option_u32.truncate(level.len_option_u32);
        assert(level.len_u64 <= stores[Kind::U64].len());
        self.numbers_u64.truncate(level.len_u64);
        assert(level.len_option_u64 <= stores[Kind::OptionU64].len());
        self.numbers_option_u64.truncate(level.len_option_u64);
        assert(level.len_u128 <= stores[Kind::U128].len());
        self.numbers_u128.truncate(level.len_u128);
        assert(level.len_option_u128 <= stores[Kind::OptionU128].len());
        self.numbers_option_u128.truncate(level.len_option_u128);
        assert(level.len_usize <= stores[Kind::Usize].len());
        self.numbers_usize.truncate(level.len_usize);
        assert(level.len_option_usize <= stores[Kind::OptionUsize].len());
        self.numbers_option_usize.truncate(level.len_option_usize);
        assert(level.len_i8 <= stores[Kind::I8].len());
        self.numbers_i8.truncate(level.len_i8);
        assert(level.len_option_i8 <= stores[Kind::OptionI8].len());
        self.numbers_option_i8.truncate(level.len_option_i8);
        assert(level.len_i16 <= stores[Kind::I16].len());
        self.numbers_i16.truncate(level.len_i16);
        assert(level.len_option_i16 <= stores[Kind::OptionI16].len());
        self.numbers_option_i16.truncate(level.len_option_i16);
        assert(level.len_i32 <= stores[Kind::I32].len());
        self.numbers_i32.truncate(level.len_i32);
        assert(level.len_option_i32 <= stores[Kind::OptionI32].len());
        self.numbers_option_i32.truncate(level.len_option_i32);
        assert(level.len_i64 <= stores[Kind::I64].len());
        self.numbers_i64.truncate(level.len_i64);
        assert(level.len_option_i64 <= stores[Kind::OptionI64].len());
        self.numbers_option_i64.truncate(level.len_option_i64);
        assert(level.len_i128 <= stores[Kind::I128].len());
        self.numbers_i128.truncate(level.len_i128);
        assert(level.len_option_i128 <= stores[Kind::OptionI128].len());
        self.numbers_option_i128.truncate(level.len_option_i128);
        assert(level.len_isize <= stores[Kind::Isize].len());
        self.numbers_isize.truncate(level.len_isize);
        assert(level.len_option_isize <= stores[Kind::OptionIsize].len());
        self.numbers_option_isize.truncate(level.len_option_isize);
        assert forall|kind: Kind| #[trigger]
            self.journal().stores[kind] == stores[kind].take(level.len(kind) as int) by {
            let cut = self.slots(kind);
            let whole = stores[kind];
            match kind {
                Kind::U8 => assert(cut =~= whole.take(level.len_u8 as int)),
                Kind::U16 => assert(cut =~= whole.take(level.len_u16 as int)),
                Kind::U32 => assert(cut =~= whole.take(level.len_u32 as int)),
                Kind::U64 => assert(cut =~= whole.take(level.len_u64 as int)),
                Kind::U128 => assert(cut =~= whole.take(level.len_u128 as int)),
                Kind::Usize => assert(cut =~= whole.take(level.len_usize as int)),
                Kind::I8 => assert(cut =~= whole.take(level.len_i8 as int)),
                Kind::I16 => assert(cut =~= whole.take(level.len_i16 as int)),
                Kind::I32 => assert(cut =~= whole.take(level.len_i32 as int)),
                Kind::I64 => assert(cut =~= whole.take(level.len_i64 as int)),
                Kind::I128 => assert(cut =~= whole.take(level.len_i128 as int)),
                Kind::Isize => assert(cut =~= whole.take(level.len_isize as int)),
                Kind::OptionU8 => assert(cut =~= whole.take(level.len_option_u8 as int)),
                Kind::OptionU16 => assert(cut =~= whole.take(level.len_option_u16 as int)),
                Kind::OptionU32 => assert(cut =~= whole.take(level.len_option_u32 as int)),
                Kind::OptionU64 => assert(cut =~= whole.take(level.len_option_u64 as int)),
                Kind::OptionU128 => assert(cut =~= whole.take(level.len_option_u128 as int)),
                Kind::OptionUsize => assert(cut =~= whole.take(level.len_option_usize as int)),
                Kind::OptionI8 => assert(cut =~= whole.take(level.len_option_i8 as int)),
                Kind::OptionI16 => assert(cut =~= whole.take(level.len_option_i16 as int)),
                Kind::OptionI32 => assert(cut =~= whole.take(level.len_option_i32 as int)),
                Kind::OptionI64 => assert(cut =~= whole.take(level.len_option_i64 as int)),
                Kind::OptionI128 => assert(cut =~= whole.take(level.len_option_i128 as int)),
                Kind::OptionIsize => assert(cut =~= whole.take(level.len_option_isize as int)),
            }
        }
        assert(self.journal().stores =~= Map::total(
            |kind: Kind| stores[kind].take(level.len(kind) as int),
        ));
    }
}

impl View for StateManager {
    type V = History;

    /// The manager as a history: the frame in force and the frames of the saved
    /// states.
    closed spec fn view(&self) -> History {
        self.journal().history()
    }
}

impl Default for StateManager {
    /// A manager without managed resources and without a saved state.
    fn default() -> (manager: Self)
        ensures
            manager.inv(),
            manager@ == History::empty(),
    {
        let manager = Self {
            clock: 0,
            trail: vec![],
            levels: vec![
                Level {
                    trail_size: 0,
                    len_u8: 0,
                    len_option_u8: 0,
                    len_u16: 0,
                    len_option_u16: 0,
                    len_u32: 0,
                    len_option_u32: 0,
                    len_u64: 0,
                    len_option_u64: 0,
                    len_u128: 0,
                    len_option_u128: 0,
                    len_usize: 0,
                    len_option_usize: 0,
                    len_i8: 0,
                    len_option_i8: 0,
                    len_i16: 0,
                    len_option_i16: 0,
                    len_i32: 0,
                    len_option_i32: 0,
                    len_i64: 0,
                    len_option_i64: 0,
                    len_i128: 0,
                    len_option_i128: 0,
                    len_isize: 0,
                    len_option_isize: 0,
                },
            ],
            numbers_u8: vec![],
            numbers_option_u8: vec![],
            numbers_u16: vec![],
            numbers_option_u16: vec![],
            numbers_u32: vec![],
            numbers_option_u32: vec![],
            numbers_u64: vec![],
            numbers_option_u64: vec![],
            numbers_u128: vec![],
            numbers_option_u128: vec![],
            numbers_usize: vec![],
            numbers_option_usize: vec![],
            numbers_i8: vec![],
            numbers_option_i8: vec![],
            numbers_i16: vec![],
            numbers_option_i16: vec![],
            numbers_i32: vec![],
            numbers_option_i32: vec![],
            numbers_i64: vec![],
            numbers_option_i64: vec![],
            numbers_i128: vec![],
            numbers_option_i128: vec![],
            numbers_isize: vec![],
            numbers_option_isize: vec![],
        };
        proof {
            assert(manager.journal().marks =~= Journal::empty().marks) by {
                assert(manager.levels@[0].mark().lens =~= Journal::empty().marks[0].lens);
            }
            assert(manager.journal() =~~= Journal::empty());
            Journal::lemma_empty();
        }
        manager
    }
}

impl Clone for StateManager {
    /// A manager of its own, with the values and the saved states of this one.
    fn clone(&self) -> (copy: Self)
        ensures
            copy.inv() == self.inv(),
            copy@ == self@,
    {
        let copy = Self {
            clock: self.clock,
            trail: self.trail.clone(),
            levels: self.levels.clone(),
            numbers_u8: self.numbers_u8.clone(),
            numbers_option_u8: self.numbers_option_u8.clone(),
            numbers_u16: self.numbers_u16.clone(),
            numbers_option_u16: self.numbers_option_u16.clone(),
            numbers_u32: self.numbers_u32.clone(),
            numbers_option_u32: self.numbers_option_u32.clone(),
            numbers_u64: self.numbers_u64.clone(),
            numbers_option_u64: self.numbers_option_u64.clone(),
            numbers_u128: self.numbers_u128.clone(),
            numbers_option_u128: self.numbers_option_u128.clone(),
            numbers_usize: self.numbers_usize.clone(),
            numbers_option_usize: self.numbers_option_usize.clone(),
            numbers_i8: self.numbers_i8.clone(),
            numbers_option_i8: self.numbers_option_i8.clone(),
            numbers_i16: self.numbers_i16.clone(),
            numbers_option_i16: self.numbers_option_i16.clone(),
            numbers_i32: self.numbers_i32.clone(),
            numbers_option_i32: self.numbers_option_i32.clone(),
            numbers_i64: self.numbers_i64.clone(),
            numbers_option_i64: self.numbers_option_i64.clone(),
            numbers_i128: self.numbers_i128.clone(),
            numbers_option_i128: self.numbers_option_i128.clone(),
            numbers_isize: self.numbers_isize.clone(),
            numbers_option_isize: self.numbers_option_isize.clone(),
        };
        proof {
            assert(copy.trail@ =~= self.trail@);
            assert(copy.levels@ =~= self.levels@);
            assert(copy.numbers_u8@ =~= self.numbers_u8@);
            assert(copy.numbers_option_u8@ =~= self.numbers_option_u8@);
            assert(copy.numbers_u16@ =~= self.numbers_u16@);
            assert(copy.numbers_option_u16@ =~= self.numbers_option_u16@);
            assert(copy.numbers_u32@ =~= self.numbers_u32@);
            assert(copy.numbers_option_u32@ =~= self.numbers_option_u32@);
            assert(copy.numbers_u64@ =~= self.numbers_u64@);
            assert(copy.numbers_option_u64@ =~= self.numbers_option_u64@);
            assert(copy.numbers_u128@ =~= self.numbers_u128@);
            assert(copy.numbers_option_u128@ =~= self.numbers_option_u128@);
            assert(copy.numbers_usize@ =~= self.numbers_usize@);
            assert(copy.numbers_option_usize@ =~= self.numbers_option_usize@);
            assert(copy.numbers_i8@ =~= self.numbers_i8@);
            assert(copy.numbers_option_i8@ =~= self.numbers_option_i8@);
            assert(copy.numbers_i16@ =~= self.numbers_i16@);
            assert(copy.numbers_option_i16@ =~= self.numbers_option_i16@);
            assert(copy.numbers_i32@ =~= self.numbers_i32@);
            assert(copy.numbers_option_i32@ =~= self.numbers_option_i32@);
            assert(copy.numbers_i64@ =~= self.numbers_i64@);
            assert(copy.numbers_option_i64@ =~= self.numbers_option_i64@);
            assert(copy.numbers_i128@ =~= self.numbers_i128@);
            assert(copy.numbers_option_i128@ =~= self.numbers_option_i128@);
            assert(copy.numbers_isize@ =~= self.numbers_isize@);
            assert(copy.numbers_option_isize@ =~= self.numbers_option_isize@);
            assert(copy.journal() =~~= self.journal());
        }
        copy
    }
}

impl SaveAndRestore for StateManager {
    /// The journal of the manager is well formed.
    closed spec fn inv(&self) -> bool {
        self.journal().wf()
    }

    proof fn lemma_view_wf(&self) {
        self.journal().lemma_history_wf();
    }

    fn save_state(&mut self) {
        // After this, every managed resource goes to the trail when it is changed.
        let level = self.level();
        assert(self.levels.len() == self.journal().marks.len());
        self.clock += 1;
        self.levels.push(level);
        proof {
            let before = old(self).journal();
            assert(self.journal() =~~= before.snapshot());
            before.lemma_snapshot();
        }
    }

    fn restore_state(&mut self) {
        let ghost before = self.journal();
        let level = self.levels.pop().unwrap();
        assert(level.mark() == before.marks.last());
        // Before the level was started, the trail was `trail_size` long: the
        // entries above are put back, the newest first.
        let mut i = self.trail.len();
        while i > level.trail_size
            invariant
                before.wf(),
                before.clock >= 1,
                before.clock == old(self).clock,
                before.marks.len() == old(self).levels@.len(),
                level.mark() == before.marks.last(),
                level.trail_size <= i <= self.trail.len(),
                self.clock == old(self).clock,
                self.trail == old(self).trail,
                self.levels@ == old(self).levels@.drop_last(),
                self.journal().trail == before.trail,
                forall|kind: Kind|
                    (#[trigger] self.journal().stores[kind]).len() == before.stores[kind].len(),
                forall|kind: Kind, p: int|
                    0 <= p < before.stores[kind].len() ==> #[trigger] self.journal().stores[kind][p]
                        == before.slot_at(i as int, kind, p),
            decreases i,
        {
            i -= 1;
            let entry = self.trail[i];
            assert(before.record_wf(i as int));
            self.put_back(entry);
        }
        let ghost unwound = self.journal().stores;
        assert forall|kind: Kind| level.len(kind) <= (#[trigger] unwound[kind]).len() by {
            assert(before.marks[before.clock as int].lens[kind] <= before.stores[kind].len());
        }
        self.truncate_stores(level);
        let ghost restored = self.journal().stores;
        self.trail.truncate(level.trail_size);
        self.clock -= 1;
        proof {
            assert(restored =~~= before.rollback().stores);
            assert(self.journal() =~~= before.rollback());
            before.lemma_rollback();
        }
    }
}

} // verus!
