//! Reversible scalar cells for backtracking search.
//!
//! A [`StateManager`] owns any number of small values: integers of every width,
//! optional integers, booleans and optional booleans. The values are reached
//! through indices that the manager hands out. `save_state` begins an epoch and
//! `restore_state` undoes everything that happened since the epoch began: the
//! values written are put back and the values created are retracted. Epochs nest
//! like a stack.
//!
//! A write costs one comparison of clocks, and saving a state costs the same
//! whatever the number of managed values: the manager keeps a trail of the values
//! that were replaced, and a value goes to the trail at the first write of an
//! epoch only.
//!
//! The contracts speak of a manager through its view, a [`History`]: the frame in
//! force and the frames that the open epochs have put aside. The laws of a
//! history are proved in [`history`].

pub mod history;
mod journal;
pub mod manager;

pub use history::{Cell, Frame, History, Kind, Step};
pub use manager::bool_cells::{
    BoolManager, OptionBoolManager, ReversibleBool, ReversibleOptionBool,
};
pub use manager::u8_cells::{
    OptionU8Manager, ReversibleOptionU8, ReversibleU8, U8Manager,
};
pub use manager::u16_cells::{
    OptionU16Manager, ReversibleOptionU16, ReversibleU16, U16Manager,
};
pub use manager::u32_cells::{
    OptionU32Manager, ReversibleOptionU32, ReversibleU32, U32Manager,
};
pub use manager::u64_cells::{
    OptionU64Manager, ReversibleOptionU64, ReversibleU64, U64Manager,
};
pub use manager::u128_cells::{
    OptionU128Manager, ReversibleOptionU128, ReversibleU128, U128Manager,
};
pub use manager::usize_cells::{
    OptionUsizeManager, ReversibleOptionUsize, ReversibleUsize, UsizeManager,
};
pub use manager::i8_cells::{
    OptionI8Manager, ReversibleOptionI8, ReversibleI8, I8Manager,
};
pub use manager::i16_cells::{
    OptionI16Manager, ReversibleOptionI16, ReversibleI16, I16Manager,
};
pub use manager::i32_cells::{
    OptionI32Manager, ReversibleOptionI32, ReversibleI32, I32Manager,
};
pub use manager::i64_cells::{
    OptionI64Manager, ReversibleOptionI64, ReversibleI64, I64Manager,
};
pub use manager::i128_cells::{
    OptionI128Manager, ReversibleOptionI128, ReversibleI128, I128Manager,
};
pub use manager::isize_cells::{
    OptionIsizeManager, ReversibleOptionIsize, ReversibleIsize, IsizeManager,
};
pub use manager::{SaveAndRestore, StateManager};
