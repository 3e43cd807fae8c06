use search_trail::{Kind, SaveAndRestore, StateManager};
use search_trail::{ReversibleU8, U8Manager};
use search_trail::{ReversibleU16, U16Manager};
use search_trail::{ReversibleU32, U32Manager};
use search_trail::{ReversibleU64, U64Manager};
use search_trail::{ReversibleU128, U128Manager};
use search_trail::{ReversibleUsize, UsizeManager};
use search_trail::{ReversibleI8, I8Manager};
use search_trail::{ReversibleI16, I16Manager};
use search_trail::{ReversibleI32, I32Manager};
use search_trail::{ReversibleI64, I64Manager};
use search_trail::{ReversibleI128, I128Manager};
use search_trail::{ReversibleIsize, IsizeManager};

#[test]
fn manager_return_values_u8() {
    let mut mgr = StateManager::default();
    let values: Vec<ReversibleU8> = (0..10).map(|i| mgr.manage_u8(i as u8)).collect();
    for i in 0..10 {
        assert_eq!(i, values[i].index());
        let x = mgr.set_u8(values[i], i as u8 + 1 as u8);
        assert_eq!(i as u8 + 1 as u8, x);
        assert_eq!(x + 1 as u8, mgr.increment_u8(values[i]));
        assert_eq!(x, mgr.decrement_u8(values[i]));
    }
}

#[test]
fn count_u8() {
    let mut mgr = StateManager::default();
    assert_eq!(0, mgr.count(Kind::U8));
    let a = mgr.manage_u8(u8::MIN);
    let b = mgr.manage_u8(u8::MAX);
    assert_eq!(2, mgr.count(Kind::U8));
    assert_eq!(0, mgr.count(Kind::OptionU8));
    assert_eq!(u8::MIN, mgr.get_u8(a));
    assert_eq!(u8::MAX, mgr.get_u8(b));
    mgr.save_state();
    assert_eq!(u8::MIN + 1, mgr.increment_u8(a));
    assert_eq!(u8::MAX - 1, mgr.decrement_u8(b));
    let c = mgr.manage_u8(1);
    assert_eq!(2, c.index());
    assert_eq!(3, mgr.count(Kind::U8));
    assert_eq!(2, mgr.trail_len());
    mgr.restore_state();
    assert_eq!(2, mgr.count(Kind::U8));
    assert_eq!(u8::MIN, mgr.get_u8(a));
    assert_eq!(u8::MAX, mgr.get_u8(b));
}

#[test]
fn set_and_restore_u8() {
    let mut mgr = StateManager::default();
    let n = mgr.manage_u8(10 as u8);
    assert_eq!(10 as u8, mgr.get_u8(n));

    mgr.save_state();

    let x = mgr.set_u8(n, 20 as u8);
    assert_eq!(20 as u8, x);
    assert_eq!(20 as u8, mgr.get_u8(n));

    let x = mgr.set_u8(n, 23 as u8);
    assert_eq!(23 as u8, x);
    assert_eq!(23 as u8, mgr.get_u8(n));

    mgr.restore_state();

    assert_eq!(10 as u8, mgr.get_u8(n));

    let x = mgr.set_u8(n, 42 as u8);
    assert_eq!(42 as u8, x);
    assert_eq!(42 as u8, mgr.get_u8(n));

    mgr.save_state();

    let x = mgr.set_u8(n, 12 as u8);
    assert_eq!(12 as u8, x);
    assert_eq!(12 as u8, mgr.get_u8(n));

    mgr.save_state();

    let x = mgr.set_u8(n, 12 as u8);
    assert_eq!(12 as u8, x);
    assert_eq!(12 as u8, mgr.get_u8(n));

    mgr.save_state();

    mgr.restore_state();
    assert_eq!(12 as u8, mgr.get_u8(n));

    mgr.restore_state();
    assert_eq!(12 as u8, mgr.get_u8(n));

    mgr.restore_state();
    assert_eq!(42 as u8, mgr.get_u8(n));
}

#[test]
fn test_increment_u8() {
    let mut mgr = StateManager::default();
    let n = mgr.manage_u8(30 as u8);
    assert_eq!(30 as u8, mgr.get_u8(n));

    mgr.save_state();

    for i in 0..10 {
        let x = mgr.increment_u8(n);
        assert_eq!((30 + i + 1) as u8, x);
        assert_eq!((30 + i + 1) as u8, mgr.get_u8(n));
    }

    mgr.restore_state();
    assert_eq!(30 as u8, mgr.get_u8(n));

    mgr.save_state();

    for i in 0..10 {
        let x = mgr.decrement_u8(n);
        assert_eq!((30 - i - 1) as u8, x);
        assert_eq!((30 - i - 1) as u8, mgr.get_u8(n));
    }

    mgr.restore_state();
    assert_eq!(30 as u8, mgr.get_u8(n));
}

#[test]
fn manager_return_values_u16() {
    let mut mgr = StateManager::default();
    let values: Vec<ReversibleU16> = (0..10).map(|i| mgr.manage_u16(i as u16)).collect();
    for i in 0..10 {
        assert_eq!(i, values[i].index());
        let x = mgr.set_u16(values[i], i as u16 + 1 as u16);
        assert_eq!(i as u16 + 1 as u16, x);
        assert_eq!(x + 1 as u16, mgr.increment_u16(values[i]));
        assert_eq!(x, mgr.decrement_u16(values[i]));
    }
}

#[test]
fn count_u16() {
    let mut mgr = StateManager::default();
    assert_eq!(0, mgr.count(Kind::U16));
    let a = mgr.manage_u16(u16::MIN);
    let b = mgr.manage_u16(u16::MAX);
    assert_eq!(2, mgr.count(Kind::U16));
    assert_eq!(0, mgr.count(Kind::OptionU16));
    assert_eq!(u16::MIN, mgr.get_u16(a));
    assert_eq!(u16::MAX, mgr.get_u16(b));
    mgr.save_state();
    assert_eq!(u16::MIN + 1, mgr.increment_u16(a));
    assert_eq!(u16::MAX - 1, mgr.decrement_u16(b));
    let c = mgr.manage_u16(1);
    assert_eq!(2, c.index());
    assert_eq!(3, mgr.count(Kind::U16));
    assert_eq!(2, mgr.trail_len());
    mgr.restore_state();
    assert_eq!(2, mgr.count(Kind::U16));
    assert_eq!(u16::MIN, mgr.get_u16(a));
    assert_eq!(u16::MAX, mgr.get_u16(b));
}

#[test]
fn set_and_restore_u16() {
    let mut mgr = StateManager::default();
    let n = mgr.manage_u16(10 as u16);
    assert_eq!(10 as u16, mgr.get_u16(n));

    mgr.save_state();

    let x = mgr.set_u16(n, 20 as u16);
    assert_eq!(20 as u16, x);
    assert_eq!(20 as u16, mgr.get_u16(n));

    let x = mgr.set_u16(n, 23 as u16);
    assert_eq!(23 as u16, x);
    assert_eq!(23 as u16, mgr.get_u16(n));

    mgr.restore_state();

    assert_eq!(10 as u16, mgr.get_u16(n));

    let x = mgr.set_u16(n, 42 as u16);
    assert_eq!(42 as u16, x);
    assert_eq!(42 as u16, mgr.get_u16(n));

    mgr.save_state();

    let x = mgr.set_u16(n, 12 as u16);
    assert_eq!(12 as u16, x);
    assert_eq!(12 as u16, mgr.get_u16(n));

    mgr.save_state();

    let x = mgr.set_u16(n, 12 as u16);
    assert_eq!(12 as u16, x);
    assert_eq!(12 as u16, mgr.get_u16(n));

    mgr.save_state();

    mgr.restore_state();
    assert_eq!(12 as u16, mgr.get_u16(n));

    mgr.restore_state();
    assert_eq!(12 as u16, mgr.get_u16(n));

    mgr.restore_state();
    assert_eq!(42 as u16, mgr.get_u16(n));
}

#[test]
fn test_increment_u16() {
    let mut mgr = StateManager::default();
    let n = mgr.manage_u16(30 as u16);
    assert_eq!(30 as u16, mgr.get_u16(n));

    mgr.save_state();

    for i in 0..10 {
        let x = mgr.increment_u16(n);
        assert_eq!((30 + i + 1) as u16, x);
        assert_eq!((30 + i + 1) as u16, mgr.get_u16(n));
    }

    mgr.restore_state();
    assert_eq!(30 as u16, mgr.get_u16(n));

    mgr.save_state();

    for i in 0..10 {
        let x = mgr.decrement_u16(n);
        assert_eq!((30 - i - 1) as u16, x);
        assert_eq!((30 - i - 1) as u16, mgr.get_u16(n));
    }

    mgr.restore_state();
    assert_eq!(30 as u16, mgr.get_u16(n));
}

#[test]
fn manager_return_values_u32() {
    let mut mgr = StateManager::default();
    let values: Vec<ReversibleU32> = (0..10).map(|i| mgr.manage_u32(i as u32)).collect();
    for i in 0..10 {
        assert_eq!(i, values[i].index());
        let x = mgr.set_u32(values[i], i as u32 + 1 as u32);
        assert_eq!(i as u32 + 1 as u32, x);
        assert_eq!(x + 1 as u32, mgr.increment_u32(values[i]));
        assert_eq!(x, mgr.decrement_u32(values[i]));
    }
}

#[test]
fn count_u32() {
    let mut mgr = StateManager::default();
    assert_eq!(0, mgr.count(Kind::U32));
    let a = mgr.manage_u32(u32::MIN);
    let b = mgr.manage_u32(u32::MAX);
    assert_eq!(2, mgr.count(Kind::U32));
    assert_eq!(0, mgr.count(Kind::OptionU32));
    assert_eq!(u32::MIN, mgr.get_u32(a));
    assert_eq!(u32::MAX, mgr.get_u32(b));
    mgr.save_state();
    assert_eq!(u32::MIN + 1, mgr.increment_u32(a));
    assert_eq!(u32::MAX - 1, mgr.decrement_u32(b));
    let c = mgr.manage_u32(1);
    assert_eq!(2, c.index());
    assert_eq!(3, mgr.count(Kind::U32));
    assert_eq!(2, mgr.trail_len());
    mgr.restore_state();
    assert_eq!(2, mgr.count(Kind::U32));
    assert_eq!(u32::MIN, mgr.get_u32(a));
    assert_eq!(u32::MAX, mgr.get_u32(b));
}

#[test]
fn set_and_restore_u32() {
    let mut mgr = StateManager::default();
    let n = mgr.manage_u32(10 as u32);
    assert_eq!(10 as u32, mgr.get_u32(n));

    mgr.save_state();

    let x = mgr.set_u32(n, 20 as u32);
    assert_eq!(20 as u32, x);
    assert_eq!(20 as u32, mgr.get_u32(n));

    let x = mgr.set_u32(n, 23 as u32);
    assert_eq!(23 as u32, x);
    assert_eq!(23 as u32, mgr.get_u32(n));

    mgr.restore_state();

    assert_eq!(10 as u32, mgr.get_u32(n));

    let x = mgr.set_u32(n, 42 as u32);
    assert_eq!(42 as u32, x);
    assert_eq!(42 as u32, mgr.get_u32(n));

    mgr.save_state();

    let x = mgr.set_u32(n, 12 as u32);
    assert_eq!(12 as u32, x);
    assert_eq!(12 as u32, mgr.get_u32(n));

    mgr.save_state();

    let x = mgr.set_u32(n, 12 as u32);
    assert_eq!(12 as u32, x);
    assert_eq!(12 as u32, mgr.get_u32(n));

    mgr.save_state();

    mgr.restore_state();
    assert_eq!(12 as u32, mgr.get_u32(n));

    mgr.restore_state();
    assert_eq!(12 as u32, mgr.get_u32(n));

    mgr.restore_state();
    assert_eq!(42 as u32, mgr.get_u32(n));
}

#[test]
fn test_increment_u32() {
    let mut mgr = StateManager::default();
    let n = mgr.manage_u32(30 as u32);
    assert_eq!(30 as u32, mgr.get_u32(n));

    mgr.save_state();

    for i in 0..10 {
        let x = mgr.increment_u32(n);
        assert_eq!((30 + i + 1) as u32, x);
        assert_eq!((30 + i + 1) as u32, mgr.get_u32(n));
    }

    mgr.restore_state();
    assert_eq!(30 as u32, mgr.get_u32(n));

    mgr.save_state();

    for i in 0..10 {
        let x = mgr.decrement_u32(n);
        assert_eq!((30 - i - 1) as u32, x);
        assert_eq!((30 - i - 1) as u32, mgr.get_u32(n));
    }

    mgr.restore_state();
    assert_eq!(30 as u32, mgr.get_u32(n));
}

#[test]
fn manager_return_values_u64() {
    let mut mgr = StateManager::default();
    let values: Vec<ReversibleU64> = (0..10).map(|i| mgr.manage_u64(i as u64)).collect();
    for i in 0..10 {
        assert_eq!(i, values[i].index());
        let x = mgr.set_u64(values[i], i as u64 + 1 as u64);
        assert_eq!(i as u64 + 1 as u64, x);
        assert_eq!(x + 1 as u64, mgr.increment_u64(values[i]));
        assert_eq!(x, mgr.decrement_u64(values[i]));
    }
}

#[test]
fn count_u64() {
    let mut mgr = StateManager::default();
    assert_eq!(0, mgr.count(Kind::U64));
    let a = mgr.manage_u64(u64::MIN);
    let b = mgr.manage_u64(u64::MAX);
    assert_eq!(2, mgr.count(Kind::U64));
    assert_eq!(0, mgr.count(Kind::OptionU64));
    assert_eq!(u64::MIN, mgr.get_u64(a));
    assert_eq!(u64::MAX, mgr.get_u64(b));
    mgr.save_state();
    assert_eq!(u64::MIN + 1, mgr.increment_u64(a));
    assert_eq!(u64::MAX - 1, mgr.decrement_u64(b));
    let c = mgr.manage_u64(1);
    assert_eq!(2, c.index());
    assert_eq!(3, mgr.count(Kind::U64));
    assert_eq!(2, mgr.trail_len());
    mgr.restore_state();
    assert_eq!(2, mgr.count(Kind::U64));
    assert_eq!(u64::MIN, mgr.get_u64(a));
    assert_eq!(u64::MAX, mgr.get_u64(b));
}

#[test]
fn set_and_restore_u64() {
    let mut mgr = StateManager::default();
    let n = mgr.manage_u64(10 as u64);
    assert_eq!(10 as u64, mgr.get_u64(n));

    mgr.save_state();

    let x = mgr.set_u64(n, 20 as u64);
    assert_eq!(20 as u64, x);
    assert_eq!(20 as u64, mgr.get_u64(n));

    let x = mgr.set_u64(n, 23 as u64);
    assert_eq!(23 as u64, x);
    assert_eq!(23 as u64, mgr.get_u64(n));

    mgr.restore_state();

    assert_eq!(10 as u64, mgr.get_u64(n));

    let x = mgr.set_u64(n, 42 as u64);
    assert_eq!(42 as u64, x);
    assert_eq!(42 as u64, mgr.get_u64(n));

    mgr.save_state();

    let x = mgr.set_u64(n, 12 as u64);
    assert_eq!(12 as u64, x);
    assert_eq!(12 as u64, mgr.get_u64(n));

    mgr.save_state();

    let x = mgr.set_u64(n, 12 as u64);
    assert_eq!(12 as u64, x);
    assert_eq!(12 as u64, mgr.get_u64(n));

    mgr.save_state();

    mgr.restore_state();
    assert_eq!(12 as u64, mgr.get_u64(n));

    mgr.restore_state();
    assert_eq!(12 as u64, mgr.get_u64(n));

    mgr.restore_state();
    assert_eq!(42 as u64, mgr.get_u64(n));
}

#[test]
fn test_increment_u64() {
    let mut mgr = StateManager::default();
    let n = mgr.manage_u64(30 as u64);
    assert_eq!(30 as u64, mgr.get_u64(n));

    mgr.save_state();

    for i in 0..10 {
        let x = mgr.increment_u64(n);
        assert_eq!((30 + i + 1) as u64, x);
        assert_eq!((30 + i + 1) as u64, mgr.get_u64(n));
    }

    mgr.restore_state();
    assert_eq!(30 as u64, mgr.get_u64(n));

    mgr.save_state();

    for i in 0..10 {
        let x = mgr.decrement_u64(n);
        assert_eq!((30 - i - 1) as u64, x);
        assert_eq!((30 - i - 1) as u64, mgr.get_u64(n));
    }

    mgr.restore_state();
    assert_eq!(30 as u64, mgr.get_u64(n));
}

#[test]
fn manager_return_values_u128() {
    let mut mgr = StateManager::default();
    let values: Vec<ReversibleU128> = (0..10).map(|i| mgr.manage_u128(i as u128)).collect();
    for i in 0..10 {
        assert_eq!(i, values[i].index());
        let x = mgr.set_u128(values[i], i as u128 + 1 as u128);
        assert_eq!(i as u128 + 1 as u128, x);
        assert_eq!(x + 1 as u128, mgr.increment_u128(values[i]));
        assert_eq!(x, mgr.decrement_u128(values[i]));
    }
}

#[test]
fn count_u128() {
    let mut mgr = StateManager::default();
    assert_eq!(0, mgr.count(Kind::U128));
    let a = mgr.manage_u128(u128::MIN);
    let b = mgr.manage_u128(u128::MAX);
    assert_eq!(2, mgr.count(Kind::U128));
    assert_eq!(0, mgr.count(Kind::OptionU128));
    assert_eq!(u128::MIN, mgr.get_u128(a));
    assert_eq!(u128::MAX, mgr.get_u128(b));
    mgr.save_state();
    assert_eq!(u128::MIN + 1, mgr.increment_u128(a));
    assert_eq!(u128::MAX - 1, mgr.decrement_u128(b));
    let c = mgr.manage_u128(1);
    assert_eq!(2, c.index());
    assert_eq!(3, mgr.count(Kind::U128));
    assert_eq!(2, mgr.trail_len());
    mgr.restore_state();
    assert_eq!(2, mgr.count(Kind::U128));
    assert_eq!(u128::MIN, mgr.get_u128(a));
    assert_eq!(u128::MAX, mgr.get_u128(b));
}

#[test]
fn set_and_restore_u128() {
    let mut mgr = StateManager::default();
    let n = mgr.manage_u128(10 as u128);
    assert_eq!(10 as u128, mgr.get_u128(n));

    mgr.save_state();

    let x = mgr.set_u128(n, 20 as u128);
    assert_eq!(20 as u128, x);
    assert_eq!(20 as u128, mgr.get_u128(n));

    let x = mgr.set_u128(n, 23 as u128);
    assert_eq!(23 as u128, x);
    assert_eq!(23 as u128, mgr.get_u128(n));

    mgr.restore_state();

    assert_eq!(10 as u128, mgr.get_u128(n));

    let x = mgr.set_u128(n, 42 as u128);
    assert_eq!(42 as u128, x);
    assert_eq!(42 as u128, mgr.get_u128(n));

    mgr.save_state();

    let x = mgr.set_u128(n, 12 as u128);
    assert_eq!(12 as u128, x);
    assert_eq!(12 as u128, mgr.get_u128(n));

    mgr.save_state();

    let x = mgr.set_u128(n, 12 as u128);
    assert_eq!(12 as u128, x);
    assert_eq!(12 as u128, mgr.get_u128(n));

    mgr.save_state();

    mgr.restore_state();
    assert_eq!(12 as u128, mgr.get_u128(n));

    mgr.restore_state();
    assert_eq!(12 as u128, mgr.get_u128(n));

    mgr.restore_state();
    assert_eq!(42 as u128, mgr.get_u128(n));
}

#[test]
fn test_increment_u128() {
    let mut mgr = StateManager::default();
    let n = mgr.manage_u128(30 as u128);
    assert_eq!(30 as u128, mgr.get_u128(n));

    mgr.save_state();

    for i in 0..10 {
        let x = mgr.increment_u128(n);
        assert_eq!((30 + i + 1) as u128, x);
        assert_eq!((30 + i + 1) as u128, mgr.get_u128(n));
    }

    mgr.restore_state();
    assert_eq!(30 as u128, mgr.get_u128(n));

    mgr.save_state();

    for i in 0..10 {
        let x = mgr.decrement_u128(n);
        assert_eq!((30 - i - 1) as u128, x);
        assert_eq!((30 - i - 1) as u128, mgr.get_u128(n));
    }

    mgr.restore_state();
    assert_eq!(30 as u128, mgr.get_u128(n));
}

#[test]
fn manager_return_values_usize() {
    let mut mgr = StateManager::default();
    let values: Vec<ReversibleUsize> = (0..10).map(|i| mgr.manage_usize(i as usize)).collect();
    for i in 0..10 {
        assert_eq!(i, values[i].index());
        let x = mgr.set_usize(values[i], i as usize + 1 as usize);
        assert_eq!(i as usize + 1 as usize, x);
        assert_eq!(x + 1 as usize, mgr.increment_usize(values[i]));
        assert_eq!(x, mgr.decrement_usize(values[i]));
    }
}

#[test]
fn count_usize() {
    let mut mgr = StateManager::default();
    assert_eq!(0, mgr.count(Kind::Usize));
    let a = mgr.manage_usize(usize::MIN);
    let b = mgr.manage_usize(usize::MAX);
    assert_eq!(2, mgr.count(Kind::Usize));
    assert_eq!(0, mgr.count(Kind::OptionUsize));
    assert_eq!(usize::MIN, mgr.get_usize(a));
    assert_eq!(usize::MAX, mgr.get_usize(b));
    mgr.save_state();
    assert_eq!(usize::MIN + 1, mgr.increment_usize(a));
    assert_eq!(usize::MAX - 1, mgr.decrement_usize(b));
    let c = mgr.manage_usize(1);
    assert_eq!(2, c.index());
    assert_eq!(3, mgr.count(Kind::Usize));
    assert_eq!(2, mgr.trail_len());
    mgr.restore_state();
    assert_eq!(2, mgr.count(Kind::Usize));
    assert_eq!(usize::MIN, mgr.get_usize(a));
    assert_eq!(usize::MAX, mgr.get_usize(b));
}

#[test]
fn set_and_restore_usize() {
    let mut mgr = StateManager::default();
    let n = mgr.manage_usize(10 as usize);
    assert_eq!(10 as usize, mgr.get_usize(n));

    mgr.save_state();

    let x = mgr.set_usize(n, 20 as usize);
    assert_eq!(20 as usize, x);
    assert_eq!(20 as usize, mgr.get_usize(n));

    let x = mgr.set_usize(n, 23 as usize);
    assert_eq!(23 as usize, x);
    assert_eq!(23 as usize, mgr.get_usize(n));

    mgr.restore_state();

    assert_eq!(10 as usize, mgr.get_usize(n));

    let x = mgr.set_usize(n, 42 as usize);
    assert_eq!(42 as usize, x);
    assert_eq!(42 as usize, mgr.get_usize(n));

    mgr.save_state();

    let x = mgr.set_usize(n, 12 as usize);
    assert_eq!(12 as usize, x);
    assert_eq!(12 as usize, mgr.get_usize(n));

    mgr.save_state();

    let x = mgr.set_usize(n, 12 as usize);
    assert_eq!(12 as usize, x);
    assert_eq!(12 as usize, mgr.get_usize(n));

    mgr.save_state();

    mgr.restore_state();
    assert_eq!(12 as usize, mgr.get_usize(n));

    mgr.restore_state();
    assert_eq!(12 as usize, mgr.get_usize(n));

    mgr.restore_state();
    assert_eq!(42 as usize, mgr.get_usize(n));
}

#[test]
fn test_increment_usize() {
    let mut mgr = StateManager::default();
    let n = mgr.manage_usize(30 as usize);
    assert_eq!(30 as usize, mgr.get_usize(n));

    mgr.save_state();

    for i in 0..10 {
        let x = mgr.increment_usize(n);
        assert_eq!((30 + i + 1) as usize, x);
        assert_eq!((30 + i + 1) as usize, mgr.get_usize(n));
    }

    mgr.restore_state();
    assert_eq!(30 as usize, mgr.get_usize(n));

    mgr.save_state();

    for i in 0..10 {
        let x = mgr.decrement_usize(n);
        assert_eq!((30 - i - 1) as usize, x);
        assert_eq!((30 - i - 1) as usize, mgr.get_usize(n));
    }

    mgr.restore_state();
    assert_eq!(30 as usize, mgr.get_usize(n));
}

#[test]
fn manager_return_values_i8() {
    let mut mgr = StateManager::default();
    let values: Vec<ReversibleI8> = (0..10).map(|i| mgr.manage_i8(i as i8)).collect();
    for i in 0..10 {
        assert_eq!(i, values[i].index());
        let x = mgr.set_i8(values[i], i as i8 + 1 as i8);
        assert_eq!(i as i8 + 1 as i8, x);
        assert_eq!(x + 1 as i8, mgr.increment_i8(values[i]));
        assert_eq!(x, mgr.decrement_i8(values[i]));
    }
}

#[test]
fn count_i8() {
    let mut mgr = StateManager::default();
    assert_eq!(0, mgr.count(Kind::I8));
    let a = mgr.manage_i8(i8::MIN);
    let b = mgr.manage_i8(i8::MAX);
    assert_eq!(2, mgr.count(Kind::I8));
    assert_eq!(0, mgr.count(Kind::OptionI8));
    assert_eq!(i8::MIN, mgr.get_i8(a));
    assert_eq!(i8::MAX, mgr.get_i8(b));
    mgr.save_state();
    assert_eq!(i8::MIN + 1, mgr.increment_i8(a));
    assert_eq!(i8::MAX - 1, mgr.decrement_i8(b));
    let c = mgr.manage_i8(1);
    assert_eq!(2, c.index());
    assert_eq!(3, mgr.count(Kind::I8));
    assert_eq!(2, mgr.trail_len());
    mgr.restore_state();
    assert_eq!(2, mgr.count(Kind::I8));
    assert_eq!(i8::MIN, mgr.get_i8(a));
    assert_eq!(i8::MAX, mgr.get_i8(b));
}

#[test]
fn set_and_restore_i8() {
    let mut mgr = StateManager::default();
    let n = mgr.manage_i8(10 as i8);
    assert_eq!(10 as i8, mgr.get_i8(n));

    mgr.save_state();

    let x = mgr.set_i8(n, 20 as i8);
    assert_eq!(20 as i8, x);
    assert_eq!(20 as i8, mgr.get_i8(n));

    let x = mgr.set_i8(n, 23 as i8);
    assert_eq!(23 as i8, x);
    assert_eq!(23 as i8, mgr.get_i8(n));

    mgr.restore_state();

    assert_eq!(10 as i8, mgr.get_i8(n));

    let x = mgr.set_i8(n, 42 as i8);
    assert_eq!(42 as i8, x);
    assert_eq!(42 as i8, mgr.get_i8(n));

    mgr.save_state();

    let x = mgr.set_i8(n, 12 as i8);
    assert_eq!(12 as i8, x);
    assert_eq!(12 as i8, mgr.get_i8(n));

    mgr.save_state();

    let x = mgr.set_i8(n, 12 as i8);
    assert_eq!(12 as i8, x);
    assert_eq!(12 as i8, mgr.get_i8(n));

    mgr.save_state();

    mgr.restore_state();
    assert_eq!(12 as i8, mgr.get_i8(n));

    mgr.restore_state();
    assert_eq!(12 as i8, mgr.get_i8(n));

    mgr.restore_state();
    assert_eq!(42 as i8, mgr.get_i8(n));
}

#[test]
fn test_increment_i8() {
    let mut mgr = StateManager::default();
    let n = mgr.manage_i8(30 as i8);
    assert_eq!(30 as i8, mgr.get_i8(n));

    mgr.save_state();

    for i in 0..10 {
        let x = mgr.increment_i8(n);
        assert_eq!((30 + i + 1) as i8, x);
        assert_eq!((30 + i + 1) as i8, mgr.get_i8(n));
    }

    mgr.restore_state();
    assert_eq!(30 as i8, mgr.get_i8(n));

    mgr.save_state();

    for i in 0..10 {
        let x = mgr.decrement_i8(n);
        assert_eq!((30 - i - 1) as i8, x);
        assert_eq!((30 - i - 1) as i8, mgr.get_i8(n));
    }

    mgr.restore_state();
    assert_eq!(30 as i8, mgr.get_i8(n));
}

#[test]
fn manager_return_values_i16() {
    let mut mgr = StateManager::default();
    let values: Vec<ReversibleI16> = (0..10).map(|i| mgr.manage_i16(i as i16)).collect();
    for i in 0..10 {
        assert_eq!(i, values[i].index());
        let x = mgr.set_i16(values[i], i as i16 + 1 as i16);
        assert_eq!(i as i16 + 1 as i16, x);
        assert_eq!(x + 1 as i16, mgr.increment_i16(values[i]));
        assert_eq!(x, mgr.decrement_i16(values[i]));
    }
}

#[test]
fn count_i16() {
    let mut mgr = StateManager::default();
    assert_eq!(0, mgr.count(Kind::I16));
    let a = mgr.manage_i16(i16::MIN);
    let b = mgr.manage_i16(i16::MAX);
    assert_eq!(2, mgr.count(Kind::I16));
    assert_eq!(0, mgr.count(Kind::OptionI16));
    assert_eq!(i16::MIN, mgr.get_i16(a));
    assert_eq!(i16::MAX, mgr.get_i16(b));
    mgr.save_state();
    assert_eq!(i16::MIN + 1, mgr.increment_i16(a));
    assert_eq!(i16::MAX - 1, mgr.decrement_i16(b));
    let c = mgr.manage_i16(1);
    assert_eq!(2, c.index());
    assert_eq!(3, mgr.count(Kind::I16));
    assert_eq!(2, mgr.trail_len());
    mgr.restore_state();
    assert_eq!(2, mgr.count(Kind::I16));
    assert_eq!(i16::MIN, mgr.get_i16(a));
    assert_eq!(i16::MAX, mgr.get_i16(b));
}

#[test]
fn set_and_restore_i16() {
    let mut mgr = StateManager::default();
    let n = mgr.manage_i16(10 as i16);
    assert_eq!(10 as i16, mgr.get_i16(n));

    mgr.save_state();

    let x = mgr.set_i16(n, 20 as i16);
    assert_eq!(20 as i16, x);
    assert_eq!(20 as i16, mgr.get_i16(n));

    let x = mgr.set_i16(n, 23 as i16);
    assert_eq!(23 as i16, x);
    assert_eq!(23 as i16, mgr.get_i16(n));

    mgr.restore_state();

    assert_eq!(10 as i16, mgr.get_i16(n));

    let x = mgr.set_i16(n, 42 as i16);
    assert_eq!(42 as i16, x);
    assert_eq!(42 as i16, mgr.get_i16(n));

    mgr.save_state();

    let x = mgr.set_i16(n, 12 as i16);
    assert_eq!(12 as i16, x);
    assert_eq!(12 as i16, mgr.get_i16(n));

    mgr.save_state();

    let x = mgr.set_i16(n, 12 as i16);
    assert_eq!(12 as i16, x);
    assert_eq!(12 as i16, mgr.get_i16(n));

    mgr.save_state();

    mgr.restore_state();
    assert_eq!(12 as i16, mgr.get_i16(n));

    mgr.restore_state();
    assert_eq!(12 as i16, mgr.get_i16(n));

    mgr.restore_state();
    assert_eq!(42 as i16, mgr.get_i16(n));
}

#[test]
fn test_increment_i16() {
    let mut mgr = StateManager::default();
    let n = mgr.manage_i16(30 as i16);
    assert_eq!(30 as i16, mgr.get_i16(n));

    mgr.save_state();

    for i in 0..10 {
        let x = mgr.increment_i16(n);
        assert_eq!((30 + i + 1) as i16, x);
        assert_eq!((30 + i + 1) as i16, mgr.get_i16(n));
    }

    mgr.restore_state();
    assert_eq!(30 as i16, mgr.get_i16(n));

    mgr.save_state();

    for i in 0..10 {
        let x = mgr.decrement_i16(n);
        assert_eq!((30 - i - 1) as i16, x);
        assert_eq!((30 - i - 1) as i16, mgr.get_i16(n));
    }

    mgr.restore_state();
    assert_eq!(30 as i16, mgr.get_i16(n));
}

#[test]
fn manager_return_values_i32() {
    let mut mgr = StateManager::default();
    let values: Vec<ReversibleI32> = (0..10).map(|i| mgr.manage_i32(i as i32)).collect();
    for i in 0..10 {
        assert_eq!(i, values[i].index());
        let x = mgr.set_i32(values[i], i as i32 + 1 as i32);
        assert_eq!(i as i32 + 1 as i32, x);
        assert_eq!(x + 1 as i32, mgr.increment_i32(values[i]));
        assert_eq!(x, mgr.decrement_i32(values[i]));
    }
}

#[test]
fn count_i32() {
    let mut mgr = StateManager::default();
    assert_eq!(0, mgr.count(Kind::I32));
    let a = mgr.manage_i32(i32::MIN);
    let b = mgr.manage_i32(i32::MAX);
    assert_eq!(2, mgr.count(Kind::I32));
    assert_eq!(0, mgr.count(Kind::OptionI32));
    assert_eq!(i32::MIN, mgr.get_i32(a));
    assert_eq!(i32::MAX, mgr.get_i32(b));
    mgr.save_state();
    assert_eq!(i32::MIN + 1, mgr.increment_i32(a));
    assert_eq!(i32::MAX - 1, mgr.decrement_i32(b));
    let c = mgr.manage_i32(1);
    assert_eq!(2, c.index());
    assert_eq!(3, mgr.count(Kind::I32));
    assert_eq!(2, mgr.trail_len());
    mgr.restore_state();
    assert_eq!(2, mgr.count(Kind::I32));
    assert_eq!(i32::MIN, mgr.get_i32(a));
    assert_eq!(i32::MAX, mgr.get_i32(b));
}

#[test]
fn set_and_restore_i32() {
    let mut mgr = StateManager::default();
    let n = mgr.manage_i32(10 as i32);
    assert_eq!(10 as i32, mgr.get_i32(n));

    mgr.save_state();

    let x = mgr.set_i32(n, 20 as i32);
    assert_eq!(20 as i32, x);
    assert_eq!(20 as i32, mgr.get_i32(n));

    let x = mgr.set_i32(n, 23 as i32);
    assert_eq!(23 as i32, x);
    assert_eq!(23 as i32, mgr.get_i32(n));

    mgr.restore_state();

    assert_eq!(10 as i32, mgr.get_i32(n));

    let x = mgr.set_i32(n, 42 as i32);
    assert_eq!(42 as i32, x);
    assert_eq!(42 as i32, mgr.get_i32(n));

    mgr.save_state();

    let x = mgr.set_i32(n, 12 as i32);
    assert_eq!(12 as i32, x);
    assert_eq!(12 as i32, mgr.get_i32(n));

    mgr.save_state();

    let x = mgr.set_i32(n, 12 as i32);
    assert_eq!(12 as i32, x);
    assert_eq!(12 as i32, mgr.get_i32(n));

    mgr.save_state();

    mgr.restore_state();
    assert_eq!(12 as i32, mgr.get_i32(n));

    mgr.restore_state();
    assert_eq!(12 as i32, mgr.get_i32(n));

    mgr.restore_state();
    assert_eq!(42 as i32, mgr.get_i32(n));
}

#[test]
fn test_increment_i32() {
    let mut mgr = StateManager::default();
    let n = mgr.manage_i32(30 as i32);
    assert_eq!(30 as i32, mgr.get_i32(n));

    mgr.save_state();

    for i in 0..10 {
        let x = mgr.increment_i32(n);
        assert_eq!((30 + i + 1) as i32, x);
        assert_eq!((30 + i + 1) as i32, mgr.get_i32(n));
    }

    mgr.restore_state();
    assert_eq!(30 as i32, mgr.get_i32(n));

    mgr.save_state();

    for i in 0..10 {
        let x = mgr.decrement_i32(n);
        assert_eq!((30 - i - 1) as i32, x);
        assert_eq!((30 - i - 1) as i32, mgr.get_i32(n));
    }

    mgr.restore_state();
    assert_eq!(30 as i32, mgr.get_i32(n));
}

#[test]
fn manager_return_values_i64() {
    let mut mgr = StateManager::default();
    let values: Vec<ReversibleI64> = (0..10).map(|i| mgr.manage_i64(i as i64)).collect();
    for i in 0..10 {
        assert_eq!(i, values[i].index());
        let x = mgr.set_i64(values[i], i as i64 + 1 as i64);
        assert_eq!(i as i64 + 1 as i64, x);
        assert_eq!(x + 1 as i64, mgr.increment_i64(values[i]));
        assert_eq!(x, mgr.decrement_i64(values[i]));
    }
}

#[test]
fn count_i64() {
    let mut mgr = StateManager::default();
    assert_eq!(0, mgr.count(Kind::I64));
    let a = mgr.manage_i64(i64::MIN);
    let b = mgr.manage_i64(i64::MAX);
    assert_eq!(2, mgr.count(Kind::I64));
    assert_eq!(0, mgr.count(Kind::OptionI64));
    assert_eq!(i64::MIN, mgr.get_i64(a));
    assert_eq!(i64::MAX, mgr.get_i64(b));
    mgr.save_state();
    assert_eq!(i64::MIN + 1, mgr.increment_i64(a));
    assert_eq!(i64::MAX - 1, mgr.decrement_i64(b));
    let c = mgr.manage_i64(1);
    assert_eq!(2, c.index());
    assert_eq!(3, mgr.count(Kind::I64));
    assert_eq!(2, mgr.trail_len());
    mgr.restore_state();
    assert_eq!(2, mgr.count(Kind::I64));
    assert_eq!(i64::MIN, mgr.get_i64(a));
    assert_eq!(i64::MAX, mgr.get_i64(b));
}

#[test]
fn set_and_restore_i64() {
    let mut mgr = StateManager::default();
    let n = mgr.manage_i64(10 as i64);
    assert_eq!(10 as i64, mgr.get_i64(n));

    mgr.save_state();

    let x = mgr.set_i64(n, 20 as i64);
    assert_eq!(20 as i64, x);
    assert_eq!(20 as i64, mgr.get_i64(n));

    let x = mgr.set_i64(n, 23 as i64);
    assert_eq!(23 as i64, x);
    assert_eq!(23 as i64, mgr.get_i64(n));

    mgr.restore_state();

    assert_eq!(10 as i64, mgr.get_i64(n));

    let x = mgr.set_i64(n, 42 as i64);
    assert_eq!(42 as i64, x);
    assert_eq!(42 as i64, mgr.get_i64(n));

    mgr.save_state();

    let x = mgr.set_i64(n, 12 as i64);
    assert_eq!(12 as i64, x);
    assert_eq!(12 as i64, mgr.get_i64(n));

    mgr.save_state();

    let x = mgr.set_i64(n, 12 as i64);
    assert_eq!(12 as i64, x);
    assert_eq!(12 as i64, mgr.get_i64(n));

    mgr.save_state();

    mgr.restore_state();
    assert_eq!(12 as i64, mgr.get_i64(n));

    mgr.restore_state();
    assert_eq!(12 as i64, mgr.get_i64(n));

    mgr.restore_state();
    assert_eq!(42 as i64, mgr.get_i64(n));
}

#[test]
fn test_increment_i64() {
    let mut mgr = StateManager::default();
    let n = mgr.manage_i64(30 as i64);
    assert_eq!(30 as i64, mgr.get_i64(n));

    mgr.save_state();

    for i in 0..10 {
        let x = mgr.increment_i64(n);
        assert_eq!((30 + i + 1) as i64, x);
        assert_eq!((30 + i + 1) as i64, mgr.get_i64(n));
    }

    mgr.restore_state();
    assert_eq!(30 as i64, mgr.get_i64(n));

    mgr.save_state();

    for i in 0..10 {
        let x = mgr.decrement_i64(n);
        assert_eq!((30 - i - 1) as i64, x);
        assert_eq!((30 - i - 1) as i64, mgr.get_i64(n));
    }

    mgr.restore_state();
    assert_eq!(30 as i64, mgr.get_i64(n));
}

#[test]
fn manager_return_values_i128() {
    let mut mgr = StateManager::default();
    let values: Vec<ReversibleI128> = (0..10).map(|i| mgr.manage_i128(i as i128)).collect();
    for i in 0..10 {
        assert_eq!(i, values[i].index());
        let x = mgr.set_i128(values[i], i as i128 + 1 as i128);
        assert_eq!(i as i128 + 1 as i128, x);
        assert_eq!(x + 1 as i128, mgr.increment_i128(values[i]));
        assert_eq!(x, mgr.decrement_i128(values[i]));
    }
}

#[test]
fn count_i128() {
    let mut mgr = StateManager::default();
    assert_eq!(0, mgr.count(Kind::I128));
    let a = mgr.manage_i128(i128::MIN);
    let b = mgr.manage_i128(i128::MAX);
    assert_eq!(2, mgr.count(Kind::I128));
    assert_eq!(0, mgr.count(Kind::OptionI128));
    assert_eq!(i128::MIN, mgr.get_i128(a));
    assert_eq!(i128::MAX, mgr.get_i128(b));
    mgr.save_state();
    assert_eq!(i128::MIN + 1, mgr.increment_i128(a));
    assert_eq!(i128::MAX - 1, mgr.decrement_i128(b));
    let c = mgr.manage_i128(1);
    assert_eq!(2, c.index());
    assert_eq!(3, mgr.count(Kind::I128));
    assert_eq!(2, mgr.trail_len());
    mgr.restore_state();
    assert_eq!(2, mgr.count(Kind::I128));
    assert_eq!(i128::MIN, mgr.get_i128(a));
    assert_eq!(i128::MAX, mgr.get_i128(b));
}

#[test]
fn set_and_restore_i128() {
    let mut mgr = StateManager::default();
    let n = mgr.manage_i128(10 as i128);
    assert_eq!(10 as i128, mgr.get_i128(n));

    mgr.save_state();

    let x = mgr.set_i128(n, 20 as i128);
    assert_eq!(20 as i128, x);
    assert_eq!(20 as i128, mgr.get_i128(n));

    let x = mgr.set_i128(n, 23 as i128);
    assert_eq!(23 as i128, x);
    assert_eq!(23 as i128, mgr.get_i128(n));

    mgr.restore_state();

    assert_eq!(10 as i128, mgr.get_i128(n));

    let x = mgr.set_i128(n, 42 as i128);
    assert_eq!(42 as i128, x);
    assert_eq!(42 as i128, mgr.get_i128(n));

    mgr.save_state();

    let x = mgr.set_i128(n, 12 as i128);
    assert_eq!(12 as i128, x);
    assert_eq!(12 as i128, mgr.get_i128(n));

    mgr.save_state();

    let x = mgr.set_i128(n, 12 as i128);
    assert_eq!(12 as i128, x);
    assert_eq!(12 as i128, mgr.get_i128(n));

    mgr.save_state();

    mgr.restore_state();
    assert_eq!(12 as i128, mgr.get_i128(n));

    mgr.restore_state();
    assert_eq!(12 as i128, mgr.get_i128(n));

    mgr.restore_state();
    assert_eq!(42 as i128, mgr.get_i128(n));
}

#[test]
fn test_increment_i128() {
    let mut mgr = StateManager::default();
    let n = mgr.manage_i128(30 as i128);
    assert_eq!(30 as i128, mgr.get_i128(n));

    mgr.save_state();

    for i in 0..10 {
        let x = mgr.increment_i128(n);
        assert_eq!((30 + i + 1) as i128, x);
        assert_eq!((30 + i + 1) as i128, mgr.get_i128(n));
    }

    mgr.restore_state();
    assert_eq!(30 as i128, mgr.get_i128(n));

    mgr.save_state();

    for i in 0..10 {
        let x = mgr.decrement_i128(n);
        assert_eq!((30 - i - 1) as i128, x);
        assert_eq!((30 - i - 1) as i128, mgr.get_i128(n));
    }

    mgr.restore_state();
    assert_eq!(30 as i128, mgr.get_i128(n));
}

#[test]
fn manager_return_values_isize() {
    let mut mgr = StateManager::default();
    let values: Vec<ReversibleIsize> = (0..10).map(|i| mgr.manage_isize(i as isize)).collect();
    for i in 0..10 {
        assert_eq!(i, values[i].index());
        let x = mgr.set_isize(values[i], i as isize + 1 as isize);
        assert_eq!(i as isize + 1 as isize, x);
        assert_eq!(x + 1 as isize, mgr.increment_isize(values[i]));
        assert_eq!(x, mgr.decrement_isize(values[i]));
    }
}

#[test]
fn count_isize() {
    let mut mgr = StateManager::default();
    assert_eq!(0, mgr.count(Kind::Isize));
    let a = mgr.manage_isize(isize::MIN);
    let b = mgr.manage_isize(isize::MAX);
    assert_eq!(2, mgr.count(Kind::Isize));
    assert_eq!(0, mgr.count(Kind::OptionIsize));
    assert_eq!(isize::MIN, mgr.get_isize(a));
    assert_eq!(isize::MAX, mgr.get_isize(b));
    mgr.save_state();
    assert_eq!(isize::MIN + 1, mgr.increment_isize(a));
    assert_eq!(isize::MAX - 1, mgr.decrement_isize(b));
    let c = mgr.manage_isize(1);
    assert_eq!(2, c.index());
    assert_eq!(3, mgr.count(Kind::Isize));
    assert_eq!(2, mgr.trail_len());
    mgr.restore_state();
    assert_eq!(2, mgr.count(Kind::Isize));
    assert_eq!(isize::MIN, mgr.get_isize(a));
    assert_eq!(isize::MAX, mgr.get_isize(b));
}

#[test]
fn set_and_restore_isize() {
    let mut mgr = StateManager::default();
    let n = mgr.manage_isize(10 as isize);
    assert_eq!(10 as isize, mgr.get_isize(n));

    mgr.save_state();

    let x = mgr.set_isize(n, 20 as isize);
    assert_eq!(20 as isize, x);
    assert_eq!(20 as isize, mgr.get_isize(n));

    let x = mgr.set_isize(n, 23 as isize);
    assert_eq!(23 as isize, x);
    assert_eq!(23 as isize, mgr.get_isize(n));

    mgr.restore_state();

    assert_eq!(10 as isize, mgr.get_isize(n));

    let x = mgr.set_isize(n, 42 as isize);
    assert_eq!(42 as isize, x);
    assert_eq!(42 as isize, mgr.get_isize(n));

    mgr.save_state();

    let x = mgr.set_isize(n, 12 as isize);
    assert_eq!(12 as isize, x);
    assert_eq!(12 as isize, mgr.get_isize(n));

    mgr.save_state();

    let x = mgr.set_isize(n, 12 as isize);
    assert_eq!(12 as isize, x);
    assert_eq!(12 as isize, mgr.get_isize(n));

    mgr.save_state();

    mgr.restore_state();
    assert_eq!(12 as isize, mgr.get_isize(n));

    mgr.restore_state();
    assert_eq!(12 as isize, mgr.get_isize(n));

    mgr.restore_state();
    assert_eq!(42 as isize, mgr.get_isize(n));
}

#[test]
fn test_increment_isize() {
    let mut mgr = StateManager::default();
    let n = mgr.manage_isize(30 as isize);
    assert_eq!(30 as isize, mgr.get_isize(n));

    mgr.save_state();

    for i in 0..10 {
        let x = mgr.increment_isize(n);
        assert_eq!((30 + i + 1) as isize, x);
        assert_eq!((30 + i + 1) as isize, mgr.get_isize(n));
    }

    mgr.restore_state();
    assert_eq!(30 as isize, mgr.get_isize(n));

    mgr.save_state();

    for i in 0..10 {
        let x = mgr.decrement_isize(n);
        assert_eq!((30 - i - 1) as isize, x);
        assert_eq!((30 - i - 1) as isize, mgr.get_isize(n));
    }

    mgr.restore_state();
    assert_eq!(30 as isize, mgr.get_isize(n));
}
