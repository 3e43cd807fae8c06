use search_trail::{
    BoolManager, I64Manager, Kind, OptionI32Manager, OptionU8Manager, SaveAndRestore,
    StateManager, U8Manager, UsizeManager,
};

#[test]
fn nested_states_are_restored_in_turn() {
    let mut mgr = StateManager::default();
    let n = mgr.manage_usize(0);
    assert_eq!(0, mgr.get_usize(n));

    mgr.save_state();

    mgr.set_usize(n, 20);
    assert_eq!(20, mgr.get_usize(n));

    mgr.save_state();

    mgr.set_usize(n, 42);
    assert_eq!(42, mgr.get_usize(n));

    mgr.restore_state();
    assert_eq!(20, mgr.get_usize(n));

    mgr.restore_state();
    assert_eq!(0, mgr.get_usize(n));
}

#[test]
fn a_restored_cell_is_archived_again_in_the_next_epoch() {
    let mut mgr = StateManager::default();
    let n = mgr.manage_usize(10);

    mgr.save_state();
    mgr.set_usize(n, 20);
    mgr.set_usize(n, 23);
    mgr.restore_state();
    assert_eq!(10, mgr.get_usize(n));
    assert_eq!(0, mgr.trail_len());

    mgr.set_usize(n, 42);
    assert_eq!(0, mgr.trail_len());

    mgr.save_state();
    mgr.set_usize(n, 12);
    assert_eq!(1, mgr.trail_len());

    mgr.save_state();
    mgr.set_usize(n, 12);
    assert_eq!(1, mgr.trail_len());

    mgr.save_state();
    assert_eq!(3, mgr.depth());

    mgr.restore_state();
    assert_eq!(12, mgr.get_usize(n));

    mgr.restore_state();
    assert_eq!(12, mgr.get_usize(n));
    assert_eq!(1, mgr.trail_len());

    mgr.restore_state();
    assert_eq!(42, mgr.get_usize(n));
    assert_eq!(0, mgr.trail_len());
    assert_eq!(0, mgr.depth());
}

#[test]
fn one_restore_puts_back_values_of_every_type() {
    let mut mgr = StateManager::default();
    let a = mgr.manage_u8(1);
    let b = mgr.manage_i64(-5);
    let c = mgr.manage_option_i32(None);
    let d = mgr.manage_bool(true);
    let e = mgr.manage_option_u8(Some(7));

    mgr.save_state();

    mgr.set_i64(b, 100);
    mgr.set_u8(a, 2);
    mgr.set_option_i32(c, Some(-3));
    mgr.set_bool(d, false);
    mgr.set_i64(b, 200);
    mgr.set_option_u8(e, None);
    mgr.set_u8(a, 3);
    assert_eq!(5, mgr.trail_len());

    assert_eq!(3, mgr.get_u8(a));
    assert_eq!(200, mgr.get_i64(b));
    assert_eq!(Some(-3), mgr.get_option_i32(c));
    assert!(!mgr.get_bool(d));
    assert_eq!(None, mgr.get_option_u8(e));

    mgr.restore_state();

    assert_eq!(1, mgr.get_u8(a));
    assert_eq!(-5, mgr.get_i64(b));
    assert_eq!(None, mgr.get_option_i32(c));
    assert!(mgr.get_bool(d));
    assert_eq!(Some(7), mgr.get_option_u8(e));
    assert_eq!(0, mgr.trail_len());
}

#[test]
fn values_written_at_several_depths_come_back_level_by_level() {
    let mut mgr = StateManager::default();
    let a = mgr.manage_u8(0);
    let b = mgr.manage_u8(100);

    for depth in 1..=20u8 {
        mgr.save_state();
        mgr.set_u8(a, depth);
        if depth % 2 == 0 {
            mgr.set_u8(b, 100 + depth);
        }
    }
    assert_eq!(20, mgr.depth());
    assert_eq!(30, mgr.trail_len());

    for depth in (1..=20u8).rev() {
        assert_eq!(depth, mgr.get_u8(a));
        assert_eq!(100 + depth - depth % 2, mgr.get_u8(b));
        mgr.restore_state();
    }
    assert_eq!(0, mgr.get_u8(a));
    assert_eq!(100, mgr.get_u8(b));
    assert_eq!(0, mgr.depth());
    assert_eq!(0, mgr.trail_len());
}

#[test]
fn a_new_manager_is_empty() {
    let mgr = StateManager::default();
    assert_eq!(0, mgr.depth());
    assert_eq!(0, mgr.trail_len());
    assert_eq!(0, mgr.count(Kind::U8));
    assert_eq!(0, mgr.count(Kind::Usize));
    assert_eq!(0, mgr.count(Kind::OptionI128));
}

#[test]
fn stores_count_their_own_cells() {
    let mut mgr = StateManager::default();
    let a = mgr.manage_u8(1);
    let b = mgr.manage_i64(2);
    let c = mgr.manage_u8(3);
    let d = mgr.manage_option_u8(Some(4));
    assert_eq!(0, a.index());
    assert_eq!(0, b.index());
    assert_eq!(1, c.index());
    assert_eq!(0, d.index());
    assert_eq!(2, mgr.count(Kind::U8));
    assert_eq!(1, mgr.count(Kind::I64));
    assert_eq!(1, mgr.count(Kind::OptionU8));
    assert_eq!(0, mgr.count(Kind::OptionI64));
    assert_eq!(1, mgr.get_u8(a));
    assert_eq!(3, mgr.get_u8(c));
}

#[test]
fn extreme_values_are_kept() {
    let mut mgr = StateManager::default();
    let a = mgr.manage_u8(u8::MAX);
    let b = mgr.manage_i64(i64::MIN);
    mgr.save_state();
    assert_eq!(u8::MAX - 1, mgr.decrement_u8(a));
    assert_eq!(u8::MAX, mgr.increment_u8(a));
    assert_eq!(i64::MIN + 1, mgr.increment_i64(b));
    mgr.set_i64(b, i64::MAX);
    assert_eq!(i64::MAX, mgr.get_i64(b));
    mgr.restore_state();
    assert_eq!(u8::MAX, mgr.get_u8(a));
    assert_eq!(i64::MIN, mgr.get_i64(b));
}

#[test]
fn a_clone_is_a_manager_of_its_own() {
    let mut mgr = StateManager::default();
    let a = mgr.manage_u8(1);
    mgr.save_state();
    mgr.set_u8(a, 2);

    let mut copy = mgr.clone();
    assert_eq!(2, copy.get_u8(a));
    assert_eq!(1, copy.depth());
    assert_eq!(1, copy.trail_len());

    copy.set_u8(a, 3);
    copy.restore_state();
    assert_eq!(1, copy.get_u8(a));
    assert_eq!(0, copy.depth());

    assert_eq!(2, mgr.get_u8(a));
    assert_eq!(1, mgr.depth());
    mgr.restore_state();
    assert_eq!(1, mgr.get_u8(a));
}

#[test]
fn indices_are_compared_by_position() {
    let mut mgr = StateManager::default();
    let a = mgr.manage_u8(1);
    let b = mgr.manage_u8(1);
    let c = mgr.manage_bool(true);
    let d = mgr.manage_bool(true);
    assert_eq!(a, a);
    assert_ne!(a, b);
    assert_eq!(c, c);
    assert_ne!(c, d);
    let copy = a;
    assert_eq!(copy, a);
    assert_eq!(1, mgr.get_u8(copy));
}
