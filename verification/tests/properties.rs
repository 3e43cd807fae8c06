use search_trail::{
    I32Manager, Kind, OptionU16Manager, SaveAndRestore, StateManager, U64Manager,
};

#[test]
fn a_read_after_a_write_gives_the_value_written() {
    let mut mgr = StateManager::default();
    let a = mgr.manage_i32(-1);
    let b = mgr.manage_i32(7);
    for value in [0, 5, 5, -9, i32::MAX, i32::MIN] {
        assert_eq!(value, mgr.set_i32(a, value));
        assert_eq!(value, mgr.get_i32(a));
        assert_eq!(7, mgr.get_i32(b));
    }
    mgr.save_state();
    for value in [3, 3, 4] {
        assert_eq!(value, mgr.set_i32(a, value));
        assert_eq!(value, mgr.get_i32(a));
        assert_eq!(7, mgr.get_i32(b));
    }
}

#[test]
fn snapshots_nest_like_a_stack() {
    let mut mgr = StateManager::default();
    let a = mgr.manage_u64(5);

    mgr.save_state();
    mgr.set_u64(a, 11);
    mgr.save_state();
    mgr.set_u64(a, 12);

    mgr.restore_state();
    assert_eq!(11, mgr.get_u64(a));
    assert_eq!(1, mgr.depth());

    mgr.restore_state();
    assert_eq!(5, mgr.get_u64(a));
    assert_eq!(0, mgr.depth());
}

#[test]
fn writing_the_current_value_logs_nothing() {
    let mut mgr = StateManager::default();
    let a = mgr.manage_u64(5);
    let b = mgr.manage_option_u16(None);

    mgr.save_state();
    assert_eq!(5, mgr.set_u64(a, 5));
    assert_eq!(None, mgr.set_option_u16(b, None));
    assert_eq!(0, mgr.trail_len());

    mgr.set_u64(a, 6);
    assert_eq!(1, mgr.trail_len());

    mgr.save_state();
    assert_eq!(6, mgr.set_u64(a, 6));
    assert_eq!(1, mgr.trail_len());
    assert_eq!(6, mgr.get_u64(a));
}

#[test]
fn an_epoch_logs_a_cell_once() {
    let mut mgr = StateManager::default();
    let a = mgr.manage_u64(0);
    let b = mgr.manage_u64(0);

    // Nothing has been saved: nothing is logged.
    for value in 1..50 {
        mgr.set_u64(a, value);
    }
    assert_eq!(0, mgr.trail_len());

    mgr.save_state();
    for value in 100..150 {
        mgr.set_u64(a, value);
        assert_eq!(1, mgr.trail_len());
    }
    for value in 100..150 {
        mgr.set_u64(b, value);
        assert_eq!(2, mgr.trail_len());
    }

    mgr.save_state();
    for value in 200..250 {
        mgr.set_u64(a, value);
        assert_eq!(3, mgr.trail_len());
    }

    mgr.restore_state();
    assert_eq!(2, mgr.trail_len());
    assert_eq!(149, mgr.get_u64(a));
    mgr.restore_state();
    assert_eq!(0, mgr.trail_len());
    assert_eq!(49, mgr.get_u64(a));
    assert_eq!(0, mgr.get_u64(b));
}

#[test]
fn decrement_undoes_increment() {
    let mut mgr = StateManager::default();
    let a = mgr.manage_i32(-1);
    let b = mgr.manage_option_u16(Some(41));

    assert_eq!(0, mgr.increment_i32(a));
    assert_eq!(-1, mgr.decrement_i32(a));
    assert_eq!(-1, mgr.get_i32(a));

    assert_eq!(42, mgr.increment_option_u16(b));
    assert_eq!(41, mgr.decrement_option_u16(b));
    assert_eq!(Some(41), mgr.get_option_u16(b));

    mgr.save_state();
    assert_eq!(-2, mgr.decrement_i32(a));
    assert_eq!(-1, mgr.increment_i32(a));
    assert_eq!(-1, mgr.get_i32(a));
    mgr.restore_state();
    assert_eq!(-1, mgr.get_i32(a));
}

#[test]
fn a_restore_retracts_the_cells_created_since() {
    let mut mgr = StateManager::default();
    let a = mgr.manage_i32(1);
    assert_eq!(1, mgr.count(Kind::I32));

    mgr.save_state();
    let b = mgr.manage_i32(2);
    let c = mgr.manage_option_u16(Some(3));
    mgr.set_i32(b, 20);
    mgr.set_i32(a, 10);
    assert_eq!(2, mgr.count(Kind::I32));
    assert_eq!(1, mgr.count(Kind::OptionU16));
    assert!(b.index() < mgr.count(Kind::I32));

    mgr.save_state();
    let d = mgr.manage_i32(4);
    assert_eq!(3, mgr.count(Kind::I32));
    mgr.restore_state();
    assert_eq!(2, mgr.count(Kind::I32));
    assert!(d.index() >= mgr.count(Kind::I32));
    assert_eq!(20, mgr.get_i32(b));

    mgr.restore_state();
    // The indices handed out since the state was saved address nothing.
    assert_eq!(1, mgr.count(Kind::I32));
    assert_eq!(0, mgr.count(Kind::OptionU16));
    assert!(b.index() >= mgr.count(Kind::I32));
    assert!(c.index() >= mgr.count(Kind::OptionU16));
    assert_eq!(1, mgr.get_i32(a));
    assert_eq!(0, mgr.trail_len());

    // The positions are handed out again.
    let e = mgr.manage_i32(5);
    assert_eq!(b.index(), e.index());
    assert_eq!(5, mgr.get_i32(e));
}

#[test]
fn a_cell_created_in_an_epoch_is_not_logged_in_it() {
    let mut mgr = StateManager::default();
    mgr.save_state();
    let a = mgr.manage_u64(1);
    mgr.set_u64(a, 2);
    mgr.set_u64(a, 3);
    assert_eq!(0, mgr.trail_len());

    mgr.save_state();
    mgr.set_u64(a, 4);
    assert_eq!(1, mgr.trail_len());
    mgr.restore_state();
    assert_eq!(3, mgr.get_u64(a));
    assert_eq!(0, mgr.trail_len());
}

#[test]
fn the_clock_follows_the_depth() {
    let mut mgr = StateManager::default();
    let a = mgr.manage_u64(0);
    mgr.save_state();
    mgr.save_state();
    mgr.restore_state();
    // One state is saved: a write in this epoch is logged once more.
    mgr.set_u64(a, 1);
    assert_eq!(1, mgr.trail_len());
    mgr.save_state();
    mgr.set_u64(a, 2);
    assert_eq!(2, mgr.trail_len());
    mgr.restore_state();
    assert_eq!(1, mgr.get_u64(a));
    mgr.restore_state();
    assert_eq!(0, mgr.get_u64(a));
    assert_eq!(0, mgr.depth());
}
