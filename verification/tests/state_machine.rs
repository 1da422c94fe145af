//! Tests of the keyboard-state lifecycle.

use breadx_keysyms::{KeyboardMapping, KeyboardSetup, KeyboardState};

fn setup_one_key() -> KeyboardSetup {
    KeyboardSetup { min_keycode: 8, max_keycode: 8 }
}

fn mapping_one_key() -> KeyboardMapping {
    KeyboardMapping { keysyms_per_keycode: 2, keysyms: vec![0x0061, 0x0041] }
}

/// Drive one symbol query the way an owner would: wait for the reply
/// only while one is owed, and count the waits.
fn query(state: &mut KeyboardState, setup: &KeyboardSetup, column: u8, waits: &mut u32) -> u32 {
    if state.pending_handle().is_some() {
        *waits += 1;
        state.install(mapping_one_key());
    }
    state.symbol(setup, 8, column).unwrap()
}

#[test]
fn new_state_is_pending_with_its_handle() {
    let state = KeyboardState::new(7);
    assert_eq!(state.pending_handle(), Some(7));
    assert!(state.mapping().is_none());
}

#[test]
fn consecutive_queries_wait_exactly_once() {
    let setup = setup_one_key();
    let mut state = KeyboardState::new(7);
    let mut waits: u32 = 0;

    assert_eq!(query(&mut state, &setup, 0, &mut waits), 0x0061);
    assert_eq!(query(&mut state, &setup, 1, &mut waits), 0x0041);
    assert_eq!(query(&mut state, &setup, 0, &mut waits), 0x0061);

    assert_eq!(waits, 1);
}

#[test]
fn refresh_forces_a_new_wait() {
    let setup = setup_one_key();
    let mut state = KeyboardState::new(7);
    let mut waits: u32 = 0;

    assert_eq!(query(&mut state, &setup, 0, &mut waits), 0x0061);
    assert_eq!(waits, 1);

    // Even though a resolution already happened, a refresh discards it
    // and the next query must wait again.
    state.refresh(9);
    assert_eq!(state.pending_handle(), Some(9));
    assert!(state.mapping().is_none());

    assert_eq!(query(&mut state, &setup, 0, &mut waits), 0x0061);
    assert_eq!(waits, 2);
}

#[test]
fn install_resolves_and_serves_lookups() {
    let setup = setup_one_key();
    let mut state = KeyboardState::new(3);
    state.install(mapping_one_key());
    assert!(state.pending_handle().is_none());
    assert!(state.mapping().is_some());
    assert_eq!(state.symbol(&setup, 8, 1), Ok(0x0041));
}
