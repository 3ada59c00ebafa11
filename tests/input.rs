use fe_engine::input::{InputMap, Key, KeyState};

const K1: Key = Key(1);
const K2: Key = Key(2);

fn jump_map() -> InputMap {
    let mut m = InputMap::new();
    m.register("Jump".to_owned(), K1);
    m
}

#[test]
fn unregistered_key_events_are_ignored() {
    let mut m = jump_map();
    m.press(K2);
    assert_eq!(m.get("Jump"), KeyState::Idle);
    m.release(K2);
    m.acknowledge();
    assert_eq!(m.get("Jump"), KeyState::Idle);

    let mut empty = InputMap::new();
    empty.press(K1);
    empty.release(K1);
    empty.acknowledge();
    assert_eq!(empty.get("Jump"), KeyState::Idle);
}

#[test]
fn press_settles_after_two_acknowledges() {
    let mut m = jump_map();
    m.press(K1);
    m.acknowledge();
    let s = m.get("Jump");
    assert!(s.just_pressed());
    assert!(s.pressed());
    m.acknowledge();
    let s = m.get("Jump");
    assert_eq!(s, KeyState::Held);
    assert!(!s.just_pressed());
    assert!(s.pressed());
}

#[test]
fn release_settles_after_two_acknowledges() {
    let mut m = jump_map();
    m.press(K1);
    m.acknowledge();
    m.acknowledge();
    assert_eq!(m.get("Jump"), KeyState::Held);
    m.release(K1);
    m.acknowledge();
    assert!(m.get("Jump").just_released());
    m.acknowledge();
    assert!(!m.get("Jump").just_released());
    assert_eq!(m.get("Jump"), KeyState::Idle);
}

#[test]
fn register_again_resets_held_key() {
    let mut m = jump_map();
    m.press(K1);
    m.acknowledge();
    m.acknowledge();
    assert_eq!(m.get("Jump"), KeyState::Held);
    m.register("Jump".to_owned(), K1);
    assert_eq!(m.get("Jump"), KeyState::Idle);
}

#[test]
fn register_other_name_resets_shared_key() {
    let mut m = jump_map();
    m.press(K1);
    assert_eq!(m.get("Jump"), KeyState::New);
    m.register("Confirm".to_owned(), K1);
    assert_eq!(m.get("Jump"), KeyState::Idle);
    assert_eq!(m.get("Confirm"), KeyState::Idle);
}

#[test]
fn press_while_held_restarts_two_tick_latch() {
    let mut m = jump_map();
    m.press(K1);
    m.acknowledge();
    m.acknowledge();
    assert_eq!(m.get("Jump"), KeyState::Held);
    m.press(K1);
    assert_eq!(m.get("Jump"), KeyState::New);
    m.acknowledge();
    assert_eq!(m.get("Jump"), KeyState::New);
    m.acknowledge();
    assert_eq!(m.get("Jump"), KeyState::Held);
}

#[test]
fn interrupted_press_carries_latch_into_next_press() {
    let mut m = jump_map();
    m.press(K1);
    m.acknowledge();
    // The press latch is now set; releasing before it settles keeps it set.
    m.release(K1);
    m.acknowledge();
    m.acknowledge();
    assert_eq!(m.get("Jump"), KeyState::Idle);
    m.press(K1);
    assert_eq!(m.get("Jump"), KeyState::New);
    m.acknowledge();
    assert_eq!(m.get("Jump"), KeyState::Held);
}

#[test]
fn press_during_release_restarts_press() {
    let mut m = jump_map();
    m.press(K1);
    m.acknowledge();
    m.acknowledge();
    m.release(K1);
    assert_eq!(m.get("Jump"), KeyState::Released);
    m.press(K1);
    assert_eq!(m.get("Jump"), KeyState::New);
}

#[test]
fn aliases_observe_same_state() {
    let mut m = InputMap::from_pairs(&[("Ui:Confirm", K1), ("Unit:Select", K1), ("Ui:Back", K2)]);
    let both = |m: &InputMap| (m.get("Ui:Confirm"), m.get("Unit:Select"));
    assert_eq!(both(&m), (KeyState::Idle, KeyState::Idle));
    m.press(K1);
    assert_eq!(both(&m), (KeyState::New, KeyState::New));
    m.acknowledge();
    assert_eq!(both(&m), (KeyState::New, KeyState::New));
    m.acknowledge();
    assert_eq!(both(&m), (KeyState::Held, KeyState::Held));
    m.release(K1);
    assert_eq!(both(&m), (KeyState::Released, KeyState::Released));
    m.acknowledge();
    m.acknowledge();
    assert_eq!(both(&m), (KeyState::Idle, KeyState::Idle));
    assert_eq!(m.get("Ui:Back"), KeyState::Idle);
}

#[test]
fn jump_scenario() {
    let mut m = InputMap::from_pairs(&[("Jump", K1)]);
    m.press(K1);
    assert_eq!(m.get("Jump"), KeyState::New);
    m.acknowledge();
    assert_eq!(m.get("Jump"), KeyState::New);
    m.acknowledge();
    assert_eq!(m.get("Jump"), KeyState::Held);
    m.release(K1);
    assert_eq!(m.get("Jump"), KeyState::Released);
    m.acknowledge();
    assert_eq!(m.get("Jump"), KeyState::Released);
    m.acknowledge();
    assert_eq!(m.get("Jump"), KeyState::Idle);
}

#[test]
fn unbound_action_reads_idle() {
    let m = jump_map();
    assert_eq!(m.get("Unbound:Action"), KeyState::Idle);
    assert_eq!(InputMap::new().get("Unbound:Action"), KeyState::Idle);
}

#[test]
fn later_pair_replaces_earlier_binding() {
    let mut m = InputMap::from_pairs(&[("Jump", K1), ("Jump", K2)]);
    m.press(K1);
    assert_eq!(m.get("Jump"), KeyState::Idle);
    m.press(K2);
    assert_eq!(m.get("Jump"), KeyState::New);
}

#[test]
fn acknowledge_without_events_changes_nothing() {
    let mut m = jump_map();
    m.acknowledge();
    m.acknowledge();
    assert_eq!(m.get("Jump"), KeyState::Idle);
    m.press(K1);
    m.acknowledge();
    m.acknowledge();
    m.acknowledge();
    assert_eq!(m.get("Jump"), KeyState::Held);
}

#[test]
fn derived_queries() {
    assert!(!KeyState::Idle.pressed());
    assert!(KeyState::New.pressed());
    assert!(KeyState::Held.pressed());
    assert!(!KeyState::Released.pressed());
    assert!(KeyState::New.just_pressed());
    assert!(!KeyState::Held.just_pressed());
    assert!(KeyState::Released.just_released());
    assert!(!KeyState::Idle.just_released());
    assert!(!KeyState::New.just_released());
}

#[test]
fn interrupted_release_carries_latch_into_next_release() {
    let mut m = jump_map();
    m.press(K1);
    m.acknowledge();
    m.acknowledge();
    m.release(K1);
    m.acknowledge();
    // The release latch is now set; pressing before it settles keeps it set.
    m.press(K1);
    m.acknowledge();
    m.acknowledge();
    assert_eq!(m.get("Jump"), KeyState::Held);
    m.release(K1);
    assert_eq!(m.get("Jump"), KeyState::Released);
    m.acknowledge();
    assert_eq!(m.get("Jump"), KeyState::Idle);
}
