use motherload::command::{apply_key_down, apply_key_up, Command, CommandState, InputBinding};

// Key identifiers as the platform layer would report them; any integers do.
const KEY_W: i32 = 119;
const KEY_UP_ARROW: i32 = 1073741906;
const KEY_E: i32 = 101;
const KEY_Q: i32 = 113;

fn default_binding() -> InputBinding {
    let mut b = InputBinding::new();
    b.bind(KEY_E, Command::Exit);
    b.bind(KEY_W, Command::Up);
    b.bind(KEY_UP_ARROW, Command::Up);
    b
}

#[test]
fn fresh_state_holds_nothing() {
    let cs = CommandState::new();
    for c in [
        Command::Exit,
        Command::Up,
        Command::Down,
        Command::Left,
        Command::Right,
        Command::Interact,
    ] {
        assert!(!cs.is_held(c));
    }
}

#[test]
fn two_keys_can_share_a_command() {
    let b = default_binding();
    assert_eq!(b.lookup(KEY_W), Some(Command::Up));
    assert_eq!(b.lookup(KEY_UP_ARROW), Some(Command::Up));
}

#[test]
fn rebinding_replaces_and_leaves_others_alone() {
    let mut b = default_binding();
    b.bind(KEY_E, Command::Interact);
    assert_eq!(b.lookup(KEY_E), Some(Command::Interact));
    assert_eq!(b.lookup(KEY_W), Some(Command::Up));
}

#[test]
fn unbound_key_is_a_no_op() {
    let b = default_binding();
    assert_eq!(b.lookup(KEY_Q), None);

    let mut cs = CommandState::new();
    let bound = apply_key_down(&mut cs, &b, KEY_Q);
    assert!(!bound);
    assert_eq!(cs, CommandState::new());
}

#[test]
fn key_events_toggle_held_state() {
    let b = default_binding();
    let mut cs = CommandState::new();

    assert!(apply_key_down(&mut cs, &b, KEY_W));
    assert!(cs.is_held(Command::Up));
    assert!(!cs.is_held(Command::Exit));

    // Repeat events re-affirm the state rather than toggling it.
    assert!(apply_key_down(&mut cs, &b, KEY_UP_ARROW));
    assert!(cs.is_held(Command::Up));

    assert!(apply_key_up(&mut cs, &b, KEY_W));
    assert!(!cs.is_held(Command::Up));
}
