use phi::events::{
    ButtonState, Events, InputSnapshot, Key, RawEvent, KEYCODE_DOWN, KEYCODE_ESCAPE, KEYCODE_LEFT,
    KEYCODE_RETURN, KEYCODE_RIGHT, KEYCODE_SPACE, KEYCODE_UP, KEY_COUNT,
};

const HELD_NOW: ButtonState = ButtonState { level: true, edge: true };
const HELD: ButtonState = ButtonState { level: true, edge: false };
const UP: ButtonState = ButtonState { level: false, edge: false };

const ALL_KEYS: [Key; 7] =
    [Key::Escape, Key::Up, Key::Down, Key::Left, Key::Right, Key::Space, Key::Return];

fn idle() -> InputSnapshot {
    InputSnapshot {
        escape: UP,
        up: UP,
        down: UP,
        left: UP,
        right: UP,
        space: UP,
        enter: UP,
        quit: false,
    }
}

#[test]
fn a_new_accumulator_has_nothing_held() {
    let events = Events::new();
    assert_eq!(events.snapshot(), idle());
    assert_eq!(events.resize(), None);
}

#[test]
fn key_down_sets_level_and_edge_then_only_level() {
    let mut events = Events::new();
    events.pump(&vec![RawEvent::KeyDown(KEYCODE_UP)]);
    assert!(events.snapshot().up.level);
    assert!(events.snapshot().up.edge);
    assert_eq!(events.snapshot(), InputSnapshot { up: HELD_NOW, ..idle() });

    events.pump(&vec![]);
    assert!(events.snapshot().up.level);
    assert!(!events.snapshot().up.edge);
    assert_eq!(events.snapshot(), InputSnapshot { up: HELD, ..idle() });
}

#[test]
fn snapshot_can_be_read_any_number_of_times() {
    let mut events = Events::new();
    events.pump(&vec![RawEvent::KeyDown(KEYCODE_SPACE), RawEvent::Quit]);
    let first = events.snapshot();
    let second = events.snapshot();
    let third = events.snapshot();
    assert_eq!(first, second);
    assert_eq!(second, third);
    assert_eq!(first, InputSnapshot { space: HELD_NOW, quit: true, ..idle() });
}

#[test]
fn every_tracked_key_has_its_own_button() {
    for key in ALL_KEYS {
        let mut events = Events::new();
        events.pump(&vec![RawEvent::KeyDown(key.keycode())]);
        let snapshot = events.snapshot();
        for other in ALL_KEYS {
            let expected = if other == key { HELD_NOW } else { UP };
            assert_eq!(snapshot.button(other), expected);
        }
        assert!(!snapshot.quit);
    }
}

#[test]
fn key_up_releases_the_key() {
    let mut events = Events::new();
    events.pump(&vec![RawEvent::KeyDown(KEYCODE_LEFT)]);
    events.pump(&vec![RawEvent::KeyUp(KEYCODE_LEFT)]);
    assert_eq!(events.snapshot(), idle());
}

#[test]
fn a_repeated_key_down_gives_no_second_edge() {
    let mut events = Events::new();
    events.pump(&vec![RawEvent::KeyDown(KEYCODE_RIGHT)]);
    events.pump(&vec![RawEvent::KeyDown(KEYCODE_RIGHT)]);
    assert_eq!(events.snapshot().right, HELD);
    events.pump(&vec![RawEvent::KeyDown(KEYCODE_RIGHT), RawEvent::KeyDown(KEYCODE_RIGHT)]);
    assert_eq!(events.snapshot().right, HELD);
}

#[test]
fn a_key_tapped_within_one_tick_keeps_its_edge() {
    let mut events = Events::new();
    events.pump(&vec![RawEvent::KeyDown(KEYCODE_RETURN), RawEvent::KeyUp(KEYCODE_RETURN)]);
    assert_eq!(events.snapshot().enter, ButtonState { level: false, edge: true });
    events.pump(&vec![]);
    assert_eq!(events.snapshot().enter, UP);
}

#[test]
fn a_key_released_and_pressed_again_gets_a_new_edge() {
    let mut events = Events::new();
    events.pump(&vec![RawEvent::KeyDown(KEYCODE_DOWN)]);
    events.pump(&vec![RawEvent::KeyUp(KEYCODE_DOWN), RawEvent::KeyDown(KEYCODE_DOWN)]);
    assert_eq!(events.snapshot().down, HELD_NOW);
}

#[test]
fn edges_are_independent_per_key() {
    let mut events = Events::new();
    events.pump(&vec![RawEvent::KeyDown(KEYCODE_UP)]);
    events.pump(&vec![RawEvent::KeyDown(KEYCODE_ESCAPE)]);
    assert_eq!(events.snapshot(), InputSnapshot { up: HELD, escape: HELD_NOW, ..idle() });
}

#[test]
fn quit_is_sticky() {
    let mut events = Events::new();
    events.pump(&vec![RawEvent::Quit]);
    assert!(events.snapshot().quit);
    events.pump(&vec![]);
    assert!(events.snapshot().quit);
    events.pump(&vec![RawEvent::KeyDown(KEYCODE_UP), RawEvent::Other]);
    assert!(events.snapshot().quit);
}

#[test]
fn untracked_keys_and_other_events_are_ignored() {
    let mut events = Events::new();
    events.pump(&vec![
        RawEvent::KeyDown(97),
        RawEvent::KeyUp(97),
        RawEvent::KeyDown(0),
        RawEvent::KeyDown(-1),
        RawEvent::KeyDown(KEYCODE_UP + 1),
        RawEvent::Other,
    ]);
    assert_eq!(events.snapshot(), idle());
    assert_eq!(events.resize(), None);
}

#[test]
fn the_last_resize_of_a_tick_is_kept_for_that_tick_only() {
    let mut events = Events::new();
    events.pump(&vec![
        RawEvent::Resized(640, 480),
        RawEvent::KeyDown(KEYCODE_UP),
        RawEvent::Resized(1024, 768),
        RawEvent::Other,
    ]);
    assert_eq!(events.resize(), Some((1024, 768)));
    assert_eq!(events.snapshot(), InputSnapshot { up: HELD_NOW, ..idle() });
    events.pump(&vec![]);
    assert_eq!(events.resize(), None);
}

#[test]
fn keycodes_lead_to_their_keys() {
    assert_eq!(Key::from_keycode(27), Some(Key::Escape));
    assert_eq!(Key::from_keycode(13), Some(Key::Return));
    assert_eq!(Key::from_keycode(32), Some(Key::Space));
    assert_eq!(Key::from_keycode(1073741903), Some(Key::Right));
    assert_eq!(Key::from_keycode(1073741904), Some(Key::Left));
    assert_eq!(Key::from_keycode(1073741905), Some(Key::Down));
    assert_eq!(Key::from_keycode(1073741906), Some(Key::Up));
    assert_eq!(Key::from_keycode(0), None);
    assert_eq!(Key::from_keycode(1073741907), None);
    assert_eq!(Key::from_keycode(i32::MIN), None);
    for key in ALL_KEYS {
        assert_eq!(Key::from_keycode(key.keycode()), Some(key));
    }
}

#[test]
fn key_indices_are_dense() {
    let mut seen = [false; KEY_COUNT];
    for key in ALL_KEYS {
        assert!(!seen[key.index()]);
        seen[key.index()] = true;
    }
    assert!(seen.iter().all(|s| *s));
    assert_eq!(Key::Escape.index(), 0);
    assert_eq!(Key::Return.index(), 6);
}

#[test]
fn a_key_that_no_event_names_keeps_its_level() {
    let mut events = Events::new();
    events.pump(&vec![RawEvent::KeyDown(KEYCODE_UP)]);
    events.pump(&vec![
        RawEvent::KeyDown(KEYCODE_LEFT),
        RawEvent::KeyUp(KEYCODE_LEFT),
        RawEvent::Quit,
        RawEvent::Resized(1, 1),
        RawEvent::Other,
    ]);
    assert_eq!(events.snapshot().up, HELD);
    assert_eq!(events.snapshot().down, UP);
}
