use engine::bitset::BitSet;
use engine::input::{Input, InputEvent, ESCAPE_SCANCODE, KEY_COUNT};

#[test]
fn word_and_bit_splits_the_index() {
    assert_eq!(BitSet::<3>::word_and_bit(0), (0, 1));
    assert_eq!(BitSet::<3>::word_and_bit(63), (0, 1u64 << 63));
    assert_eq!(BitSet::<3>::word_and_bit(64), (1, 1));
    assert_eq!(BitSet::<3>::word_and_bit(130), (2, 4));
}

#[test]
fn bitset_insert_remove_contains() {
    let mut set = BitSet::<2>::new();
    assert!(!set.contains(5));
    set.insert(5);
    set.insert(127);
    assert!(set.contains(5));
    assert!(set.contains(127));
    assert!(!set.contains(6));
    assert!(!set.contains(64));
    set.remove(5);
    assert!(!set.contains(5));
    assert!(set.contains(127));
    set.clear();
    assert!(!set.contains(127));
}

#[test]
fn bitset_drain_into_moves_everything() {
    let mut own = BitSet::<2>::new();
    let mut other = BitSet::<2>::new();
    own.insert(1);
    own.insert(100);
    other.insert(2);
    own.drain_into(&mut other);
    for i in 0..128 {
        assert!(!own.contains(i));
        assert_eq!(other.contains(i), i == 1 || i == 2 || i == 100);
    }
}

#[test]
fn key_press_and_release() {
    let mut input = Input::new();
    input.apply(InputEvent::KeyDown { scancode: 26, repeat: false });
    assert!(input.is_key_down(26));
    assert!(input.was_key_pressed(26));
    assert!(!input.was_key_released(26));
    input.apply(InputEvent::KeyUp { scancode: 26 });
    assert!(!input.is_key_down(26));
    assert!(input.was_key_pressed(26));
    assert!(input.was_key_released(26));
    input.clear();
    assert!(!input.was_key_pressed(26));
    assert!(!input.was_key_released(26));
}

#[test]
fn repeats_are_ignored() {
    let mut input = Input::new();
    input.apply(InputEvent::KeyDown { scancode: 4, repeat: true });
    assert!(!input.is_key_down(4));
    assert!(!input.was_key_pressed(4));
}

#[test]
fn clear_keeps_held_keys() {
    let mut input = Input::new();
    input.apply(InputEvent::KeyDown { scancode: KEY_COUNT - 1, repeat: false });
    input.clear();
    assert!(input.is_key_down(KEY_COUNT - 1));
    assert!(!input.was_key_pressed(KEY_COUNT - 1));
}

#[test]
fn escape_and_quit_request_quitting() {
    let mut input = Input::new();
    assert!(!input.should_quit());
    input.apply(InputEvent::KeyDown { scancode: ESCAPE_SCANCODE, repeat: true });
    assert!(!input.should_quit());
    input.apply(InputEvent::KeyDown { scancode: ESCAPE_SCANCODE, repeat: false });
    assert!(input.should_quit());
    let mut input = Input::new();
    input.apply(InputEvent::Quit);
    assert!(input.should_quit());
}

#[test]
fn mouse_buttons() {
    let mut input = Input::new();
    input.apply(InputEvent::MouseButtonDown { button: 1 });
    assert!(input.is_mouse_btn_down(1));
    assert!(input.was_mouse_btn_pressed(1));
    input.apply(InputEvent::MouseButtonUp { button: 1 });
    assert!(!input.is_mouse_btn_down(1));
    assert!(input.was_mouse_btn_released(1));
}

#[test]
fn minimize_and_restore() {
    let mut input = Input::new();
    input.apply(InputEvent::Minimized);
    assert!(input.minimized());
    input.apply(InputEvent::Other);
    assert!(input.minimized());
    input.apply(InputEvent::Restored);
    assert!(!input.minimized());
}

#[test]
fn focus_lost_releases_everything_held() {
    let mut input = Input::new();
    input.apply(InputEvent::KeyDown { scancode: 7, repeat: false });
    input.apply(InputEvent::KeyDown { scancode: 300, repeat: false });
    input.apply(InputEvent::MouseButtonDown { button: 3 });
    input.apply(InputEvent::FocusLost);
    assert!(!input.is_key_down(7));
    assert!(!input.is_key_down(300));
    assert!(!input.is_mouse_btn_down(3));
    assert!(input.was_key_released(7));
    assert!(input.was_key_released(300));
    assert!(input.was_mouse_btn_released(3));
    assert!(input.was_key_pressed(7));
}

#[test]
fn poll_forgets_the_last_poll_and_records_the_batch() {
    let mut input = Input::new();
    input.poll(&vec![InputEvent::KeyDown { scancode: 4, repeat: false }, InputEvent::MouseButtonDown { button: 1 }]);
    assert!(input.was_key_pressed(4));
    assert!(input.is_key_down(4));
    input.poll(&vec![InputEvent::KeyUp { scancode: 4 }]);
    assert!(!input.was_key_pressed(4));
    assert!(input.was_key_released(4));
    assert!(!input.is_key_down(4));
    assert!(input.is_mouse_btn_down(1));
    assert!(!input.was_mouse_btn_pressed(1));
}

#[test]
fn poll_minimized_follows_the_last_window_event() {
    let mut input = Input::new();
    input.poll(&vec![InputEvent::Minimized, InputEvent::Other, InputEvent::Restored, InputEvent::Minimized]);
    assert!(input.minimized());
    input.poll(&vec![InputEvent::Other]);
    assert!(input.minimized());
    input.poll(&vec![InputEvent::Minimized, InputEvent::Restored, InputEvent::Other]);
    assert!(!input.minimized());
}

#[test]
fn poll_quit_once_asked_stays_asked() {
    let mut input = Input::new();
    input.poll(&vec![InputEvent::KeyDown { scancode: ESCAPE_SCANCODE, repeat: true }]);
    assert!(!input.should_quit());
    input.poll(&vec![InputEvent::Other, InputEvent::KeyDown { scancode: ESCAPE_SCANCODE, repeat: false }]);
    assert!(input.should_quit());
    input.poll(&vec![]);
    assert!(input.should_quit());
    let mut other = Input::new();
    other.poll(&vec![InputEvent::Quit]);
    assert!(other.should_quit());
}
