use buffer_pie::input::{
    handle_input, recorded, start_recording, stop_recording, InputEvent, MenuAction, MenuState,
    Recorder,
};
use buffer_pie::keys::Key;

fn names(keys: &[Key]) -> Vec<String> {
    keys.iter()
        .map(|k| match k {
            Key::Named(n) => n.clone(),
            Key::Unknown(c) => format!("#{c}"),
        })
        .collect()
}

#[test]
fn menu_opens_where_motion_started() {
    let mut s = MenuState::new();
    assert_eq!(s.handle_move(10, 10), None);
    assert_eq!(s.handle_press(), MenuAction::ShowSettingsButton);
    assert_eq!(s.handle_move(100, 100), None);
    assert_eq!(s.position(), (100, 100));
    // 7*7 + 4*4 = 65 > 64
    assert_eq!(s.handle_move(107, 104), Some(MenuAction::Open { x: 100, y: 100 }));
    assert!(s.is_menu_active());
    assert_eq!(s.handle_move(300, 300), None);
}

#[test]
fn threshold_is_strict() {
    let mut s = MenuState::new();
    s.handle_press();
    s.handle_move(50, 50);
    // 8*8 = 64, not past the threshold
    assert_eq!(s.handle_move(58, 50), None);
    assert!(!s.is_menu_active());
    assert!(s.has_crossed_threshold(59, 50));
    assert!(s.has_crossed_threshold(i32::MIN, i32::MAX));
}

#[test]
fn release_closes_open_menu_once() {
    let mut s = MenuState::new();
    s.handle_press();
    s.handle_move(100, 100);
    s.handle_move(200, 200);
    assert_eq!(
        s.handle_release(),
        vec![MenuAction::HideSettingsButton, MenuAction::Close]
    );
    assert_eq!(s.position(), (0, 0));
    assert!(!s.is_key_held());
    assert_eq!(s.handle_release(), vec![MenuAction::HideSettingsButton]);
}

#[test]
fn escape_cancels_and_blocks_reopening() {
    let mut s = MenuState::new();
    s.handle_press();
    s.handle_move(100, 100);
    s.handle_move(200, 200);
    assert_eq!(s.handle_escape(), Some(MenuAction::Cancel));
    assert_eq!(s.handle_move(400, 400), None);
    assert!(!s.is_menu_active());
    assert_eq!(s.handle_escape(), None);
}

#[test]
fn deactivate_suppresses_close() {
    let mut s = MenuState::new();
    s.handle_press();
    s.handle_move(100, 100);
    s.handle_move(200, 200);
    s.deactivate();
    assert!(s.is_key_held());
    assert_eq!(s.position(), (0, 0));
    assert_eq!(s.handle_release(), vec![MenuAction::HideSettingsButton]);
}

#[test]
fn recorder_ignores_auto_repeat() {
    let mut r = Recorder::new();
    start_recording(&mut r);
    let a = Key::named("KeyA");
    assert!(r.record_press(&a));
    assert!(!r.record_press(&a));
    r.record_release(&a);
    assert!(!r.is_pressed(&a));
    assert!(r.record_press(&a));
    assert_eq!(names(&recorded(&r)), vec!["KeyA", "KeyA"]);
    assert_eq!(names(&stop_recording(&mut r)), vec!["KeyA", "KeyA"]);
    assert!(recorded(&r).is_empty());
}

#[test]
fn idle_recorder_captures_nothing() {
    let mut r = Recorder::new();
    assert!(!r.record_press(&Key::named("KeyB")));
    assert!(r.is_pressed(&Key::named("KeyB")));
    assert!(recorded(&r).is_empty());
    start_recording(&mut r);
    assert!(!r.is_pressed(&Key::named("KeyB")));
    assert!(stop_recording(&mut r).is_empty());
}

#[test]
fn input_dispatch() {
    let mut s = MenuState::new();
    let mut r = Recorder::new();
    start_recording(&mut r);
    assert_eq!(
        handle_input(&mut s, &mut r, &InputEvent::KeyPress(Key::named("CapsLock"))),
        vec![MenuAction::ShowSettingsButton]
    );
    assert_eq!(
        handle_input(&mut s, &mut r, &InputEvent::KeyPress(Key::named("ShiftLeft"))),
        vec![MenuAction::KeysChanged]
    );
    assert_eq!(
        handle_input(&mut s, &mut r, &InputEvent::MouseMove { x: 5, y: 5 }),
        vec![]
    );
    assert_eq!(
        handle_input(&mut s, &mut r, &InputEvent::MouseMove { x: 50, y: 5 }),
        vec![MenuAction::Open { x: 5, y: 5 }]
    );
    assert_eq!(
        handle_input(&mut s, &mut r, &InputEvent::KeyPress(Key::named("Escape"))),
        vec![MenuAction::Cancel]
    );
    assert_eq!(
        handle_input(&mut s, &mut r, &InputEvent::KeyRelease(Key::named("CapsLock"))),
        vec![MenuAction::HideSettingsButton]
    );
    assert_eq!(handle_input(&mut s, &mut r, &InputEvent::Other), vec![]);
    assert_eq!(names(&recorded(&r)), vec!["ShiftLeft"]);
}
