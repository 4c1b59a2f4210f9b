use buffer_pie::keys::{key_label, Key};

#[test]
fn labels_of_modifiers() {
    assert_eq!(key_label(&Key::named("ControlLeft")), "ctrl");
    assert_eq!(key_label(&Key::named("ControlRight")), "ctrl");
    assert_eq!(key_label(&Key::named("MetaLeft")), "meta");
    assert_eq!(key_label(&Key::named("ShiftRight")), "shift");
    assert_eq!(key_label(&Key::named("Return")), "enter");
    assert_eq!(key_label(&Key::named("KpReturn")), "enter");
    assert_eq!(key_label(&Key::named("CapsLock")), "caps");
    assert_eq!(key_label(&Key::named("KpDelete")), "del");
    assert_eq!(key_label(&Key::named("PrintScreen")), "printscr");
}

#[test]
fn labels_strip_prefixes() {
    assert_eq!(key_label(&Key::named("KeyA")), "a");
    assert_eq!(key_label(&Key::named("Num1")), "1");
    assert_eq!(key_label(&Key::named("NumLock")), "lock");
    assert_eq!(key_label(&Key::named("F12")), "f12");
    assert_eq!(key_label(&Key::named("Escape")), "escape");
    assert_eq!(key_label(&Key::named("Kp5")), "kp5");
}

#[test]
fn label_of_unknown_key() {
    assert_eq!(key_label(&Key::Unknown(42)), "unknown_42");
    assert_eq!(key_label(&Key::Unknown(0)), "unknown_0");
}

#[test]
fn key_identity() {
    assert!(Key::named("KeyA").same_key(&Key::named("KeyA")));
    assert!(!Key::named("KeyA").same_key(&Key::named("KeyB")));
    assert!(!Key::Unknown(1).same_key(&Key::named("KeyA")));
    assert!(Key::Unknown(1).same_key(&Key::Unknown(1)));
    assert!(Key::named("Escape").is_named("Escape"));
}

#[test]
fn labels_are_lowercase_and_nonempty() {
    for name in ["KeyA", "ShiftLeft", "Num0", "BackSlash", "Function", "IntlBackslash", "F5"] {
        let l = key_label(&Key::named(name));
        assert!(!l.is_empty());
        assert_eq!(l, l.to_lowercase());
    }
    assert_eq!(key_label(&Key::named("BackSlash")), "backslash");
    assert_eq!(key_label(&Key::named("Key")), "");
}
