use buffer_pie::actions::{
    execute, run_command, run_keystrokes, Action, Console, Effect, Platform, Stroke,
};
use buffer_pie::keys::Key;

fn stroke_names(strokes: &[Stroke]) -> Vec<String> {
    strokes
        .iter()
        .map(|s| match s {
            Stroke::Press(Key::Named(n)) => format!("+{n}"),
            Stroke::Release(Key::Named(n)) => format!("-{n}"),
            Stroke::Pause(ms) => format!("wait {ms}"),
            Stroke::Press(Key::Unknown(c)) => format!("+#{c}"),
            Stroke::Release(Key::Unknown(c)) => format!("-#{c}"),
        })
        .collect()
}

#[test]
fn unix_command_splits_words() {
    let plan = run_command("code  .", false, Platform::Unix).unwrap();
    assert_eq!(plan.program, "code");
    assert_eq!(plan.args, vec!["."]);
    assert_eq!(plan.console, Console::Inherit);
    assert!(run_command("   ", false, Platform::Unix).is_none());
    assert!(run_command("   ", true, Platform::Unix).is_none());
}

#[test]
fn unix_command_in_visible_terminal() {
    let plan = run_command("make test", true, Platform::Unix).unwrap();
    assert_eq!(plan.program, "x-terminal-emulator");
    assert_eq!(plan.args, vec!["-e", "sh", "-c", "make test; exec sh"]);
    assert_eq!(plan.console, Console::NewConsole);
}

#[test]
fn windows_command_runs_through_powershell() {
    let shown = run_command("dir", true, Platform::Windows).unwrap();
    assert_eq!(shown.program, "powershell");
    assert_eq!(shown.args, vec!["-NoExit", "-Command", "dir"]);
    assert_eq!(shown.console, Console::NewConsole);
    let hidden = run_command("dir", false, Platform::Windows).unwrap();
    assert_eq!(hidden.args, vec!["-WindowStyle", "Hidden", "-Command", "dir"]);
    assert_eq!(hidden.console, Console::Hidden);
    assert!(run_command("", false, Platform::Windows).is_some());
}

#[test]
fn keystrokes_with_and_without_delay() {
    let keys = vec![Key::named("ControlLeft"), Key::named("KeyC")];
    assert_eq!(
        stroke_names(&run_keystrokes(&keys, 0)),
        vec!["+ControlLeft", "-ControlLeft", "+KeyC", "-KeyC"]
    );
    assert_eq!(
        stroke_names(&run_keystrokes(&keys, 20)),
        vec!["+ControlLeft", "wait 20", "-ControlLeft", "+KeyC", "wait 20", "-KeyC"]
    );
    assert!(run_keystrokes(&[], 5).is_empty());
}

#[test]
fn execute_plans_each_kind() {
    match execute(&Action::App { path: "/usr/bin/foo".to_string() }, Platform::Unix) {
        Effect::Open(p) => assert_eq!(p, "/usr/bin/foo"),
        _ => panic!("expected open"),
    }
    match execute(
        &Action::Command { cmd: "echo hi".to_string(), show_terminal: false },
        Platform::Unix,
    ) {
        Effect::Spawn(p) => {
            assert_eq!(p.program, "echo");
            assert_eq!(p.args, vec!["hi"]);
        }
        _ => panic!("expected spawn"),
    }
    assert!(matches!(
        execute(&Action::Command { cmd: " ".to_string(), show_terminal: false }, Platform::Unix),
        Effect::Nothing
    ));
    match execute(&Action::Macro { keys: vec![Key::Unknown(9)], delay: 0 }, Platform::Unix) {
        Effect::Strokes(s) => assert_eq!(stroke_names(&s), vec!["+#9", "-#9"]),
        _ => panic!("expected strokes"),
    }
}

#[test]
fn action_clone_keeps_contents() {
    let a = Action::Macro { keys: vec![Key::named("KeyA")], delay: 3 };
    match a.clone() {
        Action::Macro { keys, delay } => {
            assert_eq!(delay, 3);
            assert!(keys[0].same_key(&Key::named("KeyA")));
        }
        _ => panic!("expected macro"),
    }
}
