use buffer_pie::actions::{Action, CellType, Effect, Platform};
use buffer_pie::config::{AppConfig, Colors, ConfigMode, Item, PieMenu};
use buffer_pie::editor::{
    app_item, color_value, command_item, node_count_caption, on_color_change, parse_delay,
    queue_sync, select_mode, tab_for_mode, try_apply, AutoEditor, MenusEditor, NodeKind, SettingsPages, SidebarTab, Slot,
};
use buffer_pie::input::{Recorder, start_recording};
use buffer_pie::keys::Key;

fn labels(menu: &PieMenu) -> Vec<String> {
    menu.items.iter().map(|i| i.label.clone()).collect()
}

#[test]
fn delay_field_parsing() {
    assert_eq!(parse_delay(" 120 "), 120);
    assert_eq!(parse_delay("+7"), 7);
    assert_eq!(parse_delay(""), 50);
    assert_eq!(parse_delay("abc"), 50);
    assert_eq!(parse_delay("99999999999"), 50);
    assert_eq!(parse_delay("1 2"), 50);
}

#[test]
fn color_text_parsing() {
    assert_eq!(color_value("#1e1e2e"), 0x1e1e2e);
    assert_eq!(color_value("##ff"), 0xff);
    assert_eq!(color_value("CDD6F4"), 0xcdd6f4);
    assert_eq!(color_value("zz"), 0);
    assert_eq!(color_value("#"), 0);
    assert_eq!(color_value("#123456789"), 0);
}

#[test]
fn adding_and_removing_menus() {
    let mut c = AppConfig::default();
    let mut e = MenusEditor::new();
    assert_eq!(e.open, Some(0));
    e.add_menu(&mut c);
    assert_eq!(c.menus.len(), 3);
    assert_eq!(c.menus[2].name, "MENU 3");
    assert!(c.menus[2].items.is_empty());
    assert_eq!(e.open, Some(2));
    e.remove_menu(&mut c, 0);
    assert_eq!(c.menus[0].name, "WINDOW");
    assert_eq!(e.open, None);
    e.remove_node(&mut c, 0, 1);
    assert_eq!(labels(&c.menus[0]), vec!["Minimize", "Close"]);
    assert_eq!(node_count_caption(&c.menus[0]), "2 nodes");
}

#[test]
fn creating_a_command_node() {
    let mut c = AppConfig::default();
    let mut e = MenusEditor::new();
    let mut r = Recorder::new();
    e.open_form(1);
    assert!(e.shows_form_under(1) && !e.shows_form_under(0));
    let form = e.form.as_ref().unwrap();
    assert!(form.invalid(""));
    assert!(!form.invalid("ls"));
    let sections = form.sections();
    assert!(sections.detail_input && sections.terminal_switch);
    assert!(!sections.key_recorder && !sections.browse_button);
    e.set_show_terminal(true);
    assert_eq!(e.create_node(&mut c, &mut r, "", "ls -la", "").as_deref(), None);
    assert!(e.form.is_none());
    let item = c.menus[1].items.last().unwrap();
    assert_eq!(item.label, "ls -la");
    match &item.action {
        Some(Action::Command { cmd, show_terminal }) => {
            assert_eq!(cmd, "ls -la");
            assert!(*show_terminal);
        }
        _ => panic!("expected a command"),
    }
}

#[test]
fn creating_an_app_node_asks_for_its_icon() {
    let mut c = AppConfig::default();
    let mut e = MenusEditor::new();
    let mut r = Recorder::new();
    e.open_form(0);
    e.set_kind(1, &mut r);
    assert_eq!(e.form.as_ref().unwrap().kind, NodeKind::App);
    assert!(e.form.as_ref().unwrap().sections().browse_button);
    let exe = e.create_node(&mut c, &mut r, "Editor", "/usr/bin/ed", "");
    assert_eq!(exe.as_deref(), Some("/usr/bin/ed"));
    assert_eq!(labels(&c.menus[0]).last().unwrap(), "Editor");
}

#[test]
fn macro_node_needs_finished_recording() {
    let mut c = AppConfig::default();
    let mut e = MenusEditor::new();
    let mut r = Recorder::new();
    e.open_form(0);
    e.set_kind(2, &mut r);
    e.toggle_recording(&mut r);
    assert!(e.form.as_ref().unwrap().recording);
    r.record_press(&Key::named("KeyX"));
    assert!(e.form.as_ref().unwrap().invalid("anything"));
    e.toggle_recording(&mut r);
    let form = e.form.as_ref().unwrap();
    assert!(!form.recording);
    assert_eq!(form.keys.len(), 1);
    assert!(!form.invalid(""));
    match form.test_node("", "5", Platform::Unix) {
        Effect::Strokes(s) => assert_eq!(s.len(), 3),
        _ => panic!("expected strokes"),
    }
    let before = c.menus[0].items.len();
    assert!(e.create_node(&mut c, &mut r, "X", "", " 30 ").is_none());
    assert_eq!(c.menus[0].items.len(), before + 1);
    match &c.menus[0].items[before].action {
        Some(Action::Macro { keys, delay }) => {
            assert_eq!(*delay, 30);
            assert!(keys[0].same_key(&Key::named("KeyX")));
        }
        _ => panic!("expected a macro"),
    }
}

#[test]
fn empty_macro_creates_nothing() {
    let mut c = AppConfig::default();
    let mut e = MenusEditor::new();
    let mut r = Recorder::new();
    e.open_form(0);
    e.set_kind(2, &mut r);
    assert!(e.create_node(&mut c, &mut r, "X", "", "").is_none());
    assert!(e.form.is_none());
    assert_eq!(c.menus[0].items.len(), 4);
}

#[test]
fn switching_kind_stops_recording() {
    let mut e = MenusEditor::new();
    let mut r = Recorder::new();
    e.open_form(0);
    e.set_kind(2, &mut r);
    e.toggle_recording(&mut r);
    r.record_press(&Key::named("KeyQ"));
    e.set_kind(0, &mut r);
    let form = e.form.as_ref().unwrap();
    assert_eq!(form.kind, NodeKind::Command);
    assert!(!form.recording);
    assert_eq!(form.keys.len(), 1);
    start_recording(&mut r);
    e.close_form(&mut r);
    assert!(e.form.is_none());
    assert!(!r.record_press(&Key::named("KeyZ")));
}

#[test]
fn node_kinds() {
    for ix in 0..3 {
        assert_eq!(NodeKind::from_index(ix).index(), ix);
    }
    assert_eq!(NodeKind::Macro.label(), "Macro");
    assert_eq!(NodeKind::from_index(1).label(), "App");
}

#[test]
fn quick_editor_operations() {
    let mut c = AppConfig { mode: ConfigMode::Auto, menus: vec![], colors: Colors::default_theme() };
    AutoEditor::add_item(&mut c, command_item("Term", "xterm"));
    assert_eq!(c.menus.len(), 1);
    assert_eq!(c.menus[0].name, "MENU");
    AutoEditor::add_item(&mut c, app_item("Ed", "/bin/ed"));
    assert_eq!(labels(&c.menus[0]), vec!["Term", "Ed"]);
    AutoEditor::delete_item(&mut c, 5);
    assert_eq!(c.menus[0].items.len(), 2);
    AutoEditor::delete_item(&mut c, 0);
    assert_eq!(labels(&c.menus[0]), vec!["Ed"]);
    let d = AppConfig::default();
    let all: Vec<String> = AutoEditor::all_items(&d).into_iter().map(|i| i.label).collect();
    assert_eq!(all, vec!["Copy", "Paste", "Cut", "Undo", "Minimize", "Maximize", "Close"]);
}

#[test]
fn creator_items() {
    let i = command_item("L", "code .");
    assert!(matches!(&i.action, Some(Action::Command { cmd, show_terminal: false }) if cmd == "code ."));
    assert_eq!(i.celltype, CellType::Normal);
    let a = app_item("A", "/x");
    assert!(matches!(&a.action, Some(Action::App { path }) if path == "/x"));
}

#[test]
fn theme_slots() {
    let mut colors = Colors::default_theme();
    for slot in Slot::all() {
        let before = colors;
        slot.set(&mut colors, 0x123456);
        assert_eq!(slot.get(&colors), 0x123456);
        for other in Slot::all() {
            if other != slot {
                assert_eq!(other.get(&colors), other.get(&before));
            }
        }
    }
    assert_eq!(Slot::SurfaceHover.label(), "Surface Hover");
    let mut c = AppConfig::default();
    on_color_change(&mut c, Slot::Arc, "#ff0000");
    assert_eq!(c.colors.arc, 0xff0000);
}

#[test]
fn config_mode_tabs() {
    let mut c = AppConfig::default();
    assert_eq!(select_mode(&mut c, 1), ConfigMode::Manual);
    assert_eq!(c.mode, ConfigMode::Manual);
    assert_eq!(select_mode(&mut c, 0), ConfigMode::Auto);
    assert_eq!(select_mode(&mut c, 7), ConfigMode::Manual);
    assert_eq!(tab_for_mode(ConfigMode::Auto), 0);
    assert_eq!(tab_for_mode(ConfigMode::Manual), 1);
}

#[test]
fn text_editor_applies_or_keeps_error() {
    let mut c = AppConfig::default();
    let err = try_apply(&mut c, Err("expected value".to_string()));
    assert_eq!(err.as_deref(), Some("expected value"));
    assert_eq!(c.menus.len(), 2);
    let menus = vec![PieMenu { name: "ONLY".to_string(), items: vec![] }];
    assert!(try_apply(&mut c, Ok(menus)).is_none());
    assert_eq!(c.menus.len(), 1);
    assert_eq!(c.menus[0].name, "ONLY");
}

#[test]
fn text_editor_refresh_queue() {
    let mut pending: Option<String> = None;
    queue_sync(&mut pending, "[]", "[]".to_string());
    assert!(pending.is_none());
    queue_sync(&mut pending, "[]", "[1]".to_string());
    assert_eq!(pending.as_deref(), Some("[1]"));
    queue_sync(&mut pending, "[]", "[2]".to_string());
    assert_eq!(pending.as_deref(), Some("[1]"));
}

#[test]
fn item_clone_keeps_contents() {
    let i = Item { label: "x".to_string(), action: None, celltype: CellType::Holdable };
    let j = i.clone();
    assert_eq!(j.label, "x");
    assert_eq!(j.celltype, CellType::Holdable);
}

#[test]
fn add_then_remove_restores_menus() {
    let mut c = AppConfig::default();
    let mut e = MenusEditor::new();
    e.add_menu(&mut c);
    let last = c.menus.len() - 1;
    e.remove_menu(&mut c, last);
    let names: Vec<&str> = c.menus.iter().map(|m| m.name.as_str()).collect();
    assert_eq!(names, vec!["EDIT", "WINDOW"]);
    AutoEditor::add_item(&mut c, command_item("T", "t"));
    assert_eq!(labels(&c.menus[0]), vec!["Copy", "Paste", "Cut", "Undo", "T"]);
    AutoEditor::delete_item(&mut c, 4);
    assert_eq!(labels(&c.menus[0]), vec!["Copy", "Paste", "Cut", "Undo"]);
    assert_eq!(labels(&c.menus[1]), vec!["Minimize", "Maximize", "Close"]);
}

#[test]
fn settings_pages() {
    let mut p = SettingsPages::new();
    assert!(p.is_active(SidebarTab::Appearance));
    p.select(SidebarTab::Config);
    assert!(p.is_active(SidebarTab::Config) && !p.is_active(SidebarTab::Appearance));
}

#[test]
fn removing_a_node_keeps_the_form() {
    let mut c = AppConfig::default();
    let mut e = MenusEditor::new();
    e.open_form(1);
    e.remove_node(&mut c, 0, 0);
    assert_eq!(e.form.as_ref().unwrap().menu_ix, 1);
    assert_eq!(labels(&c.menus[0]), vec!["Paste", "Cut", "Undo"]);
}
