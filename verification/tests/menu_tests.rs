use buffer_pie::actions::{Action, CellType};
use buffer_pie::config::{default_menus, AppConfig, Colors, ConfigMode, Item, PieMenu};
use buffer_pie::input::MenuAction;
use buffer_pie::pie::{tray_command, PieMenuView, Scroll, TrayCommand, UiEffect};

fn labelled(label: &str, action: Option<Action>) -> Item {
    Item { label: label.to_string(), action, celltype: CellType::Normal }
}

fn config_with_actions() -> AppConfig {
    let mut c = AppConfig::default();
    c.menus[0].items[1].action = Some(Action::App { path: "/bin/a".to_string() });
    c
}

#[test]
fn default_configuration() {
    let c = AppConfig::default();
    assert_eq!(c.mode, ConfigMode::Auto);
    assert_eq!(c.colors, Colors::default_theme());
    let menus = default_menus();
    let names: Vec<&str> = menus.iter().map(|m| m.name.as_str()).collect();
    assert_eq!(names, vec!["EDIT", "WINDOW"]);
    let edit: Vec<&str> = menus[0].items.iter().map(|i| i.label.as_str()).collect();
    assert_eq!(edit, vec!["Copy", "Paste", "Cut", "Undo"]);
    let window: Vec<&str> = menus[1].items.iter().map(|i| i.label.as_str()).collect();
    assert_eq!(window, vec!["Minimize", "Maximize", "Close"]);
    assert!(menus[0].items.iter().all(|i| i.action.is_none() && i.celltype == CellType::Normal));
}

#[test]
fn scrolling_wraps_around() {
    let mut v = PieMenuView::new();
    v.handle_scroll(3, Scroll::Up);
    assert_eq!(v.current_menu, 2);
    v.handle_scroll(3, Scroll::Down);
    assert_eq!(v.current_menu, 0);
    v.handle_scroll(3, Scroll::Down);
    assert_eq!(v.current_menu, 1);
    v.handle_scroll(0, Scroll::Down);
    assert_eq!(v.current_menu, 1);
    v.handle_scroll(3, Scroll::Still);
    assert_eq!(v.current_menu, 1);
    v.current_menu = 7;
    v.handle_scroll(3, Scroll::Down);
    assert_eq!(v.current_menu, 2);
    v.current_menu = usize::MAX;
    v.handle_scroll(3, Scroll::Up);
    assert_eq!(v.current_menu, ((usize::MAX as u128 + 2) % 3) as usize);
}

#[test]
fn clamping_the_menu_shown() {
    let mut v = PieMenuView::new();
    v.current_menu = 5;
    v.clamp_current_menu(2);
    assert_eq!(v.current_menu, 1);
    v.clamp_current_menu(0);
    assert_eq!(v.current_menu, 0);
}

#[test]
fn finish_fires_hovered_item_only_when_open() {
    let c = config_with_actions();
    let mut v = PieMenuView::new();
    assert!(v.finish(&c, 1).is_none());
    v.open_at(10, 20);
    assert_eq!((v.x, v.y, v.visible), (10, 20, true));
    match v.finish(&c, 1) {
        Some(Action::App { path }) => assert_eq!(path, "/bin/a"),
        _ => panic!("expected the app"),
    }
    assert!(!v.visible);
    v.open_at(0, 0);
    assert!(v.pick(&c, 0).is_none());
    v.open_at(0, 0);
    assert!(v.pick(&c, 99).is_none());
    assert_eq!(v.current_item_count(&c), 4);
    v.current_menu = 9;
    assert_eq!(v.current_item_count(&c), 0);
}

#[test]
fn reacting_to_input_actions() {
    let c = config_with_actions();
    let mut v = PieMenuView::new();
    assert!(matches!(v.react(MenuAction::Open { x: 3, y: 4 }, &c, 0), UiEffect::Raise));
    assert!(v.is_active());
    assert!(matches!(v.react(MenuAction::Cancel, &c, 1), UiEffect::Nothing));
    assert!(!v.visible);
    v.react(MenuAction::Open { x: 3, y: 4 }, &c, 0);
    assert!(matches!(v.react(MenuAction::Close, &c, 1), UiEffect::Run(Action::App { .. })));
    assert!(matches!(v.react(MenuAction::ShowSettingsButton, &c, 0), UiEffect::Nothing));
    assert!(v.settings_visible && v.is_active());
    v.react(MenuAction::HideSettingsButton, &c, 0);
    assert!(!v.is_active());
    assert!(matches!(v.react(MenuAction::KeysChanged, &c, 0), UiEffect::RefreshSettings));
    assert!(matches!(v.react(MenuAction::OpenSettings, &c, 0), UiEffect::OpenSettings));
}

#[test]
fn tray_entries() {
    assert_eq!(tray_command("settings"), TrayCommand::OpenSettings);
    assert_eq!(tray_command("quit"), TrayCommand::Quit);
    assert_eq!(tray_command("other"), TrayCommand::Ignore);
}

#[test]
fn menu_clone_keeps_contents() {
    let m = PieMenu { name: "M".to_string(), items: vec![labelled("x", None)] };
    let n = m.clone();
    assert_eq!(n.name, "M");
    assert_eq!(n.items[0].label, "x");
}
