use buffer_pie::actions::{Action, Console};
use buffer_pie::assets::{escape_single_quoted, extract_icon, icon_asset_path, icon_for, AssetRoute, Assets, IconQueue, Logo};
use buffer_pie::keys::Key;

#[test]
fn asset_routes() {
    assert_eq!(Assets.route("logos/command.svg"), AssetRoute::Embedded(Logo::Command));
    assert_eq!(Assets.route("logos/keyboard.svg"), AssetRoute::Embedded(Logo::Keyboard));
    assert_eq!(Assets.route("logos/settings.svg"), AssetRoute::Embedded(Logo::Settings));
    assert_eq!(Assets.route("logos/appearence.svg"), AssetRoute::Embedded(Logo::Appearence));
    assert_eq!(Assets.route("logos/config.svg"), AssetRoute::Embedded(Logo::Config));
    assert_eq!(Assets.route("logos/cancel.svg"), AssetRoute::Embedded(Logo::Cancel));
    assert_eq!(
        Assets.route("app-icons/ff.png"),
        AssetRoute::CachedIcon("app-icons/ff.png".to_string())
    );
    assert_eq!(Assets.route("icons/close.svg"), AssetRoute::Fallback);
    assert_eq!(Assets.route("app-icons"), AssetRoute::Fallback);
}

#[test]
fn icon_asset_paths() {
    assert_eq!(icon_asset_path(255), "app-icons/ff.png");
    assert_eq!(icon_asset_path(0), "app-icons/0.png");
}

#[test]
fn icons_for_items() {
    let mut q = IconQueue::new();
    assert_eq!(icon_for(None, &mut q).asset, "logos/command.svg");
    let m = Action::Macro { keys: vec![Key::named("KeyA")], delay: 0 };
    assert_eq!(icon_for(Some(&m), &mut q).asset, "logos/keyboard.svg");
    let c = Action::Command { cmd: "x".to_string(), show_terminal: false };
    assert!(icon_for(Some(&c), &mut q).extract.is_none());
    let a = Action::App { path: "/usr/bin/ed".to_string() };
    let first = icon_for(Some(&a), &mut q);
    let (hash, path) = first.extract.expect("first request extracts");
    assert_eq!(path, "/usr/bin/ed");
    assert_eq!(first.asset, format!("app-icons/{hash:x}.png"));
    let second = icon_for(Some(&a), &mut q);
    assert!(second.extract.is_none());
    assert_eq!(second.asset, first.asset);
    let b = Action::App { path: "/usr/bin/vi".to_string() };
    assert!(icon_for(Some(&b), &mut q).extract.is_some());
}

#[test]
fn icon_queue_dedupes() {
    let mut q = IconQueue::new();
    assert!(q.request_icon(7));
    assert!(!q.request_icon(7));
    assert!(q.request_icon(8));
}

#[test]
fn icon_extraction_script() {
    let plan = extract_icon("C:\\a.exe", "C:\\out.png");
    assert_eq!(plan.program, "powershell");
    assert_eq!(plan.console, Console::Hidden);
    assert_eq!(&plan.args[..4], &["-NoProfile", "-WindowStyle", "Hidden", "-Command"]);
    assert_eq!(
        plan.args[4],
        "Add-Type -AssemblyName System.Drawing;[System.Drawing.Icon]::ExtractAssociatedIcon('C:\\a.exe').ToBitmap().Save('C:\\out.png',[System.Drawing.Imaging.ImageFormat]::Png)"
    );
}

#[test]
fn quotes_in_paths_are_doubled() {
    assert_eq!(escape_single_quoted("C:/it's.exe"), "C:/it''s.exe");
    assert_eq!(escape_single_quoted("''"), "''''");
    assert_eq!(escape_single_quoted("plain"), "plain");
    assert_eq!(escape_single_quoted(""), "");
    let plan = extract_icon("/apps/it's.exe", "/c/o'.png");
    assert_eq!(
        plan.args[4],
        "Add-Type -AssemblyName System.Drawing;[System.Drawing.Icon]::ExtractAssociatedIcon('/apps/it''s.exe').ToBitmap().Save('/c/o''.png',[System.Drawing.Imaging.ImageFormat]::Png)"
    );
}
