//! The menu configuration: the pie menus with their items, the colors of the
//! theme, and which editor the settings open with.

use vstd::prelude::*;

use crate::actions::{Action, ActionView, CellType};
use vstd::string::StringExecFns;

verus! {

/// Which editor the settings window shows for the menus.
#[derive(Clone, Copy, Debug, PartialEq, Eq, Structural)]
pub enum ConfigMode {
    Auto,
    Manual,
}

/// The colors of the theme, as `0xRRGGBB`.
#[derive(Clone, Copy, Debug, PartialEq, Eq, Structural)]
pub struct Colors {
    pub arc: u32,
    pub surface: u32,
    pub surface_hover: u32,
    pub text: u32,
}

impl Colors {
    /// The theme the launcher starts with.
    pub open spec fn default_spec() -> Colors {
        Colors { arc: 0x89b4fa, surface: 0x1e1e2e, surface_hover: 0x313244, text: 0xcdd6f4 }
    }

    /// The theme the launcher starts with.
    pub fn default_theme() -> (c: Colors)
        ensures
            c == Colors::default_spec(),
    {
        Colors { arc: 0x89b4fa, surface: 0x1e1e2e, surface_hover: 0x313244, text: 0xcdd6f4 }
    }
}

/// An entry of a pie menu.
pub struct Item {
    pub label: String,
    pub action: Option<Action>,
    pub celltype: CellType,
}

/// An item by its contents.
pub struct ItemData {
    pub label: Seq<char>,
    pub action: Option<ActionView>,
    pub celltype: CellType,
}

impl DeepView for Item {
    type V = ItemData;

    open spec fn deep_view(&self) -> ItemData {
        ItemData {
            label: self.label@,
            action: match self.action {
                Some(a) => Some(a.deep_view()),
                None => None,
            },
            celltype: self.celltype,
        }
    }
}

impl Clone for Item {
    fn clone(&self) -> (out: Self)
        ensures
            out.deep_view() == self.deep_view(),
    {
        let action = match &self.action {
            Some(a) => Some(a.clone()),
            None => None,
        };
        Item { label: self.label.clone(), action, celltype: self.celltype }
    }
}

/// A named ring of items; the scroll wheel switches between menus.
pub struct PieMenu {
    pub name: String,
    pub items: Vec<Item>,
}

/// A menu by its contents.
pub struct MenuData {
    pub name: Seq<char>,
    pub items: Seq<ItemData>,
}

impl DeepView for PieMenu {
    type V = MenuData;

    open spec fn deep_view(&self) -> MenuData {
        MenuData { name: self.name@, items: self.items.deep_view() }
    }
}

pub(crate) fn clone_items(items: &Vec<Item>) -> (out: Vec<Item>)
    ensures
        out.deep_view() == items.deep_view(),
{
    let mut out: Vec<Item> = Vec::new();
    let mut i: usize = 0;
    while i < items.len()
        invariant
            i <= items@.len(),
            out.deep_view() == items.deep_view().take(i as int),
        decreases items@.len() - i,
    {
        out.push(items[i].clone());
        assert(items.deep_view().take(i + 1) =~= items.deep_view().take(i as int).push(
            items@[i as int].deep_view(),
        ));
        assert(out.deep_view() =~= items.deep_view().take(i + 1));
        i += 1;
    }
    assert(items.deep_view().take(items@.len() as int) =~= items.deep_view());
    out
}

impl Clone for PieMenu {
    fn clone(&self) -> (out: Self)
        ensures
            out.deep_view() == self.deep_view(),
    {
        PieMenu { name: self.name.clone(), items: clone_items(&self.items) }
    }
}

pub(crate) fn clone_menus(menus: &Vec<PieMenu>) -> (out: Vec<PieMenu>)
    ensures
        out.deep_view() == menus.deep_view(),
{
    let mut out: Vec<PieMenu> = Vec::new();
    let mut i: usize = 0;
    while i < menus.len()
        invariant
            i <= menus@.len(),
            out.deep_view() == menus.deep_view().take(i as int),
        decreases menus@.len() - i,
    {
        out.push(menus[i].clone());
        assert(menus.deep_view().take(i + 1) =~= menus.deep_view().take(i as int).push(
            menus@[i as int].deep_view(),
        ));
        assert(out.deep_view() =~= menus.deep_view().take(i + 1));
        i += 1;
    }
    assert(menus.deep_view().take(menus@.len() as int) =~= menus.deep_view());
    out
}

/// Everything the launcher keeps between runs.
pub struct AppConfig {
    pub mode: ConfigMode,
    pub menus: Vec<PieMenu>,
    pub colors: Colors,
}

/// A configuration by its contents.
pub struct ConfigData {
    pub mode: ConfigMode,
    pub menus: Seq<MenuData>,
    pub colors: Colors,
}

impl DeepView for AppConfig {
    type V = ConfigData;

    open spec fn deep_view(&self) -> ConfigData {
        ConfigData { mode: self.mode, menus: self.menus.deep_view(), colors: self.colors }
    }
}

impl Clone for AppConfig {
    fn clone(&self) -> (out: Self)
        ensures
            out.deep_view() == self.deep_view(),
    {
        AppConfig { mode: self.mode, menus: clone_menus(&self.menus), colors: self.colors }
    }
}

/// An item that only shows a label.
pub open spec fn node_spec(label: Seq<char>) -> ItemData {
    ItemData { label, action: None, celltype: CellType::Normal }
}

fn node(label: &str) -> (item: Item)
    ensures
        item.deep_view() == node_spec(label@),
{
    Item { label: String::from_str(label), action: None, celltype: CellType::Normal }
}

/// The menus a fresh configuration has: an edit menu and a window menu.
pub open spec fn default_menus_spec() -> Seq<MenuData> {
    seq![
        MenuData {
            name: "EDIT"@,
            items: seq![
                node_spec("Copy"@),
                node_spec("Paste"@),
                node_spec("Cut"@),
                node_spec("Undo"@),
            ],
        },
        MenuData {
            name: "WINDOW"@,
            items: seq![node_spec("Minimize"@), node_spec("Maximize"@), node_spec("Close"@)],
        },
    ]
}

/// all menus i guess
pub fn default_menus() -> (menus: Vec<PieMenu>)
    ensures
        menus.deep_view() == default_menus_spec(),
{
    let mut edit: Vec<Item> = Vec::new();
    edit.push(node("Copy"));
    edit.push(node("Paste"));
    edit.push(node("Cut"));
    edit.push(node("Undo"));
    let mut window: Vec<Item> = Vec::new();
    window.push(node("Minimize"));
    window.push(node("Maximize"));
    window.push(node("Close"));
    let mut menus: Vec<PieMenu> = Vec::new();
    menus.push(PieMenu { name: String::from_str("EDIT"), items: edit });
    menus.push(PieMenu { name: String::from_str("WINDOW"), items: window });
    proof {
        assert(menus@[0].items.deep_view() =~= default_menus_spec()[0].items);
        assert(menus@[1].items.deep_view() =~= default_menus_spec()[1].items);
        assert(menus.deep_view() =~= default_menus_spec());
    }
    menus
}

/// The configuration of a first run.
pub open spec fn default_config_spec() -> ConfigData {
    ConfigData { mode: ConfigMode::Auto, menus: default_menus_spec(), colors: Colors::default_spec() }
}

impl Default for AppConfig {
    fn default() -> (config: Self)
        ensures
            config.deep_view() == default_config_spec(),
    {
        AppConfig { mode: ConfigMode::Auto, menus: default_menus(), colors: Colors::default_theme() }
    }
}

} // verus!
