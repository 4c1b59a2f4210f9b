//! The editing operations of the settings window: adding and removing menus
//! and items, the inline form that creates an item, the quick editor, the
//! colors of the theme and the choice of editor.

use vstd::prelude::*;

use crate::actions::{
    clone_keys, run_command, run_keystrokes, Action, ActionView, CellType, Effect, EffectView,
    Platform, command_plan_spec, keystrokes_spec,
};
use crate::config::{AppConfig, Colors, ConfigMode, Item, ItemData, MenuData, PieMenu, clone_items};
use crate::input::{Recorder, RecorderModel, recording_started, start_recording, stop_recording, stop_step};
use crate::keys::{Key, KeyView};
use crate::text::{
    chars_of, decimal, format_decimal, leading_count, parse_u32_radix, parse_unsigned,
    trim, trim_chars, trim_start_matches,
};
use vstd::string::StringExecFns;

verus! {

/// The delay, in milliseconds, a macro gets when its delay field holds no
/// number.
pub const DEFAULT_DELAY: u32 = 50;

/// The delay a macro's delay field gives: the number it holds, surrounding
/// whitespace aside, else the default.
pub open spec fn parse_delay_spec(text: Seq<char>) -> u32 {
    match parse_unsigned(trim(text), 10) {
        Some(v) => v,
        None => DEFAULT_DELAY,
    }
}

/// Reads a macro's delay field.
pub fn parse_delay(text: &str) -> (delay: u32)
    ensures
        delay == parse_delay_spec(text@),
{
    let chars = chars_of(text);
    let trimmed = trim_chars(chars.as_slice());
    match parse_u32_radix(trimmed.as_slice(), 10) {
        Some(v) => v,
        None => DEFAULT_DELAY,
    }
}

/// The color a picker's hex text gives: the hexadecimal number after the
/// leading `#`s, else black.
pub open spec fn color_value_spec(hex: Seq<char>) -> u32 {
    match parse_unsigned(hex.skip(leading_count(hex, '#') as int), 16) {
        Some(v) => v,
        None => 0,
    }
}

/// Reads a color picker's hex text, such as `#1e1e2e`.
pub fn color_value(hex: &str) -> (value: u32)
    ensures
        value == color_value_spec(hex@),
{
    let chars = chars_of(hex);
    let digits = trim_start_matches(chars.as_slice(), '#');
    match parse_u32_radix(digits.as_slice(), 16) {
        Some(v) => v,
        None => 0,
    }
}

/// node kinds a menu can hold
#[derive(Clone, Copy, Debug, PartialEq, Eq, Structural)]
pub enum NodeKind {
    Command,
    App,
    Macro,
}

impl NodeKind {
    /// The kind at a position of the kind tabs.
    pub open spec fn from_index_spec(ix: int) -> NodeKind {
        if ix == 0 {
            NodeKind::Command
        } else if ix == 1 {
            NodeKind::App
        } else {
            NodeKind::Macro
        }
    }

    /// The position of a kind among the kind tabs.
    pub open spec fn index_spec(self) -> int {
        match self {
            NodeKind::Command => 0,
            NodeKind::App => 1,
            NodeKind::Macro => 2,
        }
    }

    /// The kind at a position of the kind tabs.
    pub fn from_index(ix: usize) -> (k: NodeKind)
        requires
            ix < 3,
        ensures
            k == NodeKind::from_index_spec(ix as int),
    {
        if ix == 0 {
            NodeKind::Command
        } else if ix == 1 {
            NodeKind::App
        } else {
            NodeKind::Macro
        }
    }

    /// The position of this kind among the kind tabs.
    pub fn index(self) -> (ix: usize)
        ensures
            ix == self.index_spec(),
    {
        match self {
            NodeKind::Command => 0,
            NodeKind::App => 1,
            NodeKind::Macro => 2,
        }
    }

    /// The tab label of this kind.
    pub fn label(self) -> (s: &'static str)
        ensures
            s@ == (match self {
                NodeKind::Command => "Command"@,
                NodeKind::App => "App"@,
                NodeKind::Macro => "Macro"@,
            }),
    {
        match self {
            NodeKind::Command => "Command",
            NodeKind::App => "App",
            NodeKind::Macro => "Macro",
        }
    }
}

/// inline create form bound to a single menu
pub struct NodeForm {
    pub menu_ix: usize,
    pub kind: NodeKind,
    pub show_terminal: bool,
    pub recording: bool,
    pub keys: Vec<Key>,
}

/// A form by its contents.
pub struct FormData {
    pub menu_ix: usize,
    pub kind: NodeKind,
    pub show_terminal: bool,
    pub recording: bool,
    pub keys: Seq<KeyView>,
}

impl DeepView for NodeForm {
    type V = FormData;

    open spec fn deep_view(&self) -> FormData {
        FormData {
            menu_ix: self.menu_ix,
            kind: self.kind,
            show_terminal: self.show_terminal,
            recording: self.recording,
            keys: self.keys.deep_view(),
        }
    }
}

/// Which parts the form shows.
#[derive(Clone, Copy, Debug, PartialEq, Eq, Structural)]
pub struct FormSections {
    /// the record button, the delay field and the captured keys
    pub key_recorder: bool,
    /// the command or path field
    pub detail_input: bool,
    pub terminal_switch: bool,
    pub browse_button: bool,
}

/// Whether the form cannot create its item: a macro needs captured keys and
/// a finished recording, the other kinds a command or path.
pub open spec fn form_invalid_spec(f: FormData, detail: Seq<char>) -> bool {
    match f.kind {
        NodeKind::Macro => f.recording || f.keys.len() == 0,
        _ => detail.len() == 0,
    }
}

/// The item the form creates, if it can create one.
pub open spec fn new_item_spec(f: FormData, label: Seq<char>, detail: Seq<char>, delay: Seq<char>) -> Option<
    ItemData,
> {
    let name = if label.len() == 0 {
        detail
    } else {
        label
    };
    let action = match f.kind {
        NodeKind::Command => Some(ActionView::Command { cmd: detail, show_terminal: f.show_terminal }),
        NodeKind::App => Some(ActionView::App { path: detail }),
        NodeKind::Macro => if f.recording || f.keys.len() == 0 {
            None
        } else {
            Some(ActionView::Macro { keys: f.keys, delay: parse_delay_spec(delay) })
        },
    };
    match action {
        Some(a) => Some(ItemData { label: name, action: Some(a), celltype: CellType::Normal }),
        None => None,
    }
}

/// What the form's test button runs.
pub open spec fn test_effect_spec(f: FormData, detail: Seq<char>, delay: Seq<char>, platform: Platform) -> EffectView {
    match f.kind {
        NodeKind::Command => match command_plan_spec(detail, f.show_terminal, platform) {
            Some(p) => EffectView::Spawn(p),
            None => EffectView::Nothing,
        },
        NodeKind::App => EffectView::Open(detail),
        // replay the captured keys so they can be checked before saving
        NodeKind::Macro => EffectView::Strokes(keystrokes_spec(f.keys, parse_delay_spec(delay))),
    }
}

impl NodeForm {
    /// A fresh form for menu `menu_ix`, set to create a command.
    pub fn new(menu_ix: usize) -> (f: NodeForm)
        ensures
            f.deep_view() == (FormData {
                menu_ix,
                kind: NodeKind::Command,
                show_terminal: false,
                recording: false,
                keys: Seq::empty(),
            }),
    {
        let f = NodeForm {
            menu_ix,
            kind: NodeKind::Command,
            show_terminal: false,
            recording: false,
            keys: Vec::new(),
        };
        assert(f.keys.deep_view() =~= Seq::<KeyView>::empty());
        f
    }

    /// Whether the form cannot create its item yet, given the text of its
    /// command or path field.
    pub fn invalid(&self, detail: &str) -> (b: bool)
        ensures
            b == form_invalid_spec(self.deep_view(), detail@),
    {
        match self.kind {
            NodeKind::Macro => self.recording || self.keys.len() == 0,
            _ => detail.unicode_len() == 0,
        }
    }

    /// Which parts the form shows for its kind.
    pub fn sections(&self) -> (s: FormSections)
        ensures
            s == (FormSections {
                key_recorder: self.kind == NodeKind::Macro,
                detail_input: self.kind != NodeKind::Macro,
                terminal_switch: self.kind == NodeKind::Command,
                browse_button: self.kind == NodeKind::App,
            }),
    {
        FormSections {
            key_recorder: self.kind == NodeKind::Macro,
            detail_input: self.kind != NodeKind::Macro,
            terminal_switch: self.kind == NodeKind::Command,
            browse_button: self.kind == NodeKind::App,
        }
    }

    /// The item the form creates from the texts of its label, detail and
    /// delay fields, if it can create one.
    pub fn build_item(&self, label: &str, detail: &str, delay: &str) -> (item: Option<Item>)
        ensures
            item.deep_view() == new_item_spec(self.deep_view(), label@, detail@, delay@),
    {
        let name = if label.unicode_len() == 0 {
            String::from_str(detail)
        } else {
            String::from_str(label)
        };
        let action = match self.kind {
            NodeKind::Command => Action::Command {
                cmd: String::from_str(detail),
                show_terminal: self.show_terminal,
            },
            NodeKind::App => Action::App { path: String::from_str(detail) },
            NodeKind::Macro => {
                if self.recording || self.keys.len() == 0 {
                    return None;
                }
                Action::Macro { keys: clone_keys(&self.keys), delay: parse_delay(delay) }
            },
        };
        Some(Item { label: name, action: Some(action), celltype: CellType::Normal })
    }

    /// What the test button runs, given the texts of the detail and delay
    /// fields.
    pub fn test_node(&self, detail: &str, delay: &str, platform: Platform) -> (effect: Effect)
        ensures
            effect.deep_view() == test_effect_spec(self.deep_view(), detail@, delay@, platform),
    {
        match self.kind {
            NodeKind::Command => match run_command(detail, self.show_terminal, platform) {
                Some(p) => Effect::Spawn(p),
                None => Effect::Nothing,
            },
            NodeKind::App => Effect::Open(String::from_str(detail)),
            NodeKind::Macro => {
                let delay = parse_delay(delay);
                Effect::Strokes(run_keystrokes(self.keys.as_slice(), delay))
            },
        }
    }
}


/// The name a new menu gets when there are `count` menus already.
pub open spec fn new_menu_name(count: nat) -> Seq<char> {
    "MENU "@ + decimal(count + 1)
}

/// The menus with `item` appended to menu `ix`.
pub open spec fn push_item_spec(menus: Seq<MenuData>, ix: int, item: ItemData) -> Seq<MenuData> {
    menus.update(ix, MenuData { items: menus[ix].items.push(item), ..menus[ix] })
}

/// The menus with item `node` of menu `ix` taken out.
pub open spec fn remove_item_spec(menus: Seq<MenuData>, ix: int, node: int) -> Seq<MenuData> {
    menus.update(ix, MenuData { items: menus[ix].items.remove(node), ..menus[ix] })
}

/// Appends `item` to menu `ix`.
pub fn push_item(config: &mut AppConfig, ix: usize, item: Item)
    requires
        ix < old(config).menus@.len(),
    ensures
        final(config).menus.deep_view() == push_item_spec(
            old(config).menus.deep_view(),
            ix as int,
            item.deep_view(),
        ),
        final(config).mode == old(config).mode,
        final(config).colors == old(config).colors,
{
    let ghost before = config.menus.deep_view();
    let mut menu = config.menus.remove(ix);
    let ghost items_before = menu.items.deep_view();
    menu.items.push(item);
    assert(menu.items.deep_view() =~= items_before.push(item.deep_view()));
    config.menus.insert(ix, menu);
    assert(config.menus.deep_view() =~= push_item_spec(before, ix as int, item.deep_view()));
}

/// Takes item `node` out of menu `ix`.
pub fn remove_item(config: &mut AppConfig, ix: usize, node: usize)
    requires
        ix < old(config).menus@.len(),
        node < old(config).menus@[ix as int].items@.len(),
    ensures
        final(config).menus.deep_view() == remove_item_spec(
            old(config).menus.deep_view(),
            ix as int,
            node as int,
        ),
        final(config).mode == old(config).mode,
        final(config).colors == old(config).colors,
{
    let ghost before = config.menus.deep_view();
    let mut menu = config.menus.remove(ix);
    let ghost items_before = menu.items.deep_view();
    menu.items.remove(node);
    assert(menu.items.deep_view() =~= items_before.remove(node as int));
    config.menus.insert(ix, menu);
    assert(config.menus.deep_view() =~= remove_item_spec(before, ix as int, node as int));
}

/// The editor of the menus: which menu is unfolded and the create form, if
/// one is open.
pub struct MenusEditor {
    pub open: Option<usize>,
    pub form: Option<NodeForm>,
}

impl MenusEditor {
    /// The first menu unfolded, no form.
    pub fn new() -> (e: MenusEditor)
        ensures
            e.open == Some(0usize),
            e.form is None,
    {
        MenusEditor { open: Some(0), form: None }
    }

    /// Appends an empty menu named after its position and unfolds it.
    pub fn add_menu(&mut self, config: &mut AppConfig)
        requires
            old(config).menus@.len() < usize::MAX,
        ensures
            final(config).menus.deep_view() == old(config).menus.deep_view().push(
                MenuData { name: new_menu_name(old(config).menus@.len()), items: Seq::empty() },
            ),
            final(config).mode == old(config).mode,
            final(config).colors == old(config).colors,
            final(self).open == Some(old(config).menus@.len() as usize),
            final(self).form is None,
    {
        let count = config.menus.len();
        let mut name = String::from_str("MENU ");
        let number = format_decimal((count + 1) as u64);
        name.append(number.as_str());
        let menu = PieMenu { name, items: Vec::new() };
        assert(menu.items.deep_view() =~= Seq::<ItemData>::empty());
        let ghost before = config.menus.deep_view();
        config.menus.push(menu);
        assert(config.menus.deep_view() =~= before.push(menu.deep_view()));
        self.open = Some(count);
        self.form = None;
    }

    /// Removes menu `menu_ix`, folding everything.
    pub fn remove_menu(&mut self, config: &mut AppConfig, menu_ix: usize)
        requires
            menu_ix < old(config).menus@.len(),
        ensures
            final(config).menus.deep_view() == old(config).menus.deep_view().remove(menu_ix as int),
            final(config).mode == old(config).mode,
            final(config).colors == old(config).colors,
            final(self).open is None,
            final(self).form is None,
    {
        let ghost before = config.menus.deep_view();
        config.menus.remove(menu_ix);
        assert(config.menus.deep_view() =~= before.remove(menu_ix as int));
        self.open = None;
        self.form = None;
    }

    /// Removes item `node_ix` of menu `menu_ix`.
    pub fn remove_node(&mut self, config: &mut AppConfig, menu_ix: usize, node_ix: usize)
        requires
            menu_ix < old(config).menus@.len(),
            node_ix < old(config).menus@[menu_ix as int].items@.len(),
        ensures
            final(config).menus.deep_view() == remove_item_spec(
                old(config).menus.deep_view(),
                menu_ix as int,
                node_ix as int,
            ),
            final(config).mode == old(config).mode,
            final(config).colors == old(config).colors,
            final(self).open == old(self).open,
            final(self).form == old(self).form,
    {
        remove_item(config, menu_ix, node_ix);
    }

    /// Opens a fresh form under menu `menu_ix`.
    pub fn open_form(&mut self, menu_ix: usize)
        ensures
            final(self).open == old(self).open,
            final(self).form matches Some(f) && f.deep_view() == (FormData {
                menu_ix,
                kind: NodeKind::Command,
                show_terminal: false,
                recording: false,
                keys: Seq::empty(),
            }),
    {
        self.form = Some(NodeForm::new(menu_ix));
    }

    /// Switches the form to the kind at tab `ix`; a running recording stops
    /// and its keys stay with the form.
    pub fn set_kind(&mut self, ix: usize, recorder: &mut Recorder)
        requires
            ix < 3,
        ensures
            final(self).open == old(self).open,
            match old(self).form {
                None => final(self).form is None && final(recorder)@ == old(recorder)@,
                Some(f) => final(self).form matches Some(g) && {
                    let fv = f.deep_view();
                    let gv = g.deep_view();
                    &&& gv.kind == NodeKind::from_index_spec(ix as int)
                    &&& gv.menu_ix == fv.menu_ix
                    &&& gv.show_terminal == fv.show_terminal
                    &&& !gv.recording
                    &&& if fv.recording {
                        (final(recorder)@, gv.keys) == stop_step(old(recorder)@)
                    } else {
                        gv.keys == fv.keys && final(recorder)@ == old(recorder)@
                    }
                },
            },
    {
        match self.form.take() {
            None => {},
            Some(mut form) => {
                if form.recording {
                    form.keys = stop_recording(recorder);
                    form.recording = false;
                }
                form.kind = NodeKind::from_index(ix);
                self.form = Some(form);
            },
        }
    }

    /// Closes the form, stopping any recording.
    pub fn close_form(&mut self, recorder: &mut Recorder)
        ensures
            final(self).open == old(self).open,
            final(self).form is None,
            final(recorder)@ == stop_step(old(recorder)@).0,
    {
        stop_recording(recorder);
        self.form = None;
    }

    /// Starts a recording, or stops the running one and keeps its keys.
    pub fn toggle_recording(&mut self, recorder: &mut Recorder)
        ensures
            final(self).open == old(self).open,
            match old(self).form {
                None => final(self).form is None && final(recorder)@ == old(recorder)@,
                Some(f) => final(self).form matches Some(g) && {
                    let fv = f.deep_view();
                    let gv = g.deep_view();
                    &&& gv.kind == fv.kind
                    &&& gv.menu_ix == fv.menu_ix
                    &&& gv.show_terminal == fv.show_terminal
                    &&& gv.recording == !fv.recording
                    &&& if gv.recording {
                        gv.keys == Seq::<KeyView>::empty() && final(recorder)@ == recording_started()
                    } else {
                        (final(recorder)@, gv.keys) == stop_step(old(recorder)@)
                    }
                },
            },
    {
        match self.form.take() {
            None => {},
            Some(mut form) => {
                form.recording = !form.recording;
                if form.recording {
                    start_recording(recorder);
                    form.keys = Vec::new();
                    assert(form.keys.deep_view() =~= Seq::<KeyView>::empty());
                } else {
                    form.keys = stop_recording(recorder);
                }
                self.form = Some(form);
            },
        }
    }

    /// Sets the form's show-terminal switch.
    pub fn set_show_terminal(&mut self, checked: bool)
        ensures
            final(self).open == old(self).open,
            match old(self).form {
                None => final(self).form is None,
                Some(f) => final(self).form matches Some(g) && g.deep_view() == (FormData {
                    show_terminal: checked,
                    ..f.deep_view()
                }),
            },
    {
        match self.form.take() {
            None => {},
            Some(mut form) => {
                form.show_terminal = checked;
                self.form = Some(form);
            },
        }
    }

    /// Creates the form's item from the texts of its fields and appends it
    /// to the form's menu; the form closes and any recording stops. Gives the
    /// path of an app, whose icon is to be fetched.
    pub fn create_node(
        &mut self,
        config: &mut AppConfig,
        recorder: &mut Recorder,
        label: &str,
        detail: &str,
        delay: &str,
    ) -> (exe: Option<String>)
        requires
            old(self).form matches Some(f) ==> (new_item_spec(f.deep_view(), label@, detail@, delay@) is Some
                ==> f.menu_ix < old(config).menus@.len()),
        ensures
            final(self).open == old(self).open,
            final(config).mode == old(config).mode,
            final(config).colors == old(config).colors,
            match old(self).form {
                None => {
                    &&& final(self).form is None
                    &&& final(config).menus.deep_view() == old(config).menus.deep_view()
                    &&& final(recorder)@ == old(recorder)@
                    &&& exe is None
                },
                Some(f) => {
                    &&& final(self).form is None
                    &&& final(recorder)@ == stop_step(old(recorder)@).0
                    &&& match new_item_spec(f.deep_view(), label@, detail@, delay@) {
                        Some(item) => final(config).menus.deep_view() == push_item_spec(
                            old(config).menus.deep_view(),
                            f.menu_ix as int,
                            item,
                        ),
                        None => final(config).menus.deep_view() == old(config).menus.deep_view(),
                    }
                    &&& match exe {
                        Some(p) => f.kind == NodeKind::App && p@ == detail@,
                        None => f.kind != NodeKind::App,
                    }
                },
            },
    {
        let form = match self.form.take() {
            Some(f) => f,
            None => return None,
        };
        stop_recording(recorder);
        match form.build_item(label, detail, delay) {
            Some(item) => {
                push_item(config, form.menu_ix, item);
                // pull the exe icon in the background, repaint once it lands
                if form.kind == NodeKind::App {
                    Some(String::from_str(detail))
                } else {
                    None
                }
            },
            None => None,
        }
    }

    /// Whether menu `mi` is unfolded.
    pub fn is_expanded(&self, mi: usize) -> (b: bool)
        ensures
            b == (self.open == Some(mi)),
    {
        match self.open {
            Some(o) => o == mi,
            None => false,
        }
    }

    /// Whether the form shows under menu `mi`.
    pub fn shows_form_under(&self, mi: usize) -> (b: bool)
        ensures
            b == (self.form matches Some(f) && f.menu_ix == mi),
    {
        match &self.form {
            Some(f) => f.menu_ix == mi,
            None => false,
        }
    }
}

/// The caption under a menu's name: how many items it holds.
pub open spec fn node_count_caption_spec(count: nat) -> Seq<char> {
    decimal(count) + " nodes"@
}

/// The caption under a menu's name.
pub fn node_count_caption(menu: &PieMenu) -> (s: String)
    ensures
        s@ == node_count_caption_spec(menu.items@.len()),
{
    let mut s = format_decimal(menu.items.len() as u64);
    s.append(" nodes");
    s
}


/// All items of all menus, menu after menu.
pub open spec fn all_items_spec(menus: Seq<MenuData>) -> Seq<ItemData>
    decreases menus.len(),
{
    if menus.len() == 0 {
        Seq::empty()
    } else {
        all_items_spec(menus.drop_last()) + menus.last().items
    }
}

/// The quick editor adds to the first menu, creating one named `MENU` when
/// there is none.
pub open spec fn auto_add_spec(menus: Seq<MenuData>, item: ItemData) -> Seq<MenuData> {
    let base = if menus.len() == 0 {
        seq![MenuData { name: "MENU"@, items: Seq::empty() }]
    } else {
        menus
    };
    push_item_spec(base, 0, item)
}

/// The quick editor deletes from the first menu, where it has an item `ix`.
pub open spec fn auto_delete_spec(menus: Seq<MenuData>, ix: int) -> Seq<MenuData> {
    if menus.len() > 0 && 0 <= ix < menus[0].items.len() {
        remove_item_spec(menus, 0, ix)
    } else {
        menus
    }
}

/// The quick editor of the menus: it lists every item and adds to and
/// deletes from the first menu.
pub struct AutoEditor;

impl AutoEditor {
    /// Appends `item` to the first menu.
    pub fn add_item(config: &mut AppConfig, item: Item)
        ensures
            final(config).menus.deep_view() == auto_add_spec(old(config).menus.deep_view(), item.deep_view()),
            final(config).mode == old(config).mode,
            final(config).colors == old(config).colors,
    {
        let ghost before = config.menus.deep_view();
        if config.menus.len() == 0 {
            let menu = PieMenu { name: String::from_str("MENU"), items: Vec::new() };
            assert(menu.items.deep_view() =~= Seq::<ItemData>::empty());
            config.menus.push(menu);
            assert(config.menus.deep_view() =~= seq![MenuData { name: "MENU"@, items: Seq::empty() }]);
        }
        push_item(config, 0, item);
    }

    /// Deletes item `ix` of the first menu, if there is one.
    pub fn delete_item(config: &mut AppConfig, ix: usize)
        ensures
            final(config).menus.deep_view() == auto_delete_spec(old(config).menus.deep_view(), ix as int),
            final(config).mode == old(config).mode,
            final(config).colors == old(config).colors,
    {
        if config.menus.len() > 0 && ix < config.menus[0].items.len() {
            remove_item(config, 0, ix);
        }
    }

    /// The rows the quick editor lists: every item of every menu.
    pub fn all_items(config: &AppConfig) -> (items: Vec<Item>)
        ensures
            items.deep_view() == all_items_spec(config.menus.deep_view()),
    {
        let mut items: Vec<Item> = Vec::new();
        let mut i: usize = 0;
        while i < config.menus.len()
            invariant
                i <= config.menus@.len(),
                items.deep_view() == all_items_spec(config.menus.deep_view().take(i as int)),
            decreases config.menus@.len() - i,
        {
            let ghost before = items.deep_view();
            let menu_items = clone_items(&config.menus[i].items);
            let mut j: usize = 0;
            while j < menu_items.len()
                invariant
                    j <= menu_items@.len(),
                    items.deep_view() == before + menu_items.deep_view().take(j as int),
                decreases menu_items@.len() - j,
            {
                let it = menu_items[j].clone();
                let ghost prev = items.deep_view();
                items.push(it);
                assert(items.deep_view() =~= prev.push(it.deep_view()));
                assert(menu_items.deep_view().take(j + 1) =~= menu_items.deep_view().take(
                    j as int,
                ).push(menu_items@[j as int].deep_view()));
                assert(items.deep_view() =~= before + menu_items.deep_view().take(j + 1));
                j += 1;
            }
            proof {
                let t = config.menus.deep_view().take(i + 1);
                assert(t.drop_last() =~= config.menus.deep_view().take(i as int));
                assert(menu_items.deep_view().take(menu_items@.len() as int) =~= menu_items.deep_view());
            }
            i += 1;
        }
        assert(config.menus.deep_view().take(config.menus@.len() as int) =~= config.menus.deep_view());
        items
    }
}

/// which color of the theme a picker edits
#[derive(Clone, Copy, Debug, PartialEq, Eq, Structural)]
pub enum Slot {
    Arc,
    Surface,
    SurfaceHover,
    Text,
}

impl Slot {
    /// The color of the theme this slot names.
    pub open spec fn get_spec(self, c: Colors) -> u32 {
        match self {
            Slot::Arc => c.arc,
            Slot::Surface => c.surface,
            Slot::SurfaceHover => c.surface_hover,
            Slot::Text => c.text,
        }
    }

    /// The theme with the color this slot names replaced.
    pub open spec fn set_spec(self, c: Colors, value: u32) -> Colors {
        match self {
            Slot::Arc => Colors { arc: value, ..c },
            Slot::Surface => Colors { surface: value, ..c },
            Slot::SurfaceHover => Colors { surface_hover: value, ..c },
            Slot::Text => Colors { text: value, ..c },
        }
    }

    /// The slots in the order the appearance tab lists them.
    pub fn all() -> (slots: Vec<Slot>)
        ensures
            slots@ == seq![Slot::Arc, Slot::Surface, Slot::SurfaceHover, Slot::Text],
    {
        let v = vec![Slot::Arc, Slot::Surface, Slot::SurfaceHover, Slot::Text];
        assert(v@ =~= seq![Slot::Arc, Slot::Surface, Slot::SurfaceHover, Slot::Text]);
        v
    }

    /// The label the appearance tab shows for this slot.
    pub fn label(self) -> (s: &'static str)
        ensures
            s@ == (match self {
                Slot::Arc => "Arc"@,
                Slot::Surface => "Surface"@,
                Slot::SurfaceHover => "Surface Hover"@,
                Slot::Text => "Text"@,
            }),
    {
        match self {
            Slot::Arc => "Arc",
            Slot::Surface => "Surface",
            Slot::SurfaceHover => "Surface Hover",
            Slot::Text => "Text",
        }
    }

    /// The color this slot names.
    pub fn get(self, colors: &Colors) -> (v: u32)
        ensures
            v == self.get_spec(*colors),
    {
        match self {
            Slot::Arc => colors.arc,
            Slot::Surface => colors.surface,
            Slot::SurfaceHover => colors.surface_hover,
            Slot::Text => colors.text,
        }
    }

    /// Replaces the color this slot names.
    pub fn set(self, colors: &mut Colors, value: u32)
        ensures
            *final(colors) == self.set_spec(*old(colors), value),
    {
        match self {
            Slot::Arc => colors.arc = value,
            Slot::Surface => colors.surface = value,
            Slot::SurfaceHover => colors.surface_hover = value,
            Slot::Text => colors.text = value,
        }
    }
}

/// A color picker of the appearance tab changed to the color with hex text
/// `hex`.
pub fn on_color_change(config: &mut AppConfig, slot: Slot, hex: &str)
    ensures
        final(config).colors == slot.set_spec(old(config).colors, color_value_spec(hex@)),
        final(config).mode == old(config).mode,
        final(config).menus.deep_view() == old(config).menus.deep_view(),
{
    let value = color_value(hex);
    slot.set(&mut config.colors, value);
}

/// The editor a tab of the config tab bar selects: the first is the quick
/// editor, any other the text editor.
pub open spec fn mode_for_tab_spec(index: int) -> ConfigMode {
    if index == 0 {
        ConfigMode::Auto
    } else {
        ConfigMode::Manual
    }
}

/// The editor a tab of the config tab bar selects.
pub fn mode_for_tab(index: usize) -> (m: ConfigMode)
    ensures
        m == mode_for_tab_spec(index as int),
{
    if index == 0 {
        ConfigMode::Auto
    } else {
        ConfigMode::Manual
    }
}

/// The tab of the config tab bar that shows an editor.
pub open spec fn tab_for_mode_spec(mode: ConfigMode) -> int {
    match mode {
        ConfigMode::Auto => 0,
        ConfigMode::Manual => 1,
    }
}

/// The tab of the config tab bar that shows an editor.
pub fn tab_for_mode(mode: ConfigMode) -> (index: usize)
    ensures
        index == tab_for_mode_spec(mode),
{
    match mode {
        ConfigMode::Auto => 0,
        ConfigMode::Manual => 1,
    }
}

/// A tab of the config tab bar was clicked: the configuration remembers the
/// editor chosen.
pub fn select_mode(config: &mut AppConfig, index: usize) -> (m: ConfigMode)
    ensures
        m == mode_for_tab_spec(index as int),
        final(config).mode == m,
        final(config).menus.deep_view() == old(config).menus.deep_view(),
        final(config).colors == old(config).colors,
{
    let m = mode_for_tab(index);
    config.mode = m;
    m
}

/// The text editor parsed its contents: menus replace the configured ones,
/// an error is kept to be shown and the configuration stays.
pub fn try_apply(config: &mut AppConfig, parsed: Result<Vec<PieMenu>, String>) -> (error: Option<
    String,
>)
    ensures
        final(config).mode == old(config).mode,
        final(config).colors == old(config).colors,
        match parsed {
            Ok(menus) => error is None && final(config).menus.deep_view() == menus.deep_view(),
            Err(e) => error == Some(e) && final(config).menus.deep_view()
                == old(config).menus.deep_view(),
        },
{
    match parsed {
        Ok(menus) => {
            config.menus = menus;
            None
        },
        Err(e) => Some(e),
    }
}

/// schedules an editor refresh when the quick editor changed the menus: the
/// serialized menus wait to be pushed into the text editor unless it shows
/// them already or a refresh waits already
pub fn queue_sync(pending: &mut Option<String>, editor_text: &str, json: String)
    ensures
        if editor_text@ != json@ && *old(pending) is None {
            *final(pending) == Some(json)
        } else {
            *final(pending) == *old(pending)
        },
{
    if pending.is_none() {
        let current = String::from_str(editor_text);
        if !(current == json) {
            *pending = Some(json);
        }
    }
}

/// The item the command dialog creates.
pub fn command_item(label: &str, command: &str) -> (item: Item)
    ensures
        item.deep_view() == (ItemData {
            label: label@,
            action: Some(ActionView::Command { cmd: command@, show_terminal: false }),
            celltype: CellType::Normal,
        }),
{
    Item {
        label: String::from_str(label),
        action: Some(Action::Command { cmd: String::from_str(command), show_terminal: false }),
        celltype: CellType::Normal,
    }
}

/// The item the app dialog creates.
pub fn app_item(label: &str, path: &str) -> (item: Item)
    ensures
        item.deep_view() == (ItemData {
            label: label@,
            action: Some(ActionView::App { path: path@ }),
            celltype: CellType::Normal,
        }),
{
    Item {
        label: String::from_str(label),
        action: Some(Action::App { path: String::from_str(path) }),
        celltype: CellType::Normal,
    }
}


/// Setting a color of the theme and reading it back gives the color set; the
/// other colors stay.
pub proof fn law_slot_set_then_get(c: Colors, slot: Slot, other: Slot, value: u32)
    ensures
        slot.get_spec(slot.set_spec(c, value)) == value,
        other != slot ==> other.get_spec(slot.set_spec(c, value)) == other.get_spec(c),
{
}

/// A color picker's hex text `#` and lowercase hex digits gives back the
/// color written.
pub proof fn law_color_hex_round_trip(value: u32)
    ensures
        color_value_spec(seq!['#'] + crate::text::lower_hex(value as nat)) == value,
{
    let hex = crate::text::lower_hex(value as nat);
    crate::text::law_format_parse_round_trip(value);
    crate::text::lemma_lower_hex_digits(value as nat);
    let s = seq!['#'] + hex;
    assert(s.drop_first() =~= hex);
    assert(s[0] == '#');
    assert(leading_count(hex, '#') == 0);
    assert(leading_count(s, '#') == 1);
    assert(s.skip(1) =~= hex);
}

/// The tab that shows an editor selects that editor again.
pub proof fn law_mode_tab_round_trip(mode: ConfigMode)
    ensures
        mode_for_tab_spec(tab_for_mode_spec(mode)) == mode,
{
}

/// The kind tab of a kind selects that kind again.
pub proof fn law_kind_tab_round_trip(kind: NodeKind)
    ensures
        NodeKind::from_index_spec(kind.index_spec()) == kind,
        0 <= kind.index_spec() < 3,
{
}

/// A menu added and then removed leaves the menus as they were.
pub proof fn law_add_then_remove_menu(menus: Seq<MenuData>)
    ensures
        menus.push(MenuData { name: new_menu_name(menus.len()), items: Seq::empty() }).remove(
            menus.len() as int,
        ) == menus,
{
    assert(menus.push(MenuData { name: new_menu_name(menus.len()), items: Seq::empty() }).remove(
        menus.len() as int,
    ) =~= menus);
}

/// Adding an item to a menu grows that menu by the item at its end and
/// leaves the other menus; removing it again restores the menus.
pub proof fn law_push_then_remove_item(menus: Seq<MenuData>, ix: int, item: ItemData)
    requires
        0 <= ix < menus.len(),
    ensures
        push_item_spec(menus, ix, item).len() == menus.len(),
        push_item_spec(menus, ix, item)[ix].items == menus[ix].items.push(item),
        push_item_spec(menus, ix, item)[ix].name == menus[ix].name,
        forall|j: int| 0 <= j < menus.len() && j != ix ==> push_item_spec(menus, ix, item)[j] == menus[j],
        remove_item_spec(push_item_spec(menus, ix, item), ix, menus[ix].items.len() as int) == menus,
{
    let after = remove_item_spec(push_item_spec(menus, ix, item), ix, menus[ix].items.len() as int);
    assert(menus[ix].items.push(item).remove(menus[ix].items.len() as int) =~= menus[ix].items);
    assert(after =~= menus);
}

/// The item the form creates runs what its detail field says: an app item
/// opens the path typed, a command item runs the command typed with the
/// form's terminal setting, a macro item replays the keys captured with the
/// delay typed. The label field only names the item: changing it changes no
/// action, and an empty label gives the item the detail as its name.
pub proof fn law_created_item_runs_detail(
    f: FormData,
    label: Seq<char>,
    other_label: Seq<char>,
    detail: Seq<char>,
    delay: Seq<char>,
)
    ensures
        f.kind == NodeKind::App ==> (new_item_spec(f, label, detail, delay) is Some
            && new_item_spec(f, label, detail, delay)->0.action == Some(
            ActionView::App { path: detail },
        )),
        f.kind == NodeKind::Command ==> (new_item_spec(f, label, detail, delay) is Some
            && new_item_spec(f, label, detail, delay)->0.action == Some(
            ActionView::Command { cmd: detail, show_terminal: f.show_terminal },
        )),
        (f.kind == NodeKind::Macro && !f.recording && f.keys.len() > 0) ==> (new_item_spec(
            f,
            label,
            detail,
            delay,
        ) is Some && new_item_spec(f, label, detail, delay)->0.action == Some(
            ActionView::Macro { keys: f.keys, delay: parse_delay_spec(delay) },
        )),
        new_item_spec(f, label, detail, delay) matches Some(item) ==> {
            &&& item.celltype == CellType::Normal
            &&& label.len() > 0 ==> item.label == label
            &&& label.len() == 0 ==> item.label == detail
            &&& new_item_spec(f, other_label, detail, delay) is Some
            &&& new_item_spec(f, other_label, detail, delay)->0.action == item.action
        },
{
}

/// Creating a node appends the form's item to the form's menu, after its
/// items, and changes no other menu.
pub proof fn law_created_item_lands_in_form_menu(menus: Seq<MenuData>, ix: int, item: ItemData)
    requires
        0 <= ix < menus.len(),
    ensures
        push_item_spec(menus, ix, item)[ix].items.last() == item,
        push_item_spec(menus, ix, item)[ix].items.drop_last() == menus[ix].items,
        forall|j: int| 0 <= j < menus.len() && j != ix ==> #[trigger] push_item_spec(menus, ix, item)[j] == menus[j],
{
    assert(push_item_spec(menus, ix, item)[ix].items.drop_last() =~= menus[ix].items);
}

/// A form for a macro creates nothing while it records or before it has
/// keys; the other kinds always create their item, labelled by the label
/// text or else by the command or path.
pub proof fn law_form_creates_valid_items(f: FormData, label: Seq<char>, detail: Seq<char>, delay: Seq<char>)
    ensures
        (new_item_spec(f, label, detail, delay) is None) <==> (f.kind == NodeKind::Macro && (f.recording
            || f.keys.len() == 0)),
        new_item_spec(f, label, detail, delay) matches Some(item) ==> item.label == (if label.len()
            == 0 {
            detail
        } else {
            label
        }),
{
}


/// The pages of the settings window.
#[derive(Clone, Copy, Debug, PartialEq, Eq, Structural)]
pub enum SidebarTab {
    Appearance,
    Config,
}

/// Which page the settings window shows.
#[derive(Clone, Copy, Debug, PartialEq, Eq, Structural)]
pub struct SettingsPages {
    pub tab: SidebarTab,
}

impl SettingsPages {
    /// The window opens on the appearance page.
    pub fn new() -> (p: SettingsPages)
        ensures
            p.tab == SidebarTab::Appearance,
    {
        SettingsPages { tab: SidebarTab::Appearance }
    }

    /// A sidebar entry was clicked.
    pub fn select(&mut self, tab: SidebarTab)
        ensures
            final(self).tab == tab,
    {
        self.tab = tab;
    }

    /// Whether the sidebar entry of `tab` shows as active.
    pub fn is_active(&self, tab: SidebarTab) -> (b: bool)
        ensures
            b == (self.tab == tab),
    {
        self.tab == tab
    }
}

} // verus!
