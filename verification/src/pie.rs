//! The state of the pie menu view: where it is open, which of the menus it
//! shows, and what picking an item runs.

use vstd::prelude::*;

use crate::actions::{Action, ActionView};
use crate::config::{AppConfig, MenuData};
use crate::input::MenuAction;
use vstd::string::StringExecFns;
use vstd::arithmetic::div_mod::{lemma_add_mod_noop, lemma_mod_add_multiples_vanish, lemma_small_mod};

verus! {

/// Where the pie menu is open, which menu it shows, and whether the menu and
/// the settings button are shown.
#[derive(Clone, Copy, Debug, PartialEq, Eq, Structural)]
pub struct PieMenuView {
    pub x: i32,
    pub y: i32,
    pub current_menu: usize,
    pub visible: bool,
    pub settings_visible: bool,
}

/// Which way the scroll wheel turned.
#[derive(Clone, Copy, Debug, PartialEq, Eq, Structural)]
pub enum Scroll {
    /// towards the next menu
    Down,
    /// towards the previous menu
    Up,
    Still,
}

/// The action of item `ix` of menu `menu`, if both exist and the item has one.
pub open spec fn item_action(menus: Seq<MenuData>, menu: int, ix: int) -> Option<ActionView> {
    if 0 <= menu < menus.len() && 0 <= ix < menus[menu].items.len() {
        menus[menu].items[ix].action
    } else {
        None
    }
}

/// The menu the wheel turns to among `count` menus: the next one down, the
/// previous one up, wrapping around.
pub open spec fn scroll_spec(current: int, count: int, dir: Scroll) -> int {
    if count == 0 {
        current
    } else {
        match dir {
            Scroll::Down => (current + 1) % count,
            Scroll::Up => (current + count - 1) % count,
            Scroll::Still => current,
        }
    }
}

/// The view after the menu closed.
pub open spec fn closed_view(v: PieMenuView) -> PieMenuView {
    PieMenuView { visible: false, ..v }
}

/// What the user interface is to do after an input action.
pub enum UiEffect {
    Nothing,
    /// bring the menu window to the front
    Raise,
    /// run this action, away from the interface thread
    Run(Action),
    /// repaint the settings window
    RefreshSettings,
    OpenSettings,
}

/// An effect by its contents.
pub enum UiEffectView {
    Nothing,
    Raise,
    Run(ActionView),
    RefreshSettings,
    OpenSettings,
}

impl DeepView for UiEffect {
    type V = UiEffectView;

    open spec fn deep_view(&self) -> UiEffectView {
        match self {
            UiEffect::Nothing => UiEffectView::Nothing,
            UiEffect::Raise => UiEffectView::Raise,
            UiEffect::Run(a) => UiEffectView::Run(a.deep_view()),
            UiEffect::RefreshSettings => UiEffectView::RefreshSettings,
            UiEffect::OpenSettings => UiEffectView::OpenSettings,
        }
    }
}

/// The effect of running an optional action.
pub open spec fn run_effect(a: Option<ActionView>) -> UiEffectView {
    match a {
        Some(a) => UiEffectView::Run(a),
        None => UiEffectView::Nothing,
    }
}

/// The view and effect after an input action; `sector` is the item under the
/// cursor.
pub open spec fn react_spec(v: PieMenuView, menus: Seq<MenuData>, action: MenuAction, sector: int) -> (
    PieMenuView,
    UiEffectView,
) {
    match action {
        MenuAction::Open { x, y } => (PieMenuView { x, y, visible: true, ..v }, UiEffectView::Raise),
        MenuAction::Close => (
            closed_view(v),
            run_effect(
                if v.visible {
                    item_action(menus, v.current_menu as int, sector)
                } else {
                    None
                },
            ),
        ),
        MenuAction::Cancel => (closed_view(v), UiEffectView::Nothing),
        MenuAction::ShowSettingsButton => (
            PieMenuView { settings_visible: true, ..v },
            UiEffectView::Nothing,
        ),
        MenuAction::HideSettingsButton => (
            PieMenuView { settings_visible: false, ..v },
            UiEffectView::Nothing,
        ),
        MenuAction::KeysChanged => (v, UiEffectView::RefreshSettings),
        MenuAction::OpenSettings => (v, UiEffectView::OpenSettings),
    }
}

fn chosen_action(config: &AppConfig, menu: usize, ix: usize) -> (a: Option<Action>)
    ensures
        a.deep_view() == item_action(config.menus.deep_view(), menu as int, ix as int),
{
    if menu < config.menus.len() && ix < config.menus[menu].items.len() {
        match &config.menus[menu].items[ix].action {
            Some(a) => Some(a.clone()),
            None => None,
        }
    } else {
        None
    }
}

impl PieMenuView {
    /// A hidden menu showing the first of the menus.
    pub fn new() -> (v: PieMenuView)
        ensures
            v == (PieMenuView { x: 0, y: 0, current_menu: 0, visible: false, settings_visible: false }),
    {
        PieMenuView { x: 0, y: 0, current_menu: 0, visible: false, settings_visible: false }
    }

    /// The number of items of the menu shown, none if there is no such menu.
    pub fn current_item_count(&self, config: &AppConfig) -> (n: usize)
        ensures
            n == (if self.current_menu < config.menus.deep_view().len() {
                config.menus.deep_view()[self.current_menu as int].items.len()
            } else {
                0
            }),
    {
        if self.current_menu < config.menus.len() {
            config.menus[self.current_menu].items.len()
        } else {
            0
        }
    }

    /// runs the hovered item's action and closes, used on caps lock release:
    /// the action of item `sector` of the menu shown, if the menu is open
    pub fn finish(&mut self, config: &AppConfig, sector: usize) -> (a: Option<Action>)
        ensures
            *final(self) == closed_view(*old(self)),
            a.deep_view() == (if old(self).visible {
                item_action(config.menus.deep_view(), old(self).current_menu as int, sector as int)
            } else {
                None
            }),
    {
        let a = if self.visible {
            chosen_action(config, self.current_menu, sector)
        } else {
            None
        };
        self.close();
        a
    }

    /// runs a clicked item's action and closes
    pub fn pick(&mut self, config: &AppConfig, ix: usize) -> (a: Option<Action>)
        ensures
            *final(self) == closed_view(*old(self)),
            a.deep_view() == (if old(self).visible {
                item_action(config.menus.deep_view(), old(self).current_menu as int, ix as int)
            } else {
                None
            }),
    {
        self.finish(config, ix)
    }

    /// The wheel turned: switch among the `count` menus.
    pub fn handle_scroll(&mut self, count: usize, dir: Scroll)
        ensures
            final(self).current_menu == scroll_spec(old(self).current_menu as int, count as int, dir),
            *final(self) == (PieMenuView { current_menu: final(self).current_menu, ..*old(self) }),
    {
        if count == 0 {
            return;
        }
        let cur = self.current_menu;
        let r = cur % count;
        proof {
            if count > 1 {
                lemma_small_mod(1, count as nat);
            }
            lemma_small_mod((count - 1) as nat, count as nat);
        }
        match dir {
            Scroll::Down => {
                let next = if r + 1 == count {
                    0
                } else {
                    r + 1
                };
                proof {
                    lemma_add_mod_noop(cur as int, 1, count as int);
                    if count == 1 {
                        assert(1int % 1int == 0) by (nonlinear_arith);
                        assert(next == 0);
                        assert((cur + 1) % 1 == 0) by (nonlinear_arith);
                    } else if r + 1 == count {
                        lemma_mod_add_multiples_vanish(0, count as int);
                        assert(0int % (count as int) == 0);
                    } else {
                        lemma_small_mod((r + 1) as nat, count as nat);
                    }
                }
                self.current_menu = next;
            },
            Scroll::Up => {
                let prev = if r == 0 {
                    count - 1
                } else {
                    r - 1
                };
                proof {
                    lemma_add_mod_noop(cur as int, count - 1, count as int);
                    if r == 0 {
                    } else {
                        lemma_mod_add_multiples_vanish(r - 1, count as int);
                        lemma_small_mod((r - 1) as nat, count as nat);
                    }
                }
                self.current_menu = prev;
            },
            Scroll::Still => {},
        }
    }

    /// Keeps the menu shown within the `count` menus.
    pub fn clamp_current_menu(&mut self, count: usize)
        ensures
            final(self).current_menu == (if old(self).current_menu as int <= count - 1 {
                old(self).current_menu as int
            } else if count == 0 {
                0
            } else {
                count - 1
            }),
            *final(self) == (PieMenuView { current_menu: final(self).current_menu, ..*old(self) }),
    {
        let last = if count == 0 {
            0
        } else {
            count - 1
        };
        if self.current_menu > last {
            self.current_menu = last;
        }
    }

    /// Opens the menu centred at `(x, y)`.
    pub fn open_at(&mut self, x: i32, y: i32)
        ensures
            *final(self) == (PieMenuView { x, y, visible: true, ..*old(self) }),
    {
        self.x = x;
        self.y = y;
        self.visible = true;
    }

    /// Hides the menu.
    pub fn close(&mut self)
        ensures
            *final(self) == closed_view(*old(self)),
    {
        self.visible = false;
    }

    /// Shows the settings button.
    pub fn show_settings_button(&mut self)
        ensures
            *final(self) == (PieMenuView { settings_visible: true, ..*old(self) }),
    {
        self.settings_visible = true;
    }

    /// Hides the settings button.
    pub fn hide_settings_button(&mut self)
        ensures
            *final(self) == (PieMenuView { settings_visible: false, ..*old(self) }),
    {
        self.settings_visible = false;
    }

    /// Whether the window has to cover the screen: while the menu or the
    /// settings button shows.
    pub fn is_active(&self) -> (b: bool)
        ensures
            b == (self.visible || self.settings_visible),
    {
        self.visible || self.settings_visible
    }

    /// Applies an input action to the view; `sector` is the item under the
    /// cursor in the menu shown.
    pub fn react(&mut self, action: MenuAction, config: &AppConfig, sector: usize) -> (effect: UiEffect)
        ensures
            (*final(self), effect.deep_view()) == react_spec(
                *old(self),
                config.menus.deep_view(),
                action,
                sector as int,
            ),
    {
        match action {
            MenuAction::Open { x, y } => {
                self.open_at(x, y);
                UiEffect::Raise
            },
            // releasing caps lock fires the hovered item before closing
            MenuAction::Close => match self.finish(config, sector) {
                Some(a) => UiEffect::Run(a),
                None => UiEffect::Nothing,
            },
            MenuAction::Cancel => {
                self.close();
                UiEffect::Nothing
            },
            MenuAction::ShowSettingsButton => {
                self.show_settings_button();
                UiEffect::Nothing
            },
            MenuAction::HideSettingsButton => {
                self.hide_settings_button();
                UiEffect::Nothing
            },
            MenuAction::KeysChanged => UiEffect::RefreshSettings,
            MenuAction::OpenSettings => UiEffect::OpenSettings,
        }
    }
}


/// What an entry of the tray menu asks for.
#[derive(Clone, Copy, Debug, PartialEq, Eq, Structural)]
pub enum TrayCommand {
    OpenSettings,
    Quit,
    Ignore,
}

/// The command of the tray menu entry with this id.
pub fn tray_command(id: &str) -> (c: TrayCommand)
    ensures
        c == (if id@ == "settings"@ {
            TrayCommand::OpenSettings
        } else if id@ == "quit"@ {
            TrayCommand::Quit
        } else {
            TrayCommand::Ignore
        }),
{
    let id = String::from_str(id);
    if crate::keys::text_is(&id, "settings") {
        TrayCommand::OpenSettings
    } else if crate::keys::text_is(&id, "quit") {
        TrayCommand::Quit
    } else {
        TrayCommand::Ignore
    }
}

/// Turning the wheel one step down and one step up (or up, then down) comes
/// back to the menu one started from.
pub proof fn law_scroll_round_trip(current: int, count: int)
    requires
        0 <= current < count,
    ensures
        scroll_spec(scroll_spec(current, count, Scroll::Down), count, Scroll::Up) == current,
        scroll_spec(scroll_spec(current, count, Scroll::Up), count, Scroll::Down) == current,
{
    lemma_small_mod(current as nat, count as nat);
    lemma_small_mod((count - 1) as nat, count as nat);
    let d = scroll_spec(current, count, Scroll::Down);
    if current + 1 < count {
        lemma_small_mod((current + 1) as nat, count as nat);
        lemma_mod_add_multiples_vanish(current, count);
    } else {
        lemma_mod_add_multiples_vanish(0, count);
        lemma_small_mod(0, count as nat);
    }
    let u = scroll_spec(current, count, Scroll::Up);
    if current == 0 {
        lemma_mod_add_multiples_vanish(count - 1, count);
        assert(u == count - 1);
        lemma_mod_add_multiples_vanish(0, count);
        lemma_small_mod(0, count as nat);
    } else {
        lemma_mod_add_multiples_vanish(current - 1, count);
        lemma_small_mod((current - 1) as nat, count as nat);
        assert(u == current - 1);
    }
}

/// Turning the wheel always lands on one of the menus.
pub proof fn law_scroll_in_range(current: int, count: int, dir: Scroll)
    requires
        0 <= current,
        0 < count,
        dir != Scroll::Still,
    ensures
        0 <= scroll_spec(current, count, dir) < count,
{
}

/// One step of the wheel among `count` menus moves to the neighbouring menu:
/// down goes to the next one, from the last back to the first; up goes to the
/// previous one, from the first round to the last. With two menus or more a
/// step always changes the menu shown.
pub proof fn law_scroll_steps_to_neighbour(current: int, count: int)
    requires
        0 <= current < count,
    ensures
        scroll_spec(current, count, Scroll::Down) == (if current + 1 < count {
            current + 1
        } else {
            0
        }),
        scroll_spec(current, count, Scroll::Up) == (if current > 0 {
            current - 1
        } else {
            count - 1
        }),
        count >= 2 ==> scroll_spec(current, count, Scroll::Down) != current,
        count >= 2 ==> scroll_spec(current, count, Scroll::Up) != current,
        scroll_spec(current, count, Scroll::Still) == current,
{
    lemma_small_mod(current as nat, count as nat);
    lemma_small_mod((count - 1) as nat, count as nat);
    if current + 1 < count {
        lemma_small_mod((current + 1) as nat, count as nat);
    } else {
        lemma_mod_add_multiples_vanish(0, count);
        lemma_small_mod(0, count as nat);
    }
    if current == 0 {
        lemma_mod_add_multiples_vanish(count - 1, count);
    } else {
        lemma_mod_add_multiples_vanish(current - 1, count);
        lemma_small_mod((current - 1) as nat, count as nat);
    }
}

/// Reacting to an open request puts the menu where it was asked for, shown,
/// on the menu it was showing, and raises the window; reacting does the same
/// as `open_at`.
pub proof fn law_open_centres_at_requested_point(
    v: PieMenuView,
    menus: Seq<MenuData>,
    x: i32,
    y: i32,
    sector: int,
)
    ensures
        react_spec(v, menus, MenuAction::Open { x, y }, sector).0.x == x,
        react_spec(v, menus, MenuAction::Open { x, y }, sector).0.y == y,
        react_spec(v, menus, MenuAction::Open { x, y }, sector).0.visible,
        react_spec(v, menus, MenuAction::Open { x, y }, sector).0.current_menu == v.current_menu,
        react_spec(v, menus, MenuAction::Open { x, y }, sector).0.settings_visible
            == v.settings_visible,
        react_spec(v, menus, MenuAction::Open { x, y }, sector).1 == UiEffectView::Raise,
{
}

/// The menu opened by the input monitor shows centred where the cursor
/// motion started: the point the monitor anchored, whatever point crossed the
/// threshold.
pub proof fn law_menu_shows_at_motion_start(
    m: crate::input::MenuModel,
    px: i32,
    py: i32,
    v: PieMenuView,
    menus: Seq<MenuData>,
    sector: int,
)
    requires
        crate::input::move_step(m, px, py).1 is Some,
    ensures
        ({
            let (m2, a) = crate::input::move_step(m, px, py);
            let w = react_spec(v, menus, a->0, sector).0;
            &&& w.visible
            &&& w.x == m2.x
            &&& w.y == m2.y
            &&& (m.x != 0 || m.y != 0) ==> w.x == m.x && w.y == m.y
            &&& (m.x == 0 && m.y == 0) ==> w.x == px && w.y == py
        }),
{
}

/// Closing an open menu runs exactly the action of the item under the
/// cursor in the menu shown, and runs nothing where that item has none.
pub proof fn law_close_runs_hovered_item(v: PieMenuView, menus: Seq<MenuData>, sector: int)
    requires
        v.visible,
        0 <= v.current_menu < menus.len(),
        0 <= sector < menus[v.current_menu as int].items.len(),
    ensures
        react_spec(v, menus, MenuAction::Close, sector).1 == (match menus[v.current_menu as int].items[sector].action {
            Some(a) => UiEffectView::Run(a),
            None => UiEffectView::Nothing,
        }),
        !react_spec(v, menus, MenuAction::Close, sector).0.visible,
{
}

/// Escape never fires the hovered item, and closes the menu.
pub proof fn law_cancel_never_fires(v: PieMenuView, menus: Seq<MenuData>, sector: int)
    ensures
        react_spec(v, menus, MenuAction::Cancel, sector) == (closed_view(v), UiEffectView::Nothing),
{
}

/// Releasing the trigger closes the menu and fires the item under the cursor
/// of the menu shown, if the menu was open; a hidden menu fires nothing.
pub proof fn law_close_fires_hovered_item(v: PieMenuView, menus: Seq<MenuData>, sector: int)
    ensures
        react_spec(v, menus, MenuAction::Close, sector).0 == closed_view(v),
        v.visible ==> react_spec(v, menus, MenuAction::Close, sector).1 == run_effect(
            item_action(menus, v.current_menu as int, sector),
        ),
        !v.visible ==> react_spec(v, menus, MenuAction::Close, sector).1 == UiEffectView::Nothing,
{
}

} // verus!
