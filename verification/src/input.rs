//! The global input state machine: holding the trigger key (caps lock) and
//! moving the cursor past a threshold opens the pie menu at the point where
//! the motion started; releasing the key closes it and fires the hovered item,
//! escape dismisses it without firing. Beside it, the key recorder that
//! captures macros.

use vstd::prelude::*;

use crate::keys::{Key, KeyView};

verus! {

/// The squared distance, in pixels, that the cursor has to travel from where
/// the motion started before the menu opens.
pub const MOTION_THRESHOLD: i64 = 64;

/// What the input monitor asks of the user interface.
#[derive(Clone, Copy, Debug, PartialEq, Eq, Structural)]
pub enum MenuAction {
    /// open the pie menu centred at this point
    Open { x: i32, y: i32 },
    /// close the menu, firing the hovered item
    Close,
    /// closes without running the selected action
    Cancel,
    ShowSettingsButton,
    HideSettingsButton,
    /// recorded keys changed, the settings window should repaint
    KeysChanged,
    OpenSettings,
}

/// Whether the trigger key is held, whether the menu is open, and where the
/// current motion started (`0, 0` while none has).
pub struct MenuState {
    is_key_held: bool,
    is_menu_active: bool,
    x: i32,
    y: i32,
}

/// The abstract state of the input monitor.
pub struct MenuModel {
    pub held: bool,
    pub active: bool,
    pub x: i32,
    pub y: i32,
}

impl View for MenuState {
    type V = MenuModel;

    closed spec fn view(&self) -> MenuModel {
        MenuModel { held: self.is_key_held, active: self.is_menu_active, x: self.x, y: self.y }
    }
}

/// The state after `deactivate`.
pub open spec fn deactivated(m: MenuModel) -> MenuModel {
    MenuModel { held: m.held, active: false, x: 0, y: 0 }
}

/// Whether the cursor at `(px, py)` is past the threshold from `(ax, ay)`.
pub open spec fn crossed(ax: int, ay: int, px: int, py: int) -> bool {
    (px - ax) * (px - ax) + (py - ay) * (py - ay) > MOTION_THRESHOLD
}

/// Pressing the trigger key.
pub open spec fn press_step(m: MenuModel) -> (MenuModel, MenuAction) {
    (MenuModel { held: true, ..m }, MenuAction::ShowSettingsButton)
}

/// Releasing the trigger key: the settings button hides, and an open menu
/// closes, firing its hovered item.
pub open spec fn release_step(m: MenuModel) -> (MenuModel, Seq<MenuAction>) {
    let released = MenuModel { held: false, ..m };
    if m.active {
        (deactivated(released), seq![MenuAction::HideSettingsButton, MenuAction::Close])
    } else {
        (released, seq![MenuAction::HideSettingsButton])
    }
}

/// Escape: the key counts as released, and an open menu is dismissed without
/// firing.
pub open spec fn escape_step(m: MenuModel) -> (MenuModel, Option<MenuAction>) {
    let released = MenuModel { held: false, ..m };
    if m.active {
        (deactivated(released), Some(MenuAction::Cancel))
    } else {
        (released, None)
    }
}

/// A cursor motion to `(px, py)`.
pub open spec fn move_step(m: MenuModel, px: i32, py: i32) -> (MenuModel, Option<MenuAction>) {
    if !m.held || m.active {
        (m, None)
    } else {
        let (ax, ay) = if m.x == 0 && m.y == 0 {
            (px, py)
        } else {
            (m.x, m.y)
        };
        let anchored = MenuModel { x: ax, y: ay, ..m };
        if crossed(ax as int, ay as int, px as int, py as int) {
            (MenuModel { active: true, ..anchored }, Some(MenuAction::Open { x: ax, y: ay }))
        } else {
            (anchored, None)
        }
    }
}

impl MenuState {
    /// Nothing held, no menu, no motion.
    pub fn new() -> (s: MenuState)
        ensures
            s@ == (MenuModel { held: false, active: false, x: 0, y: 0 }),
    {
        MenuState { is_key_held: false, is_menu_active: false, x: 0, y: 0 }
    }

    /// Whether the trigger key is held.
    pub fn is_key_held(&self) -> (b: bool)
        ensures
            b == self@.held,
    {
        self.is_key_held
    }

    /// Whether the menu is open.
    pub fn is_menu_active(&self) -> (b: bool)
        ensures
            b == self@.active,
    {
        self.is_menu_active
    }

    /// Where the current motion started.
    pub fn position(&self) -> (p: (i32, i32))
        ensures
            p == (self@.x, self@.y),
    {
        (self.x, self.y)
    }

    /// stops tracking the open menu so a later release won't fire its action
    pub fn deactivate(&mut self)
        ensures
            final(self)@ == deactivated(old(self)@),
    {
        self.is_menu_active = false;
        self.x = 0;
        self.y = 0;
    }

    /// The trigger key went down.
    pub fn handle_press(&mut self) -> (a: MenuAction)
        ensures
            (final(self)@, a) == press_step(old(self)@),
    {
        self.is_key_held = true;
        MenuAction::ShowSettingsButton
    }

    /// The trigger key went up.
    pub fn handle_release(&mut self) -> (actions: Vec<MenuAction>)
        ensures
            (final(self)@, actions@) == release_step(old(self)@),
    {
        self.is_key_held = false;
        let mut actions = vec![MenuAction::HideSettingsButton];
        if self.is_menu_active {
            self.is_menu_active = false;
            self.deactivate();
            actions.push(MenuAction::Close);
        }
        proof {
            let ghost expected = release_step(old(self)@).1;
            assert(actions@ =~= expected);
        }
        actions
    }

    /// esc dismisses the open menu without firing its hovered action
    pub fn handle_escape(&mut self) -> (a: Option<MenuAction>)
        ensures
            (final(self)@, a) == escape_step(old(self)@),
    {
        // a still-held caps must not reopen the menu on the next mouse move
        self.is_key_held = false;
        if self.is_menu_active {
            self.is_menu_active = false;
            self.deactivate();
            Some(MenuAction::Cancel)
        } else {
            None
        }
    }

    /// The cursor moved to `(x, y)`.
    pub fn handle_move(&mut self, x: i32, y: i32) -> (a: Option<MenuAction>)
        ensures
            (final(self)@, a) == move_step(old(self)@, x, y),
    {
        if !self.is_key_held || self.is_menu_active {
            return None;
        }
        if self.x == 0 && self.y == 0 {
            self.x = x;
            self.y = y;
        }
        if self.has_crossed_threshold(x, y) {
            self.is_menu_active = true;
            Some(MenuAction::Open { x: self.x, y: self.y })
        } else {
            None
        }
    }

    /// Whether the cursor at `(x, y)` is past the threshold from where the
    /// motion started.
    pub fn has_crossed_threshold(&self, x: i32, y: i32) -> (b: bool)
        ensures
            b == crossed(self@.x as int, self@.y as int, x as int, y as int),
    {
        let dx: i128 = (x as i128) - (self.x as i128);
        let dy: i128 = (y as i128) - (self.y as i128);
        assert(dx * dx <= 0x1_0000_0000i128 * 0x1_0000_0000i128) by (nonlinear_arith)
            requires
                -0x1_0000_0000i128 <= dx <= 0x1_0000_0000i128,
        ;
        assert(dy * dy <= 0x1_0000_0000i128 * 0x1_0000_0000i128) by (nonlinear_arith)
            requires
                -0x1_0000_0000i128 <= dy <= 0x1_0000_0000i128,
        ;
        assert(dx * dx >= 0 && dy * dy >= 0) by (nonlinear_arith);
        (dx * dx) + (dy * dy) > (MOTION_THRESHOLD as i128)
    }
}


/// The live macro recorder: whether it records, which keys are down now, and
/// the keys captured so far.
pub struct Recorder {
    recording: bool,
    pressed: Vec<Key>,
    keys: Vec<Key>,
}

/// The abstract state of the recorder.
pub struct RecorderModel {
    pub recording: bool,
    pub pressed: Set<KeyView>,
    pub keys: Seq<KeyView>,
}

impl View for Recorder {
    type V = RecorderModel;

    closed spec fn view(&self) -> RecorderModel {
        RecorderModel {
            recording: self.recording,
            pressed: self.pressed.deep_view().to_set(),
            keys: self.keys.deep_view(),
        }
    }
}

/// A key went down: it counts as held from now on; it is captured if the
/// recorder records and the key was not held already (an auto-repeat is not a
/// new stroke). The flag says whether the captured keys changed.
pub open spec fn record_press_step(r: RecorderModel, k: KeyView) -> (RecorderModel, bool) {
    let fresh = !r.pressed.contains(k);
    let pressed = r.pressed.insert(k);
    if fresh && r.recording {
        (RecorderModel { pressed, keys: r.keys.push(k), ..r }, true)
    } else {
        (RecorderModel { pressed, ..r }, false)
    }
}

/// A key went up.
pub open spec fn record_release_step(r: RecorderModel, k: KeyView) -> RecorderModel {
    RecorderModel { pressed: r.pressed.remove(k), ..r }
}

/// A recorder that records, with nothing captured and nothing held.
pub open spec fn recording_started() -> RecorderModel {
    RecorderModel { recording: true, pressed: Set::empty(), keys: Seq::empty() }
}

/// Stopping hands over the captured keys and leaves nothing captured.
pub open spec fn stop_step(r: RecorderModel) -> (RecorderModel, Seq<KeyView>) {
    (RecorderModel { recording: false, pressed: Set::empty(), keys: Seq::empty() }, r.keys)
}

impl Recorder {
    /// An idle recorder.
    pub fn new() -> (r: Recorder)
        ensures
            r@ == (RecorderModel { recording: false, pressed: Set::empty(), keys: Seq::empty() }),
    {
        let r = Recorder { recording: false, pressed: Vec::new(), keys: Vec::new() };
        assert(r.pressed.deep_view().to_set() =~= Set::empty());
        assert(r.keys.deep_view() =~= Seq::empty());
        r
    }

    /// Whether `key` is held now.
    pub fn is_pressed(&self, key: &Key) -> (b: bool)
        ensures
            b == self@.pressed.contains(key@),
    {
        let mut i: usize = 0;
        while i < self.pressed.len()
            invariant
                i <= self.pressed@.len(),
                forall|j: int| 0 <= j < i ==> self.pressed@[j]@ != key@,
            decreases self.pressed@.len() - i,
        {
            if self.pressed[i].same_key(key) {
                assert(self.pressed.deep_view()[i as int] == key@);
                return true;
            }
            i += 1;
        }
        assert(!self.pressed.deep_view().contains(key@));
        false
    }

    /// accepts a global key press, storing it while recording (ignores auto-repeat)
    pub fn record_press(&mut self, key: &Key) -> (changed: bool)
        ensures
            (final(self)@, changed) == record_press_step(old(self)@, key@),
    {
        let held = self.is_pressed(key);
        let ghost before = self.pressed.deep_view();
        if !held {
            self.pressed.push(key.clone());
            assert(self.pressed.deep_view() =~= before + seq![key@]);
            proof {
                Seq::lemma_to_set_insert_commutes(before, key@);
            }
        } else {
            assert(before.to_set().insert(key@) =~= before.to_set());
        }
        if held || !self.recording {
            return false;
        }
        let ghost keys_before = self.keys.deep_view();
        self.keys.push(key.clone());
        assert(self.keys.deep_view() =~= keys_before.push(key@));
        true
    }

    /// A key went up.
    pub fn record_release(&mut self, key: &Key)
        ensures
            final(self)@ == record_release_step(old(self)@, key@),
    {
        let ghost before = self.pressed.deep_view();
        let mut kept: Vec<Key> = Vec::new();
        let mut i: usize = 0;
        while i < self.pressed.len()
            invariant
                i <= self.pressed@.len(),
                before == self.pressed.deep_view(),
                forall|x: KeyView|
                    kept.deep_view().contains(x) <==> (before.take(i as int).contains(x) && x
                        != key@),
            decreases self.pressed@.len() - i,
        {
            let ghost kept_before = kept.deep_view();
            if !self.pressed[i].same_key(key) {
                kept.push(self.pressed[i].clone());
                assert(kept.deep_view() =~= kept_before.push(before[i as int]));
            }
            assert(before.take(i + 1) =~= before.take(i as int).push(before[i as int]));
            let ghost t = before.take(i + 1);
            assert forall|x: KeyView|
                kept.deep_view().contains(x) <==> (t.contains(x) && x != key@) by {
                let kv = kept.deep_view();
                if kv.contains(x) {
                    let j = choose|j: int| 0 <= j < kv.len() && kv[j] == x;
                    if j < kept_before.len() {
                        assert(kept_before[j] == x);
                        assert(kept_before.contains(x));
                        let m = choose|m: int| 0 <= m < i && before.take(i as int)[m] == x;
                        assert(t[m] == x);
                    } else {
                        assert(t[i as int] == x);
                    }
                }
                if t.contains(x) && x != key@ {
                    let j = choose|j: int| 0 <= j < t.len() && t[j] == x;
                    if j < i {
                        assert(before.take(i as int)[j] == x);
                        assert(before.take(i as int).contains(x));
                        assert(kept_before.contains(x));
                        let m = choose|m: int| 0 <= m < kept_before.len() && kept_before[m] == x;
                        assert(kv[m] == x);
                    } else {
                        assert(kv[kv.len() - 1] == x);
                    }
                }
            }
            i += 1;
        }
        assert(before.take(before.len() as int) =~= before);
        self.pressed = kept;
        assert(self.pressed.deep_view().to_set() =~= before.to_set().remove(key@));
    }

    /// snapshot of the captured keys for display
    pub fn recorded(&self) -> (keys: Vec<Key>)
        ensures
            keys.deep_view() == self@.keys,
    {
        crate::actions::clone_keys(&self.keys)
    }
}

/// Starts a fresh recording, forgetting what was captured and held.
pub fn start_recording(recorder: &mut Recorder)
    ensures
        final(recorder)@ == recording_started(),
{
    recorder.recording = true;
    recorder.pressed = Vec::new();
    recorder.keys = Vec::new();
    assert(recorder.pressed.deep_view().to_set() =~= Set::empty());
    assert(recorder.keys.deep_view() =~= Seq::empty());
}

/// stops recording and hands over the captured keys
pub fn stop_recording(recorder: &mut Recorder) -> (keys: Vec<Key>)
    ensures
        (final(recorder)@, keys.deep_view()) == stop_step(old(recorder)@),
{
    recorder.recording = false;
    recorder.pressed = Vec::new();
    let mut keys: Vec<Key> = Vec::new();
    std::mem::swap(&mut keys, &mut recorder.keys);
    assert(recorder.pressed.deep_view().to_set() =~= Set::empty());
    assert(recorder.keys.deep_view() =~= Seq::empty());
    keys
}

/// snapshot of the captured keys for display
pub fn recorded(recorder: &Recorder) -> (keys: Vec<Key>)
    ensures
        keys.deep_view() == recorder@.keys,
{
    recorder.recorded()
}


/// A global input event, as the monitor receives it.
pub enum InputEvent {
    KeyPress(Key),
    KeyRelease(Key),
    MouseMove { x: i32, y: i32 },
    Other,
}

/// An input event with its key by what identifies it.
pub enum InputEventView {
    KeyPress(KeyView),
    KeyRelease(KeyView),
    MouseMove { x: i32, y: i32 },
    Other,
}

impl View for InputEvent {
    type V = InputEventView;

    open spec fn view(&self) -> InputEventView {
        match self {
            InputEvent::KeyPress(k) => InputEventView::KeyPress(k@),
            InputEvent::KeyRelease(k) => InputEventView::KeyRelease(k@),
            InputEvent::MouseMove { x, y } => InputEventView::MouseMove { x: *x, y: *y },
            InputEvent::Other => InputEventView::Other,
        }
    }
}

/// The trigger key that opens the menu.
pub open spec fn trigger_key() -> KeyView {
    KeyView::Named("CapsLock"@)
}

/// The key that dismisses the menu.
pub open spec fn escape_key() -> KeyView {
    KeyView::Named("Escape"@)
}

/// One event of the input monitor: the trigger key and escape drive the menu,
/// every other key goes to the recorder, motions go to the menu.
pub open spec fn input_step(m: MenuModel, r: RecorderModel, e: InputEventView) -> (
    MenuModel,
    RecorderModel,
    Seq<MenuAction>,
) {
    match e {
        InputEventView::KeyPress(k) => {
            if k == trigger_key() {
                (press_step(m).0, r, seq![press_step(m).1])
            } else if k == escape_key() {
                let (m2, a) = escape_step(m);
                (m2, r, if a is Some { seq![a->0] } else { Seq::empty() })
            } else {
                let (r2, changed) = record_press_step(r, k);
                (m, r2, if changed { seq![MenuAction::KeysChanged] } else { Seq::empty() })
            }
        },
        InputEventView::KeyRelease(k) => {
            if k == trigger_key() {
                (release_step(m).0, r, release_step(m).1)
            } else {
                (m, record_release_step(r, k), Seq::empty())
            }
        },
        InputEventView::MouseMove { x, y } => {
            let (m2, a) = move_step(m, x, y);
            (m2, r, if a is Some { seq![a->0] } else { Seq::empty() })
        },
        InputEventView::Other => (m, r, Seq::empty()),
    }
}

/// Handles one global input event and says what the user interface is to do.
pub fn handle_input(state: &mut MenuState, recorder: &mut Recorder, event: &InputEvent) -> (actions:
    Vec<MenuAction>)
    ensures
        (final(state)@, final(recorder)@, actions@) == input_step(old(state)@, old(recorder)@, event@),
{
    match event {
        InputEvent::KeyPress(k) => {
            if k.is_named("CapsLock") {
                let a = state.handle_press();
                let v = vec![a];
                assert(v@ =~= seq![a]);
                v
            } else if k.is_named("Escape") {
                match state.handle_escape() {
                    Some(a) => {
                        let v = vec![a];
                        assert(v@ =~= seq![a]);
                        v
                    },
                    None => {
                        let v: Vec<MenuAction> = Vec::new();
                        assert(v@ =~= Seq::empty());
                        v
                    },
                }
            } else {
                if recorder.record_press(k) {
                    let v = vec![MenuAction::KeysChanged];
                    assert(v@ =~= seq![MenuAction::KeysChanged]);
                    v
                } else {
                    let v: Vec<MenuAction> = Vec::new();
                    assert(v@ =~= Seq::empty());
                    v
                }
            }
        },
        InputEvent::KeyRelease(k) => {
            if k.is_named("CapsLock") {
                state.handle_release()
            } else {
                recorder.record_release(k);
                let v: Vec<MenuAction> = Vec::new();
                assert(v@ =~= Seq::empty());
                v
            }
        },
        InputEvent::MouseMove { x, y } => match state.handle_move(*x, *y) {
            Some(a) => {
                let v = vec![a];
                assert(v@ =~= seq![a]);
                v
            },
            None => {
                let v: Vec<MenuAction> = Vec::new();
                assert(v@ =~= Seq::empty());
                v
            },
        },
        InputEvent::Other => {
            let v: Vec<MenuAction> = Vec::new();
            assert(v@ =~= Seq::empty());
            v
        },
    }
}


/// While the menu is open, cursor motion neither changes the state nor opens
/// it again.
pub proof fn law_open_menu_ignores_motion(m: MenuModel, x: i32, y: i32)
    requires
        m.active,
    ensures
        move_step(m, x, y) == (m, None::<MenuAction>),
{
}

/// After escape the trigger counts as released: no motion reopens the menu
/// until the trigger is pressed again, and an open menu is dismissed without
/// firing.
pub proof fn law_escape_blocks_reopening(m: MenuModel, x: i32, y: i32)
    ensures
        !escape_step(m).0.held,
        !escape_step(m).0.active,
        move_step(escape_step(m).0, x, y) == (escape_step(m).0, None::<MenuAction>),
        m.active ==> escape_step(m).1 == Some(MenuAction::Cancel),
        !m.active ==> escape_step(m).1 is None,
{
}

/// Releasing the trigger closes an open menu exactly once: a second release
/// only hides the settings button.
pub proof fn law_release_closes_once(m: MenuModel)
    ensures
        m.active ==> release_step(m).1 == seq![MenuAction::HideSettingsButton, MenuAction::Close],
        release_step(release_step(m).0).1 == seq![MenuAction::HideSettingsButton],
        !release_step(m).0.active,
{
}

/// A deactivated menu is not fired by the release that follows.
pub proof fn law_deactivate_suppresses_close(m: MenuModel)
    ensures
        release_step(deactivated(m)).1 == seq![MenuAction::HideSettingsButton],
        escape_step(deactivated(m)).1 is None,
{
}

/// While the trigger is held, the first motion fixes where the motion
/// started, and the menu opens centred there, not where the cursor is when it
/// crosses the threshold.
pub proof fn law_menu_opens_where_motion_started(m: MenuModel, x1: i32, y1: i32, x2: i32, y2: i32)
    requires
        m.held,
        !m.active,
        m.x == 0 && m.y == 0,
        !(x1 == 0 && y1 == 0),
        move_step(m, x1, y1).1 is None,
        move_step(move_step(m, x1, y1).0, x2, y2).1 is Some,
    ensures
        move_step(move_step(m, x1, y1).0, x2, y2).1 == Some(MenuAction::Open { x: x1, y: y1 }),
        crossed(x1 as int, y1 as int, x2 as int, y2 as int),
{
}

/// The menu opens only once the cursor is past the threshold from the point
/// where the motion started.
pub proof fn law_open_needs_threshold(m: MenuModel, x: i32, y: i32)
    requires
        move_step(m, x, y).1 is Some,
    ensures
        m.held && !m.active,
        move_step(m, x, y).0.active,
        move_step(m, x, y).1 == Some(
            MenuAction::Open { x: move_step(m, x, y).0.x, y: move_step(m, x, y).0.y },
        ),
        crossed(move_step(m, x, y).0.x as int, move_step(m, x, y).0.y as int, x as int, y as int),
{
}

/// A key held down is captured once, however often it auto-repeats.
pub proof fn law_auto_repeat_captured_once(r: RecorderModel, k: KeyView)
    requires
        r.recording,
        !r.pressed.contains(k),
    ensures
        record_press_step(r, k).1,
        record_press_step(record_press_step(r, k).0, k).0.keys == r.keys.push(k),
        !record_press_step(record_press_step(r, k).0, k).1,
{
}

/// A key struck again after its release is captured again.
pub proof fn law_restrike_captured_again(r: RecorderModel, k: KeyView)
    requires
        r.recording,
        !r.pressed.contains(k),
    ensures
        record_press_step(record_release_step(record_press_step(r, k).0, k), k).0.keys == r.keys.push(
            k,
        ).push(k),
{
    let r1 = record_press_step(r, k).0;
    assert(!record_release_step(r1, k).pressed.contains(k));
}

/// While the recorder does not record, no key is captured.
pub proof fn law_idle_recorder_captures_nothing(r: RecorderModel, k: KeyView)
    requires
        !r.recording,
    ensures
        record_press_step(r, k).0.keys == r.keys,
        !record_press_step(r, k).1,
        record_release_step(r, k).keys == r.keys,
{
}

/// Stopping hands over exactly the keys captured since the start, and leaves
/// nothing captured; a recording stopped at once hands over nothing.
pub proof fn law_stop_hands_over_capture(r: RecorderModel)
    ensures
        stop_step(r).1 == r.keys,
        stop_step(r).0.keys == Seq::<KeyView>::empty(),
        !stop_step(r).0.recording,
        stop_step(recording_started()).1 == Seq::<KeyView>::empty(),
{
}

/// The trigger key and escape drive the menu and are never captured into a
/// macro.
pub proof fn law_menu_keys_not_recorded(m: MenuModel, r: RecorderModel)
    ensures
        input_step(m, r, InputEventView::KeyPress(trigger_key())).1 == r,
        input_step(m, r, InputEventView::KeyPress(escape_key())).1 == r,
        input_step(m, r, InputEventView::KeyRelease(trigger_key())).1 == r,
{
}

} // verus!
