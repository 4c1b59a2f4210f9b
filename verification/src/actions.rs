//! The actions a menu item can carry, and the plans for running them: which
//! program to spawn for a command, which key strokes to send for a macro,
//! which path to open for an app.

use vstd::prelude::*;

use crate::keys::{Key, KeyView};
use crate::text::{chars_of, split_whitespace, words};
use vstd::string::StringExecFns;

verus! {

/// What an item does when it is picked.
pub enum Action {
    /// executes a cmd
    Command {
        /// the command line to run
        cmd: String,
        /// keeps the spawned terminal window visible
        show_terminal: bool,
    },
    /// Executes a sequence of keystrokes
    Macro {
        /// The keys to press
        keys: Vec<Key>,
        /// Delay in milliseconds between key strikes if needed
        delay: u32,
    },
    /// Executes an app from the filesystem
    App { path: String },
}

/// An action by its contents.
pub enum ActionView {
    Command { cmd: Seq<char>, show_terminal: bool },
    Macro { keys: Seq<KeyView>, delay: u32 },
    App { path: Seq<char> },
}

impl DeepView for Action {
    type V = ActionView;

    open spec fn deep_view(&self) -> ActionView {
        match self {
            Action::Command { cmd, show_terminal } => ActionView::Command {
                cmd: cmd@,
                show_terminal: *show_terminal,
            },
            Action::Macro { keys, delay } => ActionView::Macro { keys: keys.deep_view(), delay: *delay },
            Action::App { path } => ActionView::App { path: path@ },
        }
    }
}

pub(crate) fn clone_keys(keys: &Vec<Key>) -> (out: Vec<Key>)
    ensures
        out.deep_view() == keys.deep_view(),
{
    let mut out: Vec<Key> = Vec::new();
    let mut i: usize = 0;
    while i < keys.len()
        invariant
            i <= keys@.len(),
            out.deep_view() == keys.deep_view().take(i as int),
        decreases keys@.len() - i,
    {
        out.push(keys[i].clone());
        assert(keys.deep_view().take(i + 1) =~= keys.deep_view().take(i as int).push(
            keys@[i as int]@,
        ));
        assert(out.deep_view() =~= keys.deep_view().take(i + 1));
        i += 1;
    }
    assert(keys.deep_view().take(keys@.len() as int) =~= keys.deep_view());
    out
}

impl Clone for Action {
    fn clone(&self) -> (out: Self)
        ensures
            out.deep_view() == self.deep_view(),
    {
        match self {
            Action::Command { cmd, show_terminal } => Action::Command {
                cmd: cmd.clone(),
                show_terminal: *show_terminal,
            },
            Action::Macro { keys, delay } => Action::Macro { keys: clone_keys(keys), delay: *delay },
            Action::App { path } => Action::App { path: path.clone() },
        }
    }
}

/// How an item reacts to the pointer.
#[derive(Clone, Copy, Debug, PartialEq, Eq, Structural)]
pub enum CellType {
    /// Holdable Cells take in the scroll wheel into account (up and down)
    Holdable,
    /// These are normal clicks, and won't trigger holdable behavior
    Normal,
}

/// The system the launcher runs on, as far as running commands goes.
#[derive(Clone, Copy, Debug, PartialEq, Eq, Structural)]
pub enum Platform {
    Windows,
    Unix,
}

/// The console a spawned command gets.
#[derive(Clone, Copy, Debug, PartialEq, Eq, Structural)]
pub enum Console {
    /// whatever the launcher has
    Inherit,
    /// a fresh visible console that stays open
    NewConsole,
    /// no window, output discarded
    Hidden,
}

/// A program to spawn, with its arguments and its console.
pub struct CommandPlan {
    pub program: String,
    pub args: Vec<String>,
    pub console: Console,
}

/// A command plan by its contents.
pub struct CommandPlanView {
    pub program: Seq<char>,
    pub args: Seq<Seq<char>>,
    pub console: Console,
}

impl DeepView for CommandPlan {
    type V = CommandPlanView;

    open spec fn deep_view(&self) -> CommandPlanView {
        CommandPlanView { program: self.program@, args: self.args.deep_view(), console: self.console }
    }
}

/// How a command line runs: on Windows through PowerShell, in a console of
/// its own that stays open when the terminal is to show, else hidden. On the
/// other systems not at all when it has no word; when the terminal is to
/// show, through `sh` inside a new terminal window that keeps a shell open
/// after the command; else as its first word with the other words as
/// arguments.
pub open spec fn command_plan_spec(command: Seq<char>, show_terminal: bool, platform: Platform) -> Option<
    CommandPlanView,
> {
    match platform {
        Platform::Windows => Some(
            if show_terminal {
                CommandPlanView {
                    program: "powershell"@,
                    args: seq!["-NoExit"@, "-Command"@, command],
                    console: Console::NewConsole,
                }
            } else {
                CommandPlanView {
                    program: "powershell"@,
                    args: seq!["-WindowStyle"@, "Hidden"@, "-Command"@, command],
                    console: Console::Hidden,
                }
            },
        ),
        Platform::Unix => {
            let w = words(command);
            if w.len() == 0 {
                None
            } else if show_terminal {
                Some(
                    CommandPlanView {
                        program: "x-terminal-emulator"@,
                        args: seq!["-e"@, "sh"@, "-c"@, command + "; exec sh"@],
                        console: Console::NewConsole,
                    },
                )
            } else {
                Some(CommandPlanView { program: w[0], args: w.drop_first(), console: Console::Inherit })
            }
        },
    }
}

/// runs a command line, optionally inside a visible terminal window: the plan
/// of the process to spawn, `None` where there is nothing to run
pub fn run_command(command: &str, show_terminal: bool, platform: Platform) -> (plan: Option<
    CommandPlan,
>)
    ensures
        match plan {
            Some(p) => command_plan_spec(command@, show_terminal, platform) == Some(p.deep_view()),
            None => command_plan_spec(command@, show_terminal, platform) is None,
        },
{
    match platform {
        Platform::Windows => {
            let mut args: Vec<String> = Vec::new();
            let console = if show_terminal {
                // a fresh console that runs the command and shows its output
                args.push(String::from_str("-NoExit"));
                args.push(String::from_str("-Command"));
                args.push(String::from_str(command));
                Console::NewConsole
            } else {
                args.push(String::from_str("-WindowStyle"));
                args.push(String::from_str("Hidden"));
                args.push(String::from_str("-Command"));
                args.push(String::from_str(command));
                Console::Hidden
            };
            let plan = CommandPlan { program: String::from_str("powershell"), args, console };
            proof {
                if show_terminal {
                    assert(plan.args.deep_view() =~= seq!["-NoExit"@, "-Command"@, command@]);
                } else {
                    assert(plan.args.deep_view() =~= seq![
                        "-WindowStyle"@,
                        "Hidden"@,
                        "-Command"@,
                        command@,
                    ]);
                }
            }
            Some(plan)
        },
        Platform::Unix => {
            let chars = chars_of(command);
            let mut parts = split_whitespace(chars.as_slice());
            if parts.len() == 0 {
                return None;
            }
            if show_terminal {
                // a terminal window that runs the command and stays open
                let mut script = String::from_str(command);
                script.append("; exec sh");
                let mut args: Vec<String> = Vec::new();
                args.push(String::from_str("-e"));
                args.push(String::from_str("sh"));
                args.push(String::from_str("-c"));
                args.push(script);
                let plan = CommandPlan {
                    program: String::from_str("x-terminal-emulator"),
                    args,
                    console: Console::NewConsole,
                };
                assert(plan.args.deep_view() =~= seq!["-e"@, "sh"@, "-c"@, command@ + "; exec sh"@]);
                return Some(plan);
            }
            let ghost all = parts.deep_view();
            let program = parts.remove(0);
            assert(parts.deep_view() =~= all.drop_first());
            Some(CommandPlan { program, args: parts, console: Console::Inherit })
        },
    }
}

/// One step of replaying a macro.
pub enum Stroke {
    Press(Key),
    /// wait this many milliseconds
    Pause(u32),
    Release(Key),
}

/// A stroke by its key.
pub enum StrokeView {
    Press(KeyView),
    Pause(u32),
    Release(KeyView),
}

impl DeepView for Stroke {
    type V = StrokeView;

    open spec fn deep_view(&self) -> StrokeView {
        match self {
            Stroke::Press(k) => StrokeView::Press(k@),
            Stroke::Pause(ms) => StrokeView::Pause(*ms),
            Stroke::Release(k) => StrokeView::Release(k@),
        }
    }
}

/// Striking one key: press it, wait the delay if there is one, release it.
pub open spec fn strike_strokes(k: KeyView, delay: u32) -> Seq<StrokeView> {
    if delay > 0 {
        seq![StrokeView::Press(k), StrokeView::Pause(delay), StrokeView::Release(k)]
    } else {
        seq![StrokeView::Press(k), StrokeView::Release(k)]
    }
}

/// Striking the keys one after the other.
pub open spec fn keystrokes_spec(keys: Seq<KeyView>, delay: u32) -> Seq<StrokeView>
    decreases keys.len(),
{
    if keys.len() == 0 {
        Seq::empty()
    } else {
        keystrokes_spec(keys.drop_last(), delay) + strike_strokes(keys.last(), delay)
    }
}

/// strikes a sequence of keys with an optional delay in between: the strokes
/// to send, in order
pub fn run_keystrokes(keys: &[Key], delay: u32) -> (strokes: Vec<Stroke>)
    ensures
        strokes.deep_view() == keystrokes_spec(keys.deep_view(), delay),
{
    let mut strokes: Vec<Stroke> = Vec::new();
    let mut i: usize = 0;
    while i < keys.len()
        invariant
            i <= keys@.len(),
            strokes.deep_view() == keystrokes_spec(keys.deep_view().take(i as int), delay),
        decreases keys@.len() - i,
    {
        let ghost before = strokes.deep_view();
        let k = &keys[i];
        strokes.push(Stroke::Press(k.clone()));
        if delay > 0 {
            strokes.push(Stroke::Pause(delay));
        }
        strokes.push(Stroke::Release(k.clone()));
        proof {
            let t = keys.deep_view().take(i + 1);
            assert(t.drop_last() =~= keys.deep_view().take(i as int));
            assert(t.last() == k@);
            assert(strokes.deep_view() =~= before + strike_strokes(k@, delay));
        }
        i += 1;
    }
    assert(keys.deep_view().take(keys@.len() as int) =~= keys.deep_view());
    strokes
}

/// What running an action comes down to.
pub enum Effect {
    Spawn(CommandPlan),
    Strokes(Vec<Stroke>),
    Open(String),
    Nothing,
}

/// An effect by its contents.
pub enum EffectView {
    Spawn(CommandPlanView),
    Strokes(Seq<StrokeView>),
    Open(Seq<char>),
    Nothing,
}

impl DeepView for Effect {
    type V = EffectView;

    open spec fn deep_view(&self) -> EffectView {
        match self {
            Effect::Spawn(p) => EffectView::Spawn(p.deep_view()),
            Effect::Strokes(s) => EffectView::Strokes(s.deep_view()),
            Effect::Open(p) => EffectView::Open(p@),
            Effect::Nothing => EffectView::Nothing,
        }
    }
}

/// What running an action comes down to.
pub open spec fn execute_spec(a: ActionView, platform: Platform) -> EffectView {
    match a {
        ActionView::Command { cmd, show_terminal } => match command_plan_spec(
            cmd,
            show_terminal,
            platform,
        ) {
            Some(p) => EffectView::Spawn(p),
            None => EffectView::Nothing,
        },
        ActionView::Macro { keys, delay } => EffectView::Strokes(keystrokes_spec(keys, delay)),
        ActionView::App { path } => EffectView::Open(path),
    }
}

/// runs the behavior bound to an action: what is to be spawned, struck or
/// opened
pub fn execute(action: &Action, platform: Platform) -> (effect: Effect)
    ensures
        effect.deep_view() == execute_spec(action.deep_view(), platform),
{
    match action {
        Action::Command { cmd, show_terminal } => match run_command(
            cmd.as_str(),
            *show_terminal,
            platform,
        ) {
            Some(p) => Effect::Spawn(p),
            None => Effect::Nothing,
        },
        Action::Macro { keys, delay } => Effect::Strokes(run_keystrokes(keys.as_slice(), *delay)),
        Action::App { path } => Effect::Open(path.clone()),
    }
}

/// How a command runs on the systems other than Windows. Without a
/// terminal, the program and then its arguments are the words of the
/// command line, in the order typed, and the command inherits the
/// launcher's console; put back together they hold every character of the
/// command that is not whitespace, in order. With a terminal, `sh` runs the
/// whole command line as typed, in a new window. A command line without
/// words runs nothing.
pub proof fn law_unix_command_keeps_word_order(command: Seq<char>, show_terminal: bool)
    ensures
        (command_plan_spec(command, show_terminal, Platform::Unix) is None) <==> words(command).len()
            == 0,
        !show_terminal && words(command).len() > 0 ==> ({
            let p = command_plan_spec(command, false, Platform::Unix)->0;
            &&& seq![p.program] + p.args == words(command)
            &&& crate::text::concat_words(seq![p.program] + p.args) == crate::text::non_whitespace(command)
            &&& p.console == Console::Inherit
        }),
        show_terminal && words(command).len() > 0 ==> ({
            let p = command_plan_spec(command, true, Platform::Unix)->0;
            &&& p.console == Console::NewConsole
            &&& p.args.len() == 4
            &&& p.args[1] == "sh"@
            &&& p.args[3].take(command.len() as int) == command
        }),
{
    crate::text::law_words_keep_text_in_order(command);
    let w = words(command);
    if w.len() > 0 {
        assert(seq![w[0]] + w.drop_first() =~= w);
        if show_terminal {
            assert((command + "; exec sh"@).take(command.len() as int) =~= command);
        }
    }
}

/// On Windows a command always runs, through PowerShell, with the command
/// line handed over whole as the last argument; the terminal setting picks a
/// console that stays open or a hidden one.
pub proof fn law_windows_command_runs_whole(command: Seq<char>, show_terminal: bool)
    ensures
        command_plan_spec(command, show_terminal, Platform::Windows) is Some,
        ({
            let p = command_plan_spec(command, show_terminal, Platform::Windows)->0;
            &&& p.args.last() == command
            &&& p.console == (if show_terminal {
                Console::NewConsole
            } else {
                Console::Hidden
            })
        }),
{
}

/// A macro strikes its keys in the order recorded: each key is pressed and
/// then released before the next key is pressed, with the delay between
/// press and release when there is one.
pub proof fn law_keystrokes_in_order(keys: Seq<KeyView>, delay: u32)
    ensures
        keystrokes_spec(keys, delay).len() == keys.len() * (if delay > 0 {
            3int
        } else {
            2int
        }),
        forall|i: int|
            0 <= i < keys.len() ==> {
                let n: int = if delay > 0 {
                    3
                } else {
                    2
                };
                &&& keystrokes_spec(keys, delay)[n * i] == StrokeView::Press(#[trigger] keys[i])
                &&& keystrokes_spec(keys, delay)[n * i + n - 1] == StrokeView::Release(keys[i])
                &&& delay > 0 ==> keystrokes_spec(keys, delay)[n * i + 1] == StrokeView::Pause(delay)
            },
    decreases keys.len(),
{
    let n: int = if delay > 0 {
        3
    } else {
        2
    };
    if keys.len() > 0 {
        let p = keys.drop_last();
        law_keystrokes_in_order(p, delay);
        let prev = keystrokes_spec(p, delay);
        let s = keystrokes_spec(keys, delay);
        assert(prev.len() == p.len() * n);
        assert(s.len() == keys.len() * n) by (nonlinear_arith)
            requires
                s.len() == prev.len() + n,
                prev.len() == p.len() * n,
                p.len() + 1 == keys.len(),
        ;
        assert forall|i: int| 0 <= i < keys.len() implies {
            &&& s[n * i] == StrokeView::Press(#[trigger] keys[i])
            &&& s[n * i + n - 1] == StrokeView::Release(keys[i])
            &&& delay > 0 ==> s[n * i + 1] == StrokeView::Pause(delay)
        } by {
            if i < p.len() {
                assert(keys[i] == p[i]);
                assert(n * i + n - 1 < prev.len()) by (nonlinear_arith)
                    requires
                        0 <= i < p.len(),
                        prev.len() == p.len() * n,
                        n >= 2,
                ;
                assert(s[n * i] == prev[n * i]);
                assert(s[n * i + n - 1] == prev[n * i + n - 1]);
                if delay > 0 {
                    assert(s[n * i + 1] == prev[n * i + 1]);
                }
            } else {
                assert(i == p.len());
                assert(n * i == prev.len()) by (nonlinear_arith)
                    requires
                        i == p.len(),
                        prev.len() == p.len() * n,
                ;
            }
        }
    }
}


} // verus!
