//! Which asset a path names, the icon an item shows, and the one-time
//! extraction of an app's icon.

use vstd::prelude::*;

use std::collections::HashSet;
use std::collections::hash_map::DefaultHasher;
use std::hash::{Hash, Hasher};
use vstd::std_specs::hash::DefaultHasherAdditionalSpecFns;

use crate::actions::{Action, ActionView, CommandPlan, CommandPlanView, Console};
use crate::keys::text_is;
use crate::text::{chars_of, format_lower_hex, has_prefix, lower_hex, push_char, starts_with};
use vstd::string::StringExecFns;

verus! {

broadcast use vstd::std_specs::hash::group_hash_axioms;

/// The logos the launcher carries.
#[derive(Clone, Copy, Debug, PartialEq, Eq, Structural)]
pub enum Logo {
    Command,
    Keyboard,
    Settings,
    Appearence,
    Config,
    Cancel,
}

/// Where an asset path is served from.
#[derive(Debug, PartialEq, Eq)]
pub enum AssetRoute {
    /// one of the embedded logos
    Embedded(Logo),
    /// an extracted app icon, read from the cache directory at this
    /// relative path
    CachedIcon(String),
    /// the widget library's own assets
    Fallback,
}

/// The route of an asset path, by its contents.
pub enum AssetRouteView {
    Embedded(Logo),
    CachedIcon(Seq<char>),
    Fallback,
}

impl DeepView for AssetRoute {
    type V = AssetRouteView;

    open spec fn deep_view(&self) -> AssetRouteView {
        match self {
            AssetRoute::Embedded(l) => AssetRouteView::Embedded(*l),
            AssetRoute::CachedIcon(p) => AssetRouteView::CachedIcon(p@),
            AssetRoute::Fallback => AssetRouteView::Fallback,
        }
    }
}

/// The directory, below the cache directory, that holds extracted icons.
pub open spec fn icon_dir() -> Seq<char> {
    seq!['a', 'p', 'p', '-', 'i', 'c', 'o', 'n', 's', '/']
}

/// Where an asset path is served from.
pub open spec fn route_spec(path: Seq<char>) -> AssetRouteView {
    if path == "logos/command.svg"@ {
        AssetRouteView::Embedded(Logo::Command)
    } else if path == "logos/keyboard.svg"@ {
        AssetRouteView::Embedded(Logo::Keyboard)
    } else if path == "logos/settings.svg"@ {
        AssetRouteView::Embedded(Logo::Settings)
    } else if path == "logos/appearence.svg"@ {
        AssetRouteView::Embedded(Logo::Appearence)
    } else if path == "logos/config.svg"@ {
        AssetRouteView::Embedded(Logo::Config)
    } else if path == "logos/cancel.svg"@ {
        AssetRouteView::Embedded(Logo::Cancel)
    } else if has_prefix(path, icon_dir()) {
        AssetRouteView::CachedIcon(path)
    } else {
        AssetRouteView::Fallback
    }
}

/// serves the embedded logo svgs and cached app icons,
/// falling back to gpui component assets
pub struct Assets;

impl Assets {
    /// Where an asset path is served from.
    pub fn route(&self, path: &str) -> (r: AssetRoute)
        ensures
            r.deep_view() == route_spec(path@),
    {
        let p = String::from_str(path);
        if text_is(&p, "logos/command.svg") {
            AssetRoute::Embedded(Logo::Command)
        } else if text_is(&p, "logos/keyboard.svg") {
            AssetRoute::Embedded(Logo::Keyboard)
        } else if text_is(&p, "logos/settings.svg") {
            AssetRoute::Embedded(Logo::Settings)
        } else if text_is(&p, "logos/appearence.svg") {
            AssetRoute::Embedded(Logo::Appearence)
        } else if text_is(&p, "logos/config.svg") {
            AssetRoute::Embedded(Logo::Config)
        } else if text_is(&p, "logos/cancel.svg") {
            AssetRoute::Embedded(Logo::Cancel)
        } else {
            let chars = chars_of(path);
            let dir = ['a', 'p', 'p', '-', 'i', 'c', 'o', 'n', 's', '/'];
            assert(dir@ == icon_dir());
            if starts_with(chars.as_slice(), &dir) {
                AssetRoute::CachedIcon(p)
            } else {
                AssetRoute::Fallback
            }
        }
    }
}

/// The chunks of bytes that `Path::hash` writes into a hasher for the path
/// spelled `path`.
pub uninterp spec fn path_hash_writes(path: Seq<char>) -> Seq<Seq<u8>>;

/// `<Path as Hash>::hash` on `Path::new(path)`. What it writes is named, not
/// stated: how a path is cut into components is not written out here. It
/// appends its writes to the hasher and does nothing else to it.
#[verifier::external_body]
fn hash_path_into(path: &str, hasher: &mut DefaultHasher)
    ensures
        final(hasher)@ == old(hasher)@ + path_hash_writes(path@),
{
    std::path::Path::new(path).hash(hasher);
}

/// The hash that names the cached icon of the executable at `path`: the
/// standard library's default hasher, fresh, fed the path.
pub open spec fn path_hash(path: Seq<char>) -> u64 {
    DefaultHasher::spec_finish(path_hash_writes(path))
}

/// Hashes a path with a fresh default hasher; every `DefaultHasher::new()`
/// starts from the same state, so the value depends on the path alone.
pub fn hash_path(path: &str) -> (h: u64)
    ensures
        h == path_hash(path@),
{
    let mut hasher = DefaultHasher::new();
    hash_path_into(path, &mut hasher);
    assert(hasher@ =~= path_hash_writes(path@));
    hasher.finish()
}

/// The asset path of the cached icon with this hash.
pub open spec fn icon_asset_spec(hash: u64) -> Seq<char> {
    icon_dir() + lower_hex(hash as nat) + ".png"@
}

/// The asset path of the cached icon with this hash, below the cache
/// directory.
pub fn icon_asset_path(hash: u64) -> (p: String)
    ensures
        p@ == icon_asset_spec(hash),
{
    let mut p = String::from_str("app-icons/");
    let hex = format_lower_hex(hash);
    p.append(hex.as_str());
    p.append(".png");
    proof {
        reveal_strlit("app-icons/");
        assert("app-icons/"@ =~= icon_dir());
    }
    p
}

/// executables waiting for their icon to be extracted
pub struct IconQueue {
    pending: HashSet<u64>,
}

impl View for IconQueue {
    type V = Set<u64>;

    closed spec fn view(&self) -> Set<u64> {
        self.pending@
    }
}

impl IconQueue {
    /// Nothing requested yet.
    pub fn new() -> (q: IconQueue)
        ensures
            q@ == Set::<u64>::empty(),
    {
        IconQueue { pending: HashSet::new() }
    }

    /// schedules one background icon extraction per executable: whether the
    /// icon with this hash is to be extracted now
    pub fn request_icon(&mut self, hash: u64) -> (fresh: bool)
        ensures
            fresh == !old(self)@.contains(hash),
            final(self)@ == old(self)@.insert(hash),
    {
        if self.pending.contains(&hash) {
            assert(old(self)@.insert(hash) =~= old(self)@);
            return false;
        }
        self.pending.insert(hash);
        true
    }
}

/// The icon an item shows, and the extraction to start for it.
pub struct IconChoice {
    /// the asset path of the icon
    pub asset: String,
    /// the hash and path of an executable whose icon is to be extracted now
    pub extract: Option<(u64, String)>,
}

/// logo asset shown left of an item's label; an app's icon is requested
/// from its executable the first time it is asked for
pub fn icon_for(action: Option<&Action>, queue: &mut IconQueue) -> (choice: IconChoice)
    ensures
        match action {
            Some(Action::App { path }) => {
                &&& choice.asset@ == icon_asset_spec(path_hash(path@))
                &&& final(queue)@ == old(queue)@.insert(path_hash(path@))
                &&& match choice.extract {
                    Some((h, p)) => !old(queue)@.contains(path_hash(path@)) && h == path_hash(path@)
                        && p@ == path@,
                    None => old(queue)@.contains(path_hash(path@)),
                }
            },
            Some(Action::Macro { .. }) => {
                &&& choice.asset@ == "logos/keyboard.svg"@
                &&& choice.extract is None
                &&& final(queue)@ == old(queue)@
            },
            _ => {
                &&& choice.asset@ == "logos/command.svg"@
                &&& choice.extract is None
                &&& final(queue)@ == old(queue)@
            },
        },
{
    match action {
        Some(Action::App { path }) => {
            let hash = hash_path(path.as_str());
            let fresh = queue.request_icon(hash);
            let extract = if fresh {
                Some((hash, path.clone()))
            } else {
                None
            };
            IconChoice { asset: icon_asset_path(hash), extract }
        },
        Some(Action::Macro { .. }) => IconChoice {
            asset: String::from_str("logos/keyboard.svg"),
            extract: None,
        },
        _ => IconChoice { asset: String::from_str("logos/command.svg"), extract: None },
    }
}

/// The PowerShell script that saves the icon associated with `exe` as a PNG
/// at `out`.
pub open spec fn icon_script_spec(exe: Seq<char>, out: Seq<char>) -> Seq<char> {
    "Add-Type -AssemblyName System.Drawing;[System.Drawing.Icon]::ExtractAssociatedIcon('"@
        + quote_escaped(exe) + "').ToBitmap().Save('"@ + quote_escaped(out)
        + "',[System.Drawing.Imaging.ImageFormat]::Png)"@
}

/// `s` as the inside of a single-quoted PowerShell string: every `'` doubled,
/// so that the string holds `s` literally.
pub open spec fn quote_escaped(s: Seq<char>) -> Seq<char>
    decreases s.len(),
{
    if s.len() == 0 {
        Seq::empty()
    } else {
        quote_escaped(s.drop_last()) + if s.last() == '\'' {
            seq!['\'', '\'']
        } else {
            seq![s.last()]
        }
    }
}

/// Escapes `s` for the inside of a single-quoted PowerShell string.
pub fn escape_single_quoted(s: &str) -> (out: String)
    ensures
        out@ == quote_escaped(s@),
{
    let chars = chars_of(s);
    let mut out = String::new();
    let mut i: usize = 0;
    while i < chars.len()
        invariant
            i <= chars@.len(),
            chars@ == s@,
            out@ == quote_escaped(s@.take(i as int)),
        decreases chars@.len() - i,
    {
        let c = chars[i];
        let ghost before = out@;
        if c == '\'' {
            push_char(&mut out, '\'');
            push_char(&mut out, '\'');
        } else {
            push_char(&mut out, c);
        }
        proof {
            let t = s@.take(i + 1);
            assert(t.drop_last() =~= s@.take(i as int));
            assert(t.last() == c);
            if c == '\'' {
                assert(out@ =~= before + seq!['\'', '\'']);
            } else {
                assert(out@ =~= before + seq![c]);
            }
        }
        i += 1;
    }
    assert(s@.take(s@.len() as int) =~= s@);
    out
}

/// Escaping holds the text literally: reading the escaped text back, taking
/// each doubled quote as one quote, gives the text again, and no lone quote
/// is left to end the string.
pub proof fn law_escaped_quotes_are_doubled(s: Seq<char>)
    ensures
        unescape(quote_escaped(s)) == s,
    decreases s.len(),
{
    if s.len() > 0 {
        law_escaped_quotes_are_doubled(s.drop_last());
        lemma_unescape_append(quote_escaped(s.drop_last()), s.last());
        assert(s.drop_last().push(s.last()) =~= s);
    }
}

/// How PowerShell reads the inside of a single-quoted string: a doubled
/// quote stands for one quote; reading stops at a lone quote.
pub open spec fn unescape(e: Seq<char>) -> Seq<char>
    decreases e.len(),
{
    if e.len() == 0 {
        Seq::empty()
    } else if e[0] == '\'' {
        if e.len() >= 2 && e[1] == '\'' {
            seq!['\''] + unescape(e.skip(2))
        } else {
            Seq::empty()
        }
    } else {
        seq![e[0]] + unescape(e.skip(1))
    }
}

proof fn lemma_unescape_append(e: Seq<char>, c: char)
    requires
        exists|s: Seq<char>| quote_escaped(s) == e,
    ensures
        unescape(e + (if c == '\'' {
            seq!['\'', '\'']
        } else {
            seq![c]
        })) == unescape(e).push(c),
    decreases e.len(),
{
    let tail = if c == '\'' {
        seq!['\'', '\'']
    } else {
        seq![c]
    };
    let s = choose|s: Seq<char>| quote_escaped(s) == e;
    if e.len() == 0 {
        assert((e + tail) =~= tail);
        if c == '\'' {
            assert(tail.skip(2) =~= Seq::<char>::empty());
        } else {
            assert(tail.skip(1) =~= Seq::<char>::empty());
        }
    } else {
        lemma_escaped_split(s);
        let k: int = if e[0] == '\'' {
            2
        } else {
            1
        };
        let rest = e.skip(k);
        assert((e + tail).skip(k) =~= rest + tail);
        lemma_unescape_append(rest, c);
    }
}

/// An escaped text starts with a doubled quote or a character that is no
/// quote, and what follows is escaped text again.
proof fn lemma_escaped_split(s: Seq<char>)
    requires
        quote_escaped(s).len() > 0,
    ensures
        quote_escaped(s)[0] == '\'' ==> quote_escaped(s).len() >= 2 && quote_escaped(s)[1] == '\''
            && quote_escaped(s.drop_first()) == quote_escaped(s).skip(2),
        quote_escaped(s)[0] != '\'' ==> quote_escaped(s.drop_first()) == quote_escaped(s).skip(1),
        exists|r: Seq<char>| quote_escaped(r) == quote_escaped(s).skip(
            if quote_escaped(s)[0] == '\'' { 2int } else { 1int },
        ),
    decreases s.len(),
{
    lemma_escaped_prefix(s);
    let r = s.drop_first();
    if quote_escaped(s)[0] == '\'' {
        assert(quote_escaped(r) == quote_escaped(s).skip(2));
    } else {
        assert(quote_escaped(r) == quote_escaped(s).skip(1));
    }
}

/// Escaping a text is escaping its first character, then the rest.
proof fn lemma_escaped_prefix(s: Seq<char>)
    requires
        s.len() > 0,
    ensures
        quote_escaped(s) == (if s[0] == '\'' {
            seq!['\'', '\'']
        } else {
            seq![s[0]]
        }) + quote_escaped(s.drop_first()),
    decreases s.len(),
{
    if s.len() == 1 {
        assert(s.drop_last() =~= Seq::<char>::empty());
        assert(s.drop_first() =~= Seq::<char>::empty());
        assert(s.last() == s[0]);
    } else {
        let d = s.drop_last();
        lemma_escaped_prefix(d);
        assert(d.drop_first() =~= s.drop_first().drop_last());
        assert(s.drop_first().last() == s.last());
        assert(d[0] == s[0]);
    }
}

/// pulls the associated icon out of an exe with a headless powershell
/// one-liner: the process to run
pub fn extract_icon(exe: &str, out: &str) -> (plan: CommandPlan)
    ensures
        plan.deep_view() == (CommandPlanView {
            program: "powershell"@,
            args: seq![
                "-NoProfile"@,
                "-WindowStyle"@,
                "Hidden"@,
                "-Command"@,
                icon_script_spec(exe@, out@),
            ],
            console: Console::Hidden,
        }),
{
    let mut script = String::from_str(
        "Add-Type -AssemblyName System.Drawing;[System.Drawing.Icon]::ExtractAssociatedIcon('",
    );
    let exe_text = escape_single_quoted(exe);
    script.append(exe_text.as_str());
    script.append("').ToBitmap().Save('");
    let out_text = escape_single_quoted(out);
    script.append(out_text.as_str());
    script.append("',[System.Drawing.Imaging.ImageFormat]::Png)");
    let mut args: Vec<String> = Vec::new();
    args.push(String::from_str("-NoProfile"));
    args.push(String::from_str("-WindowStyle"));
    args.push(String::from_str("Hidden"));
    args.push(String::from_str("-Command"));
    args.push(script);
    let plan = CommandPlan { program: String::from_str("powershell"), args, console: Console::Hidden };
    assert(plan.args.deep_view() =~= seq![
        "-NoProfile"@,
        "-WindowStyle"@,
        "Hidden"@,
        "-Command"@,
        icon_script_spec(exe@, out@),
    ]);
    plan
}


/// Each executable's icon is extracted at most once: after one request the
/// hash counts as requested, and requesting again changes nothing.
pub proof fn law_one_extraction_per_executable(requested: Set<u64>, hash: u64)
    ensures
        requested.insert(hash).contains(hash),
        requested.insert(hash).insert(hash) == requested.insert(hash),
{
    assert(requested.insert(hash).insert(hash) =~= requested.insert(hash));
}

} // verus!
