//! Keyboard keys as the launcher records and shows them.

use vstd::prelude::*;

use crate::text::{
    ascii_lowercase, chars_of, decimal, format_decimal, has_prefix, is_ascii_text, lowercase,
    strip_prefix, string_from_chars, to_lowercase,
};
use vstd::string::StringExecFns;

verus! {

/// A key of the keyboard: a named key of the input backend, by the name of its
/// variant (`"KeyA"`, `"ControlLeft"`, `"Num1"`), or a key the backend only
/// knows by its raw code.
pub enum Key {
    Named(String),
    Unknown(u32),
}

/// What identifies a key.
pub enum KeyView {
    Named(Seq<char>),
    Unknown(u32),
}

impl View for Key {
    type V = KeyView;

    open spec fn view(&self) -> KeyView {
        match self {
            Key::Named(name) => KeyView::Named(name@),
            Key::Unknown(code) => KeyView::Unknown(*code),
        }
    }
}

impl DeepView for Key {
    type V = KeyView;

    open spec fn deep_view(&self) -> KeyView {
        self@
    }
}

impl Clone for Key {
    fn clone(&self) -> (out: Self)
        ensures
            out == *self,
    {
        match self {
            Key::Named(name) => Key::Named(name.clone()),
            Key::Unknown(code) => Key::Unknown(*code),
        }
    }
}

/// Whether `name` reads as the literal `lit`.
pub(crate) fn text_is(name: &String, lit: &str) -> (b: bool)
    ensures
        b == (name@ == lit@),
{
    let l = String::from_str(lit);
    *name == l
}

impl Key {
    /// A named key.
    pub fn named(name: &str) -> (k: Key)
        ensures
            k@ == KeyView::Named(name@),
    {
        Key::Named(String::from_str(name))
    }

    /// Whether the two keys are the same key.
    pub fn same_key(&self, other: &Key) -> (b: bool)
        ensures
            b == (self@ == other@),
    {
        match (self, other) {
            (Key::Named(a), Key::Named(b)) => *a == *b,
            (Key::Unknown(a), Key::Unknown(b)) => *a == *b,
            _ => false,
        }
    }

    /// Whether this is the named key `name`.
    pub fn is_named(&self, name: &str) -> (b: bool)
        ensures
            b == (self@ == KeyView::Named(name@)),
    {
        match self {
            Key::Named(n) => text_is(n, name),
            Key::Unknown(_) => false,
        }
    }
}

/// The short label of the modifiers and a few special keys.
pub open spec fn short_name(name: Seq<char>) -> Option<Seq<char>> {
    if name == "ControlLeft"@ || name == "ControlRight"@ {
        Some("ctrl"@)
    } else if name == "MetaLeft"@ || name == "MetaRight"@ {
        Some("meta"@)
    } else if name == "ShiftLeft"@ || name == "ShiftRight"@ {
        Some("shift"@)
    } else if name == "Return"@ || name == "KpReturn"@ {
        Some("enter"@)
    } else if name == "CapsLock"@ {
        Some("caps"@)
    } else if name == "Delete"@ || name == "KpDelete"@ {
        Some("del"@)
    } else if name == "PrintScreen"@ {
        Some("printscr"@)
    } else {
        None
    }
}

/// A key's name without its `Key` or `Num` prefix.
pub open spec fn stripped_name(name: Seq<char>) -> Seq<char> {
    if has_prefix(name, seq!['K', 'e', 'y']) || has_prefix(name, seq!['N', 'u', 'm']) {
        name.skip(3)
    } else {
        name
    }
}

/// The readable label of a key, as the macro editor shows it.
pub open spec fn key_label_spec(k: KeyView) -> Seq<char> {
    match k {
        KeyView::Unknown(code) => "unknown_"@ + decimal(code as nat),
        KeyView::Named(name) => match short_name(name) {
            Some(l) => l,
            None => lowercase(stripped_name(name)),
        },
    }
}

/// Whether a key's name is plain ASCII, as the input backend's names are; a
/// key of unknown name counts too.
pub open spec fn has_ascii_name(k: KeyView) -> bool {
    match k {
        KeyView::Unknown(_) => true,
        KeyView::Named(name) => is_ascii_text(name),
    }
}

/// The label of a key with an ASCII name: the letters of its name, prefix
/// aside, turned to lowercase.
pub open spec fn ascii_key_label(k: KeyView) -> Seq<char> {
    match k {
        KeyView::Unknown(code) => "unknown_"@ + decimal(code as nat),
        KeyView::Named(name) => match short_name(name) {
            Some(l) => l,
            None => ascii_lowercase(stripped_name(name)),
        },
    }
}

fn label_of(lit: &str) -> (s: String)
    ensures
        s@ == lit@,
{
    String::from_str(lit)
}

/// Readable label for a captured key: the modifiers and a few special keys by
/// a short name, the others by their name without a `Key` or `Num` prefix, in
/// lowercase, and a key of unknown name as `unknown_` and its code.
pub fn key_label(key: &Key) -> (label: String)
    ensures
        label@ == key_label_spec(key@),
        has_ascii_name(key@) ==> label@ == ascii_key_label(key@),
{
    match key {
        Key::Unknown(code) => {
            let mut s = String::from_str("unknown_");
            let digits = format_decimal(*code as u64);
            s.append(digits.as_str());
            s
        },
        Key::Named(name) => {
            if text_is(name, "ControlLeft") || text_is(name, "ControlRight") {
                label_of("ctrl")
            } else if text_is(name, "MetaLeft") || text_is(name, "MetaRight") {
                label_of("meta")
            } else if text_is(name, "ShiftLeft") || text_is(name, "ShiftRight") {
                label_of("shift")
            } else if text_is(name, "Return") || text_is(name, "KpReturn") {
                label_of("enter")
            } else if text_is(name, "CapsLock") {
                label_of("caps")
            } else if text_is(name, "Delete") || text_is(name, "KpDelete") {
                label_of("del")
            } else if text_is(name, "PrintScreen") {
                label_of("printscr")
            } else {
                let chars = chars_of(name.as_str());
                let key_prefix = ['K', 'e', 'y'];
                let num_prefix = ['N', 'u', 'm'];
                assert(key_prefix@ == seq!['K', 'e', 'y']);
                assert(num_prefix@ == seq!['N', 'u', 'm']);
                proof {
                    if name@.len() >= 3 {
                        assert forall|i: int|
                            0 <= i < name@.skip(3).len() && is_ascii_text(name@) implies (
                            #[trigger] name@.skip(3)[i]) as u32 <= 127 by {
                            assert(name@.skip(3)[i] == name@[i + 3]);
                            assert(name@[i + 3] as u32 <= 127);
                        }
                    }
                }
                match strip_prefix(chars.as_slice(), &key_prefix) {
                    Some(rest) => {
                        let rest = string_from_chars(rest.as_slice());
                        to_lowercase(rest.as_str())
                    },
                    None => match strip_prefix(chars.as_slice(), &num_prefix) {
                        Some(rest) => {
                            let rest = string_from_chars(rest.as_slice());
                            to_lowercase(rest.as_str())
                        },
                        None => to_lowercase(name.as_str()),
                    },
                }
            }
        },
    }
}


proof fn lemma_ascii_lowercase_idempotent(s: Seq<char>)
    ensures
        ascii_lowercase(ascii_lowercase(s)) == ascii_lowercase(s),
{
    let t = ascii_lowercase(s);
    assert forall|i: int| 0 <= i < t.len() implies !(65 <= #[trigger] t[i] as u32 <= 90) by {
        if 65 <= s[i] as u32 <= 90 {
            assert(t[i] as u32 == s[i] as u32 + 32);
        }
    }
    assert(ascii_lowercase(t) =~= t);
}

proof fn lemma_decimal_digits(n: nat)
    ensures
        forall|i: int| 0 <= i < decimal(n).len() ==> 48 <= (#[trigger] decimal(n)[i]) as u32 <= 57,
        decimal(n).len() > 0,
    decreases n,
{
    if n >= 10 {
        lemma_decimal_digits(n / 10);
        let d = crate::text::digit_char((n % 10) as int);
        assert(d as u32 == n % 10 + 48);
        assert forall|i: int| 0 <= i < decimal(n).len() implies 48 <= (#[trigger] decimal(
            n,
        )[i]) as u32 <= 57 by {
            if i < decimal(n / 10).len() {
                assert(decimal(n)[i] == decimal(n / 10)[i]);
            }
        }
    } else {
        let d = crate::text::digit_char(n as int);
        assert(d as u32 == n + 48);
    }
}

proof fn lemma_lowercase_fixed(s: Seq<char>)
    requires
        forall|i: int| 0 <= i < s.len() ==> !(65 <= (#[trigger] s[i]) as u32 <= 90),
    ensures
        ascii_lowercase(s) == s,
{
    assert(ascii_lowercase(s) =~= s);
}

/// A key's label is already in lowercase, the same key always gets the same
/// label, and a label is empty only where the name is, its `Key` or `Num`
/// prefix aside (for the keys of ASCII name).
pub proof fn law_key_label_lowercase(k: KeyView, other: KeyView)
    requires
        has_ascii_name(k),
    ensures
        ascii_lowercase(ascii_key_label(k)) == ascii_key_label(k),
        k == other ==> key_label_spec(k) == key_label_spec(other),
        ascii_key_label(k).len() == 0 <==> (k matches KeyView::Named(name) && short_name(name) is None
            && stripped_name(name).len() == 0),
{
    reveal_strlit("ctrl");
    reveal_strlit("meta");
    reveal_strlit("shift");
    reveal_strlit("enter");
    reveal_strlit("caps");
    reveal_strlit("del");
    reveal_strlit("printscr");
    reveal_strlit("unknown_");
    match k {
        KeyView::Unknown(code) => {
            lemma_decimal_digits(code as nat);
            let l = "unknown_"@ + decimal(code as nat);
            assert forall|i: int| 0 <= i < l.len() implies !(65 <= (#[trigger] l[i]) as u32 <= 90) by {
                if i >= 8 {
                    assert(l[i] == decimal(code as nat)[i - 8]);
                }
            }
            lemma_lowercase_fixed(l);
        },
        KeyView::Named(name) => match short_name(name) {
            Some(l) => {
                lemma_lowercase_fixed(l);
            },
            None => {
                lemma_ascii_lowercase_idempotent(stripped_name(name));
            },
        },
    }
}

} // verus!
