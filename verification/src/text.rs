//! Character-level text handling: whitespace trimming and splitting, numeric
//! parsing and formatting, prefixes and ASCII lowercase.

use vstd::prelude::*;

verus! {

/// The characters of a string, in order.
pub fn chars_of(s: &str) -> (out: Vec<char>)
    ensures
        out@ == s@,
{
    broadcast use vstd::string::group_string_axioms;
    let mut out: Vec<char> = Vec::new();
    for c in it: s.chars()
        invariant
            out@ == it.seq().take(it.index() as int),
            it.seq() == s@,
    {
        out.push(c);
        assert(it.seq().take(it.index() + 1) =~= it.seq().take(it.index() as int).push(c));
    }
    out
}

/// `String::push`: appends one character.
#[verifier::external_body]
pub(crate) fn push_char(s: &mut String, c: char)
    ensures
        final(s)@ == old(s)@.push(c),
{
    s.push(c);
}

/// Builds a string from a sequence of characters.
pub fn string_from_chars(chars: &[char]) -> (out: String)
    ensures
        out@ == chars@,
{
    let mut out = String::new();
    let mut i: usize = 0;
    while i < chars.len()
        invariant
            i <= chars@.len(),
            out@ == chars@.take(i as int),
        decreases chars@.len() - i,
    {
        push_char(&mut out, chars[i]);
        assert(chars@.take(i + 1) =~= chars@.take(i as int).push(chars@[i as int]));
        i += 1;
    }
    assert(chars@.take(chars@.len() as int) =~= chars@);
    out
}

/// The character of a digit value below sixteen: `0`-`9`, then `a`-`f`.
pub open spec fn digit_char(d: int) -> char {
    if d < 10 {
        (d + 48) as char
    } else {
        (d + 87) as char
    }
}

fn digit_char_exec(d: u32) -> (c: char)
    requires
        d < 16,
    ensures
        c == digit_char(d as int),
{
    if d < 10 {
        ((d as u8) + 48u8) as char
    } else {
        ((d as u8) + 87u8) as char
    }
}

/// The decimal representation of `n`, without leading zeros.
pub open spec fn decimal(n: nat) -> Seq<char>
    decreases n,
{
    if n < 10 {
        seq![digit_char(n as int)]
    } else {
        decimal(n / 10).push(digit_char((n % 10) as int))
    }
}

/// The lowercase hexadecimal representation of `n`, without leading zeros.
pub open spec fn lower_hex(n: nat) -> Seq<char>
    decreases n,
{
    if n < 16 {
        seq![digit_char(n as int)]
    } else {
        lower_hex(n / 16).push(digit_char((n % 16) as int))
    }
}

/// Formats `n` in decimal, as `{}` does.
pub fn format_decimal(n: u64) -> (out: String)
    ensures
        out@ == decimal(n as nat),
{
    let mut digits: Vec<char> = Vec::new();
    let mut m: u64 = n;
    // digits holds the low digits, least significant first
    while m >= 10
        invariant
            m <= n,
            decimal(n as nat) == decimal(m as nat) + digits@.reverse(),
        decreases m,
    {
        let d = (m % 10) as u32;
        let c = digit_char_exec(d);
        proof {
            assert(decimal(m as nat) == decimal((m / 10) as nat).push(c));
            assert(seq![c] + digits@.reverse() =~= digits@.push(c).reverse());
            assert(decimal((m / 10) as nat).push(c) + digits@.reverse()
                =~= decimal((m / 10) as nat) + (seq![c] + digits@.reverse()));
        }
        digits.push(c);
        m = m / 10;
    }
    let c = digit_char_exec(m as u32);
    digits.push(c);
    proof {
        assert(decimal(m as nat) == seq![c]);
        assert(seq![c] + digits@.drop_last().reverse() =~= digits@.reverse());
    }
    let mut out = String::new();
    let mut i: usize = digits.len();
    while i > 0
        invariant
            i <= digits@.len(),
            out@ == digits@.reverse().take(digits@.len() - i),
        decreases i,
    {
        i -= 1;
        push_char(&mut out, digits[i]);
        assert(digits@.reverse().take(digits@.len() - i) =~= digits@.reverse().take(
            digits@.len() - i - 1,
        ).push(digits@[i as int]));
    }
    assert(digits@.reverse().take(digits@.len() as int) =~= digits@.reverse());
    out
}


/// Formats `n` in lowercase hexadecimal, as `{:x}` does.
pub fn format_lower_hex(n: u64) -> (out: String)
    ensures
        out@ == lower_hex(n as nat),
{
    let mut digits: Vec<char> = Vec::new();
    let mut m: u64 = n;
    while m >= 16
        invariant
            m <= n,
            lower_hex(n as nat) == lower_hex(m as nat) + digits@.reverse(),
        decreases m,
    {
        let d = (m % 16) as u32;
        let c = digit_char_exec(d);
        proof {
            assert(lower_hex(m as nat) == lower_hex((m / 16) as nat).push(c));
            assert(seq![c] + digits@.reverse() =~= digits@.push(c).reverse());
            assert(lower_hex((m / 16) as nat).push(c) + digits@.reverse()
                =~= lower_hex((m / 16) as nat) + (seq![c] + digits@.reverse()));
        }
        digits.push(c);
        m = m / 16;
    }
    let c = digit_char_exec(m as u32);
    digits.push(c);
    proof {
        assert(lower_hex(m as nat) == seq![c]);
        assert(seq![c] + digits@.drop_last().reverse() =~= digits@.reverse());
    }
    let mut out = String::new();
    let mut i: usize = digits.len();
    while i > 0
        invariant
            i <= digits@.len(),
            out@ == digits@.reverse().take(digits@.len() - i),
        decreases i,
    {
        i -= 1;
        push_char(&mut out, digits[i]);
        assert(digits@.reverse().take(digits@.len() - i) =~= digits@.reverse().take(
            digits@.len() - i - 1,
        ).push(digits@[i as int]));
    }
    assert(digits@.reverse().take(digits@.len() as int) =~= digits@.reverse());
    out
}

/// Whether `c` has the Unicode `White_Space` property: the controls tab to
/// carriage return, space, next line, no-break space, ogham space mark, the
/// spaces from en quad to hair space, the line and paragraph separators, the
/// narrow no-break space, the medium mathematical space and the ideographic
/// space.
pub open spec fn is_whitespace(c: char) -> bool {
    let u = c as u32;
    ||| 0x09 <= u <= 0x0d
    ||| u == 0x20
    ||| u == 0x85
    ||| u == 0xa0
    ||| u == 0x1680
    ||| 0x2000 <= u <= 0x200a
    ||| u == 0x2028
    ||| u == 0x2029
    ||| u == 0x202f
    ||| u == 0x205f
    ||| u == 0x3000
}

/// `char::is_whitespace`, which decides the Unicode `White_Space` property.
#[verifier::external_body]
pub(crate) fn char_is_whitespace(c: char) -> (b: bool)
    ensures
        b == is_whitespace(c),
{
    c.is_whitespace()
}

/// The number of whitespace characters at the start of `s`.
pub open spec fn leading_ws(s: Seq<char>) -> nat
    decreases s.len(),
{
    if s.len() == 0 {
        0
    } else if is_whitespace(s[0]) {
        1 + leading_ws(s.drop_first())
    } else {
        0
    }
}

/// The number of whitespace characters at the end of `s`.
pub open spec fn trailing_ws(s: Seq<char>) -> nat
    decreases s.len(),
{
    if s.len() == 0 {
        0
    } else if is_whitespace(s.last()) {
        1 + trailing_ws(s.drop_last())
    } else {
        0
    }
}

/// `s` without its leading and trailing whitespace, as `str::trim` gives it.
pub open spec fn trim(s: Seq<char>) -> Seq<char> {
    if leading_ws(s) == s.len() {
        Seq::empty()
    } else {
        s.subrange(leading_ws(s) as int, s.len() - trailing_ws(s))
    }
}

proof fn lemma_leading_ws(s: Seq<char>, i: int)
    requires
        0 <= i <= s.len(),
        forall|k: int| 0 <= k < i ==> is_whitespace(#[trigger] s[k]),
        i == s.len() || !is_whitespace(s[i]),
    ensures
        leading_ws(s) == i,
    decreases i,
{
    if i > 0 {
        assert forall|k: int| 0 <= k < i - 1 implies is_whitespace(#[trigger] s.drop_first()[k]) by {
            assert(s.drop_first()[k] == s[k + 1]);
        }
        lemma_leading_ws(s.drop_first(), i - 1);
    }
}

proof fn lemma_trailing_ws(s: Seq<char>, j: int)
    requires
        0 <= j <= s.len(),
        forall|k: int| s.len() - j <= k < s.len() ==> is_whitespace(#[trigger] s[k]),
        j == s.len() || !is_whitespace(s[s.len() - 1 - j]),
    ensures
        trailing_ws(s) == j,
    decreases j,
{
    if j > 0 {
        assert(is_whitespace(s.last()));
        let t = s.drop_last();
        assert forall|k: int| t.len() - (j - 1) <= k < t.len() implies is_whitespace(#[trigger] t[k]) by {
            assert(t[k] == s[k]);
        }
        if j - 1 != t.len() {
            assert(t[t.len() - 1 - (j - 1)] == s[s.len() - 1 - j]);
        }
        lemma_trailing_ws(t, j - 1);
    }
}

/// `str::trim` over characters.
pub fn trim_chars(s: &[char]) -> (out: Vec<char>)
    ensures
        out@ == trim(s@),
{
    let n = s.len();
    let mut i: usize = 0;
    while i < n && char_is_whitespace(s[i])
        invariant
            i <= n == s@.len(),
            forall|k: int| 0 <= k < i ==> is_whitespace(#[trigger] s@[k]),
        decreases n - i,
    {
        i += 1;
    }
    proof {
        lemma_leading_ws(s@, i as int);
    }
    if i == n {
        return Vec::new();
    }
    let mut j: usize = n;
    while j > i + 1 && char_is_whitespace(s[j - 1])
        invariant
            i < j <= n == s@.len(),
            !is_whitespace(s@[i as int]),
            forall|k: int| j <= k < n ==> is_whitespace(#[trigger] s@[k]),
        decreases j,
    {
        j -= 1;
    }
    proof {
        lemma_trailing_ws(s@, n - j);
    }
    let mut out: Vec<char> = Vec::new();
    let mut k: usize = i;
    while k < j
        invariant
            i <= k <= j <= n == s@.len(),
            out@ == s@.subrange(i as int, k as int),
        decreases j - k,
    {
        out.push(s[k]);
        assert(s@.subrange(i as int, k + 1) =~= s@.subrange(i as int, k as int).push(s@[k as int]));
        k += 1;
    }
    out
}

/// The whitespace-separated words of `s`, as `str::split_whitespace` yields
/// them, read one character at a time.
pub open spec fn words(s: Seq<char>) -> Seq<Seq<char>>
    decreases s.len(),
{
    if s.len() == 0 {
        Seq::empty()
    } else {
        let prev = words(s.drop_last());
        let c = s.last();
        if is_whitespace(c) {
            prev
        } else if s.len() >= 2 && !is_whitespace(s[s.len() - 2]) {
            prev.update(prev.len() - 1, prev.last().push(c))
        } else {
            prev.push(seq![c])
        }
    }
}

/// The characters of `s` that are not whitespace, in order.
pub open spec fn non_whitespace(s: Seq<char>) -> Seq<char>
    decreases s.len(),
{
    if s.len() == 0 {
        Seq::empty()
    } else if is_whitespace(s.last()) {
        non_whitespace(s.drop_last())
    } else {
        non_whitespace(s.drop_last()).push(s.last())
    }
}

/// The words of a list, one after the other.
pub open spec fn concat_words(w: Seq<Seq<char>>) -> Seq<char>
    decreases w.len(),
{
    if w.len() == 0 {
        Seq::empty()
    } else {
        concat_words(w.drop_last()) + w.last()
    }
}

proof fn lemma_words_nonempty_at_word(s: Seq<char>)
    requires
        s.len() > 0,
        !is_whitespace(s.last()),
    ensures
        words(s).len() > 0,
    decreases s.len(),
{
    if s.len() >= 2 && !is_whitespace(s[s.len() - 2]) {
        let p = s.drop_last();
        assert(p.last() == s[s.len() - 2]);
        lemma_words_nonempty_at_word(p);
    }
}

/// Splitting on whitespace keeps every other character, in order, and only
/// those: the words, put back together, are the text without its
/// whitespace; every word is non-empty and holds no whitespace.
pub proof fn law_words_keep_text_in_order(s: Seq<char>)
    ensures
        concat_words(words(s)) == non_whitespace(s),
        forall|i: int| 0 <= i < words(s).len() ==> (#[trigger] words(s)[i]).len() > 0,
        forall|i: int, j: int|
            0 <= i < words(s).len() && 0 <= j < words(s)[i].len() ==> !is_whitespace(
                #[trigger] words(s)[i][j],
            ),
    decreases s.len(),
{
    if s.len() > 0 {
        let p = s.drop_last();
        let c = s.last();
        law_words_keep_text_in_order(p);
        let prev = words(p);
        if is_whitespace(c) {
        } else if s.len() >= 2 && !is_whitespace(s[s.len() - 2]) {
            assert(p.last() == s[s.len() - 2]);
            lemma_words_nonempty_at_word(p);
            let q = prev.update(prev.len() - 1, prev.last().push(c));
            assert(q.drop_last() =~= prev.drop_last());
            assert(q.last() == prev.last().push(c));
            assert(concat_words(q) =~= concat_words(prev.drop_last()) + prev.last().push(c));
            assert(concat_words(prev) == concat_words(prev.drop_last()) + prev.last());
            assert(concat_words(q) =~= concat_words(prev).push(c));
            assert forall|i: int, j: int|
                0 <= i < q.len() && 0 <= j < q[i].len() implies !is_whitespace(#[trigger] q[i][j]) by {
                if i == q.len() - 1 && j == q[i].len() - 1 {
                    assert(q[i][j] == c);
                } else if i == q.len() - 1 {
                    assert(q[i][j] == prev[i][j]);
                }
            }
        } else {
            let q = prev.push(seq![c]);
            assert(q.drop_last() =~= prev);
            assert(concat_words(q) =~= concat_words(prev).push(c));
            assert forall|i: int, j: int|
                0 <= i < q.len() && 0 <= j < q[i].len() implies !is_whitespace(#[trigger] q[i][j]) by {
                if i < prev.len() {
                    assert(q[i] == prev[i]);
                }
            }
        }
    }
}


/// `str::split_whitespace` over characters.
pub fn split_whitespace(s: &[char]) -> (out: Vec<String>)
    ensures
        out.deep_view() == words(s@),
{
    let n = s.len();
    let mut done: Vec<String> = Vec::new();
    let mut cur: Vec<char> = Vec::new();
    let mut i: usize = 0;
    while i < n
        invariant
            i <= n == s@.len(),
            cur@.len() > 0 <==> (i > 0 && !is_whitespace(s@[i - 1])),
            cur@.len() == 0 ==> words(s@.take(i as int)) == done.deep_view(),
            cur@.len() > 0 ==> words(s@.take(i as int)) == done.deep_view().push(cur@),
        decreases n - i,
    {
        let c = s[i];
        let ws = char_is_whitespace(c);
        proof {
            let t = s@.take(i + 1);
            assert(t.drop_last() =~= s@.take(i as int));
            assert(t.last() == c);
            if i > 0 {
                assert(t[t.len() - 2] == s@[i - 1]);
            }
        }
        if ws {
            if cur.len() > 0 {
                let ghost before_done = done.deep_view();
                let ghost before_cur = cur@;
                let word = string_from_chars(cur.as_slice());
                done.push(word);
                cur = Vec::new();
                assert(done.deep_view() =~= before_done.push(before_cur));
            }
        } else {
            let ghost before = cur@;
            cur.push(c);
            proof {
                if before.len() > 0 {
                    let w = done.deep_view().push(before);
                    assert(w.update(w.len() - 1, w.last().push(c)) =~= done.deep_view().push(cur@));
                } else {
                    assert(cur@ =~= seq![c]);
                }
            }
        }
        i += 1;
    }
    assert(s@.take(n as int) =~= s@);
    if cur.len() > 0 {
        let ghost before_done = done.deep_view();
        let word = string_from_chars(cur.as_slice());
        done.push(word);
        assert(done.deep_view() =~= before_done.push(cur@));
    }
    done
}


/// The value of `c` as a digit in `radix`, as `char::to_digit` gives it.
pub open spec fn digit_value(c: char, radix: nat) -> Option<nat> {
    let code = c as u32;
    let v: int = if 48 <= code <= 57 {
        code - 48
    } else if 97 <= code <= 122 {
        code - 87
    } else if 65 <= code <= 90 {
        code - 55
    } else {
        36
    };
    if v < radix {
        Some(v as nat)
    } else {
        None
    }
}

/// The value of a string of digits in `radix`, most significant first;
/// `None` where some character is no digit.
pub open spec fn digits_value(s: Seq<char>, radix: nat) -> Option<nat>
    decreases s.len(),
{
    if s.len() == 0 {
        Some(0)
    } else {
        match (digits_value(s.drop_last(), radix), digit_value(s.last(), radix)) {
            (Some(v), Some(d)) => Some(v * radix + d),
            _ => None,
        }
    }
}

/// What `u32::from_str_radix` accepts: an optional `+`, then at least one
/// digit, the value fitting in a `u32`.
pub open spec fn parse_unsigned(s: Seq<char>, radix: nat) -> Option<u32> {
    let digits = if s.len() > 0 && s[0] == '+' {
        s.drop_first()
    } else {
        s
    };
    if digits.len() == 0 {
        None
    } else {
        match digits_value(digits, radix) {
            Some(v) => if v <= u32::MAX {
                Some(v as u32)
            } else {
                None
            },
            None => None,
        }
    }
}

proof fn lemma_digits_value_grows(s: Seq<char>, radix: nat, i: int, j: int, v: nat)
    requires
        1 <= radix,
        0 <= i <= j <= s.len(),
        digits_value(s.take(i), radix) == Some(v),
    ensures
        digits_value(s.take(j), radix) matches Some(w) ==> w >= v,
    decreases j - i,
{
    if j > i {
        lemma_digits_value_grows(s, radix, i, j - 1, v);
        let t = s.take(j);
        assert(t.drop_last() =~= s.take(j - 1));
        if let Some(w) = digits_value(t, radix) {
            let p = digits_value(s.take(j - 1), radix)->0;
            let d = digit_value(t.last(), radix)->0;
            assert(w == p * radix + d);
            assert(p * radix >= p) by (nonlinear_arith)
                requires
                    radix >= 1,
            ;
        }
    }
}

/// `u32::from_str_radix` over characters.
pub fn parse_u32_radix(s: &[char], radix: u32) -> (out: Option<u32>)
    requires
        2 <= radix <= 36,
    ensures
        out == parse_unsigned(s@, radix as nat),
{
    let start: usize = if s.len() > 0 && s[0] == '+' {
        1
    } else {
        0
    };
    let ghost digits = if s@.len() > 0 && s@[0] == '+' {
        s@.drop_first()
    } else {
        s@
    };
    assert(digits =~= s@.subrange(start as int, s@.len() as int));
    if start == s.len() {
        return None;
    }
    let mut acc: u64 = 0;
    let mut i: usize = start;
    while i < s.len()
        invariant
            start <= i <= s@.len(),
            digits =~= s@.subrange(start as int, s@.len() as int),
            digits == (if s@.len() > 0 && s@[0] == '+' {
                s@.drop_first()
            } else {
                s@
            }),
            2 <= radix <= 36,
            acc <= u32::MAX,
            digits_value(digits.take(i - start), radix as nat) == Some(acc as nat),
        decreases s@.len() - i,
    {
        let c = s[i];
        let code = c as u32;
        let d: u32 = if 48 <= code && code <= 57 {
            code - 48
        } else if 97 <= code && code <= 122 {
            code - 87
        } else if 65 <= code && code <= 90 {
            code - 55
        } else {
            36
        };
        let ghost t = digits.take(i - start + 1);
        proof {
            assert(t.drop_last() =~= digits.take(i - start));
            assert(t.last() == c);
            if d < radix {
                assert(digit_value(c, radix as nat) == Some(d as nat));
            } else {
                assert(digit_value(c, radix as nat) is None);
            }
        }
        if d >= radix {
            proof {
                assert(digits_value(t, radix as nat) is None);
                lemma_none_stays(digits, radix as nat, i - start + 1, digits.len() as int);
                assert(digits.take(digits.len() as int) =~= digits);
                assert(digits_value(digits, radix as nat) is None);
                assert(digits.len() > 0);
            }
            return None;
        }
        assert(acc * (radix as u64) <= 0xffff_ffffu64 * 36) by (nonlinear_arith)
            requires
                acc <= 0xffff_ffffu64,
                radix <= 36,
        ;
        let next: u64 = acc * (radix as u64) + (d as u64);
        if next > 0xffff_ffffu64 {
            proof {
                lemma_digits_value_grows(digits, radix as nat, i - start + 1, digits.len() as int, next as nat);
                assert(digits.take(digits.len() as int) =~= digits);
            }
            return None;
        }
        acc = next;
        i += 1;
    }
    assert(digits.take(digits.len() as int) =~= digits);
    Some(acc as u32)
}

proof fn lemma_none_stays(s: Seq<char>, radix: nat, i: int, j: int)
    requires
        0 <= i <= j <= s.len(),
        digits_value(s.take(i), radix) is None,
    ensures
        digits_value(s.take(j), radix) is None,
    decreases j - i,
{
    if j > i {
        lemma_none_stays(s, radix, i, j - 1);
        assert(s.take(j).drop_last() =~= s.take(j - 1));
    }
}

/// Whether `s` begins with `prefix`.
pub open spec fn has_prefix(s: Seq<char>, prefix: Seq<char>) -> bool {
    prefix.len() <= s.len() && s.take(prefix.len() as int) == prefix
}

/// `str::starts_with` over characters.
pub fn starts_with(s: &[char], prefix: &[char]) -> (b: bool)
    ensures
        b == has_prefix(s@, prefix@),
{
    if prefix.len() > s.len() {
        return false;
    }
    let mut i: usize = 0;
    while i < prefix.len()
        invariant
            i <= prefix@.len() <= s@.len(),
            forall|k: int| 0 <= k < i ==> s@[k] == prefix@[k],
        decreases prefix@.len() - i,
    {
        if s[i] != prefix[i] {
            assert(s@.take(prefix@.len() as int)[i as int] != prefix@[i as int]);
            return false;
        }
        i += 1;
    }
    assert(s@.take(prefix@.len() as int) =~= prefix@);
    true
}

/// `str::strip_prefix` over characters.
pub fn strip_prefix(s: &[char], prefix: &[char]) -> (out: Option<Vec<char>>)
    ensures
        out matches Some(rest) ==> has_prefix(s@, prefix@) && rest@ == s@.skip(prefix@.len() as int),
        out is None ==> !has_prefix(s@, prefix@),
{
    if !starts_with(s, prefix) {
        return None;
    }
    let mut rest: Vec<char> = Vec::new();
    let mut i: usize = prefix.len();
    while i < s.len()
        invariant
            prefix@.len() <= i <= s@.len(),
            rest@ == s@.subrange(prefix@.len() as int, i as int),
        decreases s@.len() - i,
    {
        rest.push(s[i]);
        assert(s@.subrange(prefix@.len() as int, i + 1) =~= s@.subrange(prefix@.len() as int, i as int).push(s@[i as int]));
        i += 1;
    }
    assert(s@.subrange(prefix@.len() as int, s@.len() as int) =~= s@.skip(prefix@.len() as int));
    Some(rest)
}

/// The number of copies of `c` at the start of `s`.
pub open spec fn leading_count(s: Seq<char>, c: char) -> nat
    decreases s.len(),
{
    if s.len() > 0 && s[0] == c {
        1 + leading_count(s.drop_first(), c)
    } else {
        0
    }
}

proof fn lemma_leading_count(s: Seq<char>, c: char, i: int)
    requires
        0 <= i <= s.len(),
        forall|k: int| 0 <= k < i ==> #[trigger] s[k] == c,
        i == s.len() || s[i] != c,
    ensures
        leading_count(s, c) == i,
    decreases i,
{
    if i > 0 {
        assert forall|k: int| 0 <= k < i - 1 implies #[trigger] s.drop_first()[k] == c by {
            assert(s.drop_first()[k] == s[k + 1]);
        }
        lemma_leading_count(s.drop_first(), c, i - 1);
    }
}

/// `str::trim_start_matches` with a single character.
pub fn trim_start_matches(s: &[char], c: char) -> (out: Vec<char>)
    ensures
        out@ == s@.skip(leading_count(s@, c) as int),
        leading_count(s@, c) <= s@.len(),
{
    let mut i: usize = 0;
    while i < s.len() && s[i] == c
        invariant
            i <= s@.len(),
            forall|k: int| 0 <= k < i ==> #[trigger] s@[k] == c,
        decreases s@.len() - i,
    {
        i += 1;
    }
    proof {
        lemma_leading_count(s@, c, i as int);
    }
    let mut rest: Vec<char> = Vec::new();
    let mut k: usize = i;
    while k < s.len()
        invariant
            i <= k <= s@.len(),
            rest@ == s@.subrange(i as int, k as int),
        decreases s@.len() - k,
    {
        rest.push(s[k]);
        assert(s@.subrange(i as int, k + 1) =~= s@.subrange(i as int, k as int).push(s@[k as int]));
        k += 1;
    }
    assert(s@.subrange(i as int, s@.len() as int) =~= s@.skip(i as int));
    rest
}

/// The ASCII letters `A`-`Z` of `s` turned to `a`-`z`, the rest kept.
pub open spec fn ascii_lowercase(s: Seq<char>) -> Seq<char> {
    Seq::new(
        s.len(),
        |i: int|
            if 65 <= s[i] as u32 <= 90 {
                (s[i] as u32 + 32) as char
            } else {
                s[i]
            },
    )
}

/// Whether every character of `s` is ASCII.
pub open spec fn is_ascii_text(s: Seq<char>) -> bool {
    forall|i: int| 0 <= i < s.len() ==> (#[trigger] s[i]) as u32 <= 127
}

/// The Unicode lowercase of `s`, as `str::to_lowercase` computes it.
pub uninterp spec fn lowercase(s: Seq<char>) -> Seq<char>;

/// `str::to_lowercase`. The result is named by `lowercase`; of it this states
/// only that an ASCII string has its letters `A`-`Z` mapped to `a`-`z`. The
/// Unicode case tables that decide the rest are not written out.
#[verifier::external_body]
pub(crate) fn to_lowercase(s: &str) -> (out: String)
    ensures
        out@ == lowercase(s@),
        is_ascii_text(s@) ==> out@ == ascii_lowercase(s@),
{
    s.to_lowercase()
}


proof fn lemma_digit_char_value(d: nat, radix: nat)
    requires
        d < radix <= 16,
    ensures
        digit_value(digit_char(d as int), radix) == Some(d),
        digit_char(d as int) != '+',
{
    let c = digit_char(d as int);
    if d < 10 {
        assert(c as u32 == d + 48);
    } else {
        assert(c as u32 == d + 87);
    }
}

proof fn lemma_decimal_value(n: nat)
    ensures
        digits_value(decimal(n), 10) == Some(n),
        decimal(n).len() > 0,
        decimal(n)[0] != '+',
    decreases n,
{
    if n < 10 {
        lemma_digit_char_value(n, 10);
        assert(decimal(n).drop_last() =~= Seq::<char>::empty());
    } else {
        lemma_decimal_value(n / 10);
        lemma_digit_char_value(n % 10, 10);
        assert(decimal(n).drop_last() =~= decimal(n / 10));
    }
}

proof fn lemma_lower_hex_value(n: nat)
    ensures
        digits_value(lower_hex(n), 16) == Some(n),
        lower_hex(n).len() > 0,
        lower_hex(n)[0] != '+',
    decreases n,
{
    if n < 16 {
        lemma_digit_char_value(n, 16);
        assert(lower_hex(n).drop_last() =~= Seq::<char>::empty());
    } else {
        lemma_lower_hex_value(n / 16);
        lemma_digit_char_value(n % 16, 16);
        assert(lower_hex(n).drop_last() =~= lower_hex(n / 16));
    }
}

/// A number written out in decimal, or in lowercase hexadecimal, reads
/// back as itself.
pub proof fn law_format_parse_round_trip(n: u32)
    ensures
        parse_unsigned(decimal(n as nat), 10) == Some(n),
        parse_unsigned(lower_hex(n as nat), 16) == Some(n),
{
    lemma_decimal_value(n as nat);
    lemma_lower_hex_value(n as nat);
}


/// A number in hexadecimal starts with a digit, neither `#` nor `+`.
pub proof fn lemma_lower_hex_digits(n: nat)
    ensures
        lower_hex(n).len() > 0,
        lower_hex(n)[0] != '#',
        lower_hex(n)[0] != '+',
    decreases n,
{
    if n >= 16 {
        lemma_lower_hex_digits(n / 16);
        assert(lower_hex(n)[0] == lower_hex(n / 16)[0]);
    } else {
        let c = digit_char(n as int);
        if n < 10 {
            assert(c as u32 == n + 48);
        } else {
            assert(c as u32 == n + 87);
        }
    }
}

} // verus!
