//! Text helpers: digits, escaping, whitespace tests and line endings.
//!
//! Each exec function here is proved against a short spec function that
//! states what the text is character by character.
use vstd::prelude::*;

verus! {

// ---------------------------------------------------------------------------
// Character classes
// ---------------------------------------------------------------------------

/// ASCII whitespace as `char::is_ascii_whitespace` defines it: space,
/// horizontal tab, line feed, form feed and carriage return.
pub open spec fn is_ascii_ws(c: char) -> bool {
    c == ' ' || c == '\t' || c == '\n' || c == '\x0C' || c == '\r'
}

/// Whether some character of `s` is ASCII whitespace.
pub open spec fn has_ascii_ws(s: Seq<char>) -> bool {
    exists|i: int| 0 <= i < s.len() && is_ascii_ws(#[trigger] s[i])
}

pub fn is_ascii_whitespace(c: char) -> (b: bool)
    ensures
        b == is_ascii_ws(c),
{
    c == ' ' || c == '\t' || c == '\n' || c == '\x0C' || c == '\r'
}

// ---------------------------------------------------------------------------
// Character sequences
// ---------------------------------------------------------------------------

/// The views of a sequence of strings.
pub open spec fn strings_view(v: Seq<String>) -> Seq<Seq<char>> {
    v.map_values(|s: String| s@)
}

/// The characters of `s`, collected into a vector.
pub fn chars_of(s: &str) -> (v: Vec<char>)
    ensures
        v@ == s@,
{
    let mut v: Vec<char> = Vec::new();
    for c in it: s.chars()
        invariant
            v@ == it.seq().take(it.index() as int),
    {
        v.push(c);
    }
    v
}

/// Whether `s` holds an ASCII whitespace character.
pub fn contains_ascii_whitespace(s: &str) -> (b: bool)
    ensures
        b == has_ascii_ws(s@),
{
    let cs = chars_of(s);
    let n = cs.len();
    let mut i: usize = 0;
    while i < n
        invariant
            n == cs@.len(),
            cs@ == s@,
            i <= n,
            forall|j: int| 0 <= j < i ==> !is_ascii_ws(#[trigger] cs@[j]),
        decreases n - i,
    {
        if is_ascii_whitespace(cs[i]) {
            return true;
        }
        i = i + 1;
    }
    false
}

/// Appends one character (`String::push`).
#[verifier::external_body]
pub(crate) fn push_char(s: &mut String, c: char)
    ensures
        final(s)@ == old(s)@.push(c),
{
    s.push(c)
}

/// Removes the last character (`String::pop`): `None` on an empty string,
/// which is left as it is.
#[verifier::external_body]
pub(crate) fn pop_char(s: &mut String) -> (r: Option<char>)
    ensures
        old(s)@.len() == 0 ==> r is None && final(s)@ == old(s)@,
        old(s)@.len() > 0 ==> r == Some(old(s)@.last()) && final(s)@ == old(s)@.drop_last(),
{
    s.pop()
}

/// Appends every character of `v` to `s`.
pub fn push_chars(s: &mut String, v: &Vec<char>)
    ensures
        final(s)@ == old(s)@ + v@,
{
    let n = v.len();
    let mut i: usize = 0;
    while i < n
        invariant
            n == v@.len(),
            i <= n,
            s@ == old(s)@ + v@.take(i as int),
        decreases n - i,
    {
        push_char(s, v[i]);
        assert(v@.take(i + 1) =~= v@.take(i as int).push(v@[i as int]));
        i = i + 1;
    }
    assert(v@.take(n as int) =~= v@);
}

/// Appends the characters of `t` to `s`.
pub fn push_str(s: &mut String, t: &str)
    ensures
        final(s)@ == old(s)@ + t@,
{
    let v = chars_of(t);
    push_chars(s, &v);
}

// ---------------------------------------------------------------------------
// Digits
// ---------------------------------------------------------------------------

/// The digit character for `d` (0-9, then lower-case a-f).
pub open spec fn digit_char(d: nat) -> char {
    if d < 10 {
        (48 + d) as char
    } else {
        (87 + d) as char
    }
}

/// Decimal notation of `n`, without leading zeros.
pub open spec fn decimal(n: nat) -> Seq<char>
    decreases n,
{
    if n < 10 {
        seq![digit_char(n)]
    } else {
        decimal(n / 10) + seq![digit_char(n % 10)]
    }
}

/// Lower-case hexadecimal notation of `n`, without leading zeros.
pub open spec fn hex(n: nat) -> Seq<char>
    decreases n,
{
    if n < 16 {
        seq![digit_char(n)]
    } else {
        hex(n / 16) + seq![digit_char(n % 16)]
    }
}

/// The number that decimal digits denote.
pub open spec fn decimal_value(s: Seq<char>) -> int
    decreases s.len(),
{
    if s.len() == 0 {
        0
    } else {
        decimal_value(s.drop_last()) * 10 + ((s.last() as int) - 48)
    }
}

/// Decimal notation can be read back.
pub proof fn lemma_decimal_value(n: nat)
    ensures
        decimal_value(decimal(n)) == n,
    decreases n,
{
    if n >= 10 {
        lemma_decimal_value(n / 10);
        assert((decimal(n / 10) + seq![digit_char(n % 10)]).drop_last() =~= decimal(n / 10));
        let s = decimal(n);
        assert(s == decimal(n / 10) + seq![digit_char(n % 10)]);
        assert(s.drop_last() =~= decimal(n / 10));
        assert(s.last() == digit_char(n % 10));
        assert(digit_char(n % 10) as int == 48 + n % 10);
        assert(decimal_value(s) == decimal_value(s.drop_last()) * 10 + ((s.last() as int) - 48));
        assert(n == (n / 10) * 10 + n % 10);
    } else {
        assert(digit_char(n) as int == 48 + n);
        assert(seq![digit_char(n)].drop_last() =~= Seq::<char>::empty());
        assert(decimal_value(Seq::<char>::empty()) == 0);
    }
}

/// Different numbers have different decimal notations.
pub proof fn lemma_decimal_injective(a: nat, b: nat)
    ensures
        a != b ==> decimal(a) != decimal(b),
{
    lemma_decimal_value(a);
    lemma_decimal_value(b);
}

/// Decimal notation of a signed integer, with a leading `-` when negative.
pub open spec fn signed_decimal(i: int) -> Seq<char> {
    if i < 0 {
        seq!['-'] + decimal((-i) as nat)
    } else {
        decimal(i as nat)
    }
}

fn digit(d: u64) -> (c: char)
    requires
        d < 16,
    ensures
        c == digit_char(d as nat),
{
    if d < 10 {
        ((48 + d) as u8) as char
    } else {
        ((87 + d) as u8) as char
    }
}

/// Appends the decimal notation of `n`.
pub fn push_decimal(s: &mut String, n: u64)
    ensures
        final(s)@ == old(s)@ + decimal(n as nat),
    decreases n,
{
    if n >= 10 {
        push_decimal(s, n / 10);
    }
    push_char(s, digit(n % 10));
}

/// Appends the hexadecimal notation of `n`.
pub fn push_hex(s: &mut String, n: u64)
    ensures
        final(s)@ == old(s)@ + hex(n as nat),
    decreases n,
{
    if n >= 16 {
        push_hex(s, n / 16);
    }
    push_char(s, digit(n % 16));
}

/// Appends the decimal notation of a signed 32-bit integer.
pub fn push_signed_decimal(s: &mut String, v: i32)
    ensures
        final(s)@ == old(s)@ + signed_decimal(v as int),
{
    if v < 0 {
        push_char(s, '-');
        let w: i64 = v as i64;
        let m: u64 = (0 - w) as u64;
        push_decimal(s, m);
    } else {
        push_decimal(s, v as u64);
    }
}

// ---------------------------------------------------------------------------
// Escaping
// ---------------------------------------------------------------------------

/// The escape of one character as `char::escape_default` gives it:
/// `\t`, `\r`, `\n`, `\\`, `\'` and `\"` for those six characters, printable
/// ASCII (0x20 to 0x7e) as it is, and `\u{..}` with lower-case hex digits for
/// everything else.
pub open spec fn escape_char(c: char) -> Seq<char> {
    if c == '\t' {
        seq!['\\', 't']
    } else if c == '\r' {
        seq!['\\', 'r']
    } else if c == '\n' {
        seq!['\\', 'n']
    } else if c == '\\' || c == '\'' || c == '"' {
        seq!['\\', c]
    } else if 0x20 <= (c as u32) <= 0x7e {
        seq![c]
    } else {
        seq!['\\', 'u', '{'] + hex(c as nat) + seq!['}']
    }
}

/// The escape of a whole string: the escapes of its characters, in order.
pub open spec fn escape_str(s: Seq<char>) -> Seq<char>
    decreases s.len(),
{
    if s.len() == 0 {
        seq![]
    } else {
        escape_str(s.drop_last()) + escape_char(s.last())
    }
}

/// Appends the escape of one character.
pub fn push_escaped_char(s: &mut String, c: char)
    ensures
        final(s)@ == old(s)@ + escape_char(c),
{
    if c == '\t' {
        push_char(s, '\\');
        push_char(s, 't');
    } else if c == '\r' {
        push_char(s, '\\');
        push_char(s, 'r');
    } else if c == '\n' {
        push_char(s, '\\');
        push_char(s, 'n');
    } else if c == '\\' || c == '\'' || c == '"' {
        push_char(s, '\\');
        push_char(s, c);
    } else if 0x20 <= (c as u32) && (c as u32) <= 0x7e {
        push_char(s, c);
    } else {
        push_char(s, '\\');
        push_char(s, 'u');
        push_char(s, '{');
        push_hex(s, c as u32 as u64);
        push_char(s, '}');
    }
}

/// Appends the escape of a string.
pub fn push_escaped(s: &mut String, t: &str)
    ensures
        final(s)@ == old(s)@ + escape_str(t@),
{
    let cs = chars_of(t);
    let n = cs.len();
    let mut i: usize = 0;
    while i < n
        invariant
            n == cs@.len(),
            cs@ == t@,
            i <= n,
            s@ == old(s)@ + escape_str(cs@.take(i as int)),
        decreases n - i,
    {
        push_escaped_char(s, cs[i]);
        assert(cs@.take(i + 1).drop_last() =~= cs@.take(i as int));
        assert(s@ =~= old(s)@ + escape_str(cs@.take(i + 1)));
        i = i + 1;
    }
    assert(cs@.take(n as int) =~= cs@);
}

// ---------------------------------------------------------------------------
// Line endings
// ---------------------------------------------------------------------------

/// `s` without one final line feed, and then without one final carriage
/// return.
pub open spec fn strip_line_end(s: Seq<char>) -> Seq<char> {
    let s1 = if s.len() > 0 && s.last() == '\n' {
        s.drop_last()
    } else {
        s
    };
    if s1.len() > 0 && s1.last() == '\r' {
        s1.drop_last()
    } else {
        s1
    }
}

fn pop_if(s: &mut String, c: char)
    ensures
        final(s)@ == (if old(s)@.len() > 0 && old(s)@.last() == c {
            old(s)@.drop_last()
        } else {
            old(s)@
        }),
{
    match pop_char(s) {
        Some(last) => {
            if last != c {
                push_char(s, last);
                assert(s@ =~= old(s)@);
            }
        },
        None => {},
    }
}

/// Strips one trailing `\n`, then one trailing `\r`.
pub fn trim_line_end(s: &mut String)
    ensures
        final(s)@ == strip_line_end(old(s)@),
{
    pop_if(s, '\n');
    pop_if(s, '\r');
}

/// Escaping a string escapes its parts one after the other.
pub proof fn law_escape_concat(s: Seq<char>, t: Seq<char>)
    ensures
        escape_str(s + t) == escape_str(s) + escape_str(t),
    decreases t.len(),
{
    if t.len() == 0 {
        assert(s + t =~= s);
        assert(escape_str(s) + escape_str(t) =~= escape_str(s));
    } else {
        law_escape_concat(s, t.drop_last());
        assert((s + t).drop_last() =~= s + t.drop_last());
        assert((s + t).last() == t.last());
        assert(escape_str(s + t) =~= escape_str(s) + escape_str(t));
    }
}

/// Printable ASCII other than the backslash and the two quotes is kept as
/// it is; a string of such characters escapes to itself.
pub proof fn law_escape_keeps_plain_text(s: Seq<char>)
    requires
        forall|i: int|
            0 <= i < s.len() ==> 0x20 <= (#[trigger] s[i] as u32) <= 0x7e && s[i] != '\\' && s[i]
                != '\'' && s[i] != '"',
    ensures
        escape_str(s) == s,
    decreases s.len(),
{
    if s.len() > 0 {
        law_escape_keeps_plain_text(s.drop_last());
        assert(s.drop_last() + seq![s.last()] =~= s);
    }
}

/// Every character outside printable ASCII, other than tab, carriage return
/// and line feed, escapes to `\u{` and its code point in hexadecimal, which
/// reads back to that code point; the escape never holds the character itself
/// as a raw control character.
pub proof fn law_escape_unicode(c: char)
    requires
        !(0x20 <= (c as u32) <= 0x7e),
        c != '\t',
        c != '\r',
        c != '\n',
    ensures
        escape_char(c) == seq!['\\', 'u', '{'] + hex(c as nat) + seq!['}'],
        hex_value(hex(c as nat)) == c as nat,
{
    lemma_hex_value(c as nat);
}

/// The number that lower-case hexadecimal digits denote.
pub open spec fn hex_value(s: Seq<char>) -> int
    decreases s.len(),
{
    if s.len() == 0 {
        0
    } else {
        hex_value(s.drop_last()) * 16 + (if (s.last() as int) < 87 {
            (s.last() as int) - 48
        } else {
            (s.last() as int) - 87
        })
    }
}

/// Hexadecimal notation can be read back.
pub proof fn lemma_hex_value(n: nat)
    ensures
        hex_value(hex(n)) == n,
    decreases n,
{
    if n >= 16 {
        lemma_hex_value(n / 16);
        let s = hex(n);
        assert(s.drop_last() =~= hex(n / 16));
        assert(s.last() == digit_char(n % 16));
        assert(n == (n / 16) * 16 + n % 16);
    } else {
        assert(seq![digit_char(n)].drop_last() =~= Seq::<char>::empty());
        assert(hex_value(Seq::<char>::empty()) == 0);
    }
}

/// Stripping the line ending removes at most two characters, only a final
/// `\n` and a `\r` before it (or a lone final `\r`), and keeps everything
/// before them.
pub proof fn law_strip_line_end(s: Seq<char>)
    ensures
        s.len() - 2 <= strip_line_end(s).len() <= s.len(),
        strip_line_end(s) == s.take(strip_line_end(s).len() as int),
        forall|k: int|
            strip_line_end(s).len() <= k < s.len() ==> #[trigger] s[k] == '\n' || s[k] == '\r',
        s.len() > 0 && s.last() != '\n' && s.last() != '\r' ==> strip_line_end(s) == s,
{
    let s1 = if s.len() > 0 && s.last() == '\n' {
        s.drop_last()
    } else {
        s
    };
    assert(s1 =~= s.take(s1.len() as int));
    if s1.len() > 0 && s1.last() == '\r' {
        assert(s1.drop_last() =~= s.take(s1.len() - 1));
    }
}

} // verus!
