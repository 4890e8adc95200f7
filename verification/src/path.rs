//! Paths, held as text.
//!
//! How paths are joined, and what the final component and the parent of a
//! path are, is left to `std::path` and the rules of the platform, behind
//! three trusted items. The order of paths used for directory listings is
//! code-point order over the whole text.
use vstd::prelude::*;
use crate::text::{chars_of, strings_view};

verus! {

broadcast use vstd::multiset::group_multiset_axioms;

// ---------------------------------------------------------------------------
// Joining
// ---------------------------------------------------------------------------

/// What `std::path::Path::join` gives for a base and a path.
pub uninterp spec fn path_join(base: Seq<char>, p: Seq<char>) -> Seq<char>;

/// Calls `std::path::Path::join`: `p` adjoined to `base`, or `p` alone when
/// it is absolute, by the path rules of the platform. The contract ties the
/// result to the name `path_join`; those rules are not restated.
#[verifier::external_body]
pub(crate) fn join_path(base: &str, p: &str) -> (r: String)
    ensures
        r@ == path_join(base@, p@),
{
    std::path::Path::new(base).join(p).to_string_lossy().into_owned()
}

// ---------------------------------------------------------------------------
// Components, as std reads them
// ---------------------------------------------------------------------------

/// What `std::path::Path::file_name` gives for a path.
pub uninterp spec fn path_file_name(p: Seq<char>) -> Option<Seq<char>>;

/// What `std::path::Path::parent` gives for a path.
pub uninterp spec fn path_parent(p: Seq<char>) -> Option<Seq<char>>;

/// Calls `std::path::Path::file_name`: the final component of `p` when that
/// component is a normal one. The contract only ties the result to the name
/// `path_file_name`; how std splits a path into components is not restated.
#[verifier::external_body]
pub(crate) fn file_name(p: &str) -> (r: Option<String>)
    ensures
        match r {
            Some(n) => path_file_name(p@) == Some(n@),
            None => path_file_name(p@) is None,
        },
{
    match std::path::Path::new(p).file_name() {
        Some(n) => Some(n.to_string_lossy().into_owned()),
        None => None,
    }
}

/// Calls `std::path::Path::parent`: `p` without its final component, or
/// `None` when `p` ends in a root or is empty. The contract ties the result
/// to the name `path_parent` and states the empty case; how std splits a
/// path into components is not restated.
#[verifier::external_body]
pub(crate) fn parent(p: &str) -> (r: Option<String>)
    ensures
        match r {
            Some(d) => path_parent(p@) == Some(d@),
            None => path_parent(p@) is None,
        },
        p@.len() == 0 ==> r is None,
{
    match std::path::Path::new(p).parent() {
        Some(d) => Some(d.to_string_lossy().into_owned()),
        None => None,
    }
}

// ---------------------------------------------------------------------------
// Ordering
// ---------------------------------------------------------------------------

/// Lexicographic order on character sequences (by code point); a proper
/// prefix comes first.
pub open spec fn lex_le(a: Seq<char>, b: Seq<char>) -> bool
    decreases a.len(),
{
    if a.len() == 0 {
        true
    } else if b.len() == 0 {
        false
    } else if (a[0] as u32) != (b[0] as u32) {
        (a[0] as u32) < (b[0] as u32)
    } else {
        lex_le(a.drop_first(), b.drop_first())
    }
}

/// Any two sequences are ordered one way or the other.
pub proof fn lemma_lex_total(a: Seq<char>, b: Seq<char>)
    ensures
        lex_le(a, b) || lex_le(b, a),
    decreases a.len(),
{
    if a.len() > 0 && b.len() > 0 && (a[0] as u32) == (b[0] as u32) {
        lemma_lex_total(a.drop_first(), b.drop_first());
    }
}

/// The order is transitive.
pub proof fn lemma_lex_trans(a: Seq<char>, b: Seq<char>, c: Seq<char>)
    requires
        lex_le(a, b),
        lex_le(b, c),
    ensures
        lex_le(a, c),
    decreases a.len(),
{
    if a.len() > 0 && b.len() > 0 && c.len() > 0 && (a[0] as u32) == (b[0] as u32) && (b[0]
        as u32) == (c[0] as u32) {
        lemma_lex_trans(a.drop_first(), b.drop_first(), c.drop_first());
    }
}

/// The order is decided at the first character where the two sequences
/// differ, wherever it is: the one with the smaller code point there comes
/// strictly first.
pub proof fn law_lex_first_difference(a: Seq<char>, b: Seq<char>, i: int)
    requires
        0 <= i < a.len(),
        i < b.len(),
        a.take(i) == b.take(i),
        (a[i] as u32) < (b[i] as u32),
    ensures
        lex_le(a, b),
        !lex_le(b, a),
    decreases i,
{
    if i > 0 {
        assert(a.take(i)[0] == a[0]);
        assert(b.take(i)[0] == b[0]);
        assert(a.drop_first().take(i - 1) =~= a.take(i).drop_first());
        assert(b.drop_first().take(i - 1) =~= b.take(i).drop_first());
        law_lex_first_difference(a.drop_first(), b.drop_first(), i - 1);
    }
}

/// A sequence comes no later than any sequence it begins, and a proper
/// prefix comes strictly first.
pub proof fn law_lex_prefix(a: Seq<char>, b: Seq<char>)
    requires
        a.len() <= b.len(),
        b.take(a.len() as int) == a,
    ensures
        lex_le(a, b),
        a.len() < b.len() ==> !lex_le(b, a),
    decreases a.len(),
{
    if a.len() > 0 {
        assert(b.take(a.len() as int)[0] == b[0]);
        assert(b.drop_first().take(a.drop_first().len() as int) =~= a.drop_first());
        law_lex_prefix(a.drop_first(), b.drop_first());
    }
}

/// Two sequences that each come no later than the other are equal.
pub proof fn law_lex_antisymmetric(a: Seq<char>, b: Seq<char>)
    requires
        lex_le(a, b),
        lex_le(b, a),
    ensures
        a == b,
    decreases a.len(),
{
    if a.len() > 0 && b.len() > 0 {
        law_lex_antisymmetric(a.drop_first(), b.drop_first());
        vstd::utf8::char_u32_cast(a[0], a[0] as u32);
        vstd::utf8::char_u32_cast(b[0], b[0] as u32);
        assert(a[0] == b[0]);
        assert(a =~= seq![a[0]] + a.drop_first());
        assert(b =~= seq![b[0]] + b.drop_first());
    } else {
        assert(a =~= b);
    }
}

/// Whether `a` comes no later than `b` in the order of `lex_le`.
pub fn path_le(a: &str, b: &str) -> (r: bool)
    ensures
        r == lex_le(a@, b@),
{
    let ac = chars_of(a);
    let bc = chars_of(b);
    let mut i: usize = 0;
    assert(a@.skip(0) =~= a@);
    assert(b@.skip(0) =~= b@);
    while i < ac.len() && i < bc.len()
        invariant
            ac@ == a@,
            bc@ == b@,
            i <= a@.len(),
            i <= b@.len(),
            lex_le(a@, b@) == lex_le(a@.skip(i as int), b@.skip(i as int)),
        decreases a@.len() - i,
    {
        if (ac[i] as u32) != (bc[i] as u32) {
            return (ac[i] as u32) < (bc[i] as u32);
        }
        assert(a@.skip(i as int).drop_first() =~= a@.skip(i + 1));
        assert(b@.skip(i as int).drop_first() =~= b@.skip(i + 1));
        i = i + 1;
    }
    i == ac.len()
}

/// Every element comes no later than every element after it.
pub open spec fn sorted(s: Seq<Seq<char>>) -> bool {
    forall|i: int, j: int| 0 <= i < j < s.len() ==> lex_le(#[trigger] s[i], #[trigger] s[j])
}

proof fn lemma_insert_keeps_sorted(s: Seq<Seq<char>>, pos: int, x: Seq<char>)
    requires
        sorted(s),
        0 <= pos <= s.len(),
        forall|k: int| 0 <= k < pos ==> lex_le(#[trigger] s[k], x),
        pos < s.len() ==> !lex_le(s[pos], x),
    ensures
        sorted(s.insert(pos, x)),
{
    let t = s.insert(pos, x);
    s.insert_ensures(pos, x);
    if pos < s.len() {
        lemma_lex_total(s[pos], x);
    }
    assert forall|i: int, j: int| 0 <= i < j < t.len() implies lex_le(#[trigger] t[i], #[trigger] t[j]) by {
        if j < pos {
        } else if j == pos {
        } else if i < pos {
            assert(t[j] == s[j - 1]);
        } else if i == pos {
            assert(t[j] == s[j - 1]);
            if j - 1 > pos {
                lemma_lex_trans(x, s[pos], s[j - 1]);
            }
        } else {
            assert(t[i] == s[i - 1]);
            assert(t[j] == s[j - 1]);
        }
    }
}

/// The first index of `out` whose element comes strictly after `item`
/// (`out.len()` when there is none).
fn insertion_point(out: &Vec<String>, item: &String) -> (pos: usize)
    ensures
        pos <= out@.len(),
        forall|k: int| 0 <= k < pos ==> lex_le(#[trigger] out@[k]@, item@),
        pos < out@.len() ==> !lex_le(out@[pos as int]@, item@),
{
    let n = out.len();
    let mut k: usize = 0;
    while k < n
        invariant
            n == out@.len(),
            k <= n,
            forall|j: int| 0 <= j < k ==> lex_le(#[trigger] out@[j]@, item@),
        decreases n - k,
    {
        if !path_le(out[k].as_str(), item.as_str()) {
            return k;
        }
        k = k + 1;
    }
    n
}

/// The same paths, sorted by `lex_le`.
pub fn sort_paths(paths: Vec<String>) -> (r: Vec<String>)
    ensures
        r@.to_multiset() == paths@.to_multiset(),
        sorted(strings_view(r@)),
{
    let mut rest = paths;
    let mut out: Vec<String> = Vec::new();
    proof {
        vstd::seq_lib::to_multiset_len(out@);
        vstd::multiset::lemma_multiset_empty_len(out@.to_multiset());
    }
    while rest.len() > 0
        invariant
            rest@.to_multiset().add(out@.to_multiset()) == paths@.to_multiset(),
            sorted(strings_view(out@)),
        decreases rest.len(),
    {
        let ghost rest0 = rest@;
        let ghost out0 = out@;
        let item = rest.pop().unwrap();
        let pos = insertion_point(&out, &item);
        proof {
            assert(rest0 =~= rest@.push(item));
            vstd::seq_lib::to_multiset_build(rest@, item);
            vstd::seq_lib::to_multiset_insert(out0, pos as int, item);
            lemma_insert_keeps_sorted(strings_view(out0), pos as int, item@);
        }
        out.insert(pos, item);
        proof {
            assert(out@ =~= out0.insert(pos as int, item));
            assert(strings_view(out@) =~= strings_view(out0).insert(pos as int, item@));
            assert(rest@.to_multiset().add(out@.to_multiset()) =~= paths@.to_multiset());
        }
    }
    proof {
        vstd::seq_lib::to_multiset_len(rest@);
        vstd::multiset::lemma_multiset_empty_len(rest@.to_multiset());
    }
    assert(out@.to_multiset() =~= paths@.to_multiset());
    out
}

} // verus!
