use vstd::prelude::*;
use crate::text_state::option_view;

verus! {

/// Language table indices that are scanned for names.
pub const LANGUAGE_INDEX_LIMIT: usize = 10000;

/// English name of the ISO 639 language at table index `code`, if there is one.
pub uninterp spec fn iso_language_name(code: usize) -> Option<Seq<char>>;

/// Relies on `isolang::Language::from_usize` and `Language::to_name`: the English
/// name of the language at table index `code`, which depends on `code` alone.
#[verifier::external_body]
fn language_name(code: usize) -> (r: Option<String>)
    ensures
        option_view(r) == iso_language_name(code),
{
    match isolang::Language::from_usize(code) {
        Some(lang) => Some(lang.to_name().to_string()),
        None => None,
    }
}

/// The strings of a vector, as character sequences.
pub open spec fn names_view(v: Seq<String>) -> Seq<Seq<char>> {
    v.map_values(|s: String| s@)
}

/// Code-point order from position `i` on, where the two strings are compared.
pub open spec fn lex_lt_from(a: Seq<char>, b: Seq<char>, i: int) -> bool
    decreases a.len() - i,
{
    if i < 0 || i >= a.len() {
        i >= 0 && i < b.len()
    } else if i >= b.len() {
        false
    } else if a[i] != b[i] {
        (a[i] as u32) < (b[i] as u32)
    } else {
        lex_lt_from(a, b, i + 1)
    }
}

/// `a` comes strictly before `b` in lexicographic code-point order, the order of `str`.
pub open spec fn lex_lt(a: Seq<char>, b: Seq<char>) -> bool {
    lex_lt_from(a, b, 0)
}

pub open spec fn strictly_sorted(s: Seq<Seq<char>>) -> bool {
    forall|i: int, j: int| 0 <= i < j < s.len() ==> lex_lt(#[trigger] s[i], #[trigger] s[j])
}

proof fn lemma_lex_irreflexive(a: Seq<char>, i: int)
    requires
        0 <= i,
    ensures
        !lex_lt_from(a, a, i),
    decreases a.len() - i,
{
    if i < a.len() {
        lemma_lex_irreflexive(a, i + 1);
    }
}

proof fn lemma_lex_transitive(a: Seq<char>, b: Seq<char>, c: Seq<char>, i: int)
    requires
        0 <= i,
        lex_lt_from(a, b, i),
        lex_lt_from(b, c, i),
    ensures
        lex_lt_from(a, c, i),
    decreases a.len() - i,
{
    if i < a.len() && i < b.len() && i < c.len() && a[i] == b[i] && b[i] == c[i] {
        lemma_lex_transitive(a, b, c, i + 1);
    }
}

proof fn lemma_lex_total(a: Seq<char>, b: Seq<char>, i: int)
    requires
        0 <= i <= a.len(),
        i <= b.len(),
        a.subrange(0, i) == b.subrange(0, i),
        !lex_lt_from(a, b, i),
        !lex_lt_from(b, a, i),
    ensures
        a == b,
    decreases a.len() - i,
{
    if i == a.len() || i == b.len() {
        assert(a =~= a.subrange(0, i));
        assert(b =~= b.subrange(0, i));
    } else {
        assert(a[i] == b[i]) by {
            if a[i] != b[i] {
                vstd::utf8::char_u32_cast(a[i], a[i] as u32);
                vstd::utf8::char_u32_cast(b[i], b[i] as u32);
            }
        }
        assert(a.subrange(0, i + 1) =~= a.subrange(0, i).push(a[i]));
        assert(b.subrange(0, i + 1) =~= b.subrange(0, i).push(b[i]));
        lemma_lex_total(a, b, i + 1);
    }
}

/// Whether `a` comes strictly before `b` in code-point order.
pub fn str_less(a: &str, b: &str) -> (r: bool)
    ensures
        r == lex_lt(a@, b@),
{
    let na = a.unicode_len();
    let nb = b.unicode_len();
    let mut i: usize = 0;
    while i < na && i < nb
        invariant
            na == a@.len(),
            nb == b@.len(),
            0 <= i <= na,
            i <= nb,
            lex_lt(a@, b@) == lex_lt_from(a@, b@, i as int),
        decreases na - i,
    {
        let ca = a.get_char(i);
        let cb = b.get_char(i);
        if ca != cb {
            return (ca as u32) < (cb as u32);
        }
        i = i + 1;
    }
    i < nb && i >= na
}

/// Puts `name` in its place in the strictly sorted `names`, unless it is there already.
fn insert_sorted(names: &mut Vec<String>, name: String)
    requires
        strictly_sorted(names_view(old(names)@)),
    ensures
        strictly_sorted(names_view(final(names)@)),
        forall|t: Seq<char>| #[trigger] names_view(final(names)@).contains(t)
            <==> (names_view(old(names)@).contains(t) || t == name@),
{
    let ghost v = names_view(names@);
    let mut lo: usize = 0;
    let mut hi: usize = names.len();
    while lo < hi
        invariant
            v == names_view(names@),
            0 <= lo <= hi <= names@.len(),
            strictly_sorted(v),
            forall|k: int| 0 <= k < lo ==> lex_lt(#[trigger] v[k], name@),
            forall|k: int| hi <= k < v.len() ==> !lex_lt(#[trigger] v[k], name@),
        decreases hi - lo,
    {
        let mid: usize = lo + (hi - lo) / 2;
        if str_less(names[mid].as_str(), name.as_str()) {
            proof {
                assert forall|k: int| 0 <= k < mid + 1 implies lex_lt(#[trigger] v[k], name@) by {
                    if k < mid {
                        lemma_lex_transitive(v[k], v[mid as int], name@, 0);
                    }
                }
            }
            lo = mid + 1;
        } else {
            proof {
                assert forall|k: int| mid <= k < v.len() implies !lex_lt(#[trigger] v[k], name@) by {
                    if k > mid && lex_lt(v[k], name@) {
                        lemma_lex_transitive(v[mid as int], v[k], name@, 0);
                    }
                }
            }
            hi = mid;
        }
    }
    let pos = lo;
    if pos < names.len() && !str_less(name.as_str(), names[pos].as_str()) {
        proof {
            assert(v[pos as int].subrange(0, 0) =~= name@.subrange(0, 0));
            lemma_lex_total(v[pos as int], name@, 0);
            assert(v.contains(name@)) by {
                assert(v[pos as int] == name@);
            }
        }
        return;
    }
    proof {
        if pos < v.len() {
            assert(lex_lt(name@, v[pos as int]));
        }
    }
    names.insert(pos, name);
    proof {
        let w = names_view(names@);
        assert(w =~= v.insert(pos as int, name@));
        assert forall|i: int, j: int| 0 <= i < j < w.len() implies lex_lt(#[trigger] w[i], #[trigger] w[j]) by {
            if j == pos {
                assert(lex_lt(v[i], name@));
            } else if i == pos {
                assert(lex_lt(name@, v[pos as int]));
                if j - 1 > pos {
                    lemma_lex_transitive(name@, v[pos as int], v[j - 1], 0);
                }
            } else if i < pos && j > pos {
                assert(v[i] == w[i] && v[j - 1] == w[j]);
            } else if i > pos {
                assert(v[i - 1] == w[i] && v[j - 1] == w[j]);
            }
        }
        assert forall|t: Seq<char>| #[trigger] w.contains(t) <==> (v.contains(t) || t == name@) by {
            if w.contains(t) {
                let k = choose|k: int| 0 <= k < w.len() && w[k] == t;
                if k < pos {
                    assert(v[k] == t);
                } else if k > pos {
                    assert(v[k - 1] == t);
                }
            }
            if v.contains(t) {
                let k = choose|k: int| 0 <= k < v.len() && v[k] == t;
                if k < pos {
                    assert(w[k] == t);
                } else {
                    assert(w[k + 1] == t);
                }
            }
            if t == name@ {
                assert(w[pos as int] == t);
            }
        }
    }
}

/// A name the language table gives for some index below `limit`.
pub open spec fn named_below(t: Seq<char>, limit: int) -> bool {
    exists|code: usize| code < limit && #[trigger] iso_language_name(code) == Some(t)
}

/// The English names of all languages of the ISO 639 table, sorted in code-point
/// order, each name once.
pub fn get_all_languages() -> (r: Vec<String>)
    ensures
        strictly_sorted(names_view(r@)),
        forall|t: Seq<char>| #[trigger] names_view(r@).contains(t)
            <==> named_below(t, LANGUAGE_INDEX_LIMIT as int),
{
    let mut names: Vec<String> = Vec::new();
    let mut code: usize = 0;
    while code < LANGUAGE_INDEX_LIMIT
        invariant
            0 <= code <= LANGUAGE_INDEX_LIMIT,
            strictly_sorted(names_view(names@)),
            forall|t: Seq<char>| #[trigger] names_view(names@).contains(t) <==> named_below(t, code as int),
        decreases LANGUAGE_INDEX_LIMIT - code,
    {
        let ghost before = names_view(names@);
        match language_name(code) {
            Some(name) => {
                insert_sorted(&mut names, name);
            },
            None => {},
        }
        proof {
            let after = names_view(names@);
            assert forall|t: Seq<char>| #[trigger] after.contains(t) <==> named_below(t, code + 1) by {
                if named_below(t, code + 1) && !named_below(t, code as int) {
                    assert(iso_language_name(code) == Some(t));
                }
                if named_below(t, code as int) {
                    let c = choose|c: usize| c < code && #[trigger] iso_language_name(c) == Some(t);
                    assert(c < code + 1);
                }
            }
        }
        code = code + 1;
    }
    names
}

} // verus!
