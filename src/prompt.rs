use vstd::prelude::*;
use vstd::string::StringExecFns;
use crate::model_config::str_eq;

verus! {

/// `s` from position `i` on with every occurrence of `pat` replaced by `rep`,
/// scanning left to right without overlaps (an empty `pat` replaces nothing).
pub open spec fn replace_from(s: Seq<char>, pat: Seq<char>, rep: Seq<char>, i: int) -> Seq<char>
    decreases s.len() - i,
{
    if i < 0 || i >= s.len() {
        Seq::empty()
    } else if pat.len() > 0 && i + pat.len() <= s.len() && s.subrange(i, i + pat.len()) == pat {
        rep + replace_from(s, pat, rep, i + pat.len())
    } else {
        seq![s[i]] + replace_from(s, pat, rep, i + 1)
    }
}

/// `s` with every occurrence of `pat` replaced by `rep`, as `str::replace` does.
pub open spec fn replace_all(s: Seq<char>, pat: Seq<char>, rep: Seq<char>) -> Seq<char> {
    replace_from(s, pat, rep, 0)
}

/// The placeholder `{key}` that a prompt template uses for variable `key`.
pub open spec fn placeholder(key: Seq<char>) -> Seq<char> {
    seq!['{'] + key + seq!['}']
}

/// The template with each variable's placeholder replaced by its value, in the order given.
pub open spec fn with_vars(template: Seq<char>, vars: Seq<(Seq<char>, Seq<char>)>) -> Seq<char>
    decreases vars.len(),
{
    if vars.len() == 0 {
        template
    } else {
        replace_all(with_vars(template, vars.drop_last()), placeholder(vars.last().0), vars.last().1)
    }
}

/// The prompt sent for a capture: the template's variables filled in, then
/// `{language}` replaced by the selected language.
pub open spec fn prompt_spec(template: Seq<char>, vars: Seq<(Seq<char>, Seq<char>)>, language: Seq<char>) -> Seq<char> {
    replace_all(with_vars(template, vars), "{language}"@, language)
}

pub open spec fn vars_view(vars: Seq<(String, String)>) -> Seq<(Seq<char>, Seq<char>)> {
    vars.map_values(|p: (String, String)| (p.0@, p.1@))
}

/// Whether `pat` occurs in `s` at position `i`.
fn matches_at(s: &str, pat: &str, i: usize) -> (r: bool)
    requires
        i + pat@.len() <= s@.len(),
    ensures
        r == (s@.subrange(i as int, i + pat@.len()) == pat@),
{
    let n = s.unicode_len();
    let m = pat.unicode_len();
    let mut j: usize = 0;
    while j < m
        invariant
            n == s@.len(),
            m == pat@.len(),
            i + m <= s@.len(),
            0 <= j <= m,
            forall|k: int| 0 <= k < j ==> s@[i + k] == pat@[k],
        decreases m - j,
    {
        if s.get_char(i + j) != pat.get_char(j) {
            proof {
                assert(s@.subrange(i as int, i + m)[j as int] != pat@[j as int]);
            }
            return false;
        }
        j = j + 1;
    }
    proof {
        assert(s@.subrange(i as int, i + m) =~= pat@);
    }
    true
}

/// `s` with every occurrence of the non-empty `pat` replaced by `rep`, left to right.
pub fn replace_all_str(s: &str, pat: &str, rep: &str) -> (r: String)
    requires
        pat@.len() > 0,
    ensures
        r@ == replace_all(s@, pat@, rep@),
{
    let n = s.unicode_len();
    let m = pat.unicode_len();
    let mut out = String::new();
    let mut i: usize = 0;
    while i < n
        invariant
            n == s@.len(),
            m == pat@.len(),
            m > 0,
            0 <= i <= n,
            out@ + replace_from(s@, pat@, rep@, i as int) == replace_all(s@, pat@, rep@),
        decreases n - i,
    {
        let ghost before = out@;
        if m <= n && i <= n - m && matches_at(s, pat, i) {
            out.append(rep);
            proof {
                assert(before + replace_from(s@, pat@, rep@, i as int)
                    =~= out@ + replace_from(s@, pat@, rep@, i + m));
            }
            i = i + m;
        } else {
            let one = s.substring_char(i, i + 1);
            out.append(one);
            proof {
                assert(one@ =~= seq![s@[i as int]]);
                assert(before + replace_from(s@, pat@, rep@, i as int)
                    =~= out@ + replace_from(s@, pat@, rep@, i + 1));
            }
            i = i + 1;
        }
    }
    proof {
        assert(out@ + replace_from(s@, pat@, rep@, n as int) =~= out@);
    }
    out
}

/// The prompt for a capture from the preset's template: each variable `(key, value)`
/// replaces `{key}`, in the order given, then `{language}` becomes `language`.
pub fn build_prompt(template: &str, vars: &Vec<(String, String)>, language: &str) -> (r: String)
    ensures
        r@ == prompt_spec(template@, vars_view(vars@), language@),
{
    let mut cur = String::from_str(template);
    let mut k: usize = 0;
    while k < vars.len()
        invariant
            0 <= k <= vars@.len(),
            cur@ == with_vars(template@, vars_view(vars@.subrange(0, k as int))),
        decreases vars@.len() - k,
    {
        let key = String::from_str("{").concat(vars[k].0.as_str()).concat("}");
        proof {
            reveal_strlit("{");
            reveal_strlit("}");
            assert(key@ =~= placeholder(vars@[k as int].0@));
            let pre = vars_view(vars@.subrange(0, k + 1));
            assert(pre.drop_last() =~= vars_view(vars@.subrange(0, k as int)));
            assert(pre.last() == (vars@[k as int].0@, vars@[k as int].1@));
        }
        cur = replace_all_str(cur.as_str(), key.as_str(), vars[k].1.as_str());
        k = k + 1;
    }
    proof {
        assert(vars@.subrange(0, vars@.len() as int) =~= vars@);
        reveal_strlit("{language}");
    }
    replace_all_str(cur.as_str(), "{language}", language)
}

/// Captures with the translation preset ask the backend for a JSON reply.
pub fn uses_json_format(preset_id: &str) -> (r: bool)
    ensures
        r == (preset_id@ == "preset_translate"@),
{
    str_eq(preset_id, "preset_translate")
}

} // verus!
