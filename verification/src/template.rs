//! Shader-template splice: the generated snippet textually replaces the
//! span from the begin marker through the end marker, inclusive. Where the
//! template holds no such marker pair, the splice is a no-op and the
//! template is returned unmodified.
use vstd::prelude::*;

verus! {

/// The pattern occurs in `s` at position `i`.
pub open spec fn occurs_at(s: Seq<char>, pat: Seq<char>, i: int) -> bool {
    0 <= i && i + pat.len() <= s.len() && s.subrange(i, i + pat.len()) == pat
}

/// The first position at or after `from` where the pattern occurs.
pub open spec fn spec_find(s: Seq<char>, pat: Seq<char>, from: int) -> Option<int>
    decreases s.len() - from
        when 0 <= from <= s.len()
{
    if from + pat.len() <= s.len() {
        if occurs_at(s, pat, from) {
            Some(from)
        } else if from < s.len() {
            spec_find(s, pat, from + 1)
        } else {
            None
        }
    } else {
        None
    }
}

/// Check whether the pattern occurs at `i`, character by character.
fn matches_at(s: &str, pat: &str, i: usize) -> (r: bool)
    requires
        i + pat@.len() <= s@.len(),
    ensures
        r == occurs_at(s@, pat@, i as int),
{
    let n = s.unicode_len();
    let m = pat.unicode_len();
    let mut k: usize = 0;
    loop
        invariant_except_break
            k <= m,
            m == pat@.len(),
            n == s@.len(),
            i + m <= s@.len(),
            forall|l: int| 0 <= l < k ==> s@[i + l] == pat@[l],
        ensures
            if k == m {
                forall|l: int| 0 <= l < m ==> s@[i + l] == pat@[l]
            } else {
                k < m && s@[i + k] != pat@[k as int]
            },
        decreases m - k,
    {
        if k == m {
            break ;
        }
        if s.get_char(i + k) != pat.get_char(k) {
            break ;
        }
        k = k + 1;
    }
    if k == m {
        proof {
            assert(s@.subrange(i as int, i + pat@.len()) =~= pat@);
        }
        true
    } else {
        proof {
            assert(s@.subrange(i as int, i + pat@.len())[k as int] == s@[i + k]);
        }
        false
    }
}

/// The position of the first occurrence of `pat` in `s`.
pub fn find_str(s: &str, pat: &str) -> (r: Option<usize>)
    ensures
        match r {
            Some(i) => spec_find(s@, pat@, 0) == Some(i as int),
            None => spec_find(s@, pat@, 0) is None,
        },
{
    let n = s.unicode_len();
    let m = pat.unicode_len();
    if m > n {
        return None;
    }
    if m == 0 {
        proof {
            assert(s@.subrange(0, 0) =~= pat@);
        }
        return Some(0);
    }
    let mut i: usize = 0;
    let mut found = false;
    loop
        invariant_except_break
            1 <= m <= n,
            i <= n - m + 1,
            n == s@.len(),
            m == pat@.len(),
            !found,
            spec_find(s@, pat@, 0) == spec_find(s@, pat@, i as int),
        ensures
            if found {
                spec_find(s@, pat@, 0) == Some(i as int)
            } else {
                spec_find(s@, pat@, 0) is None
            },
        decreases n - i,
    {
        if i > n - m {
            break ;
        }
        if matches_at(s, pat, i) {
            found = true;
            break ;
        }
        i = i + 1;
    }
    if found {
        Some(i)
    } else {
        None
    }
}

/// What the splice yields: where both markers are found, the begin marker
/// not after the end marker, everything from the begin marker through the
/// end marker (inclusive) is replaced by the snippet; in every other case
/// the template stands unmodified.
pub open spec fn spec_splice(
    template: Seq<char>,
    begin_mark: Seq<char>,
    end_mark: Seq<char>,
    snippet: Seq<char>,
) -> Seq<char> {
    match (spec_find(template, begin_mark, 0), spec_find(template, end_mark, 0)) {
        (Some(l), Some(r)) => if l <= r {
            template.subrange(0, l) + snippet + template.subrange(
                r + end_mark.len(),
                template.len() as int,
            )
        } else {
            template
        },
        _ => template,
    }
}

/// Splice the snippet into the template between the marker pair.
pub fn splice_template(template: &str, begin_mark: &str, end_mark: &str, snippet: &str) -> (out:
    String)
    ensures
        out@ == spec_splice(template@, begin_mark@, end_mark@, snippet@),
{
    let mut out = String::new();
    let n = template.unicode_len();
    let l_opt = find_str(template, begin_mark);
    let r_opt = find_str(template, end_mark);
    match (l_opt, r_opt) {
        (Some(l), Some(r)) => {
            if l <= r {
                proof {
                    lemma_find_occurs(template@, begin_mark@, 0);
                    lemma_find_occurs(template@, end_mark@, 0);
                }
                out.append(template.substring_char(0, l));
                out.append(snippet);
                out.append(template.substring_char(r + end_mark.unicode_len(), n));
                proof {
                    assert(out@ =~= spec_splice(template@, begin_mark@, end_mark@, snippet@));
                }
            } else {
                out.append(template);
            }
        },
        _ => {
            out.append(template);
        },
    }
    out
}

/// Where `spec_find` answers, the pattern occurs there.
proof fn lemma_find_occurs(s: Seq<char>, pat: Seq<char>, from: int)
    requires
        0 <= from <= s.len(),
        spec_find(s, pat, from) is Some,
    ensures
        match spec_find(s, pat, from) {
            Some(i) => occurs_at(s, pat, i) && i + pat.len() <= s.len(),
            None => false,
        },
    decreases s.len() - from,
{
    if from + pat.len() <= s.len() && !occurs_at(s, pat, from) {
        assert(pat.len() > 0) by {
            if pat.len() == 0 {
                assert(s.subrange(from, from) =~= pat);
            }
        }
        lemma_find_occurs(s, pat, from + 1);
    }
}

} // verus!
