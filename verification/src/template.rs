//! Command templating: replacing every occurrence of the placeholder token
//! in each template argument with the trimmed input line.

use vstd::prelude::*;
use vstd::string::StrSliceExecFns;
use vstd::string::StringExecFns;

verus! {

/// The literal marker that is replaced, in every template argument after
/// the executable name, by the current input line's trimmed value.
pub open spec fn placeholder() -> Seq<char> {
    "%INPUT%"@
}

/// The characters stripped from the ends of an input line when it is
/// trimmed: the Unicode white-space set.
pub open spec fn is_space_char(c: char) -> bool {
    ||| c == ' '
    ||| c == '\t'
    ||| c == '\n'
    ||| c == '\r'
    ||| c == '\u{000B}'
    ||| c == '\u{000C}'
    ||| c == '\u{0085}'
    ||| c == '\u{00A0}'
    ||| c == '\u{1680}'
    ||| c == '\u{2000}'
    ||| c == '\u{2001}'
    ||| c == '\u{2002}'
    ||| c == '\u{2003}'
    ||| c == '\u{2004}'
    ||| c == '\u{2005}'
    ||| c == '\u{2006}'
    ||| c == '\u{2007}'
    ||| c == '\u{2008}'
    ||| c == '\u{2009}'
    ||| c == '\u{200A}'
    ||| c == '\u{2028}'
    ||| c == '\u{2029}'
    ||| c == '\u{202F}'
    ||| c == '\u{205F}'
    ||| c == '\u{3000}'
}

pub open spec fn trim_front_spec(s: Seq<char>) -> Seq<char>
    decreases s.len(),
{
    if s.len() == 0 {
        s
    } else if is_space_char(s.first()) {
        trim_front_spec(s.drop_first())
    } else {
        s
    }
}

pub open spec fn trim_back_spec(s: Seq<char>) -> Seq<char>
    decreases s.len(),
{
    if s.len() == 0 {
        s
    } else if is_space_char(s.last()) {
        trim_back_spec(s.drop_last())
    } else {
        s
    }
}

/// An input line's value once loaded: the line with leading and trailing
/// whitespace removed.
pub open spec fn trim_spec(s: Seq<char>) -> Seq<char> {
    trim_back_spec(trim_front_spec(s))
}

fn is_space(c: char) -> (r: bool)
    ensures
        r == is_space_char(c),
{
    c == ' ' || c == '\t' || c == '\n' || c == '\r' || c == '\u{000B}' || c == '\u{000C}'
        || c == '\u{0085}' || c == '\u{00A0}' || c == '\u{1680}' || c == '\u{2000}'
        || c == '\u{2001}' || c == '\u{2002}' || c == '\u{2003}' || c == '\u{2004}'
        || c == '\u{2005}' || c == '\u{2006}' || c == '\u{2007}' || c == '\u{2008}'
        || c == '\u{2009}' || c == '\u{200A}' || c == '\u{2028}' || c == '\u{2029}'
        || c == '\u{202F}' || c == '\u{205F}' || c == '\u{3000}'
}

proof fn lemma_trim_front_skip(s: Seq<char>, lo: int)
    requires
        0 <= lo <= s.len(),
        forall|k: int| 0 <= k < lo ==> is_space_char(s[k]),
        lo == s.len() || !is_space_char(s[lo]),
    ensures
        trim_front_spec(s) == s.skip(lo),
    decreases lo,
{
    if lo == 0 {
        assert(s.skip(0) =~= s);
        if s.len() > 0 {
            assert(!is_space_char(s.first()));
        }
    } else {
        assert(is_space_char(s.first()));
        lemma_trim_front_skip(s.drop_first(), lo - 1);
        assert(s.drop_first().skip(lo - 1) =~= s.skip(lo));
    }
}

proof fn lemma_trim_back_take(s: Seq<char>, hi: int)
    requires
        0 <= hi <= s.len(),
        forall|k: int| hi <= k < s.len() ==> is_space_char(s[k]),
        hi == 0 || !is_space_char(s[hi - 1]),
    ensures
        trim_back_spec(s) == s.take(hi),
    decreases s.len() - hi,
{
    if hi == s.len() {
        assert(s.take(hi) =~= s);
        if s.len() > 0 {
            assert(!is_space_char(s.last()));
        }
    } else {
        assert(is_space_char(s.last()));
        lemma_trim_back_take(s.drop_last(), hi);
        assert(s.drop_last().take(hi) =~= s.take(hi));
    }
}

/// Strips leading and trailing whitespace from a string.
pub fn trim_str(s: &str) -> (r: String)
    ensures
        r@ == trim_spec(s@),
{
    let len = s.unicode_len();
    let mut lo: usize = 0;
    while lo < len && is_space(s.get_char(lo))
        invariant
            lo <= len,
            len == s@.len(),
            forall|k: int| 0 <= k < lo ==> is_space_char(s@[k]),
        decreases len - lo,
    {
        lo = lo + 1;
    }
    let mut hi: usize = len;
    while hi > lo && is_space(s.get_char(hi - 1))
        invariant
            lo <= hi <= len,
            len == s@.len(),
            forall|k: int| hi <= k < len ==> is_space_char(s@[k]),
        decreases hi,
    {
        hi = hi - 1;
    }
    proof {
        lemma_trim_front_skip(s@, lo as int);
        lemma_trim_back_take(s@.skip(lo as int), hi - lo);
        assert(s@.skip(lo as int).take(hi - lo) =~= s@.subrange(lo as int, hi as int));
    }
    String::from_str(s.substring_char(lo, hi))
}

/// The token `pat` stands at position `i` of `s`.
pub open spec fn match_at(s: Seq<char>, pat: Seq<char>, i: int) -> bool {
    &&& 0 <= i
    &&& i + pat.len() <= s.len()
    &&& s.subrange(i, i + pat.len()) == pat
}

/// The token `pat` occurs somewhere in `s`.
pub open spec fn occurs(s: Seq<char>, pat: Seq<char>) -> bool {
    exists|i: int| match_at(s, pat, i)
}

/// Left-to-right, non-overlapping replacement of every occurrence of the
/// non-empty token `pat` in `s` by `v`.
pub open spec fn replace_spec(s: Seq<char>, pat: Seq<char>, v: Seq<char>) -> Seq<char>
    recommends
        pat.len() > 0,
    decreases s.len(),
{
    if pat.len() == 0 || s.len() < pat.len() {
        s
    } else if s.subrange(0, pat.len() as int) == pat {
        v + replace_spec(s.skip(pat.len() as int), pat, v)
    } else {
        seq![s[0]] + replace_spec(s.drop_first(), pat, v)
    }
}

proof fn lemma_replace_step_no_match(s: Seq<char>, pat: Seq<char>, v: Seq<char>)
    requires
        s.len() > 0,
        pat.len() > 0,
        !match_at(s, pat, 0),
    ensures
        replace_spec(s, pat, v) == seq![s[0]] + replace_spec(s.drop_first(), pat, v),
{
    if s.len() < pat.len() {
        assert(s.drop_first().len() < pat.len());
        assert(seq![s[0]] + s.drop_first() =~= s);
    }
}

fn matches_at(s: &str, pat: &str, i: usize) -> (r: bool)
    ensures
        r == match_at(s@, pat@, i as int),
{
    let slen = s.unicode_len();
    let plen = pat.unicode_len();
    if i > slen || plen > slen - i {
        return false;
    }
    let mut j: usize = 0;
    while j < plen
        invariant
            j <= plen,
            i + plen <= slen,
            slen == s@.len(),
            plen == pat@.len(),
            forall|k: int| 0 <= k < j ==> s@[i + k] == pat@[k],
        decreases plen - j,
    {
        if s.get_char(i + j) != pat.get_char(j) {
            proof {
                assert(s@[i + j] != pat@[j as int]);
                if match_at(s@, pat@, i as int) {
                    assert(s@.subrange(i as int, i + pat@.len())[j as int] == pat@[j as int]);
                }
            }
            return false;
        }
        j = j + 1;
    }
    proof {
        assert(s@.subrange(i as int, i + pat@.len()) =~= pat@);
    }
    true
}

/// Replaces every occurrence of the non-empty token `pat` in `s` by
/// `value`, left to right and without overlap.
pub fn replace_all(s: &str, pat: &str, value: &str) -> (r: String)
    requires
        pat@.len() > 0,
    ensures
        r@ == replace_spec(s@, pat@, value@),
{
    let slen = s.unicode_len();
    let plen = pat.unicode_len();
    let mut out = String::new();
    let mut i: usize = 0;
    proof {
        assert(s@.skip(0) =~= s@);
        assert(Seq::<char>::empty() + replace_spec(s@, pat@, value@) =~= replace_spec(
            s@,
            pat@,
            value@,
        ));
    }
    while i < slen
        invariant
            i <= slen,
            slen == s@.len(),
            plen == pat@.len(),
            plen > 0,
            replace_spec(s@, pat@, value@) == out@ + replace_spec(
                s@.skip(i as int),
                pat@,
                value@,
            ),
        decreases slen - i,
    {
        if matches_at(s, pat, i) {
            out.append(value);
            proof {
                let rest = s@.skip(i as int);
                assert(rest.subrange(0, pat@.len() as int) =~= s@.subrange(
                    i as int,
                    i + pat@.len(),
                ));
                assert(rest.skip(pat@.len() as int) =~= s@.skip(i + pat@.len()));
            }
            i = i + plen;
        } else {
            out.append(s.substring_char(i, i + 1));
            proof {
                let rest = s@.skip(i as int);
                if match_at(rest, pat@, 0) {
                    assert(rest.subrange(0, pat@.len() as int) =~= s@.subrange(
                        i as int,
                        i + pat@.len(),
                    ));
                    assert(match_at(s@, pat@, i as int));
                }
                lemma_replace_step_no_match(rest, pat@, value@);
                assert(rest.drop_first() =~= s@.skip(i + 1));
                assert(s@.subrange(i as int, i + 1) =~= seq![s@[i as int]]);
            }
            i = i + 1;
        }
    }
    proof {
        assert(s@.skip(slen as int) =~= Seq::<char>::empty());
        assert(out@ + Seq::<char>::empty() =~= out@);
    }
    out
}

/// Law: an argument in which the token does not occur passes through
/// replacement unchanged, character for character.
pub proof fn lemma_replace_absent(s: Seq<char>, pat: Seq<char>, v: Seq<char>)
    requires
        pat.len() > 0,
        !occurs(s, pat),
    ensures
        replace_spec(s, pat, v) == s,
    decreases s.len(),
{
    if s.len() < pat.len() {
    } else {
        assert(!match_at(s, pat, 0));
        assert forall|i: int| match_at(s.drop_first(), pat, i) implies match_at(s, pat, i + 1) by {
            assert(s.subrange(i + 1, i + 1 + pat.len()) =~= s.drop_first().subrange(
                i,
                i + pat.len(),
            ));
        };
        lemma_replace_absent(s.drop_first(), pat, v);
        lemma_replace_step_no_match(s, pat, v);
        assert(seq![s[0]] + s.drop_first() =~= s);
    }
}

/// Law: at the first occurrence of the token, replacement keeps the prefix,
/// inserts the substituted value, and goes on replacing in the remainder;
/// applied occurrence after occurrence this says that every occurrence is
/// replaced.
pub proof fn lemma_replace_first(s: Seq<char>, pat: Seq<char>, v: Seq<char>, i: int)
    requires
        pat.len() > 0,
        match_at(s, pat, i),
        forall|j: int| 0 <= j < i ==> !match_at(s, pat, j),
    ensures
        replace_spec(s, pat, v) == s.take(i) + v + replace_spec(s.skip(i + pat.len()), pat, v),
    decreases i,
{
    if i == 0 {
        assert(s.take(0) =~= Seq::<char>::empty());
        assert(s.take(0) + v =~= v);
    } else {
        assert(!match_at(s, pat, 0));
        lemma_replace_step_no_match(s, pat, v);
        let t = s.drop_first();
        assert(t.subrange(i - 1, i - 1 + pat.len()) =~= s.subrange(i, i + pat.len()));
        assert(match_at(t, pat, i - 1));
        assert forall|j: int| match_at(t, pat, j) implies match_at(s, pat, j + 1) by {
            assert(s.subrange(j + 1, j + 1 + pat.len()) =~= t.subrange(j, j + pat.len()));
        };
        lemma_replace_first(t, pat, v, i - 1);
        assert(t.skip(i - 1 + pat.len()) =~= s.skip(i + pat.len()));
        assert(seq![s[0]] + (t.take(i - 1) + v + replace_spec(t.skip(i - 1 + pat.len()), pat, v))
            =~= s.take(i) + v + replace_spec(s.skip(i + pat.len()), pat, v));
    }
}

/// Templates one job's argument vector: every template argument after the
/// executable name, with each occurrence of the placeholder token replaced
/// by the trimmed input line. The executable name itself is never templated.
pub fn process_args(arguments: &Vec<String>, input: &String) -> (result: Vec<String>)
    ensures
        result@.len() == (if arguments@.len() == 0 {
            0int
        } else {
            arguments@.len() - 1
        }),
        forall|k: int|
            0 <= k < result@.len() ==> result@[k]@ == replace_spec(
                arguments@[k + 1]@,
                placeholder(),
                trim_spec(input@),
            ),
{
    proof {
        reveal_strlit("%INPUT%");
        assert(placeholder().len() == 7);
    }
    let value = trim_str(input.as_str());
    let mut result: Vec<String> = Vec::new();
    let mut idx: usize = 1;
    while idx < arguments.len()
        invariant
            1 <= idx,
            arguments@.len() > 0 ==> idx <= arguments@.len(),
            arguments@.len() == 0 ==> idx == 1,
            value@ == trim_spec(input@),
            result@.len() == idx - 1 || (arguments@.len() == 0 && result@.len() == 0),
            forall|k: int|
                0 <= k < result@.len() ==> result@[k]@ == replace_spec(
                    arguments@[k + 1]@,
                    placeholder(),
                    trim_spec(input@),
                ),
        decreases arguments@.len() - idx,
    {
        proof {
            reveal_strlit("%INPUT%");
        }
        let templated = replace_all(arguments[idx].as_str(), "%INPUT%", value.as_str());
        result.push(templated);
        idx = idx + 1;
    }
    result
}

} // verus!
