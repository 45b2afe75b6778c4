//! Line loading: splitting a file's contents into its lines, with line
//! endings (`\n` or `\r\n`) stripped and blank lines preserved. Reading the
//! file itself is the caller's business; this module owns the splitting.

use vstd::prelude::*;
use vstd::string::StrSliceExecFns;
use vstd::string::StringExecFns;

verus! {

/// A line as recorded: a trailing carriage return left by a `\r\n` ending
/// is stripped.
pub open spec fn chomp_cr(line: Seq<char>) -> Seq<char> {
    if line.len() > 0 && line.last() == '\r' {
        line.drop_last()
    } else {
        line
    }
}

/// The lines of `s` after the already-read partial line `cur`: each `\n`
/// ends a line (a `\r` just before it is stripped), and a final line needs
/// no ending. An empty input has no lines.
pub open spec fn lines_rec(s: Seq<char>, cur: Seq<char>) -> Seq<Seq<char>>
    decreases s.len(),
{
    if s.len() == 0 {
        if cur.len() == 0 {
            Seq::empty()
        } else {
            seq![cur]
        }
    } else if s.first() == '\n' {
        seq![chomp_cr(cur)] + lines_rec(s.drop_first(), Seq::empty())
    } else {
        lines_rec(s.drop_first(), cur.push(s.first()))
    }
}

/// The ordered lines of a file's contents.
pub open spec fn lines_spec(s: Seq<char>) -> Seq<Seq<char>> {
    lines_rec(s, Seq::empty())
}

/// Splits a file's contents into its lines, endings stripped, blank lines
/// preserved as empty strings.
pub fn split_lines(contents: &str) -> (lines: Vec<String>)
    ensures
        lines@.map_values(|l: String| l@) == lines_spec(contents@),
{
    let len = contents.unicode_len();
    let mut out: Vec<String> = Vec::new();
    let mut start: usize = 0;
    let mut i: usize = 0;
    proof {
        assert(contents@.skip(0) =~= contents@);
        assert(contents@.subrange(0, 0) =~= Seq::<char>::empty());
        assert(out@.map_values(|l: String| l@) =~= Seq::<Seq<char>>::empty());
        assert(Seq::<Seq<char>>::empty() + lines_spec(contents@) =~= lines_spec(contents@));
    }
    while i < len
        invariant
            start <= i <= len,
            len == contents@.len(),
            lines_spec(contents@) == out@.map_values(|l: String| l@) + lines_rec(
                contents@.skip(i as int),
                contents@.subrange(start as int, i as int),
            ),
        decreases len - i,
    {
        let c = contents.get_char(i);
        if c == '\n' {
            let end = if i > start && contents.get_char(i - 1) == '\r' {
                i - 1
            } else {
                i
            };
            let line = String::from_str(contents.substring_char(start, end));
            proof {
                let cur = contents@.subrange(start as int, i as int);
                assert(chomp_cr(cur) =~= contents@.subrange(start as int, end as int));
                assert(contents@.skip(i as int).first() == '\n');
                assert(contents@.skip(i as int).drop_first() =~= contents@.skip(i + 1));
                assert((out@ + seq![line]).map_values(|l: String| l@) =~= out@.map_values(
                    |l: String| l@,
                ) + seq![chomp_cr(cur)]);
                assert(contents@.subrange(i + 1, i + 1) =~= Seq::<char>::empty());
            }
            out.push(line);
            start = i + 1;
        } else {
            proof {
                let rest = contents@.skip(i as int);
                assert(rest.first() == contents@[i as int]);
                assert(rest.drop_first() =~= contents@.skip(i + 1));
                assert(contents@.subrange(start as int, i as int).push(contents@[i as int])
                    =~= contents@.subrange(start as int, i + 1));
            }
        }
        i = i + 1;
    }
    proof {
        assert(contents@.skip(len as int) =~= Seq::<char>::empty());
    }
    if start < len {
        let line = String::from_str(contents.substring_char(start, len));
        proof {
            let cur = contents@.subrange(start as int, len as int);
            assert(lines_rec(Seq::<char>::empty(), cur) =~= seq![cur]);
            assert((out@ + seq![line]).map_values(|l: String| l@) =~= out@.map_values(
                |l: String| l@,
            ) + seq![cur]);
        }
        out.push(line);
    } else {
        proof {
            let cur = contents@.subrange(start as int, len as int);
            assert(cur =~= Seq::<char>::empty());
            assert(out@.map_values(|l: String| l@) + lines_rec(Seq::<char>::empty(), cur)
                =~= out@.map_values(|l: String| l@));
        }
    }
    out
}

} // verus!
