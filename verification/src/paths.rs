//! Output path generation: each job's capture file is named from the output
//! directory, an optional prefix, the executable name, and the trimmed input
//! line with spaces turned into underscores.

use vstd::prelude::*;
use vstd::string::StrSliceExecFns;
use vstd::string::StringExecFns;

use crate::template::trim_spec;

verus! {

/// The trimmed input line as it appears in a file name: every space
/// replaced by an underscore.
pub open spec fn underscore_spaces(s: Seq<char>) -> Seq<char> {
    s.map_values(
        |c: char|
            if c == ' ' {
                '_'
            } else {
                c
            },
    )
}

/// The file name of a job's capture file: `<command>_<line>.stdout`, with
/// `<prefix>#` in front when a prefix is given, and `<line>` the trimmed
/// input line with spaces as underscores.
pub open spec fn stdout_file_name(
    prefix: Option<Seq<char>>,
    command: Seq<char>,
    input: Seq<char>,
) -> Seq<char> {
    let stripped = underscore_spaces(trim_spec(input));
    match prefix {
        Some(p) => p + "#"@ + command + "_"@ + stripped + ".stdout"@,
        None => command + "_"@ + stripped + ".stdout"@,
    }
}

/// The full path of a job's capture file: the output directory, a slash,
/// and the file name.
pub open spec fn stdout_path_spec(
    directory: Seq<char>,
    prefix: Option<Seq<char>>,
    command: Seq<char>,
    input: Seq<char>,
) -> Seq<char> {
    directory + "/"@ + stdout_file_name(prefix, command, input)
}

/// The views of an optional prefix.
pub open spec fn prefix_view(prefix: Option<String>) -> Option<Seq<char>> {
    match prefix {
        Some(p) => Some(p@),
        None => None,
    }
}

fn underscore_str(s: &str) -> (r: String)
    ensures
        r@ == underscore_spaces(s@),
{
    let len = s.unicode_len();
    let mut out = String::new();
    let mut i: usize = 0;
    proof {
        assert(out@ =~= underscore_spaces(s@.subrange(0, 0)));
    }
    while i < len
        invariant
            i <= len,
            len == s@.len(),
            out@ == underscore_spaces(s@.subrange(0, i as int)),
        decreases len - i,
    {
        let c = s.get_char(i);
        if c == ' ' {
            out.append("_");
        } else {
            out.append(s.substring_char(i, i + 1));
        }
        proof {
            reveal_strlit("_");
            assert(s@.subrange(i as int, i + 1) =~= seq![s@[i as int]]);
            assert(underscore_spaces(s@.subrange(0, i + 1)) =~= underscore_spaces(
                s@.subrange(0, i as int),
            ).push(
                if s@[i as int] == ' ' {
                    '_'
                } else {
                    s@[i as int]
                },
            ));
        }
        i = i + 1;
    }
    proof {
        assert(s@.subrange(0, len as int) =~= s@);
    }
    out
}

/// Derives the capture file path for one job from the output directory, the
/// optional prefix, the executable name, and the input line. The scheme is
/// deliberately not injective: two lines that trim and underscore to the
/// same string share a path, and the only defense against that collision is
/// the clobber gate.
pub fn generate_stdout_file(
    directory: &String,
    prefix: &Option<String>,
    command: &String,
    input: &String,
) -> (path: String)
    ensures
        path@ == stdout_path_spec(directory@, prefix_view(*prefix), command@, input@),
{
    let stripped = underscore_str(crate::template::trim_str(input.as_str()).as_str());
    let mut path = String::new();
    path.append(directory.as_str());
    path.append("/");
    match prefix {
        Some(p) => {
            path.append(p.as_str());
            path.append("#");
        },
        None => {},
    }
    path.append(command.as_str());
    path.append("_");
    path.append(stripped.as_str());
    path.append(".stdout");
    proof {
        assert(path@ =~= stdout_path_spec(directory@, prefix_view(*prefix), command@, input@));
    }
    path
}

/// Law: path generation is deterministic — equal directory, prefix, command
/// and line always give the identical path.
pub proof fn lemma_path_deterministic(
    d1: Seq<char>,
    p1: Option<Seq<char>>,
    c1: Seq<char>,
    l1: Seq<char>,
    d2: Seq<char>,
    p2: Option<Seq<char>>,
    c2: Seq<char>,
    l2: Seq<char>,
)
    requires
        d1 == d2,
        p1 == p2,
        c1 == c2,
        l1 == l2,
    ensures
        stdout_path_spec(d1, p1, c1, l1) == stdout_path_spec(d2, p2, c2, l2),
{
}

} // verus!
