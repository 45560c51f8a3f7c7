use vstd::prelude::*;
use vstd::string::StrSliceExecFns;

verus! {

/// The whitespace the command source strips from a line's ends.
pub open spec fn is_space_char(c: char) -> bool {
    c == ' ' || c == '\t' || c == '\r' || c == '\n'
}

/// Whether `c` is blank for the command source's purposes.
pub fn is_space(c: char) -> (r: bool)
    ensures
        r == is_space_char(c),
{
    c == ' ' || c == '\t' || c == '\r' || c == '\n'
}

/// `s` with its leading blanks removed.
pub open spec fn trim_front_spec(s: Seq<char>) -> Seq<char>
    decreases s.len(),
{
    if s.len() > 0 && is_space_char(s[0]) {
        trim_front_spec(s.drop_first())
    } else {
        s
    }
}

/// `s` with its trailing blanks removed.
pub open spec fn trim_back_spec(s: Seq<char>) -> Seq<char>
    decreases s.len(),
{
    if s.len() > 0 && is_space_char(s.last()) {
        trim_back_spec(s.drop_last())
    } else {
        s
    }
}

/// `s` with blanks removed from both ends.
pub open spec fn trim_spec(s: Seq<char>) -> Seq<char> {
    trim_back_spec(trim_front_spec(s))
}

/// One line from the command source, readied: surrounding whitespace is
/// trimmed away, and a line that is blank after trimming yields nothing,
/// so it is skipped silently.
pub fn normalize_line(line: &str) -> (r: Option<String>)
    ensures
        match r {
            Some(cmd) => trim_spec(line@).len() > 0 && cmd@ == trim_spec(line@),
            None => trim_spec(line@).len() == 0,
        },
{
    let n = line.unicode_len();
    let mut lo: usize = 0;
    proof {
        assert(line@.subrange(0, n as int) =~= line@);
    }
    while lo < n && is_space(line.get_char(lo))
        invariant
            n == line@.len(),
            0 <= lo <= n,
            trim_front_spec(line@) == trim_front_spec(line@.subrange(lo as int, n as int)),
        decreases n - lo,
    {
        proof {
            assert(line@.subrange(lo as int, n as int).drop_first() =~= line@.subrange(
                lo as int + 1,
                n as int,
            ));
        }
        lo += 1;
    }
    proof {
        assert(trim_front_spec(line@.subrange(lo as int, n as int)) == line@.subrange(
            lo as int,
            n as int,
        ));
    }
    let mut hi: usize = n;
    while hi > lo && is_space(line.get_char(hi - 1))
        invariant
            n == line@.len(),
            0 <= lo <= hi <= n,
            trim_back_spec(line@.subrange(lo as int, n as int)) == trim_back_spec(
                line@.subrange(lo as int, hi as int),
            ),
        decreases hi,
    {
        proof {
            assert(line@.subrange(lo as int, hi as int).drop_last() =~= line@.subrange(
                lo as int,
                hi as int - 1,
            ));
        }
        hi -= 1;
    }
    proof {
        assert(trim_back_spec(line@.subrange(lo as int, hi as int)) == line@.subrange(
            lo as int,
            hi as int,
        ));
        assert(trim_spec(line@) == line@.subrange(lo as int, hi as int));
    }
    if hi > lo {
        Some(line.substring_char(lo, hi).to_owned())
    } else {
        None
    }
}

/// The position of the first space in `s`, or a negative value when `s`
/// holds none.
pub open spec fn index_of_first_space(s: Seq<char>) -> int
    decreases s.len(),
{
    if s.len() == 0 {
        -1
    } else if s[0] == ' ' {
        0
    } else if index_of_first_space(s.drop_first()) < 0 {
        -1
    } else {
        index_of_first_space(s.drop_first()) + 1
    }
}

pub proof fn lemma_first_space_bounds(s: Seq<char>)
    ensures
        -1 <= index_of_first_space(s) < s.len(),
    decreases s.len(),
{
    if s.len() > 0 && s[0] != ' ' {
        lemma_first_space_bounds(s.drop_first());
    }
}

/// When `i` is the position of a space with no space before it, it is the
/// first space.
pub proof fn lemma_first_space_at(s: Seq<char>, i: int)
    requires
        0 <= i < s.len(),
        s[i] == ' ',
        forall|k: int| 0 <= k < i ==> s[k] != ' ',
    ensures
        index_of_first_space(s) == i,
    decreases s.len(),
{
    if i > 0 {
        lemma_first_space_at(s.drop_first(), i - 1);
    }
}

/// A string without spaces has no first space.
pub proof fn lemma_no_space(s: Seq<char>)
    requires
        forall|k: int| 0 <= k < s.len() ==> s[k] != ' ',
    ensures
        index_of_first_space(s) < 0,
    decreases s.len(),
{
    if s.len() > 0 {
        lemma_no_space(s.drop_first());
    }
}

/// The literal single-space split of a command line: the text between
/// consecutive spaces, in order. Always at least one part; consecutive
/// spaces yield empty parts. No shell quoting is understood — a known,
/// documented limitation of the splitter.
pub open spec fn split_spec(s: Seq<char>) -> Seq<Seq<char>>
    decreases s.len(),
    via split_spec_decreases
{
    if index_of_first_space(s) < 0 {
        seq![s]
    } else {
        seq![s.subrange(0, index_of_first_space(s))] + split_spec(
            s.subrange(index_of_first_space(s) + 1, s.len() as int),
        )
    }
}

#[via_fn]
proof fn split_spec_decreases(s: Seq<char>) {
    lemma_first_space_bounds(s);
}

/// Split a command line on single spaces: the first part names the
/// program, the rest are its arguments.
pub fn split_command(command: &str) -> (parts: Vec<String>)
    ensures
        parts@.map_values(|p: String| p@) == split_spec(command@),
        parts@.len() >= 1,
{
    let n = command.unicode_len();
    let mut parts: Vec<String> = Vec::new();
    let mut start: usize = 0;
    let mut i: usize = 0;
    proof {
        assert(command@.subrange(0, n as int) =~= command@);
        assert(parts@.map_values(|p: String| p@) =~= Seq::<Seq<char>>::empty());
    }
    while i < n
        invariant
            n == command@.len(),
            0 <= start <= i <= n,
            forall|k: int| start <= k < i ==> command@[k] != ' ',
            split_spec(command@) == parts@.map_values(|p: String| p@) + split_spec(
                command@.subrange(start as int, n as int),
            ),
        decreases n - i,
    {
        if command.get_char(i) == ' ' {
            let ghost pre = parts@.map_values(|p: String| p@);
            let ghost tail = command@.subrange(start as int, n as int);
            let tok = command.substring_char(start, i).to_owned();
            parts.push(tok);
            proof {
                assert forall|k: int| 0 <= k < i - start implies tail[k] != ' ' by {
                    assert(tail[k] == command@[start + k]);
                }
                assert(tail[i - start] == command@[i as int]);
                lemma_first_space_at(tail, i - start);
                assert(tail.subrange(0, i - start) =~= command@.subrange(start as int, i as int));
                assert(tail.subrange(i - start + 1, tail.len() as int) =~= command@.subrange(
                    i as int + 1,
                    n as int,
                ));
                assert(parts@.map_values(|p: String| p@) =~= pre + seq![tok@]);
                assert(pre + (seq![tok@] + split_spec(
                    command@.subrange(i as int + 1, n as int),
                )) =~= (pre + seq![tok@]) + split_spec(command@.subrange(i as int + 1, n as int)));
            }
            start = i + 1;
        }
        i += 1;
    }
    let ghost pre = parts@.map_values(|p: String| p@);
    let ghost tail = command@.subrange(start as int, n as int);
    let tok = command.substring_char(start, n).to_owned();
    parts.push(tok);
    proof {
        assert forall|k: int| 0 <= k < tail.len() implies tail[k] != ' ' by {
            assert(tail[k] == command@[start + k]);
        }
        lemma_no_space(tail);
        assert(parts@.map_values(|p: String| p@) =~= pre + seq![tok@]);
        assert(pre + seq![tail] =~= parts@.map_values(|p: String| p@));
    }
    parts
}

} // verus!
