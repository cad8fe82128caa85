//! Splitting an input line into a command token and its argument string.

use vstd::prelude::*;
use vstd::string::StrSliceExecFns;

verus! {

/// A line is a command when it begins with the `/` prefix.
pub open spec fn is_command_line(s: Seq<char>) -> bool {
    s.len() > 0 && s[0] == '/'
}

/// Whether `c` is a whitespace character: the Unicode White_Space set.
pub open spec fn is_whitespace_char(c: char) -> bool {
    let n = c as u32;
    n == 0x09 || n == 0x0A || n == 0x0B || n == 0x0C || n == 0x0D || n == 0x20 || n == 0x85
        || n == 0xA0 || n == 0x1680 || (0x2000 <= n && n <= 0x200A) || n == 0x2028 || n == 0x2029
        || n == 0x202F || n == 0x205F || n == 0x3000
}

fn is_whitespace(c: char) -> (r: bool)
    ensures
        r == is_whitespace_char(c),
{
    let n = c as u32;
    n == 0x09 || n == 0x0A || n == 0x0B || n == 0x0C || n == 0x0D || n == 0x20 || n == 0x85
        || n == 0xA0 || n == 0x1680 || (0x2000 <= n && n <= 0x200A) || n == 0x2028 || n == 0x2029
        || n == 0x202F || n == 0x205F || n == 0x3000
}

/// Index of the first whitespace character at or after `i`, or the length of
/// `s` if there is none.
pub open spec fn first_whitespace_at(s: Seq<char>, i: int) -> int
    decreases s.len() - i,
{
    if i < 0 || i >= s.len() {
        s.len() as int
    } else if is_whitespace_char(s[i]) {
        i
    } else {
        first_whitespace_at(s, i + 1)
    }
}

/// Index of the first whitespace character in `s`, or the length of `s` if
/// there is none.
pub open spec fn first_whitespace(s: Seq<char>) -> int {
    first_whitespace_at(s, 0)
}

/// The command token: everything up to (excluding) the first whitespace
/// character.
pub open spec fn command_token(s: Seq<char>) -> Seq<char> {
    s.subrange(0, first_whitespace(s))
}

/// The argument string: everything after the first whitespace character,
/// empty if the line holds none.
pub open spec fn command_args(s: Seq<char>) -> Seq<char> {
    if first_whitespace(s) == s.len() {
        Seq::empty()
    } else {
        s.subrange(first_whitespace(s) + 1, s.len() as int)
    }
}

proof fn lemma_first_whitespace_at_is(s: Seq<char>, i: int, k: int)
    requires
        0 <= i <= k <= s.len(),
        forall|j: int| i <= j < k ==> !is_whitespace_char(s[j]),
        k == s.len() || is_whitespace_char(s[k]),
    ensures
        first_whitespace_at(s, i) == k,
    decreases k - i,
{
    if i < k {
        lemma_first_whitespace_at_is(s, i + 1, k);
    }
}

/// Index of the first whitespace character in `s`, or its length if `s`
/// holds none.
fn find_whitespace(s: &str) -> (k: usize)
    ensures
        k == first_whitespace(s@),
        k <= s@.len(),
{
    let len = s.unicode_len();
    let mut i: usize = 0;
    while i < len
        invariant
            i <= len,
            len == s@.len(),
            forall|j: int| 0 <= j < i ==> !is_whitespace_char(s@[j]),
        decreases len - i,
    {
        if is_whitespace(s.get_char(i)) {
            proof {
                lemma_first_whitespace_at_is(s@, 0, i as int);
            }
            return i;
        }
        i += 1;
    }
    proof {
        lemma_first_whitespace_at_is(s@, 0, len as int);
    }
    len
}

/// Splits a line into its command token and argument string.
///
/// A line that does not begin with the command prefix is no command and yields
/// nothing. Otherwise the token runs up to the first whitespace boundary and
/// the remainder follows it, the empty string when the line holds no
/// whitespace. No further tokenization is done: handlers parse their own
/// arguments.
pub fn parse_input(input: &str) -> (r: Option<(String, String)>)
    ensures
        match r {
            None => !is_command_line(input@),
            Some(p) => is_command_line(input@) && p.0@ == command_token(input@) && p.1@
                == command_args(input@),
        },
{
    let len = input.unicode_len();
    if len == 0 || input.get_char(0) != '/' {
        return None;
    }
    let k = find_whitespace(input);
    let command = input.substring_char(0, k).to_owned();
    let args = if k == len {
        String::new()
    } else {
        input.substring_char(k + 1, len).to_owned()
    };
    proof {
        assert(command@ == command_token(input@));
        if first_whitespace(input@) == input@.len() {
            assert(args@ =~= command_args(input@));
        } else {
            assert(args@ == command_args(input@));
        }
    }
    Some((command, args))
}

} // verus!
