use vstd::prelude::*;
use vstd::string::*;

use crate::error::DetectError;

verus! {

/// The service that tells whether a TCP port is reachable from outside.
pub const PORT_TEST_SERVER: &'static str = "portcheck.transmissionbt.com";

/// How long a port check may take, in seconds.
pub const PORT_CHECK_TIMEOUT_SECS: u64 = 8;

/// The characters `char::is_whitespace` accepts: those with the Unicode
/// `White_Space` property.
pub open spec fn is_white_space(c: char) -> bool {
    let u = c as u32;
    ||| 0x09 <= u <= 0x0D
    ||| u == 0x20
    ||| u == 0x85
    ||| u == 0xA0
    ||| u == 0x1680
    ||| 0x2000 <= u <= 0x200A
    ||| u == 0x2028
    ||| u == 0x2029
    ||| u == 0x202F
    ||| u == 0x205F
    ||| u == 0x3000
}

fn white_space(c: char) -> (b: bool)
    ensures
        b == is_white_space(c),
{
    let u = c as u32;
    (0x09 <= u && u <= 0x0D) || u == 0x20 || u == 0x85 || u == 0xA0 || u == 0x1680 || (0x2000
        <= u && u <= 0x200A) || u == 0x2028 || u == 0x2029 || u == 0x202F || u == 0x205F || u
        == 0x3000
}

/// `t` is `s` without its leading and trailing white space.
pub open spec fn is_trim_of(t: Seq<char>, s: Seq<char>) -> bool {
    exists|a: int, b: int|
        0 <= a <= b <= s.len() && t == s.subrange(a, b) && (forall|k: int|
            0 <= k < a ==> is_white_space(#[trigger] s[k])) && (forall|k: int|
            b <= k < s.len() ==> is_white_space(#[trigger] s[k])) && (a < b ==> !is_white_space(
            s[a]) && !is_white_space(s[b - 1]))
}

/// `s` without its leading and trailing white space, as `str::trim` gives it.
pub fn trim(s: &str) -> (t: &str)
    ensures
        is_trim_of(t@, s@),
{
    let n = s.unicode_len();
    let mut a: usize = 0;
    while a < n && white_space(s.get_char(a))
        invariant
            n == s@.len(),
            a <= n,
            forall|k: int| 0 <= k < a ==> is_white_space(#[trigger] s@[k]),
        decreases n - a,
    {
        a = a + 1;
    }
    let mut b: usize = n;
    while b > a && white_space(s.get_char(b - 1))
        invariant
            n == s@.len(),
            a <= b <= n,
            forall|k: int| b <= k < n ==> is_white_space(#[trigger] s@[k]),
            a < n ==> !is_white_space(s@[a as int]),
        decreases b - a,
    {
        b = b - 1;
    }
    let t = s.substring_char(a, b);
    assert(is_trim_of(t@, s@)) by {
        assert(0 <= a <= b <= s@.len() && t@ == s@.subrange(a as int, b as int));
    }
    t
}

/// What the port check service's answer means, once trimmed: `1` reachable,
/// `0` not reachable, anything else an error that keeps the answer.
pub open spec fn spec_port_check_answer(t: Seq<char>) -> Result<bool, Seq<char>> {
    if t == seq!['1'] {
        Ok(true)
    } else if t == seq!['0'] {
        Ok(false)
    } else {
        Err(t)
    }
}

/// Reads the port check service's answer.
pub fn parse_port_check_reply(body: &str) -> (r: Result<bool, DetectError>)
    ensures
        exists|t: Seq<char>|
            is_trim_of(t, body@) && match spec_port_check_answer(t) {
                Ok(b) => r == Ok::<bool, DetectError>(b),
                Err(answer) => r matches Err(DetectError::UnexpectedPortCheckReply(m)) && m@
                    == answer,
            },
{
    let t = trim(body);
    let n = t.unicode_len();
    if n == 1 {
        let c = t.get_char(0);
        if c == '1' {
            assert(t@ =~= seq!['1']);
            return Ok(true);
        }
        if c == '0' {
            assert(t@ =~= seq!['0']);
            return Ok(false);
        }
    }
    assert(t@ != seq!['1'] && t@ != seq!['0']) by {
        if n == 1 {
            assert(t@[0] == t@[0]);
        }
    }
    Err(DetectError::UnexpectedPortCheckReply(String::from_str(t)))
}


/// A string has one trim: two strings that are both `s` without its leading
/// and trailing white space are equal.
pub proof fn lemma_trim_unique(t1: Seq<char>, t2: Seq<char>, s: Seq<char>)
    requires
        is_trim_of(t1, s),
        is_trim_of(t2, s),
    ensures
        t1 == t2,
{
    let (a1, b1) = choose|a: int, b: int|
        0 <= a <= b <= s.len() && t1 == s.subrange(a, b) && (forall|k: int|
            0 <= k < a ==> is_white_space(#[trigger] s[k])) && (forall|k: int|
            b <= k < s.len() ==> is_white_space(#[trigger] s[k])) && (a < b ==> !is_white_space(
            s[a]) && !is_white_space(s[b - 1]));
    let (a2, b2) = choose|a: int, b: int|
        0 <= a <= b <= s.len() && t2 == s.subrange(a, b) && (forall|k: int|
            0 <= k < a ==> is_white_space(#[trigger] s[k])) && (forall|k: int|
            b <= k < s.len() ==> is_white_space(#[trigger] s[k])) && (a < b ==> !is_white_space(
            s[a]) && !is_white_space(s[b - 1]));
    if a1 < b1 && a2 < b2 {
        assert(!is_white_space(s[a1]) && !is_white_space(s[a2]));
        assert(!is_white_space(s[b1 - 1]) && !is_white_space(s[b2 - 1]));
        assert(a1 == a2);
        assert(b1 == b2);
    } else if a1 < b1 {
        assert(!is_white_space(s[a1]));
        assert(false);
    } else if a2 < b2 {
        assert(!is_white_space(s[a2]));
        assert(false);
    } else {
        assert(t1 =~= t2);
    }
}

} // verus!
