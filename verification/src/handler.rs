//! Parsing of sensor topics: a topic of the shape "/kind/id" names the
//! sensor after its second slash.

use vstd::prelude::*;
use vstd::string::StrSliceExecFns;

verus! {

/// The first index at or after `i` holding '/', or the length if none does.
pub open spec fn spec_find_slash(s: Seq<char>, i: int) -> int
    decreases s.len() - i,
{
    if !(0 <= i < s.len()) {
        s.len() as int
    } else if s[i] == '/' {
        i
    } else {
        spec_find_slash(s, i + 1)
    }
}

/// What `parse_id` extracts: everything after the second slash, if the
/// topic has two slashes.
pub open spec fn spec_parse_id(s: Seq<char>) -> Option<Seq<char>> {
    let i1 = spec_find_slash(s, 0);
    if i1 == s.len() {
        None
    } else {
        let i2 = spec_find_slash(s, i1 + 1);
        if i2 == s.len() {
            None
        } else {
            Some(s.subrange(i2 + 1, s.len() as int))
        }
    }
}

/// The first index at or after `start` holding '/', or the length if none.
fn find_slash(s: &str, start: usize) -> (r: usize)
    requires
        start <= s@.len(),
    ensures
        r == spec_find_slash(s@, start as int),
        start <= r <= s@.len(),
{
    let n = s.unicode_len();
    let mut i: usize = start;
    while i < n
        invariant
            start <= i <= n,
            n == s@.len(),
            spec_find_slash(s@, start as int) == spec_find_slash(s@, i as int),
        decreases n - i,
    {
        if s.get_char(i) == '/' {
            return i;
        }
        i = i + 1;
    }
    i
}

/// A slice of the topic by character positions: nothing for a negative or
/// inverted range, the corresponding substring otherwise.
pub fn sub_str<'a>(s: &'a str, from: i32, to: i32) -> (r: Option<&'a str>)
    requires
        0 <= from <= to ==> to <= s@.len(),
    ensures
        match r {
            Some(sub) => 0 <= from <= to && sub@ == s@.subrange(from as int, to as int),
            None => from < 0 || to < 0 || from > to,
        },
{
    if from < 0 || to < 0 || from > to {
        None
    } else {
        Some(s.substring_char(from as usize, to as usize))
    }
}

/// The sensor id in a topic: the text after the topic's second slash, or
/// nothing if the topic has fewer than two slashes.
pub fn parse_id(topic: &str) -> (r: Option<&str>)
    requires
        topic@.len() <= i32::MAX,
    ensures
        match r {
            Some(sub) => spec_parse_id(topic@) == Some(sub@),
            None => spec_parse_id(topic@) == Option::<Seq<char>>::None,
        },
{
    let n = topic.unicode_len();
    let first = find_slash(topic, 0);
    if first == n {
        sub_str(topic, -2, n as i32)
    } else {
        let second = find_slash(topic, first + 1);
        if second == n {
            sub_str(topic, -1, n as i32)
        } else {
            sub_str(topic, (second + 1) as i32, n as i32)
        }
    }
}

} // verus!
