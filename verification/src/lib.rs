//! Vocabulary trainer: SM-2 spaced repetition, exercise generation, the
//! popup scheduler's decisions and the data the commands hand to the user
//! interface.
pub mod clock;
pub mod commands;
pub mod db;
pub mod learning;
pub mod random;
pub mod text;
pub mod tts;

use vstd::prelude::*;
use crate::text::{chars_of, parse_u32, parse_u32_str, string_from_chars};

verus! {

/// The text before the first `':'`, and the text after it when there is one
/// (`s.splitn(2, ':')`).
pub open spec fn split_at_colon(s: Seq<char>) -> (Seq<char>, Option<Seq<char>>) {
    if exists|k: int| 0 <= k < s.len() && s[k] == ':' {
        let k = choose|k: int|
            0 <= k < s.len() && s[k] == ':' && forall|j: int| 0 <= j < k ==> s[j] != ':';
        (s.take(k), Some(s.skip(k + 1)))
    } else {
        (s, None)
    }
}

/// Hours and minutes of an `"HH:MM"` setting: the text before the first
/// `':'` read as hours, and the text after it as minutes (0 when there is no
/// `':'`); `None` when the hours, or minutes that are present, do not parse.
pub open spec fn hhmm_fields(s: Seq<char>) -> Option<(int, int)> {
    let (h, m) = split_at_colon(s);
    match parse_u32(h) {
        None => None,
        Some(hours) => match m {
            None => Some((hours as int, 0)),
            Some(t) => match parse_u32(t) {
                Some(mins) => Some((hours as int, mins as int)),
                None => None,
            },
        },
    }
}

/// Minutes from midnight of an `"HH:MM"` setting, `default_mins` when it does
/// not parse.
pub open spec fn hhmm_minutes(s: Seq<char>, default_mins: u32) -> int {
    match hhmm_fields(s) {
        Some((h, m)) => h * 60 + m,
        None => default_mins as int,
    }
}

fn split_colon(s: &str) -> (r: (String, Option<String>))
    ensures
        r.0@ == split_at_colon(s@).0,
        r.1 is None <==> split_at_colon(s@).1 is None,
        r.1 matches Some(t) ==> split_at_colon(s@).1 == Some(t@),
{
    let v = chars_of(s);
    let mut k: usize = 0;
    while k < v.len()
        invariant
            v@ == s@,
            k <= v.len(),
            forall|j: int| 0 <= j < k ==> v@[j] != ':',
        decreases v.len() - k,
    {
        if v[k] == ':' {
            let mut head: Vec<char> = Vec::new();
            let mut i: usize = 0;
            while i < k
                invariant
                    k < v.len(),
                    i <= k,
                    head@ == v@.take(i as int),
                decreases k - i,
            {
                head.push(v[i]);
                i = i + 1;
                assert(head@ =~= v@.take(i as int));
            }
            let mut tail: Vec<char> = Vec::new();
            let mut j: usize = k + 1;
            while j < v.len()
                invariant
                    k < v.len(),
                    k + 1 <= j <= v.len(),
                    tail@ == v@.subrange(k + 1, j as int),
                decreases v.len() - j,
            {
                tail.push(v[j]);
                j = j + 1;
                assert(tail@ =~= v@.subrange(k + 1, j as int));
            }
            proof {
                let kk = choose|kk: int|
                    0 <= kk < s@.len() && s@[kk] == ':' && forall|jj: int| 0 <= jj < kk ==> s@[jj] != ':';
                assert(kk == k as int) by {
                    if kk < k {
                        assert(v@[kk] != ':');
                    }
                    if kk > k {
                        assert(s@[k as int] != ':');
                    }
                }
                assert(v@.subrange(k + 1, v.len() as int) =~= v@.skip(k + 1));
            }
            return (string_from_chars(&head), Some(string_from_chars(&tail)));
        }
        k = k + 1;
    }
    (string_from_chars(&v), None)
}

/// Hours and minutes read from an `"HH:MM"` setting.
fn parse_hhmm_fields(s: &str) -> (r: Option<(u32, u32)>)
    ensures
        r is None <==> hhmm_fields(s@) is None,
        r matches Some(f) ==> hhmm_fields(s@) == Some((f.0 as int, f.1 as int)),
{
    let (h, m) = split_colon(s);
    match parse_u32_str(h.as_str()) {
        None => None,
        Some(hours) => match m {
            None => Some((hours, 0)),
            Some(t) => match parse_u32_str(t.as_str()) {
                Some(mins) => Some((hours, mins)),
                None => None,
            },
        },
    }
}

/// Parses `"HH:MM"` into minutes from midnight: `"08:30"` gives 510,
/// `"22:00"` 1320, `"08"` (no colon) 480. Any parse error falls back to
/// `default_mins`.
pub fn parse_hhmm_to_mins(s: &str, default_mins: u32) -> (r: u32)
    requires
        hhmm_minutes(s@, default_mins) <= u32::MAX,
    ensures
        r == hhmm_minutes(s@, default_mins),
{
    match parse_hhmm_fields(s) {
        Some((h, m)) => h * 60 + m,
        None => default_mins,
    }
}

/// `parse_hhmm_to_mins`, or `None` when the minutes do not fit in `u32`.
pub fn try_parse_hhmm_to_mins(s: &str, default_mins: u32) -> (r: Option<u32>)
    ensures
        r is None <==> hhmm_minutes(s@, default_mins) > u32::MAX,
        r matches Some(v) ==> v == hhmm_minutes(s@, default_mins),
{
    match parse_hhmm_fields(s) {
        Some((h, m)) => {
            let total = h as u64 * 60 + m as u64;
            if total > u32::MAX as u64 {
                None
            } else {
                Some(total as u32)
            }
        },
        None => Some(default_mins),
    }
}

} // verus!
