//! Decision logic of the resource limiter.
//!
//! The kernel's resource-control interface itself is outside work: the host
//! creates the control group, moves processes into it, and reads its
//! counter files. What stands here is what the limiter decides from those
//! readings: how the kernel's textual OOM report is parsed into a kill
//! counter, and how the counter's movement since the last reading is turned
//! into the per-run OOM flag.

use vstd::prelude::*;

use crate::text::{all_digits, decimal_value, parse_u64, split_tokens, tokens};

verus! {

/// The first token at or after `i` equal to `key`, if any.
pub open spec fn first_key_from(toks: Seq<Seq<char>>, key: Seq<char>, i: int) -> Option<int>
    decreases toks.len() - i,
{
    if i < 0 || i >= toks.len() {
        None
    } else if toks[i] == key {
        Some(i)
    } else {
        first_key_from(toks, key, i + 1)
    }
}

/// The OOM kill counter a report's tokens carry: the decimal value of the
/// token right after the first occurrence of `key`, if the key occurs, is
/// followed by a token, and that token is a decimal numeral in range.
pub open spec fn oom_count_of_tokens(toks: Seq<Seq<char>>, key: Seq<char>) -> Option<u64> {
    match first_key_from(toks, key, 0) {
        Some(k) => {
            if k + 1 < toks.len() && toks[k + 1].len() > 0 && all_digits(toks[k + 1])
                && decimal_value(toks[k + 1]) <= u64::MAX {
                Some(decimal_value(toks[k + 1]) as u64)
            } else {
                None
            }
        },
        None => None,
    }
}

/// The key whose counter carries OOM kills: `oom` in the v2 interface's
/// `memory.events` report, `oom_kill` in the v1 interface's
/// `memory.oom_control` report.
pub open spec fn oom_key(v2: bool) -> Seq<char> {
    if v2 {
        "oom"@
    } else {
        "oom_kill"@
    }
}

/// Reads the OOM kill counter out of a kernel memory-controller report:
/// whitespace-separated tokens, the counter standing right after the key
/// its interface version uses.
pub fn oom_count_from_report(report: &str, v2: bool) -> (r: Option<u64>)
    ensures
        r == oom_count_of_tokens(tokens(report@), oom_key(v2)),
{
    let toks = split_tokens(report);
    let key: String = if v2 {
        "oom".to_owned()
    } else {
        "oom_kill".to_owned()
    };
    proof {
        assert(key@ == oom_key(v2));
    }
    let ghost tv = tokens(report@);
    let n = toks.len();
    for i in 0..n
        invariant
            n == toks.len(),
            toks.deep_view() == tv,
            tv == tokens(report@),
            key@ == oom_key(v2),
            first_key_from(tv, key@, 0) == first_key_from(tv, key@, i as int),
    {
        proof {
            assert(tv[i as int] == toks@[i as int]@);
        }
        if toks[i] == key {
            proof {
                assert(first_key_from(tv, key@, i as int) == Some(i as int));
            }
            if i + 1 < n {
                proof {
                    assert(tv[i as int + 1] == toks@[i as int + 1]@);
                }
                let r = parse_u64(toks[i + 1].as_str());
                proof {
                    assert(tv.len() == n);
                    assert(first_key_from(tv, key@, 0) == Some(i as int));
                    assert(r == oom_count_of_tokens(tv, key@));
                }
                return r;
            } else {
                proof {
                    assert(tv.len() == n);
                    assert(first_key_from(tv, key@, 0) == Some(i as int));
                    assert(oom_count_of_tokens(tv, key@) is None);
                }
                return None;
            }
        }
        proof {
            assert(first_key_from(tv, key@, i as int) == first_key_from(tv, key@, i as int + 1));
        }
    }
    proof {
        assert(first_key_from(tv, key@, n as int) is None);
    }
    None
}

/// The limiter's memory of the kernel's OOM kill counter, from which the
/// per-run OOM flag is derived: the kernel counter only ever grows, so a
/// run saw an OOM kill exactly when the counter moved since the reading
/// before it.
#[derive(Debug, Clone, Copy, PartialEq, Eq, Structural)]
pub struct OomTracker {
    pub count: u64,
}

impl OomTracker {
    /// Starts tracking from the counter's current reading, so kills from
    /// before this limiter's life are not charged to its first run.
    pub fn new(count: u64) -> (r: Self)
        ensures
            r.count == count,
    {
        OomTracker { count }
    }

    /// Takes a fresh counter reading; answers whether the kernel killed a
    /// task in the group since the previous reading.
    pub fn record(&mut self, count: u64) -> (oom: bool)
        ensures
            final(self).count == count,
            oom == (count != old(self).count),
    {
        let moved = count != self.count;
        self.count = count;
        moved
    }
}

} // verus!
