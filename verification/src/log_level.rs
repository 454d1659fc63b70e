//! Parsing of the `LOG_LEVEL` configuration token.
//!
//! A token is recognized exactly as the logging facility recognizes it: one
//! of the five level names compared without regard to ASCII case, or a
//! non-negative decimal number (an optional leading `+` allowed) whose value
//! is between 1 and 5, where 1 is the most severe level.

use vstd::prelude::*;
use vstd::string::StrSliceExecFns;

verus! {

/// Logging verbosity, from most severe to most verbose.
#[derive(Clone, Copy, Debug, PartialEq, Eq, Structural)]
pub enum LogLevel {
    Error,
    Warn,
    Info,
    Debug,
    Trace,
}

/// An ASCII decimal digit.
pub open spec fn is_digit(c: char) -> bool {
    48 <= c as int <= 57
}

/// Every character of `s` is an ASCII decimal digit.
pub open spec fn all_digits(s: Seq<char>) -> bool {
    forall|i: int| 0 <= i < s.len() ==> is_digit(#[trigger] s[i])
}

/// The value of `s` read as a decimal numeral.
pub open spec fn digits_value(s: Seq<char>) -> int
    decreases s.len(),
{
    if s.len() == 0 {
        0
    } else {
        digits_value(s.drop_last()) * 10 + (s.last() as int - 48)
    }
}

/// `s` without an optional single leading `+`, the shape the numeric parse
/// accepts.
pub open spec fn numeric_body(s: Seq<char>) -> Seq<char> {
    if s.len() > 0 && s[0] == '+' {
        s.subrange(1, s.len() as int)
    } else {
        s
    }
}

/// The code point of `c` with an ASCII upper-case letter folded to lower
/// case.
pub open spec fn fold_case(c: char) -> int {
    if 65 <= c as int <= 90 {
        c as int + 32
    } else {
        c as int
    }
}

/// Character-wise equality up to ASCII case.
pub open spec fn eq_ignore_case(a: Seq<char>, b: Seq<char>) -> bool {
    a.len() == b.len() && forall|i: int| 0 <= i < a.len() ==> fold_case(#[trigger] a[i]) == fold_case(b[i])
}

/// The level denoted by the numeral value `v`, if any.
pub open spec fn level_of_value(v: int) -> Option<LogLevel> {
    if v == 1 {
        Some(LogLevel::Error)
    } else if v == 2 {
        Some(LogLevel::Warn)
    } else if v == 3 {
        Some(LogLevel::Info)
    } else if v == 4 {
        Some(LogLevel::Debug)
    } else if v == 5 {
        Some(LogLevel::Trace)
    } else {
        None
    }
}

/// The level a configuration token denotes: a numeral between 1 and 5, or a
/// level name compared without regard to ASCII case.
pub open spec fn spec_parse_log_level(s: Seq<char>) -> Option<LogLevel> {
    let body = numeric_body(s);
    if body.len() > 0 && all_digits(body) {
        level_of_value(digits_value(body))
    } else if eq_ignore_case(s, "error"@) {
        Some(LogLevel::Error)
    } else if eq_ignore_case(s, "warn"@) {
        Some(LogLevel::Warn)
    } else if eq_ignore_case(s, "info"@) {
        Some(LogLevel::Info)
    } else if eq_ignore_case(s, "debug"@) {
        Some(LogLevel::Debug)
    } else if eq_ignore_case(s, "trace"@) {
        Some(LogLevel::Trace)
    } else {
        None
    }
}

/// A numeral over digits never has a negative value.
proof fn lemma_digits_value_nonneg(s: Seq<char>)
    requires
        all_digits(s),
    ensures
        digits_value(s) >= 0,
    decreases s.len(),
{
    if s.len() > 0 {
        assert(all_digits(s.drop_last()));
        lemma_digits_value_nonneg(s.drop_last());
    }
}

fn fold_case_exec(c: char) -> (r: u32)
    ensures
        r as int == fold_case(c),
{
    let u: u32 = c as u32;
    if 65 <= u && u <= 90 {
        u + 32
    } else {
        u
    }
}

/// Character-wise comparison of two strings up to ASCII case.
fn str_eq_ignore_case(a: &str, b: &str) -> (r: bool)
    ensures
        r == eq_ignore_case(a@, b@),
{
    let an: usize = a.unicode_len();
    let bn: usize = b.unicode_len();
    if an != bn {
        return false;
    }
    let mut i: usize = 0;
    while i < an
        invariant
            0 <= i <= an,
            an == a@.len(),
            bn == b@.len(),
            an == bn,
            forall|j: int| 0 <= j < i ==> fold_case(#[trigger] a@[j]) == fold_case(b@[j]),
        decreases an - i,
    {
        let ca = a.get_char(i);
        let cb = b.get_char(i);
        if fold_case_exec(ca) != fold_case_exec(cb) {
            assert(fold_case(a@[i as int]) != fold_case(b@[i as int]));
            return false;
        }
        i = i + 1;
    }
    true
}

/// Parses a `LOG_LEVEL` token, returning `None` exactly on the tokens the
/// logging facility would reject.
pub fn parse_log_level(s: &str) -> (r: Option<LogLevel>)
    ensures
        r == spec_parse_log_level(s@),
{
    let n: usize = s.unicode_len();
    let start: usize = if n > 0 && s.get_char(0) == '+' {
        1
    } else {
        0
    };
    proof {
        assert(numeric_body(s@) =~= s@.subrange(start as int, n as int));
    }
    let mut numeric = n > start;
    let mut val: u64 = 0;
    let mut i: usize = start;
    while i < n && numeric
        invariant
            start <= i <= n,
            n == s@.len(),
            start == 0 || start == 1,
            numeric ==> n > start,
            numeric ==> all_digits(s@.subrange(start as int, i as int)),
            numeric ==> val <= 6,
            numeric ==> (digits_value(s@.subrange(start as int, i as int)) <= 5 ==> val == digits_value(
                s@.subrange(start as int, i as int),
            )),
            numeric ==> (digits_value(s@.subrange(start as int, i as int)) > 5 ==> val == 6),
            !numeric ==> (n == start || !all_digits(s@.subrange(start as int, n as int))),
        decreases n - i,
    {
        let c = s.get_char(i);
        let u: u32 = c as u32;
        let ghost prefix = s@.subrange(start as int, i as int);
        let ghost extended = s@.subrange(start as int, i as int + 1);
        proof {
            assert(extended.drop_last() =~= prefix);
            assert(extended.last() == s@[i as int]);
        }
        if 48 <= u && u <= 57 {
            proof {
                assert(all_digits(extended));
                lemma_digits_value_nonneg(prefix);
                assert(digits_value(extended) == digits_value(prefix) * 10 + (s@[i as int] as int - 48));
            }
            let d: u64 = (u - 48) as u64;
            let next: u64 = val * 10 + d;
            val = if next > 5 {
                6
            } else {
                next
            };
        } else {
            numeric = false;
            proof {
                let body = s@.subrange(start as int, n as int);
                assert(body[i - start] == s@[i as int]);
                assert(!is_digit(body[i - start]));
            }
        }
        i = i + 1;
    }
    if numeric {
        proof {
            assert(s@.subrange(start as int, i as int) =~= s@.subrange(start as int, n as int));
            lemma_digits_value_nonneg(numeric_body(s@));
        }
        if val == 1 {
            Some(LogLevel::Error)
        } else if val == 2 {
            Some(LogLevel::Warn)
        } else if val == 3 {
            Some(LogLevel::Info)
        } else if val == 4 {
            Some(LogLevel::Debug)
        } else if val == 5 {
            Some(LogLevel::Trace)
        } else {
            None
        }
    } else if str_eq_ignore_case(s, "error") {
        Some(LogLevel::Error)
    } else if str_eq_ignore_case(s, "warn") {
        Some(LogLevel::Warn)
    } else if str_eq_ignore_case(s, "info") {
        Some(LogLevel::Info)
    } else if str_eq_ignore_case(s, "debug") {
        Some(LogLevel::Debug)
    } else if str_eq_ignore_case(s, "trace") {
        Some(LogLevel::Trace)
    } else {
        None
    }
}

} // verus!
