//! Threshold durations: an integer magnitude together with a time unit.

use vstd::prelude::*;
use vstd::string::*;
use crate::digits::{
    all_decimal_digits,
    decimal_value,
    is_decimal_digit,
    lemma_decimal_value_of_prefix,
};
use crate::error::{error_view, HemeraError, HemeraErrorView};
use crate::text::{trim, trimmed};

verus! {

/// The unit a threshold magnitude is counted in.
#[derive(Clone, Copy, Debug, PartialEq, Eq, Structural)]
pub enum TimeUnit {
    Seconds,
    Milliseconds,
    Microseconds,
    Nanoseconds,
}

impl TimeUnit {
    /// How many nanoseconds one of this unit lasts.
    pub open spec fn nanos(self) -> nat {
        match self {
            TimeUnit::Seconds => 1_000_000_000,
            TimeUnit::Milliseconds => 1_000_000,
            TimeUnit::Microseconds => 1_000,
            TimeUnit::Nanoseconds => 1,
        }
    }

    /// Returns the number of nanoseconds in one of this unit.
    pub fn nanos_per_unit(self) -> (factor: u128)
        ensures
            factor == self.nanos(),
    {
        match self {
            TimeUnit::Seconds => 1_000_000_000,
            TimeUnit::Milliseconds => 1_000_000,
            TimeUnit::Microseconds => 1_000,
            TimeUnit::Nanoseconds => 1,
        }
    }
}

/// A non-negative length of time.
#[derive(Clone, Copy, Debug, PartialEq, Eq, Structural)]
pub struct Duration {
    pub magnitude: u64,
    pub unit: TimeUnit,
}

impl Duration {
    /// The length of this duration on the common nanosecond scale.
    pub open spec fn nanos(self) -> nat {
        self.magnitude as nat * self.unit.nanos()
    }

    /// Canonicalizes the duration to nanoseconds.
    pub fn as_nanos(&self) -> (n: u128)
        ensures
            n == self.nanos(),
    {
        let factor: u128 = self.unit.nanos_per_unit();
        assert(self.magnitude as nat * factor as nat <= 0xffff_ffff_ffff_ffff * 1_000_000_000)
            by (nonlinear_arith)
            requires
                self.magnitude <= 0xffff_ffff_ffff_ffff,
                factor <= 1_000_000_000,
        ;
        self.magnitude as u128 * factor
    }
}

/// The letters that name a unit in a threshold. Microseconds may also be
/// written with the micro sign in place of the `u`.
pub open spec fn unit_suffix(unit: TimeUnit) -> Seq<char> {
    match unit {
        TimeUnit::Seconds => seq!['s'],
        TimeUnit::Milliseconds => seq!['m', 's'],
        TimeUnit::Microseconds => seq!['u', 's'],
        TimeUnit::Nanoseconds => seq!['n', 's'],
    }
}

/// Whether `s` ends with the characters of `suffix`.
pub open spec fn has_suffix(s: Seq<char>, suffix: Seq<char>) -> bool {
    suffix.len() <= s.len() && s.subrange(s.len() - suffix.len(), s.len() as int) == suffix
}

/// Splits a threshold into what stands before its unit, and the unit. The
/// two-letter units are tried before the bare `s`, which they all end in.
pub open spec fn split_unit(s: Seq<char>) -> Option<(Seq<char>, TimeUnit)> {
    if has_suffix(s, seq!['m', 's']) {
        Some((s.take(s.len() - 2), TimeUnit::Milliseconds))
    } else if has_suffix(s, seq!['u', 's']) || has_suffix(s, seq!['\u{b5}', 's']) {
        Some((s.take(s.len() - 2), TimeUnit::Microseconds))
    } else if has_suffix(s, seq!['n', 's']) {
        Some((s.take(s.len() - 2), TimeUnit::Nanoseconds))
    } else if has_suffix(s, seq!['s']) {
        Some((s.take(s.len() - 1), TimeUnit::Seconds))
    } else {
        None
    }
}

/// `s` without the plus sign that an unsigned integer may start with.
pub open spec fn unsigned_part(s: Seq<char>) -> Seq<char> {
    if s.len() > 0 && s[0] == '+' {
        s.skip(1)
    } else {
        s
    }
}

/// The non-negative integer that `s` writes: an optional plus sign, then at
/// least one decimal digit and nothing else, the number fitting 64 bits.
pub open spec fn integer_of(s: Seq<char>) -> Option<u64> {
    let digits = unsigned_part(s);
    if digits.len() > 0 && all_decimal_digits(digits) && decimal_value(digits) <= u64::MAX {
        Some(decimal_value(digits) as u64)
    } else {
        None
    }
}

/// The duration that the trimmed threshold `s` writes, or what is wrong
/// with it.
pub open spec fn duration_of(s: Seq<char>) -> Result<Duration, HemeraErrorView> {
    match split_unit(s) {
        None => Err(HemeraErrorView::InvalidThresholdGrammar(s)),
        Some((fragment, unit)) => match integer_of(fragment) {
            None => Err(HemeraErrorView::InvalidThresholdValue(fragment)),
            Some(magnitude) => Ok(Duration { magnitude, unit }),
        },
    }
}

/// Reads a non-negative integer: an optional plus sign followed by decimal
/// digits. Anything else, and a number beyond 64 bits, gives `None`.
pub fn parse_integer(s: &str) -> (value: Option<u64>)
    ensures
        value == integer_of(s@),
{
    let n: usize = s.unicode_len();
    let start: usize = if n > 0 && s.get_char(0) == '+' {
        1
    } else {
        0
    };
    if start == n {
        return None;
    }
    let ghost digits = unsigned_part(s@);
    assert(digits == s@.skip(start as int));
    let mut value: u64 = 0;
    let mut i: usize = start;
    assert(digits.take(0) =~= Seq::<char>::empty());
    while i < n
        invariant
            start <= i <= n,
            n == s@.len(),
            digits == s@.skip(start as int),
            digits == unsigned_part(s@),
            all_decimal_digits(digits.take(i - start)),
            value == decimal_value(digits.take(i - start)),
        decreases n - i,
    {
        let c: char = s.get_char(i);
        let ghost k = i - start;
        assert(digits[k] == c);
        if !('0' <= c && c <= '9') {
            assert(!is_decimal_digit(digits[k]));
            assert(!all_decimal_digits(digits));
            return None;
        }
        let digit: u64 = (c as u32 - '0' as u32) as u64;
        assert(digits.take(k + 1).drop_last() =~= digits.take(k));
        assert(decimal_value(digits.take(k + 1)) == value * 10 + digit);
        if value > (u64::MAX - digit) / 10 {
            proof {
                lemma_decimal_value_of_prefix(digits, k + 1);
                assert(decimal_value(digits) > u64::MAX);
            }
            return None;
        }
        value = value * 10 + digit;
        i += 1;
    }
    assert(digits.take(n - start) =~= digits);
    Some(value)
}

/// Parses a trimmed threshold such as `10ms`, `1s`, `500us` or `250ns`.
///
/// A threshold that ends in none of the units `ms`, `us`, `µs`, `ns`, `s` is
/// rejected with `InvalidThresholdGrammar`, which carries the threshold. One
/// whose unit is not preceded by a non-negative integer is rejected with
/// `InvalidThresholdValue`, which carries what preceded the unit.
pub fn parse_duration_literal(literal: &str) -> (parsed: Result<Duration, HemeraError>)
    ensures
        error_view(parsed) == duration_of(literal@),
{
    let n: usize = literal.unicode_len();
    if n == 0 || literal.get_char(n - 1) != 's' {
        proof {
            let s = literal@;
            if n >= 1 {
                assert(s.subrange(n - 1, n as int)[0] == s[n - 1]);
            }
            if n >= 2 {
                assert(s.subrange(n - 2, n as int)[1] == s[n - 1]);
            }
            assert(split_unit(s) is None);
        }
        return Err(HemeraError::InvalidThresholdGrammar(literal.to_owned()));
    }
    let before: char = if n >= 2 {
        literal.get_char(n - 2)
    } else {
        's'
    };
    let two_letters: bool = n >= 2 && (before == 'm' || before == 'u' || before == '\u{b5}'
        || before == 'n');
    let unit: TimeUnit = if !two_letters {
        TimeUnit::Seconds
    } else if before == 'm' {
        TimeUnit::Milliseconds
    } else if before == 'n' {
        TimeUnit::Nanoseconds
    } else {
        TimeUnit::Microseconds
    };
    let kept: usize = if two_letters {
        n - 2
    } else {
        n - 1
    };
    proof {
        let s = literal@;
        assert(s.subrange(n - 1, n as int) =~= seq![s[n - 1]]);
        if n >= 2 {
            assert(s.subrange(n - 2, n as int) =~= seq![s[n - 2], s[n - 1]]);
        }
        assert(split_unit(s) == Some((s.take(kept as int), unit)));
    }
    let fragment: &str = literal.substring_char(0, kept);
    assert(fragment@ == literal@.take(kept as int));
    match parse_integer(fragment) {
        Some(magnitude) => Ok(Duration { magnitude, unit }),
        None => Err(HemeraError::InvalidThresholdValue(fragment.to_owned())),
    }
}

/// Parses a threshold, ignoring whitespace around it.
pub fn parse_threshold(threshold_str: &str) -> (parsed: Result<Duration, HemeraError>)
    ensures
        error_view(parsed) == duration_of(trimmed(threshold_str@)),
{
    parse_duration_literal(trim(threshold_str))
}

} // verus!
