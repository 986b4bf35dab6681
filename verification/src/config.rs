//! The configuration of one run and the validation of the duration a user typed.
//!
//! A duration is typed as a decimal number, which may carry one leading `+`, and is
//! counted in the selected unit. It is valid when it is a number, is not zero, and
//! still fits into `u64` once it is converted to seconds.

use vstd::prelude::*;

verus! {

/// The unit in which a typed duration is counted.
#[derive(Clone, Copy, Debug, PartialEq, Eq)]
pub enum TimeUnit {
    Seconds,
    Minutes,
}

impl TimeUnit {
    /// The seconds that make up one of this unit.
    pub open spec fn seconds_per(self) -> nat {
        match self {
            TimeUnit::Seconds => 1,
            TimeUnit::Minutes => 60,
        }
    }

    /// The other unit.
    pub open spec fn toggled_spec(self) -> TimeUnit {
        match self {
            TimeUnit::Seconds => TimeUnit::Minutes,
            TimeUnit::Minutes => TimeUnit::Seconds,
        }
    }

    /// The other unit.
    pub fn toggled(self) -> (other: TimeUnit)
        ensures
            other == self.toggled_spec(),
    {
        match self {
            TimeUnit::Seconds => TimeUnit::Minutes,
            TimeUnit::Minutes => TimeUnit::Seconds,
        }
    }
}

/// Why a typed duration was turned down.
#[derive(Clone, Copy, Debug, PartialEq, Eq)]
pub enum DurationError {
    /// Nothing was typed.
    Missing,
    /// The text is not a decimal number.
    NotNumeric,
    /// The number is zero: a run lasts at least one second.
    Zero,
    /// The number, or the seconds it stands for, does not fit into `u64`.
    TooLarge,
}

/// What one run is started with. It is made anew for each run and does not change
/// while the run lasts.
#[derive(Clone, Copy, Debug, PartialEq, Eq)]
pub struct RunConfig {
    pub duration_secs: u64,
    pub worker_count: usize,
}

impl RunConfig {
    /// A run lasts at least one second and has at least one worker, and no more
    /// workers than the machine has logical cores.
    pub open spec fn valid_for(self, logical_cores: nat) -> bool {
        &&& self.duration_secs > 0
        &&& 1 <= self.worker_count <= logical_cores
    }
}

/// Whether `c` is one of `0` to `9`.
pub open spec fn is_digit(c: char) -> bool {
    '0' <= c <= '9'
}

/// The number a decimal digit stands for.
pub open spec fn digit_value(c: char) -> nat {
    (c as int - '0' as int) as nat
}

/// Whether every character of `text` is a decimal digit.
pub open spec fn all_digits(text: Seq<char>) -> bool {
    forall|i: int| 0 <= i < text.len() ==> is_digit(#[trigger] text[i])
}

/// The number that a sequence of decimal digits stands for.
pub open spec fn decimal_value(digits: Seq<char>) -> nat
    decreases digits.len(),
{
    if digits.len() == 0 {
        0
    } else {
        decimal_value(digits.drop_last()) * 10 + digit_value(digits.last())
    }
}

/// The text without its leading `+`, if it has one.
pub open spec fn unsigned_part(text: Seq<char>) -> Seq<char> {
    if text.len() > 0 && text[0] == '+' {
        text.skip(1)
    } else {
        text
    }
}

/// The number that `text` stands for, or the reason why it stands for none.
pub open spec fn parse_number_spec(text: Seq<char>) -> Result<u64, DurationError> {
    let digits = unsigned_part(text);
    if text.len() == 0 {
        Err(DurationError::Missing)
    } else if digits.len() == 0 || !all_digits(digits) {
        Err(DurationError::NotNumeric)
    } else if decimal_value(digits) > u64::MAX {
        Err(DurationError::TooLarge)
    } else {
        Ok(decimal_value(digits) as u64)
    }
}

/// The seconds that a run lasts when `text` was typed and `unit` selected, or the
/// reason why no run can be started from them.
pub open spec fn run_seconds_spec(text: Seq<char>, unit: TimeUnit) -> Result<u64, DurationError> {
    match parse_number_spec(text) {
        Err(e) => Err(e),
        Ok(value) => if value == 0 {
            Err(DurationError::Zero)
        } else if value * unit.seconds_per() > u64::MAX {
            Err(DurationError::TooLarge)
        } else {
            Ok((value * unit.seconds_per()) as u64)
        },
    }
}

/// Reading one more digit multiplies the number read so far by ten and adds the
/// digit.
proof fn lemma_decimal_value_step(digits: Seq<char>, i: int)
    requires
        0 <= i < digits.len(),
    ensures
        decimal_value(digits.take(i + 1)) == decimal_value(digits.take(i)) * 10 + digit_value(
            digits[i],
        ),
{
    assert(digits.take(i + 1).drop_last() =~= digits.take(i));
}

/// Reads a decimal number: digits only, which one `+` may precede.
pub fn parse_number(text: &str) -> (parsed: Result<u64, DurationError>)
    ensures
        parsed == parse_number_spec(text@),
{
    broadcast use vstd::string::is_ascii_spec_bytes;

    if text.is_empty() {
        return Err(DurationError::Missing);
    }
    let ghost digits = unsigned_part(text@);
    if !text.is_ascii() {
        proof {
            let k = choose|k: int| 0 <= k < text@.len() && !('\0' <= #[trigger] text@[k] <= '\u{7f}');
            assert(!is_digit(text@[k]));
            if text@[0] == '+' {
                assert(k > 0);
                assert(digits[k - 1] == text@[k]);
            }
        }
        return Err(DurationError::NotNumeric);
    }
    let bytes = text.as_bytes();
    let n = bytes.len();
    assert(n == text@.len());
    assert(forall|k: int| 0 <= k < n ==> bytes@[k] == text@[k] as u8);
    let start: usize = if bytes[0] == 43u8 {
        1
    } else {
        0
    };
    assert(bytes@[0] == 43u8 <==> text@[0] == '+');
    if start == n {
        return Err(DurationError::NotNumeric);
    }
    let mut value: u64 = 0;
    let mut overflowed = false;
    let mut i: usize = start;
    while i < n
        invariant
            start <= i <= n,
            n == text@.len(),
            n == bytes@.len(),
            digits == unsigned_part(text@),
            digits.len() == n - start,
            forall|k: int| 0 <= k < n ==> bytes@[k] == text@[k] as u8,
            forall|k: int| 0 <= k < n ==> '\0' <= #[trigger] text@[k] <= '\u{7f}',
            forall|k: int| 0 <= k < digits.len() ==> digits[k] == text@[k + start],
            all_digits(digits.take(i - start)),
            !overflowed ==> value == decimal_value(digits.take(i - start)),
            overflowed ==> decimal_value(digits.take(i - start)) > u64::MAX,
        decreases n - i,
    {
        let b = bytes[i];
        let ghost c = text@[i as int];
        assert(c == digits[i - start]);
        assert(b == c as u8);
        if b < 48u8 || b > 57u8 {
            assert(!is_digit(c));
            return Err(DurationError::NotNumeric);
        }
        assert(is_digit(c));
        assert(digit_value(c) == b - 48);
        proof {
            lemma_decimal_value_step(digits, i - start);
            assert forall|k: int| 0 <= k < digits.take(i - start + 1).len() implies is_digit(
                #[trigger] digits.take(i - start + 1)[k],
            ) by {
                if k < i - start {
                    assert(digits.take(i - start)[k] == digits.take(i - start + 1)[k]);
                }
            }
        }
        if !overflowed {
            match value.checked_mul(10) {
                Some(tens) => match tens.checked_add((b - 48u8) as u64) {
                    Some(next) => {
                        value = next;
                    },
                    None => {
                        overflowed = true;
                    },
                },
                None => {
                    overflowed = true;
                },
            }
        }
        i = i + 1;
    }
    assert(digits.take(n - start) =~= digits);
    if overflowed {
        Err(DurationError::TooLarge)
    } else {
        Ok(value)
    }
}

/// Validates a typed duration and converts it to seconds.
pub fn run_seconds(text: &str, unit: TimeUnit) -> (seconds: Result<u64, DurationError>)
    ensures
        seconds == run_seconds_spec(text@, unit),
{
    match parse_number(text) {
        Err(e) => Err(e),
        Ok(value) => {
            if value == 0 {
                return Err(DurationError::Zero);
            }
            match unit {
                TimeUnit::Seconds => Ok(value),
                TimeUnit::Minutes => match value.checked_mul(60) {
                    Some(secs) => Ok(secs),
                    None => Err(DurationError::TooLarge),
                },
            }
        },
    }
}

} // verus!
