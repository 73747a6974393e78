//! The command line.

use crate::decimal::{decimal, push_decimal};
use vstd::prelude::*;
use vstd::string::{StrSliceExecFns, StringExecFns};

verus! {

/// Why a number of milliseconds is none.
#[derive(Debug, Clone, Copy, PartialEq, Eq, Structural)]
pub enum ParseMillisError {
    /// There is nothing.
    Empty,
    /// There is something else than a digit.
    InvalidDigit,
    /// The number is too large.
    PosOverflow,
}

pub open spec fn is_digit(c: char) -> bool {
    '0' <= c && c <= '9'
}

/// The number that digits spell.
pub open spec fn value_of(digits: Seq<char>) -> nat
    decreases digits.len(),
{
    if digits.len() == 0 {
        0
    } else {
        10 * value_of(digits.drop_last()) + (digits.last() as nat - '0' as nat) as nat
    }
}

/// The number of digits that a text begins with.
pub open spec fn leading_digits(text: Seq<char>) -> nat
    decreases text.len(),
{
    if text.len() == 0 || !is_digit(text[0]) {
        0
    } else {
        1 + leading_digits(text.skip(1))
    }
}

/// The digits that a text consists of, behind a plus sign if it has one.
pub open spec fn unsigned(text: Seq<char>) -> Seq<char> {
    if text.len() > 1 && text[0] == '+' {
        text.skip(1)
    } else {
        text
    }
}

/// The number of milliseconds that a text spells. Where there is both a number that is too large
/// and something that is no digit, what comes first counts.
pub open spec fn millis(text: Seq<char>) -> Result<u64, ParseMillisError> {
    let digits = unsigned(text);
    let n = leading_digits(digits) as int;
    if text.len() == 0 {
        Err(ParseMillisError::Empty)
    } else if value_of(digits.take(n)) > u64::MAX {
        Err(ParseMillisError::PosOverflow)
    } else if n < digits.len() {
        Err(ParseMillisError::InvalidDigit)
    } else {
        Ok(value_of(digits) as u64)
    }
}

/// The leading digits are digits, and what follows them is none.
pub(crate) proof fn leading_digits_are_all(text: Seq<char>, n: nat)
    requires
        n <= text.len(),
        forall|i: int| 0 <= i < n ==> is_digit(text[i]),
    ensures
        n <= leading_digits(text) <= text.len(),
        n < text.len() && !is_digit(text[n as int]) ==> leading_digits(text) == n,
    decreases n, text.len(),
{
    if text.len() > 0 && is_digit(text[0]) {
        let rest = text.skip(1);
        let m = if n == 0 {
            0nat
        } else {
            (n - 1) as nat
        };
        assert(forall|i: int| 0 <= i < rest.len() ==> rest[i] == text[i + 1]);
        leading_digits_are_all(rest, m);
    }
}

/// More digits do not spell a smaller number.
pub(crate) proof fn value_grows(digits: Seq<char>, n: int, m: int)
    requires
        0 <= n <= m <= digits.len(),
    ensures
        value_of(digits.take(n)) <= value_of(digits.take(m)),
    decreases m - n,
{
    if n < m {
        value_grows(digits, n, m - 1);
        assert(digits.take(m).drop_last() =~= digits.take(m - 1));
    }
}

/// Reads a number of milliseconds.
pub fn duration_from_millis(s: &str) -> (res: Result<u64, ParseMillisError>)
    ensures
        res == millis(s@),
{
    let len: usize = s.unicode_len();
    if len == 0 {
        return Err(ParseMillisError::Empty);
    }
    let start: usize = if len > 1 && s.get_char(0) == '+' {
        1
    } else {
        0
    };
    let ghost digits = unsigned(s@);
    let mut value: u64 = 0;
    let mut i: usize = start;
    assert(digits.take(0) =~= Seq::<char>::empty());
    while i < len
        invariant
            len == s@.len(),
            start <= i <= len,
            digits == unsigned(s@),
            digits == s@.skip(start as int),
            len > 0,
            forall|j: int| 0 <= j < i - start ==> is_digit(digits[j]),
            value == value_of(digits.take(i - start)),
        decreases len - i,
    {
        let c: char = s.get_char(i);
        assert(c == digits[i - start]);
        assert(digits.take(i - start + 1).drop_last() =~= digits.take(i - start));
        if !('0' <= c && c <= '9') {
            proof {
                leading_digits_are_all(digits, (i - start) as nat);
            }
            return Err(ParseMillisError::InvalidDigit);
        }
        proof {
            leading_digits_are_all(digits, (i - start + 1) as nat);
            value_grows(digits, i - start + 1, leading_digits(digits) as int);
        }
        let digit: u64 = c as u64 - '0' as u64;
        value = match value.checked_mul(10) {
            Some(value) => match value.checked_add(digit) {
                Some(value) => value,
                None => return Err(ParseMillisError::PosOverflow),
            },
            None => return Err(ParseMillisError::PosOverflow),
        };
        i = i + 1;
    }
    proof {
        leading_digits_are_all(digits, (len - start) as nat);
        assert(digits.take(len - start) =~= digits);
    }
    Ok(value)
}

/// How much is logged.
#[derive(Debug, Clone, Copy, PartialEq, Eq, Structural)]
pub enum LogLevel {
    Info,
    Debug,
    Trace,
}

/// How much is logged for a number of requests to log more; there is a limit to that.
pub fn log_level(verbose: u8) -> (level: Option<LogLevel>)
    ensures
        level == if verbose == 0 {
            Some(LogLevel::Info)
        } else if verbose == 1 {
            Some(LogLevel::Debug)
        } else if verbose == 2 {
            Some(LogLevel::Trace)
        } else {
            None
        },
{
    match verbose {
        0 => Some(LogLevel::Info),
        1 => Some(LogLevel::Debug),
        2 => Some(LogLevel::Trace),
        _ => None,
    }
}

/// The command that connects to the clipboard at an address.
pub open spec fn spec_connect_command(
    addr: Seq<char>,
    port: u16,
    password: Option<Seq<char>>,
) -> Seq<char> {
    "yclip "@ + addr + ":"@ + decimal(port as nat) + match password {
        Some(password) => " -p "@ + password,
        None => Seq::empty(),
    }
}

/// The command that connects to the clipboard at an address.
pub fn connect_command(addr: &str, port: u16, password: Option<&str>) -> (command: String)
    ensures
        command@ == spec_connect_command(
            addr@,
            port,
            match password {
                Some(password) => Some(password@),
                None => None,
            },
        ),
        command@ == "yclip "@ + addr@ + ":"@ + decimal(port as nat) + match password {
            Some(password) => " -p "@ + password@,
            None => Seq::empty(),
        },
{
    let mut command: String = String::new();
    command.append("yclip ");
    command.append(addr);
    command.append(":");
    push_decimal(&mut command, port as usize);
    if let Some(password) = password {
        command.append(" -p ");
        command.append(password);
    }
    assert(command@ =~= spec_connect_command(
        addr@,
        port,
        match password {
            Some(password) => Some(password@),
            None => None,
        },
    ));
    command
}

} // verus!
