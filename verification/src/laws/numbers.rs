//! Numbers as bytes and as text, and the command line.

use crate::bytes::{be16, from_le64, join16, le16, le64};
use crate::cli::{
    leading_digits, leading_digits_are_all, millis, spec_connect_command, unsigned, value_of,
    ParseMillisError,
};
use crate::decimal::decimal;
use vstd::bytes::{spec_u64_from_le_bytes, spec_u64_to_le_bytes};
use vstd::prelude::*;

verus! {

/// The low byte of a number comes first, except in the frames of the handshake, and joining the
/// bytes of a number gives the number.
pub proof fn low_bytes_come_first(n: u16, low: u8, high: u8, m: u64, bytes: Seq<u8>)
    ensures
        le16(n).len() == 2,
        le16(n)[0] + 256 * le16(n)[1] == n,
        be16(n).len() == 2,
        256 * be16(n)[0] + be16(n)[1] == n,
        join16(low, high) == low + 256 * high,
        le64(m) == spec_u64_to_le_bytes(m),
        from_le64(bytes) == spec_u64_from_le_bytes(bytes),
{
}

/// A digit more makes a number ten times as large, and adds the digit.
pub proof fn digits_add_up(digits: Seq<char>, digit: u8)
    requires
        digit < 10,
    ensures
        value_of(Seq::empty()) == 0,
        value_of(digits.push((48 + digit) as char)) == 10 * value_of(digits) + digit,
{
    let more = digits.push((48 + digit) as char);
    assert(more.drop_last() =~= digits);
}

/// Whether a text is made of decimal digits, and of nothing else.
pub open spec fn all_digits(text: Seq<char>) -> bool {
    forall|i: int| #![trigger text[i]] 0 <= i < text.len() ==> '0' <= text[i] && text[i] <= '9'
}

/// A number in decimal notation is made of digits that spell it, without leading zeros.
pub proof fn numbers_are_spelled_in_decimal(n: nat)
    ensures
        decimal(n).len() > 0,
        all_digits(decimal(n)),
        value_of(decimal(n)) == n,
        n > 0 ==> decimal(n)[0] != '0',
        n == 0 ==> decimal(n).len() == 1,
    decreases n,
{
    if n < 10 {
        let text = decimal(n);
        assert(text.drop_last() =~= Seq::<char>::empty());
        assert(value_of(Seq::<char>::empty()) == 0);
        assert(text.last() == (48 + n) as char);
    } else {
        numbers_are_spelled_in_decimal(n / 10);
        let front = decimal(n / 10);
        let text = decimal(n);
        assert(text.drop_last() =~= front);
        assert(text[0] == front[0]);
        assert forall|i: int| #![trigger text[i]] 0 <= i < text.len() implies '0' <= text[i]
            && text[i] <= '9' by {
            if i < front.len() {
                assert(text[i] == front[i]);
            }
        }
    }
}

/// Digits, with a plus sign in front of them or without, are read as the number that they spell,
/// or refused if that is too large.
pub proof fn digits_are_read_as_a_number(digits: Seq<char>)
    requires
        digits.len() > 0,
        all_digits(digits),
    ensures
        value_of(digits) <= u64::MAX ==> millis(digits) == Ok::<u64, ParseMillisError>(
            value_of(digits) as u64,
        ),
        value_of(digits) > u64::MAX ==> millis(digits) == Err::<u64, _>(
            ParseMillisError::PosOverflow,
        ),
        millis(seq!['+'] + digits) == millis(digits),
{
    leading_digits_are_all(digits, digits.len());
    assert(digits.take(digits.len() as int) =~= digits);
    assert((seq!['+'] + digits).skip(1) =~= digits);
    assert(unsigned(digits) == digits);
    assert(unsigned(seq!['+'] + digits) == digits);
}

/// A number that is written in decimal notation is read back.
pub proof fn written_numbers_are_read_back(n: nat)
    ensures
        n <= u64::MAX ==> millis(decimal(n)) == Ok::<u64, ParseMillisError>(n as u64),
        n > u64::MAX ==> millis(decimal(n)) == Err::<u64, _>(ParseMillisError::PosOverflow),
        millis(seq!['+'] + decimal(n)) == millis(decimal(n)),
{
    numbers_are_spelled_in_decimal(n);
    digits_are_read_as_a_number(decimal(n));
}

/// Nothing but digits, with a plus sign in front of them or without, is read as a number.
pub proof fn only_digits_are_read(text: Seq<char>)
    ensures
        text.len() == 0 <==> millis(text) == Err::<u64, _>(ParseMillisError::Empty),
        millis(text) matches Ok(value) ==> exists|digits: Seq<char>|
            #![trigger value_of(digits)]
            (text == digits || text == seq!['+'] + digits) && digits.len() > 0 && all_digits(digits)
                && value_of(digits) == value,
{
    let digits = unsigned(text);
    leading_digits_end(digits);
    if text.len() > 1 && text[0] == '+' {
        assert(text =~= seq!['+'] + digits);
    }
    if millis(text) is Ok {
        assert(all_digits(digits));
        assert(digits.take(leading_digits(digits) as int) =~= digits);
        assert(value_of(digits) == millis(text)->Ok_0);
    }
}

/// The leading digits of a text are digits.
proof fn leading_digits_end(text: Seq<char>)
    ensures
        leading_digits(text) <= text.len(),
        all_digits(text.take(leading_digits(text) as int)),
        leading_digits(text) == text.len() ==> all_digits(text),
    decreases text.len(),
{
    if text.len() > 0 && leading_digits(text) > 0 {
        let rest = text.skip(1);
        leading_digits_end(rest);
        let n = leading_digits(text) as int;
        assert forall|i: int| #![trigger text[i]] 0 <= i < n implies '0' <= text[i] && text[i]
            <= '9' by {
            if i > 0 {
                assert(rest.take(n - 1)[i - 1] == text[i]);
            }
        }
    }
}

/// Where digits are followed by something else, that is refused, unless the digits are too large
/// already.
pub proof fn what_is_no_digit_is_refused(digits: Seq<char>, rest: Seq<char>)
    requires
        digits.len() > 0,
        all_digits(digits),
        rest.len() > 0,
        !('0' <= rest[0] && rest[0] <= '9'),
    ensures
        value_of(digits) <= u64::MAX ==> millis(digits + rest) == Err::<u64, _>(
            ParseMillisError::InvalidDigit,
        ),
        value_of(digits) > u64::MAX ==> millis(digits + rest) == Err::<u64, _>(
            ParseMillisError::PosOverflow,
        ),
        millis(seq!['+'] + digits + rest) == millis(digits + rest),
{
    let text = digits + rest;
    assert((seq!['+'] + digits + rest).skip(1) =~= text);
    assert(unsigned(seq!['+'] + digits + rest) == text);
    assert(text[0] == digits[0]);
    assert forall|i: int| 0 <= i < digits.len() implies crate::cli::is_digit(text[i]) by {
        assert(text[i] == digits[i]);
    }
    assert(text[digits.len() as int] == rest[0]);
    leading_digits_are_all(text, digits.len());
    assert(text.take(digits.len() as int) =~= digits);
    assert(unsigned(text) == text);
}

/// A text that begins with neither a digit nor a plus sign is refused.
pub proof fn what_does_not_begin_with_a_digit_is_refused(text: Seq<char>)
    requires
        text.len() > 0,
        !('0' <= text[0] && text[0] <= '9'),
        text[0] == '+' ==> text.len() == 1 || !('0' <= text[1] && text[1] <= '9'),
    ensures
        millis(text) == Err::<u64, _>(ParseMillisError::InvalidDigit),
{
    let digits = unsigned(text);
    leading_digits_are_all(digits, 0);
    assert(digits.take(0) =~= Seq::<char>::empty());
}

/// The command to connect begins with the name of the program, followed by the address, a colon
/// and the port in decimal notation; without a password that is all.
pub proof fn the_command_names_the_server(addr: Seq<char>, port: u16)
    ensures
        ({
            let command = spec_connect_command(addr, port, None);
            let start = seq!['y', 'c', 'l', 'i', 'p', ' '] + addr + seq![':'];
            let digits = command.skip(start.len() as int);
            &&& start.is_prefix_of(command)
            &&& digits.len() > 0
            &&& all_digits(digits)
            &&& value_of(digits) == port
            &&& port > 0 ==> digits[0] != '0'
            &&& port == 0 ==> digits.len() == 1
        }),
{
    reveal_strlit("yclip ");
    reveal_strlit(":");
    numbers_are_spelled_in_decimal(port as nat);
    let command = spec_connect_command(addr, port, None);
    let start = seq!['y', 'c', 'l', 'i', 'p', ' '] + addr + seq![':'];
    assert("yclip "@ + addr + ":"@ =~= start);
    assert(command =~= start + decimal(port as nat));
    assert(command.skip(start.len() as int) =~= decimal(port as nat));
    assert(command.take(start.len() as int) =~= start);
}

/// With a password, whatever it is, the command is the one without, followed by the option and
/// exactly that password.
pub proof fn the_command_ends_in_the_password(addr: Seq<char>, port: u16, password: Seq<char>)
    ensures
        spec_connect_command(addr, port, Some(password)) == spec_connect_command(addr, port, None)
            + seq![' ', '-', 'p', ' '] + password,
{
    reveal_strlit(" -p ");
    let plain = spec_connect_command(addr, port, None);
    assert(" -p "@ =~= seq![' ', '-', 'p', ' ']);
    assert(spec_connect_command(addr, port, Some(password)) =~= plain + seq![' ', '-', 'p', ' ']
        + password);
}

} // verus!
