//! What the service is started with: the port it listens on, the largest
//! request it takes, and the line it answers a status request with.

use vstd::prelude::*;
use crate::text::{chars_of, opt_str_view};

verus! {

/// The port that is served where none is asked for.
pub const DEFAULT_PORT: u16 = 8080;

/// The largest request that is accepted, in bytes: one gibibyte.
pub const MAX_REQUEST_BYTES: u64 = 0x4000_0000;

/// The body of the answer to a status request.
pub const STATUS_LINE: &'static str = "super-simple-upload running...";

/// Why a port could not be told from its text.
#[derive(Debug, Clone, Copy, PartialEq, Eq, Structural)]
pub enum PortError {
    /// The text is not a decimal number from 0 to 65535.
    Invalid,
}

/// Whether `c` is a decimal digit.
pub open spec fn is_digit(c: char) -> bool {
    '0' <= c <= '9'
}

/// Whether `s` holds decimal digits only.
pub open spec fn all_digits(s: Seq<char>) -> bool {
    forall|i: int| 0 <= i < s.len() ==> is_digit(#[trigger] s[i])
}

/// The number that the decimal digits `digits` stand for.
pub open spec fn decimal_value(digits: Seq<char>) -> nat
    decreases digits.len(),
{
    if digits.len() == 0 {
        0
    } else {
        (10 * decimal_value(digits.drop_last()) + (digits.last() as int - '0' as int)) as nat
    }
}

/// `s` without the `+` that it may start with.
pub open spec fn without_sign(s: Seq<char>) -> Seq<char> {
    if s.len() > 0 && s[0] == '+' {
        s.skip(1)
    } else {
        s
    }
}

/// The port that `s` stands for: `s` is one or more decimal digits, with or
/// without a `+` in front of them and nothing else around them, and their
/// number is a port.
pub open spec fn parsed_port(s: Seq<char>) -> Option<u16> {
    let digits = without_sign(s);
    if digits.len() > 0 && all_digits(digits) && decimal_value(digits) <= u16::MAX {
        Some(decimal_value(digits) as u16)
    } else {
        None
    }
}

/// The port to serve where `value` is what was asked for: the default where
/// nothing was asked for, and else the port that the text stands for.
pub open spec fn port_for(value: Option<Seq<char>>) -> Option<u16> {
    match value {
        Some(s) => parsed_port(s),
        None => Some(DEFAULT_PORT),
    }
}

/// More digits never make a number smaller.
pub proof fn decimal_value_grows(digits: Seq<char>, n: int)
    requires
        all_digits(digits),
        0 <= n <= digits.len(),
    ensures
        decimal_value(digits.take(n)) <= decimal_value(digits),
    decreases digits.len() - n,
{
    if n < digits.len() {
        decimal_value_grows(digits, n + 1);
        assert(digits.take(n + 1).drop_last() == digits.take(n));
    } else {
        assert(digits.take(n) == digits);
    }
}

/// Tells a port from its text.
pub fn parse_port(text: &str) -> (r: Result<u16, PortError>)
    ensures
        match r {
            Ok(port) => parsed_port(text@) == Some(port),
            Err(e) => e == PortError::Invalid && parsed_port(text@) is None,
        },
{
    let chars = chars_of(text);
    let start: usize = if chars.len() > 0 && chars[0] == '+' {
        1
    } else {
        0
    };
    let ghost digits = without_sign(text@);
    if start == chars.len() {
        return Err(PortError::Invalid);
    }
    let mut value: u32 = 0;
    let mut i: usize = start;
    while i < chars.len()
        invariant
            start <= i <= chars.len(),
            chars@ == text@,
            digits == without_sign(text@),
            digits == chars@.skip(start as int),
            all_digits(digits.take(i - start)),
            value == decimal_value(digits.take(i - start)),
            value <= u16::MAX,
        decreases chars.len() - i,
    {
        let c = chars[i];
        let ghost upto = digits.take(i - start + 1);
        proof {
            assert(upto.drop_last() == digits.take(i - start));
        }
        if c < '0' || c > '9' {
            assert(!is_digit(digits[i - start]));
            return Err(PortError::Invalid);
        }
        let digit = c as u32 - '0' as u32;
        value = value * 10 + digit;
        if value > 0xFFFF {
            proof {
                if all_digits(digits) {
                    decimal_value_grows(digits, i - start + 1);
                }
            }
            return Err(PortError::Invalid);
        }
        i = i + 1;
    }
    assert(digits.take(i - start) == digits);
    Ok(value as u16)
}

/// The port to serve where `value` is what was asked for, if anything was.
pub fn port_from(value: Option<&str>) -> (r: Result<u16, PortError>)
    ensures
        match r {
            Ok(port) => port_for(opt_str_view(value)) == Some(port),
            Err(e) => e == PortError::Invalid && port_for(opt_str_view(value)) is None,
        },
{
    match value {
        Some(text) => parse_port(text),
        None => Ok(DEFAULT_PORT),
    }
}

} // verus!
