//! What can go wrong while a received message is decoded.

use vstd::prelude::*;

verus! {

/// Why a read from a byte buffer failed.
#[derive(Clone, Copy, Debug, PartialEq, Eq, Structural)]
pub enum IoFailure {
    /// The buffer ended before the field did.
    UnexpectedEof,
}

/// The ways in which decoding a message fails. Each variant carries the length that made
/// the decoder give up, where there is one.
#[derive(Clone, Copy, Debug, PartialEq, Eq, Structural)]
pub enum IWError {
    /// Fewer bytes than the smallest message; holds the number of bytes seen.
    DataTooShort(usize),
    /// The length in the frame prefix is not the length of the payload; holds the
    /// length that the prefix declares.
    DataLengthMismatch(usize),
    /// The frame does not start with the marker byte.
    InvalidDataHeader,
    /// A record ended early.
    IO(IoFailure),
}

/// The character of a decimal digit.
pub open spec fn spec_digit_char(d: nat) -> char
    recommends
        d < 10,
{
    if d == 0 {
        '0'
    } else if d == 1 {
        '1'
    } else if d == 2 {
        '2'
    } else if d == 3 {
        '3'
    } else if d == 4 {
        '4'
    } else if d == 5 {
        '5'
    } else if d == 6 {
        '6'
    } else if d == 7 {
        '7'
    } else if d == 8 {
        '8'
    } else {
        '9'
    }
}

/// The decimal form of `n`, without leading zeros.
pub open spec fn spec_decimal(n: nat) -> Seq<char>
    decreases n,
{
    if n < 10 {
        seq![spec_digit_char(n)]
    } else {
        spec_decimal(n / 10).push(spec_digit_char(n % 10))
    }
}

impl IoFailure {
    /// The text that describes the failure.
    pub open spec fn spec_message(self) -> Seq<char> {
        "failed to fill whole buffer"@
    }
}

impl IWError {
    /// The text that describes the error.
    pub open spec fn spec_message(self) -> Seq<char> {
        match self {
            IWError::DataTooShort(s) => "Data too short:  '"@ + spec_decimal(s as nat) + "'"@,
            IWError::DataLengthMismatch(s) => "Data length does not match:  '"@ + spec_decimal(
                s as nat,
            ) + "'"@,
            IWError::InvalidDataHeader => "Invalid data header"@,
            IWError::IO(e) => "IO error: '"@ + e.spec_message() + "'"@,
        }
    }

    /// Describes the error in a line for the log.
    pub fn message(&self) -> (text: String)
        ensures
            text@ == self.spec_message(),
    {
        match self {
            IWError::DataTooShort(s) => {
                let mut text = String::from_str("Data too short:  '");
                push_decimal(&mut text, *s);
                text.append("'");
                text
            },
            IWError::DataLengthMismatch(s) => {
                let mut text = String::from_str("Data length does not match:  '");
                push_decimal(&mut text, *s);
                text.append("'");
                text
            },
            IWError::InvalidDataHeader => String::from_str("Invalid data header"),
            IWError::IO(_) => {
                let mut text = String::from_str("IO error: '");
                text.append("failed to fill whole buffer");
                text.append("'");
                text
            },
        }
    }
}

/// One decimal digit as a string.
fn digit_str(d: usize) -> (s: &'static str)
    requires
        d < 10,
    ensures
        s@ == seq![spec_digit_char(d as nat)],
{
    proof {
        reveal_strlit("0");
        reveal_strlit("1");
        reveal_strlit("2");
        reveal_strlit("3");
        reveal_strlit("4");
        reveal_strlit("5");
        reveal_strlit("6");
        reveal_strlit("7");
        reveal_strlit("8");
        reveal_strlit("9");
    }
    let s = if d == 0 {
        "0"
    } else if d == 1 {
        "1"
    } else if d == 2 {
        "2"
    } else if d == 3 {
        "3"
    } else if d == 4 {
        "4"
    } else if d == 5 {
        "5"
    } else if d == 6 {
        "6"
    } else if d == 7 {
        "7"
    } else if d == 8 {
        "8"
    } else {
        "9"
    };
    assert(s@ =~= seq![spec_digit_char(d as nat)]);
    s
}

/// Appends the decimal form of `n` to `text`.
pub(crate) fn push_decimal(text: &mut String, n: usize)
    ensures
        final(text)@ == old(text)@ + spec_decimal(n as nat),
    decreases n,
{
    if n >= 10 {
        push_decimal(text, n / 10);
    }
    text.append(digit_str(n % 10));
    assert(final(text)@ =~= old(text)@ + spec_decimal(n as nat));
}

} // verus!
