//! Decimal rendering of codes and error descriptions.

use vstd::prelude::*;
use vstd::string::StringExecFns;

use crate::DecodeError;
use crate::DecodeKind;
use crate::OtpError;

verus! {

/// The decimal digit character for a value in [0, 9].
pub open spec fn digit_char(d: int) -> char {
    if d == 0 {
        '0'
    } else if d == 1 {
        '1'
    } else if d == 2 {
        '2'
    } else if d == 3 {
        '3'
    } else if d == 4 {
        '4'
    } else if d == 5 {
        '5'
    } else if d == 6 {
        '6'
    } else if d == 7 {
        '7'
    } else if d == 8 {
        '8'
    } else {
        '9'
    }
}

/// The decimal rendering of a non-negative integer, without leading zeros
/// (a single `'0'` for zero).
pub open spec fn dec_digits(n: int) -> Seq<char>
    recommends
        n >= 0,
    decreases n,
{
    if n < 10 {
        seq![digit_char(n)]
    } else {
        dec_digits(n / 10) + seq![digit_char(n % 10)]
    }
}

fn digit_str(d: u64) -> (r: &'static str)
    requires
        d < 10,
    ensures
        r@ == seq![digit_char(d as int)],
{
    proof {
        reveal_strlit("0");
        reveal_strlit("1");
        reveal_strlit("2");
        reveal_strlit("3");
        reveal_strlit("4");
        reveal_strlit("5");
        reveal_strlit("6");
        reveal_strlit("7");
        reveal_strlit("8");
        reveal_strlit("9");
    }
    let r: &'static str = if d == 0 {
        "0"
    } else if d == 1 {
        "1"
    } else if d == 2 {
        "2"
    } else if d == 3 {
        "3"
    } else if d == 4 {
        "4"
    } else if d == 5 {
        "5"
    } else if d == 6 {
        "6"
    } else if d == 7 {
        "7"
    } else if d == 8 {
        "8"
    } else {
        "9"
    };
    proof {
        assert(r@ =~= seq![digit_char(d as int)]);
    }
    r
}

/// The decimal rendering of `n`, matching `dec_digits`.
pub fn dec_string(n: u64) -> (r: String)
    ensures
        r@ == dec_digits(n as int),
    decreases n,
{
    if n < 10 {
        String::from_str(digit_str(n))
    } else {
        let prefix = dec_string(n / 10);
        prefix.concat(digit_str(n % 10))
    }
}

/// The six decimal digits of a code below 1,000,000, most significant first,
/// zero-padded.
pub open spec fn code_digits(code: u32) -> Seq<char>
    recommends
        code < 1_000_000,
{
    seq![
        digit_char((code / 100_000) as int % 10),
        digit_char((code / 10_000) as int % 10),
        digit_char((code / 1_000) as int % 10),
        digit_char((code / 100) as int % 10),
        digit_char((code / 10) as int % 10),
        digit_char(code as int % 10),
    ]
}

/// The zero-padded rendering of a code: always exactly six characters, the
/// decimal digits of the code from most to least significant.
pub fn format_code(code: u32) -> (r: String)
    requires
        code < 1_000_000,
    ensures
        r@ == code_digits(code),
        r@.len() == 6,
{
    let mut s = String::from_str(digit_str(((code / 100_000) % 10) as u64));
    s.append(digit_str(((code / 10_000) % 10) as u64));
    s.append(digit_str(((code / 1_000) % 10) as u64));
    s.append(digit_str(((code / 100) % 10) as u64));
    s.append(digit_str(((code / 10) % 10) as u64));
    s.append(digit_str((code % 10) as u64));
    proof {
        assert(s@ =~= code_digits(code));
    }
    s
}

impl DecodeKind {
    /// The wording `data_encoding` uses for this kind of fault.
    pub open spec fn spec_description(self) -> Seq<char> {
        match self {
            DecodeKind::Length => "invalid length"@,
            DecodeKind::Symbol => "invalid symbol"@,
            DecodeKind::Trailing => "non-zero trailing bits"@,
            DecodeKind::Padding => "invalid padding length"@,
        }
    }

    /// A short description of this kind of fault.
    pub fn description(&self) -> (r: &'static str)
        ensures
            r@ == self.spec_description(),
    {
        match self {
            DecodeKind::Length => "invalid length",
            DecodeKind::Symbol => "invalid symbol",
            DecodeKind::Trailing => "non-zero trailing bits",
            DecodeKind::Padding => "invalid padding length",
        }
    }
}

impl DecodeError {
    /// The description of a decoding fault: its kind, then the input position
    /// at which it was found.
    pub open spec fn spec_message(self) -> Seq<char> {
        self.kind.spec_description() + " at "@ + dec_digits(self.position as int)
    }
}

impl OtpError {
    /// The description of an error: fixed wording for a clock before the
    /// epoch, and for a bad secret the kind of decoding fault and where in
    /// the input it was found.
    pub open spec fn spec_message(self) -> Seq<char> {
        match self {
            OtpError::UnixEpochError => "system time is earlier than the Unix epoch"@,
            OtpError::PrivateKeyError(e) => e.spec_message(),
        }
    }

    /// A human-readable, never empty description of the error; for a decode
    /// error it names the position of the fault.
    pub fn as_str(&self) -> (r: String)
        ensures
            r@ == self.spec_message(),
            r@.len() > 0,
    {
        proof {
            reveal_strlit("system time is earlier than the Unix epoch");
            reveal_strlit(" at ");
        }
        match self {
            OtpError::UnixEpochError => String::from_str(
                "system time is earlier than the Unix epoch",
            ),
            OtpError::PrivateKeyError(e) => {
                proof {
                    reveal_strlit("invalid length");
                    reveal_strlit("invalid symbol");
                    reveal_strlit("non-zero trailing bits");
                    reveal_strlit("invalid padding length");
                }
                let mut s = String::from_str(e.kind.description());
                s.append(" at ");
                let num = dec_string(e.position as u64);
                s.concat(num.as_str())
            },
        }
    }
}

} // verus!
