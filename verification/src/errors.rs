//! The conditions under which a driver operation ends without a result.

use embedded_hal::spi::ErrorKind;
use vstd::prelude::*;
use vstd::string::StringExecFns;

verus! {

/// `embedded_hal::spi::ErrorKind`, the classification a transport gives to a
/// failed transaction. The driver carries it through and never looks inside.
#[verifier::external_type_specification]
#[verifier::external_body]
pub struct ExErrorKind(embedded_hal::spi::ErrorKind);

/// Why an operation on the sensor ended without a result.
#[derive(Debug, Clone, Copy, PartialEq, Eq)]
pub enum As8510Error {
    /// The transport reported a failed transaction.
    Spi(ErrorKind),
    /// The transport answered with data the driver cannot interpret.
    SpiOther,
    /// An address beyond the addressable registers, caught before anything
    /// reached the bus. Carries the offending address.
    IllegalAddress(u8),
    /// The channel holds no conversion that has not been read yet.
    NotReady,
}

/// The text that `ErrorKind`'s derived `Debug` gives for a kind.
pub uninterp spec fn kind_debug(kind: ErrorKind) -> Seq<char>;

/// Formats a kind with `<ErrorKind as core::fmt::Debug>::fmt`. The text
/// depends on the kind alone; nothing else is claimed of it.
#[verifier::external_body]
fn debug_kind(kind: ErrorKind) -> (text: String)
    ensures
        text@ == kind_debug(kind),
{
    format!("{:?}", kind)
}

/// The character of a decimal digit.
pub open spec fn digit(d: int) -> char {
    if d == 0 {
        '0'
    } else if d == 1 {
        '1'
    } else if d == 2 {
        '2'
    } else if d == 3 {
        '3'
    } else if d == 4 {
        '4'
    } else if d == 5 {
        '5'
    } else if d == 6 {
        '6'
    } else if d == 7 {
        '7'
    } else if d == 8 {
        '8'
    } else {
        '9'
    }
}

/// A number in decimal digits, without leading zeros.
pub open spec fn decimal(n: nat) -> Seq<char>
    decreases n,
{
    if n < 10 {
        seq![digit(n as int)]
    } else {
        decimal(n / 10).push(digit((n % 10) as int))
    }
}

/// The text of one decimal digit.
fn digit_text(d: u8) -> (text: &'static str)
    requires
        d < 10,
    ensures
        text@ == seq![digit(d as int)],
{
    proof {
        reveal_strlit("0");
        reveal_strlit("1");
        reveal_strlit("2");
        reveal_strlit("3");
        reveal_strlit("4");
        reveal_strlit("5");
        reveal_strlit("6");
        reveal_strlit("7");
        reveal_strlit("8");
        reveal_strlit("9");
    }
    let text = match d {
        0 => "0",
        1 => "1",
        2 => "2",
        3 => "3",
        4 => "4",
        5 => "5",
        6 => "6",
        7 => "7",
        8 => "8",
        _ => "9",
    };
    assert(text@ =~= seq![digit(d as int)]);
    text
}

/// Appends a byte in decimal to `text`.
fn append_decimal(text: &mut String, n: u8)
    ensures
        final(text)@ == old(text)@ + decimal(n as nat),
{
    if n >= 100 {
        text.append(digit_text(n / 100));
    }
    if n >= 10 {
        text.append(digit_text((n / 10) % 10));
    }
    text.append(digit_text(n % 10));
    proof {
        reveal_with_fuel(decimal, 3);
        let n = n as nat;
        assert(n / 10 / 10 == n / 100);
        assert(text@ =~= old(text)@ + decimal(n));
    }
}

impl As8510Error {
    /// What this error says of itself.
    pub open spec fn message(self) -> Seq<char> {
        match self {
            As8510Error::Spi(kind) => "SPI error "@ + kind_debug(kind) + " "@,
            As8510Error::SpiOther => "Invalid SPIOther data "@,
            As8510Error::NotReady => "Reading not yet available"@,
            As8510Error::IllegalAddress(addr) => "Length error "@ + decimal(addr as nat),
        }
    }

    /// Describes the error in a line of text.
    pub fn to_string(&self) -> (text: String)
        ensures
            text@ == self.message(),
    {
        match self {
            As8510Error::Spi(kind) => {
                let name = debug_kind(*kind);
                String::from_str("SPI error ").concat(name.as_str()).concat(" ")
            },
            As8510Error::SpiOther => String::from_str("Invalid SPIOther data "),
            As8510Error::NotReady => String::from_str("Reading not yet available"),
            As8510Error::IllegalAddress(addr) => {
                let mut text = String::from_str("Length error ");
                append_decimal(&mut text, *addr);
                text
            },
        }
    }
}

impl From<ErrorKind> for As8510Error {
    fn from(kind: ErrorKind) -> (error: Self) {
        As8510Error::Spi(kind)
    }
}

impl vstd::std_specs::convert::FromSpecImpl<ErrorKind> for As8510Error {
    open spec fn obeys_from_spec() -> bool {
        true
    }

    open spec fn from_spec(kind: ErrorKind) -> Self {
        As8510Error::Spi(kind)
    }
}

} // verus!
