//! 24 bit colours.

use vstd::prelude::*;

use crate::error::{Error, Result};
use crate::text::{
    digit_char, digit_value, hex_digit, hex_value, owned, trim, trimmed, trimmed_back,
    trimmed_front,
};

verus! {

/// A 24 bit colour.
///
/// Written `"#rrggbb"`.
#[derive(Debug, Clone, Copy, PartialEq, Eq, Hash, Structural)]
pub struct Colour {
    /// The red channel.
    pub r: u8,
    /// The green channel.
    pub g: u8,
    /// The blue channel.
    pub b: u8,
}

impl Default for Colour {
    fn default() -> (r: Self)
        ensures
            r == (Colour { r: 0, g: 0, b: 0 }),
    {
        Colour { r: 0, g: 0, b: 0 }
    }
}

/// A text without the `#` in front.
pub open spec fn without_hash(s: Seq<char>) -> Seq<char> {
    if s.len() > 0 && s[0] == '#' {
        s.skip(1)
    } else {
        s
    }
}

/// A channel written as two hexadecimal digits.
pub open spec fn wide_channel(high: char, low: char) -> Option<int> {
    match (hex_value(high), hex_value(low)) {
        (Some(h), Some(l)) => Some(16 * h + l),
        _ => None,
    }
}

/// A channel written as one hexadecimal digit, which counts twice.
pub open spec fn narrow_channel(digit: char) -> Option<int> {
    match hex_value(digit) {
        Some(d) => Some(17 * d),
        None => None,
    }
}

/// The colour of three channels, when all of them are there.
pub open spec fn of_channels(r: Option<int>, g: Option<int>, b: Option<int>) -> Option<Colour> {
    match (r, g, b) {
        (Some(r), Some(g), Some(b)) => Some(Colour { r: r as u8, g: g as u8, b: b as u8 }),
        _ => None,
    }
}

/// The colour a text stands for: six digits, or three, with or without a `#` in
/// front and white space around it.
pub open spec fn colour_of(text: Seq<char>) -> Option<Colour> {
    let digits = without_hash(trimmed(text));
    if digits.len() == 6 {
        of_channels(
            wide_channel(digits[0], digits[1]),
            wide_channel(digits[2], digits[3]),
            wide_channel(digits[4], digits[5]),
        )
    } else if digits.len() == 3 {
        of_channels(
            narrow_channel(digits[0]),
            narrow_channel(digits[1]),
            narrow_channel(digits[2]),
        )
    } else {
        None
    }
}

fn read_wide(high: char, low: char) -> (r: Option<u8>)
    ensures
        match r {
            Some(value) => wide_channel(high, low) == Some(value as int),
            None => wide_channel(high, low) is None,
        },
{
    match (digit_value(high), digit_value(low)) {
        (Some(h), Some(l)) => Some(16 * h + l),
        _ => None,
    }
}

fn read_narrow(digit: char) -> (r: Option<u8>)
    ensures
        match r {
            Some(value) => narrow_channel(digit) == Some(value as int),
            None => narrow_channel(digit) is None,
        },
{
    match digit_value(digit) {
        Some(d) => Some(17 * d),
        None => None,
    }
}

fn assemble(r: Option<u8>, g: Option<u8>, b: Option<u8>) -> (c: Option<Colour>)
    ensures
        c == match (r, g, b) {
            (Some(r), Some(g), Some(b)) => Some(Colour { r, g, b }),
            _ => None,
        },
{
    match (r, g, b) {
        (Some(r), Some(g), Some(b)) => Some(Colour { r, g, b }),
        _ => None,
    }
}

impl Colour {
    /// A colour from its three channels.
    #[must_use]
    #[verifier::allow_in_spec]
    pub fn new(r: u8, g: u8, b: u8) -> Self
        returns
            (Colour { r, g, b }),
    {
        Colour { r, g, b }
    }

    /// A colour from a Win32 `COLORREF`, which stores blue in the high byte.
    #[must_use]
    #[verifier::allow_in_spec]
    pub fn from_colorref(value: u32) -> Self
        returns
            (Colour {
                r: (value % 256) as u8,
                g: (value / 256 % 256) as u8,
                b: (value / 65536 % 256) as u8,
            }),
    {
        Colour {
            r: (value % 256) as u8,
            g: (value / 256 % 256) as u8,
            b: (value / 65536 % 256) as u8,
        }
    }

    /// The Win32 `COLORREF` for this colour.
    #[must_use]
    #[verifier::allow_in_spec]
    pub fn to_colorref(self) -> u32
        returns
            ((self.b * 65536 + self.g * 256 + self.r) as u32),
    {
        self.b as u32 * 65536 + self.g as u32 * 256 + self.r as u32
    }

    /// The colour as `0xRRGGBB`.
    #[must_use]
    #[verifier::allow_in_spec]
    pub fn to_rgb(self) -> u32
        returns
            ((self.r * 65536 + self.g * 256 + self.b) as u32),
    {
        self.r as u32 * 65536 + self.g as u32 * 256 + self.b as u32
    }

    /// The colour as `#rrggbb`.
    pub open spec fn hex(self) -> Seq<char> {
        seq![
            '#',
            hex_digit(self.r as int / 16),
            hex_digit(self.r as int % 16),
            hex_digit(self.g as int / 16),
            hex_digit(self.g as int % 16),
            hex_digit(self.b as int / 16),
            hex_digit(self.b as int % 16),
        ]
    }

    /// The colour as `#rrggbb`.
    #[must_use]
    pub fn to_hex(self) -> (text: String)
        ensures
            text@ == self.hex(),
    {
        let mut text = String::new();
        text.push('#');
        text.push(digit_char(self.r / 16));
        text.push(digit_char(self.r % 16));
        text.push(digit_char(self.g / 16));
        text.push(digit_char(self.g % 16));
        text.push(digit_char(self.b / 16));
        text.push(digit_char(self.b % 16));
        assert(text@ =~= self.hex());
        text
    }

    /// The colour as `#rrggbb`.
    #[must_use]
    pub fn to_string(&self) -> (text: String)
        ensures
            text@ == self.hex(),
    {
        self.to_hex()
    }

    /// Parses `#rrggbb`, `rrggbb`, `#rgb` or `rgb`, with white space around it
    /// or without.
    ///
    /// # Errors
    ///
    /// Returns [`Error::Parse`] for anything else.
    pub fn parse(text: &str) -> (r: Result<Self>)
        ensures
            match r {
                Ok(colour) => colour_of(text@) == Some(colour),
                Err(e) => colour_of(text@) is None && e.is_parse("colour"@, text@),
            },
    {
        let mut digits = trim(text);
        if digits.len() > 0 && digits[0] == '#' {
            digits.remove(0);
        }
        assert(digits@ =~= without_hash(trimmed(text@)));
        let colour = if digits.len() == 6 {
            assemble(
                read_wide(digits[0], digits[1]),
                read_wide(digits[2], digits[3]),
                read_wide(digits[4], digits[5]),
            )
        } else if digits.len() == 3 {
            assemble(read_narrow(digits[0]), read_narrow(digits[1]), read_narrow(digits[2]))
        } else {
            None
        };
        match colour {
            Some(colour) => Ok(colour),
            None => Err(Error::Parse { kind: "colour", value: owned(text) }),
        }
    }
}

impl std::str::FromStr for Colour {
    type Err = Error;

    fn from_str(s: &str) -> (r: Result<Self>)
        ensures
            match r {
                Ok(colour) => colour_of(s@) == Some(colour),
                Err(e) => colour_of(s@) is None && e.is_parse("colour"@, s@),
            },
    {
        Colour::parse(s)
    }
}

/// The ways a configuration file may spell a colour.
#[derive(Debug, Clone, PartialEq, Eq)]
pub enum ColourRepr {
    /// As `"#rrggbb"`.
    Hex(String),
    /// As its three channels.
    Channels {
        /// The red channel.
        r: u8,
        /// The green channel.
        g: u8,
        /// The blue channel.
        b: u8,
    },
    /// As a Win32 `COLORREF`.
    ColorRef(u32),
}

impl ColourRepr {
    /// The colour this spelling stands for.
    pub open spec fn meaning(self) -> Option<Colour> {
        match self {
            ColourRepr::Hex(text) => colour_of(text@),
            ColourRepr::Channels { r, g, b } => Some(Colour { r, g, b }),
            ColourRepr::ColorRef(raw) => Some(Colour::from_colorref(raw)),
        }
    }

    /// The colour this spelling stands for.
    ///
    /// # Errors
    ///
    /// Returns [`Error::Parse`] for a text that is not a colour.
    pub fn colour(&self) -> (r: Result<Colour>)
        ensures
            match r {
                Ok(colour) => self.meaning() == Some(colour),
                Err(e) => {
                    &&& self.meaning() is None
                    &&& self matches ColourRepr::Hex(text) && e.is_parse("colour"@, text@)
                },
            },
    {
        match self {
            ColourRepr::Hex(text) => Colour::parse(text.as_str()),
            ColourRepr::Channels { r, g, b } => Ok(Colour::new(*r, *g, *b)),
            ColourRepr::ColorRef(raw) => Ok(Colour::from_colorref(*raw)),
        }
    }
}

/// A colour comes back from its `COLORREF`.
pub proof fn a_colorref_holds_the_colour(colour: Colour)
    ensures
        Colour::from_colorref(colour.to_colorref()) == colour,
{
}

/// A colour comes back from its text.
pub proof fn a_text_holds_the_colour(colour: Colour)
    ensures
        colour_of(colour.hex()) == Some(colour),
{
    let text = colour.hex();
    let digits = text.skip(1);
    assert(trimmed_front(text) == text);
    assert(text.last() == hex_digit(colour.b as int % 16));
    assert(trimmed_back(text) == text);
    assert(without_hash(text) == digits);
    let r = colour.r as int;
    let g = colour.g as int;
    let b = colour.b as int;
    assert(16 * (r / 16) + r % 16 == r);
    assert(16 * (g / 16) + g % 16 == g);
    assert(16 * (b / 16) + b % 16 == b);
    assert forall|d: int| 0 <= d < 16 implies hex_value(#[trigger] hex_digit(d)) == Some(d) by {}
}

} // verus!
