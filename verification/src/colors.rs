//! Color literals and their inversion.
//!
//! A color literal is the text of a `fill` or `stroke` value. Inverting it
//! means reading it as four 8-bit channels, complementing red, green and blue,
//! leaving alpha alone and printing the result as `#RRGGBBAA`. The literal
//! `currentColor` names no color of its own and is handed back untouched.
//!
//! Reading a literal is the work of the `csscolorparser` crate. Everything
//! after the parse is verified here.

use vstd::prelude::*;

verus! {

/// A color value: red, green, blue and alpha, each from 0 to 255.
#[derive(Clone, Copy, Debug, PartialEq, Eq, Structural)]
pub struct Rgba {
    pub r: u8,
    pub g: u8,
    pub b: u8,
    pub a: u8,
}

/// Why a literal could not be inverted.
#[derive(Clone, Copy, Debug, PartialEq, Eq, Structural)]
pub enum ColorError {
    /// The literal is not a color that the parser knows.
    Unparseable,
}

/// The literal that stands for the inherited color.
pub open spec fn current_color() -> Seq<char> {
    "currentColor"@
}

/// The upper-case hexadecimal digit of a value below sixteen.
pub open spec fn hex_digit(n: int) -> char {
    if n == 0 {
        '0'
    } else if n == 1 {
        '1'
    } else if n == 2 {
        '2'
    } else if n == 3 {
        '3'
    } else if n == 4 {
        '4'
    } else if n == 5 {
        '5'
    } else if n == 6 {
        '6'
    } else if n == 7 {
        '7'
    } else if n == 8 {
        '8'
    } else if n == 9 {
        '9'
    } else if n == 10 {
        'A'
    } else if n == 11 {
        'B'
    } else if n == 12 {
        'C'
    } else if n == 13 {
        'D'
    } else if n == 14 {
        'E'
    } else {
        'F'
    }
}

/// The canonical literal of a color value: `#`, then two upper-case
/// hexadecimal digits for each of red, green, blue and alpha.
pub open spec fn hex_literal(value: Rgba) -> Seq<char> {
    seq![
        '#',
        hex_digit(value.r as int / 16),
        hex_digit(value.r as int % 16),
        hex_digit(value.g as int / 16),
        hex_digit(value.g as int % 16),
        hex_digit(value.b as int / 16),
        hex_digit(value.b as int % 16),
        hex_digit(value.a as int / 16),
        hex_digit(value.a as int % 16),
    ]
}

/// Whether `literal` is the canonical literal of some color value.
pub open spec fn is_hex_literal(literal: Seq<char>) -> bool {
    exists|value: Rgba| literal == #[trigger] hex_literal(value)
}

/// What `csscolorparser::parse`, followed by `Color::to_rgba8`, makes of a
/// literal: the four channels, or `None` where the parse fails.
pub uninterp spec fn css_rgba8(literal: Seq<char>) -> Option<Rgba>;

/// The color value that a literal denotes, if it denotes one.
///
/// `currentColor` denotes none: it asks for the color in force around the
/// element. A canonical literal denotes the value it was printed from. Any
/// other literal denotes what the CSS parser reads in it.
pub open spec fn color_value(literal: Seq<char>) -> Option<Rgba> {
    if literal == current_color() {
        None
    } else if is_hex_literal(literal) {
        Some(choose|value: Rgba| literal == #[trigger] hex_literal(value))
    } else {
        css_rgba8(literal)
    }
}

/// The literal that inversion puts in the place of `literal`, or `None` where
/// `literal` cannot be inverted.
pub open spec fn inverted_literal(literal: Seq<char>) -> Option<Seq<char>> {
    if literal == current_color() {
        Some(literal)
    } else {
        match color_value(literal) {
            Some(value) => Some(hex_literal(value.complement())),
            None => None,
        }
    }
}

impl Rgba {
    /// The value with red, green and blue complemented and alpha kept.
    pub open spec fn complement(self) -> Rgba {
        Rgba {
            r: (255 - self.r) as u8,
            g: (255 - self.g) as u8,
            b: (255 - self.b) as u8,
            a: self.a,
        }
    }

    /// Complements red, green and blue; alpha passes through.
    pub fn inverted(self) -> (out: Rgba)
        ensures
            out == self.complement(),
    {
        Rgba { r: 255 - self.r, g: 255 - self.g, b: 255 - self.b, a: self.a }
    }

    /// Prints the value as `#RRGGBBAA`.
    pub fn to_hex_literal(self) -> (literal: String)
        ensures
            literal@ == hex_literal(self),
    {
        let mut literal = String::new();
        literal.push('#');
        push_hex_pair(&mut literal, self.r);
        push_hex_pair(&mut literal, self.g);
        push_hex_pair(&mut literal, self.b);
        push_hex_pair(&mut literal, self.a);
        assert(literal@ =~= hex_literal(self));
        literal
    }
}

/// `String::push` of std: the character is appended, nothing else changes.
pub assume_specification[ String::push ](text: &mut String, ch: char)
    ensures
        final(text)@ == old(text)@.push(ch),
;

/// `str::eq` of std: two string slices are equal when they hold the same
/// characters in the same order.
pub assume_specification[ <str as PartialEq>::eq ](left: &str, right: &str) -> (same: bool)
    ensures
        same == (left@ == right@),
;

fn hex_digit_char(n: u8) -> (digit: char)
    requires
        n < 16,
    ensures
        digit == hex_digit(n as int),
{
    match n {
        0 => '0',
        1 => '1',
        2 => '2',
        3 => '3',
        4 => '4',
        5 => '5',
        6 => '6',
        7 => '7',
        8 => '8',
        9 => '9',
        10 => 'A',
        11 => 'B',
        12 => 'C',
        13 => 'D',
        14 => 'E',
        _ => 'F',
    }
}

fn push_hex_pair(text: &mut String, byte: u8)
    ensures
        final(text)@ == old(text)@.push(hex_digit(byte as int / 16)).push(
            hex_digit(byte as int % 16),
        ),
{
    text.push(hex_digit_char(byte / 16));
    text.push(hex_digit_char(byte % 16));
}

/// `csscolorparser::ParseColorError`: why the parser refused a literal.
#[verifier::external_type_specification]
#[verifier::external_body]
pub struct ExParseColorError(csscolorparser::ParseColorError);

/// The color value in an answer of the parser, if it gave one.
pub open spec fn value_read(parsed: Result<Rgba, csscolorparser::ParseColorError>) -> Option<Rgba> {
    match parsed {
        Ok(value) => Some(value),
        Err(_) => None,
    }
}

/// Reads a literal with `csscolorparser::parse` and takes the channels of the
/// color with `Color::to_rgba8`.
///
/// Trusted: the parser reads nothing but the literal, so its answer is
/// `css_rgba8` of the literal; and it reads `#` followed by eight upper-case
/// hexadecimal digits as the four bytes that the digits spell.
#[verifier::external_body]
fn parse_rgba8(literal: &str) -> (parsed: Result<Rgba, csscolorparser::ParseColorError>)
    ensures
        value_read(parsed) == css_rgba8(literal@),
        forall|value: Rgba| literal@ == hex_literal(value) ==> value_read(parsed) == Some(value),
{
    match csscolorparser::parse(literal) {
        Ok(color) => {
            let [r, g, b, a] = color.to_rgba8();
            Ok(Rgba { r, g, b, a })
        },
        Err(error) => Err(error),
    }
}

/// Reads the color value of a literal that is not `currentColor`.
fn parse_other(literal: &str) -> (value: Option<Rgba>)
    requires
        literal@ != current_color(),
    ensures
        value == color_value(literal@),
{
    match parse_rgba8(literal) {
        Ok(value) => {
            proof {
                if is_hex_literal(literal@) {
                    lemma_hex_literal_is_injective(
                        value,
                        choose|other: Rgba| literal@ == #[trigger] hex_literal(other),
                    );
                }
            }
            Some(value)
        },
        Err(_) => None,
    }
}

/// Reads the color value of a literal. `currentColor` has none.
pub fn parse_color(literal: &str) -> (value: Option<Rgba>)
    ensures
        value == color_value(literal@),
{
    if literal.eq("currentColor") {
        None
    } else {
        parse_other(literal)
    }
}

/// Inverts a parsed color: the canonical literal of the complement, or the
/// error where the parse had failed.
pub fn invert_parsed(parsed: Option<Rgba>) -> (result: Result<String, ColorError>)
    ensures
        match (parsed, result) {
            (Some(value), Ok(literal)) => literal@ == hex_literal(value.complement()),
            (None, Err(error)) => error == ColorError::Unparseable,
            _ => false,
        },
{
    match parsed {
        Some(value) => Ok(value.inverted().to_hex_literal()),
        None => Err(ColorError::Unparseable),
    }
}

/// Inverts a color literal.
///
/// `currentColor` comes back unchanged. Any other literal that denotes a color
/// value comes back as the canonical literal of the complement. A literal that
/// denotes none is refused with `ColorError::Unparseable`.
pub fn invert_color(color: &str) -> (result: Result<String, ColorError>)
    ensures
        match result {
            Ok(literal) => inverted_literal(color@) == Some(literal@),
            Err(error) => inverted_literal(color@) is None && error == ColorError::Unparseable,
        },
{
    if color.eq("currentColor") {
        return Ok(color.to_owned());
    }
    invert_parsed(parse_other(color))
}

/// Whether an attribute of this local name carries a color.
pub open spec fn color_bearing(local_name: Seq<char>) -> bool {
    local_name == "fill"@ || local_name == "stroke"@
}

/// Tells whether an attribute carries a color: its local name is `fill` or
/// `stroke`.
pub fn is_color_attribute(name: &str) -> (yes: bool)
    ensures
        yes == color_bearing(name@),
{
    name.eq("fill") || name.eq("stroke")
}

/// Two color values with the same canonical literal are the same value.
pub proof fn lemma_hex_literal_is_injective(first: Rgba, second: Rgba)
    requires
        hex_literal(first) == hex_literal(second),
    ensures
        first == second,
{
    let one = hex_literal(first);
    let two = hex_literal(second);
    assert(one[1] == two[1] && one[2] == two[2]);
    assert(one[3] == two[3] && one[4] == two[4]);
    assert(one[5] == two[5] && one[6] == two[6]);
    assert(one[7] == two[7] && one[8] == two[8]);
}

/// The canonical literal of a value denotes that value.
pub proof fn lemma_hex_literal_denotes_its_value(value: Rgba)
    ensures
        hex_literal(value) != current_color(),
        color_value(hex_literal(value)) == Some(value),
{
    reveal_strlit("currentColor");
    assert(hex_literal(value).len() == 9);
    assert(current_color().len() == 12);
    lemma_hex_literal_is_injective(
        value,
        choose|other: Rgba| hex_literal(value) == #[trigger] hex_literal(other),
    );
}

/// `currentColor` is its own inversion.
pub proof fn lemma_current_color_is_kept()
    ensures
        inverted_literal(current_color()) == Some(current_color()),
{
}

/// Inversion complements the channels: a literal that denotes a color value
/// is inverted to a literal that denotes the complement of that value. Red,
/// green and blue become 255 minus themselves, and alpha is unchanged.
pub proof fn lemma_inversion_complements(literal: Seq<char>, value: Rgba)
    requires
        color_value(literal) == Some(value),
    ensures
        inverted_literal(literal) matches Some(inverse) && color_value(inverse) == Some(
            value.complement(),
        ),
        value.complement().r == 255 - value.r,
        value.complement().g == 255 - value.g,
        value.complement().b == 255 - value.b,
        value.complement().a == value.a,
{
    lemma_hex_literal_denotes_its_value(value.complement());
}

/// On a canonical literal, inverting twice gives the literal back.
pub proof fn lemma_double_inversion_of_canonical(value: Rgba)
    ensures
        inverted_literal(hex_literal(value)) matches Some(once) && inverted_literal(once) == Some(
            hex_literal(value),
        ),
{
    lemma_hex_literal_denotes_its_value(value);
    lemma_hex_literal_denotes_its_value(value.complement());
    assert(value.complement().complement() == value);
}

} // verus!
