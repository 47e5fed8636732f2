//! Color requests and the escape parameters they stand for.
use vstd::prelude::*;
use crate::decimal::{decimal, push_decimal};
use crate::escape::{escape, join, lemma_reset_chars, reset, reset_params, token_views};
use crate::hex::{
    all_hex_digits, blue, channels, expand_shorthand, green, hex_digit, hex_digit_value,
    hex_number, hex_value, red, rgb_of, sixteen_to, strip_hash, without_hash, HexError,
};

verus! {

/// A color request for one channel.
#[derive(Debug)]
pub enum COLORS {
    Black,
    Red,
    Green,
    Yellow,
    Blue,
    Magenta,
    Cyan,
    White,
    Default,
    /// No color for this channel.
    Unset,
    /// A 24-bit color in hex notation, such as `#fff` or `ab1346`.
    HEX(String),
}

/// What a color request says, apart from how it is stored.
pub enum ColorValue {
    /// A palette color, by its ANSI digit: `0` to `7` for black to white, `9`
    /// for the terminal's default.
    Palette(char),
    /// A hex color string, as it was given.
    Hex(Seq<char>),
    /// No color for this channel.
    Unset,
}

impl View for COLORS {
    type V = ColorValue;

    open spec fn view(&self) -> ColorValue {
        match self {
            COLORS::Black => ColorValue::Palette('0'),
            COLORS::Red => ColorValue::Palette('1'),
            COLORS::Green => ColorValue::Palette('2'),
            COLORS::Yellow => ColorValue::Palette('3'),
            COLORS::Blue => ColorValue::Palette('4'),
            COLORS::Magenta => ColorValue::Palette('5'),
            COLORS::Cyan => ColorValue::Palette('6'),
            COLORS::White => ColorValue::Palette('7'),
            COLORS::Default => ColorValue::Palette('9'),
            COLORS::Unset => ColorValue::Unset,
            COLORS::HEX(hex) => ColorValue::Hex(hex@),
        }
    }
}

/// A foreground and a background color request.
pub struct Color {
    fg: COLORS,
    bg: COLORS,
}

/// What a `Color` says: the two requests.
pub struct ColorPair {
    pub fg: ColorValue,
    pub bg: ColorValue,
}

impl View for Color {
    type V = ColorPair;

    closed spec fn view(&self) -> ColorPair {
        ColorPair { fg: self.fg@, bg: self.bg@ }
    }
}

/// The true-color code of a 24-bit value: `8;2;R;G;B`, each channel in
/// decimal without padding.
pub open spec fn truecolor_code(value: nat) -> Seq<char> {
    seq!['8', ';', '2', ';'] + decimal(red(value) as nat) + seq![';'] + decimal(
        green(value) as nat,
    ) + seq![';'] + decimal(blue(value) as nat)
}

/// What follows the channel digit in a request's parameter: the palette
/// digit, the true-color code, or nothing where no color is set.
pub open spec fn color_code(color: ColorValue) -> Result<Seq<char>, HexError> {
    match color {
        ColorValue::Palette(digit) => Ok(seq![digit]),
        ColorValue::Hex(hex) => match hex_value(hex) {
            Ok(value) => Ok(truecolor_code(value)),
            Err(e) => Err(e),
        },
        ColorValue::Unset => Ok(Seq::empty()),
    }
}

/// The parameter of one channel: `channel` is `'3'` for the foreground and
/// `'4'` for the background. Where no color is set it is empty.
pub open spec fn channel_token(channel: char, color: ColorValue) -> Result<Seq<char>, HexError> {
    match color_code(color) {
        Ok(code) => if code.len() == 0 {
            Ok(code)
        } else {
            Ok(seq![channel] + code)
        },
        Err(e) => Err(e),
    }
}

/// The foreground parameter of a request.
pub open spec fn foreground_token(color: ColorValue) -> Result<Seq<char>, HexError> {
    channel_token('3', color)
}

/// The background parameter of a request.
pub open spec fn background_token(color: ColorValue) -> Result<Seq<char>, HexError> {
    channel_token('4', color)
}

/// A list of the one token, or of none where the token is empty.
pub open spec fn nonempty(token: Seq<char>) -> Seq<Seq<char>> {
    if token.len() == 0 {
        Seq::empty()
    } else {
        seq![token]
    }
}

/// The parameters of a pair: the foreground's, then the background's, each
/// only where a color is set. A foreground that is rejected is reported
/// before the background is looked at.
pub open spec fn param_list(pair: ColorPair) -> Result<Seq<Seq<char>>, HexError> {
    match foreground_token(pair.fg) {
        Err(e) => Err(e),
        Ok(fg) => match background_token(pair.bg) {
            Err(e) => Err(e),
            Ok(bg) => Ok(nonempty(fg) + nonempty(bg)),
        },
    }
}

/// The escape sequence that sets the colors of a pair.
pub open spec fn setting(pair: ColorPair) -> Result<Seq<char>, HexError> {
    match param_list(pair) {
        Ok(params) => Ok(escape(params)),
        Err(e) => Err(e),
    }
}

/// A message in the colors of a pair: the escape sequence that sets them,
/// the message, and the reset sequence.
pub open spec fn colored(pair: ColorPair, message: Seq<char>) -> Result<Seq<char>, HexError> {
    match setting(pair) {
        Ok(start) => Ok(start + message + reset()),
        Err(e) => Err(e),
    }
}

/// Printing with palette colors: the foreground parameter is `3` and the
/// color's digit, the background parameter `4` and the color's digit, joined
/// by one `;`. A channel with no color set leaves no trace, not even a `;`.
/// The text follows, then the reset sequence.
pub proof fn lemma_palette_print(pair: ColorPair, text: Seq<char>)
    requires
        !(pair.fg is Hex),
        !(pair.bg is Hex),
    ensures
        pair.fg is Palette && pair.bg is Palette ==> colored(pair, text) == Ok::<Seq<char>, HexError>(
            seq!['\x1b', '[', '3', pair.fg->Palette_0, ';', '4', pair.bg->Palette_0, 'm'] + text
                + seq!['\x1b', '[', '3', '9', ';', '4', '9', 'm'],
        ),
        pair.fg is Palette && pair.bg is Unset ==> colored(pair, text) == Ok::<Seq<char>, HexError>(
            seq!['\x1b', '[', '3', pair.fg->Palette_0, 'm'] + text
                + seq!['\x1b', '[', '3', '9', ';', '4', '9', 'm'],
        ),
        pair.fg is Unset && pair.bg is Palette ==> colored(pair, text) == Ok::<Seq<char>, HexError>(
            seq!['\x1b', '[', '4', pair.bg->Palette_0, 'm'] + text
                + seq!['\x1b', '[', '3', '9', ';', '4', '9', 'm'],
        ),
        pair.fg is Unset && pair.bg is Unset ==> colored(pair, text) == Ok::<Seq<char>, HexError>(
            seq!['\x1b', '[', 'm'] + text + seq!['\x1b', '[', '3', '9', ';', '4', '9', 'm'],
        ),
{
    lemma_reset_chars();
    reveal_with_fuel(join, 3);
    let params = param_list(pair)->Ok_0;
    if pair.fg is Palette && pair.bg is Palette {
        assert(escape(params) =~= seq![
            '\x1b', '[', '3', pair.fg->Palette_0, ';', '4', pair.bg->Palette_0, 'm',
        ]);
    } else if pair.fg is Palette {
        assert(escape(params) =~= seq!['\x1b', '[', '3', pair.fg->Palette_0, 'm']);
    } else if pair.bg is Palette {
        assert(escape(params) =~= seq!['\x1b', '[', '4', pair.bg->Palette_0, 'm']);
    } else {
        assert(escape(params) =~= seq!['\x1b', '[', 'm']);
    }
}

/// The red, green and blue channels of a hex color string, each from 0 to
/// 255, or the reason the string is rejected.
pub fn hex_to_rgb(hex: &str) -> (r: Result<(u8, u8, u8), HexError>)
    ensures
        r == rgb_of(hex@),
{
    match Color::string_to_hexdec(hex) {
        Ok(value) => Ok(channels(value)),
        Err(e) => Err(e),
    }
}

impl Color {
    /// Pairs a foreground with a background request.
    pub fn new(fg: COLORS, bg: COLORS) -> (color: Self)
        ensures
            color@ == (ColorPair { fg: fg@, bg: bg@ }),
    {
        Color { fg, bg }
    }

    /// Colors `message`: the escape sequence of the pair, the message, and
    /// the reset sequence. No builder is needed for this.
    pub fn print(&self, message: String) -> (r: Result<String, HexError>)
        ensures
            r matches Ok(out) ==> colored(self@, message@) == Ok::<Seq<char>, HexError>(out@),
            r matches Err(e) ==> colored(self@, message@) == Err::<Seq<char>, HexError>(e),
    {
        match self.set() {
            Ok(mut out) => {
                out.append(message.as_str());
                out.append(self.unset().as_str());
                Ok(out)
            },
            Err(e) => Err(e),
        }
    }

    /// The parameters of the pair, for later formatting.
    pub fn apply(&self) -> (r: Result<Vec<String>, HexError>)
        ensures
            r matches Ok(sets) ==> param_list(self@) == Ok::<Seq<Seq<char>>, HexError>(
                token_views(sets@),
            ),
            r matches Err(e) ==> param_list(self@) == Err::<Seq<Seq<char>>, HexError>(e),
    {
        let mut sets: Vec<String> = Vec::new();
        proof {
            reveal_strlit("3");
            reveal_strlit("4");
        }
        match Color::parse_color(&self.fg) {
            Ok(fg) => {
                if !fg.as_str().is_empty() {
                    let mut token = String::from_str("3");
                    token.append(fg.as_str());
                    assert(token@ =~= seq!['3'] + fg@);
                    sets.push(token);
                }
            },
            Err(e) => {
                return Err(e);
            },
        }
        match Color::parse_color(&self.bg) {
            Ok(bg) => {
                if !bg.as_str().is_empty() {
                    let mut token = String::from_str("4");
                    token.append(bg.as_str());
                    assert(token@ =~= seq!['4'] + bg@);
                    sets.push(token);
                }
            },
            Err(e) => {
                return Err(e);
            },
        }
        assert(token_views(sets@) =~= nonempty(foreground_token(self.fg@)->Ok_0) + nonempty(
            background_token(self.bg@)->Ok_0,
        ));
        Ok(sets)
    }

    /// The parameters that reset both channels, for later formatting.
    pub fn unapply(&self) -> (sets: Vec<String>)
        ensures
            token_views(sets@) == reset_params(),
    {
        let mut sets: Vec<String> = Vec::new();
        sets.push(String::from_str("39"));
        sets.push(String::from_str("49"));
        proof {
            reveal_strlit("39");
            reveal_strlit("49");
            assert(sets@[0]@ =~= seq!['3', '9']);
            assert(sets@[1]@ =~= seq!['4', '9']);
        }
        sets
    }

    /// The escape sequence that sets the pair's colors.
    pub fn set(&self) -> (r: Result<String, HexError>)
        ensures
            r matches Ok(out) ==> setting(self@) == Ok::<Seq<char>, HexError>(out@),
            r matches Err(e) ==> setting(self@) == Err::<Seq<char>, HexError>(e),
    {
        match self.apply() {
            Ok(sets) => Ok(Color::format(&sets)),
            Err(e) => Err(e),
        }
    }

    /// The escape sequence that resets both channels.
    pub fn unset(&self) -> (out: String)
        ensures
            out@ == reset(),
    {
        let sets = self.unapply();
        Color::format(&sets)
    }

    /// Writes the escape sequence for `m`: its strings joined by `;`, between
    /// `ESC [` and `m`.
    pub fn format(m: &Vec<String>) -> (out: String)
        ensures
            out@ == escape(token_views(m@)),
    {
        let ghost views = token_views(m@);
        let mut out = String::from_str("\x1b[");
        proof {
            reveal_strlit("\x1b[");
        }
        let mut i: usize = 0;
        while i < m.len()
            invariant
                0 <= i <= m.len(),
                views == token_views(m@),
                out@ == seq!['\x1b', '['] + join(views.take(i as int)),
            decreases m.len() - i,
        {
            proof {
                reveal_strlit(";");
                let seen = views.take(i + 1);
                assert(seen.drop_last() =~= views.take(i as int));
            }
            if i > 0 {
                out.append(";");
            }
            out.append(m[i].as_str());
            i += 1;
        }
        out.append("m");
        proof {
            reveal_strlit("m");
            assert(views.take(m.len() as int) =~= views);
        }
        out
    }

    /// Writes the true-color code of a 24-bit value.
    pub fn convert_hex_to_ansi(color: u32) -> (code: String)
        ensures
            code@ == truecolor_code(color as nat),
    {
        let (r, g, b) = channels(color);
        let mut code = String::from_str("8;2;");
        proof {
            reveal_strlit("8;2;");
            reveal_strlit(";");
        }
        push_decimal(&mut code, r);
        code.append(";");
        push_decimal(&mut code, g);
        code.append(";");
        push_decimal(&mut code, b);
        code
    }

    /// What follows the channel digit in the parameter of `color`.
    pub fn parse_color(color: &COLORS) -> (r: Result<String, HexError>)
        ensures
            r matches Ok(code) ==> color_code(color@) == Ok::<Seq<char>, HexError>(code@),
            r matches Err(e) ==> color_code(color@) == Err::<Seq<char>, HexError>(e),
    {
        proof {
            reveal_strlit("0");
            reveal_strlit("1");
            reveal_strlit("2");
            reveal_strlit("3");
            reveal_strlit("4");
            reveal_strlit("5");
            reveal_strlit("6");
            reveal_strlit("7");
            reveal_strlit("9");
            reveal_strlit("");
        }
        let code = match color {
            COLORS::Black => String::from_str("0"),
            COLORS::Red => String::from_str("1"),
            COLORS::Green => String::from_str("2"),
            COLORS::Yellow => String::from_str("3"),
            COLORS::Blue => String::from_str("4"),
            COLORS::Magenta => String::from_str("5"),
            COLORS::Cyan => String::from_str("6"),
            COLORS::White => String::from_str("7"),
            COLORS::Default => String::from_str("9"),
            COLORS::HEX(hex) => match Color::string_to_hexdec(hex.as_str()) {
                Ok(value) => Color::convert_hex_to_ansi(value),
                Err(e) => {
                    return Err(e);
                },
            },
            COLORS::Unset => String::from_str(""),
        };
        assert(color_code(color@) is Ok && code@ =~= color_code(color@)->Ok_0);
        Ok(code)
    }

    /// Reads a hex color string as a 24-bit number, most significant digit
    /// first. `#` marks are skipped, and three digits are shorthand for six.
    pub fn string_to_hexdec(hex: &str) -> (r: Result<u32, HexError>)
        ensures
            r matches Ok(value) ==> hex_value(hex@) == Ok::<nat, HexError>(value as nat),
            r matches Err(e) ==> hex_value(hex@) == Err::<nat, HexError>(e),
    {
        let hex_vec = strip_hash(hex);
        let ghost digits = hex_vec@;
        let return_vec: Vec<char> = match hex_vec.len() {
            3 => vec![hex_vec[0], hex_vec[0], hex_vec[1], hex_vec[1], hex_vec[2], hex_vec[2]],
            6 => hex_vec,
            _ => {
                return Err(HexError::InvalidHexLength);
            },
        };
        let ghost full = return_vec@;
        let mut result: u32 = 0;
        let mut i: usize = 0;
        while i < 6
            invariant
                0 <= i <= 6,
                return_vec@ == full,
                digits == without_hash(hex@),
                digits.len() == 3 || digits.len() == 6,
                full == expand_shorthand(digits),
                all_hex_digits(full.take(i as int)),
                result == hex_number(full.take(i as int)),
                result < sixteen_to(i as nat),
            decreases 6 - i,
        {
            proof {
                reveal_with_fuel(sixteen_to, 7);
                assert(full.take(i + 1).drop_last() =~= full.take(i as int));
            }
            match hex_digit(return_vec[i]) {
                Option::None => {
                    return Err(HexError::InvalidHexDigit);
                },
                Option::Some(d) => {
                    result = result * 16 + d as u32;
                },
            }
            i += 1;
        }
        proof {
            assert(full.take(6) =~= full);
        }
        Ok(result)
    }
}

} // verus!
