//! Colours as the source writes them.

use vstd::prelude::*;
use crate::lang::grammar::{name_at, Parsed};
use crate::lang::lexer::{chars_of, token_text, Token, TokenView};
use crate::lang::parser::{expected_text, token_at, unexpected_text, ParseError, Parser, Result};
use crate::lang::program::plain;
use crate::lang::value::named;
use crate::styling::colors::color_of;
use crate::styling::Color;

verus! {

/// The value of a hexadecimal digit.
pub open spec fn hex_digit(c: char) -> Option<int> {
    if '0' <= c && c <= '9' {
        Some(c as int - '0' as int)
    } else if 'a' <= c && c <= 'f' {
        Some(c as int - 'a' as int + 10)
    } else if 'A' <= c && c <= 'F' {
        Some(c as int - 'A' as int + 10)
    } else {
        None
    }
}

/// The number that hexadecimal digits write; none for no digits and for
/// what holds another character.
pub open spec fn hex_number(text: Seq<char>) -> Option<int>
    decreases text.len(),
{
    if text.len() == 0 {
        None
    } else if text.len() == 1 {
        hex_digit(text[0])
    } else {
        match (hex_number(text.drop_last()), hex_digit(text.last())) {
            (Some(high), Some(low)) => Some(high * 16 + low),
            _ => None,
        }
    }
}

/// The number `0xAARRGGBB` that a colour in digits stands for: six digits
/// are an opaque colour, and any other number of them is the number itself
/// as long as 32 bits hold it.
pub open spec fn hex_color(text: Seq<char>) -> Option<u32> {
    match hex_number(text) {
        Some(value) => if text.len() == 6 {
            Some((0xFF00_0000 + value) as u32)
        } else if value <= u32::MAX {
            Some(value as u32)
        } else {
            None
        },
        None => None,
    }
}

/// The channel that the integer at `position` gives: one of 0 to 255.
pub open spec fn channel_at(tokens: Seq<TokenView>, position: int) -> Option<u8> {
    match token_at(tokens, position) {
        Some(TokenView::Integer(value)) if 0 <= value <= 255 => Some(value as u8),
        _ => None,
    }
}

/// The `count` channels of a colour function that follow those in `found`,
/// up to and with the `)`. A `,` may stand before each channel but the
/// first.
pub open spec fn channels(tokens: Seq<TokenView>, position: int, count: int, found: Seq<u8>) -> Parsed<
    Seq<u8>,
>
    decreases count,
{
    if count <= 0 {
        if token_at(tokens, position) == Some(TokenView::ParenClose) {
            Ok((found, position + 1))
        } else {
            Err(expected_text(token_text(TokenView::ParenClose), token_at(tokens, position)))
        }
    } else {
        let at = if found.len() > 0 && token_at(tokens, position) == Some(TokenView::Comma) {
            position + 1
        } else {
            position
        };
        match channel_at(tokens, at) {
            Some(channel) => channels(tokens, at + 1, count - 1, found.push(channel)),
            None => Err(unexpected_text(token_at(tokens, at))),
        }
    }
}

/// The arguments of a colour function: `(`, `count` channels and `)`.
pub open spec fn color_function(tokens: Seq<TokenView>, position: int, count: int) -> Parsed<
    Seq<u8>,
> {
    if token_at(tokens, position) == Some(TokenView::ParenOpen) {
        channels(tokens, position + 1, count, Seq::empty())
    } else {
        Err(expected_text(token_text(TokenView::ParenOpen), token_at(tokens, position)))
    }
}

/// The text that `"failed to parse color"` is.
pub open spec fn no_color() -> Seq<char> {
    "failed to parse color"@
}

/// A colour: `#` and hexadecimal digits, or one of `argb(..)`, `rgba(..)`
/// and `rgb(..)` over channels from 0 to 255.
pub open spec fn color(tokens: Seq<TokenView>, position: int) -> Parsed<Color> {
    if token_at(tokens, position) == Some(TokenView::Pound) {
        match name_at(tokens, position + 1) {
            Some(digits) if hex_color(digits) is Some => Ok(
                (color_of(hex_color(digits)->0), position + 2),
            ),
            _ => Err(unexpected_text(token_at(tokens, position + 1))),
        }
    } else if token_at(tokens, position) == Some(TokenView::Ident("argb"@)) {
        match color_function(tokens, position + 1, 4) {
            Ok((found, next)) => Ok(
                (Color { alpha: found[0], red: found[1], green: found[2], blue: found[3] }, next),
            ),
            Err(error) => Err(error),
        }
    } else if token_at(tokens, position) == Some(TokenView::Ident("rgba"@)) {
        match color_function(tokens, position + 1, 4) {
            Ok((found, next)) => Ok(
                (Color { red: found[0], green: found[1], blue: found[2], alpha: found[3] }, next),
            ),
            Err(error) => Err(error),
        }
    } else if token_at(tokens, position) == Some(TokenView::Ident("rgb"@)) {
        match color_function(tokens, position + 1, 3) {
            Ok((found, next)) => Ok(
                (Color { red: found[0], green: found[1], blue: found[2], alpha: 255 }, next),
            ),
            Err(error) => Err(error),
        }
    } else {
        Err(no_color())
    }
}

pub proof fn lemma_channels(tokens: Seq<TokenView>, position: int, count: int, found: Seq<u8>)
    requires
        0 <= position,
        0 <= count,
    ensures
        channels(tokens, position, count, found) matches Ok((all, next)) ==> all.len()
            == found.len() + count && position < next <= tokens.len(),
    decreases count,
{
    if count > 0 {
        let at = if found.len() > 0 && token_at(tokens, position) == Some(TokenView::Comma) {
            position + 1
        } else {
            position
        };
        match channel_at(tokens, at) {
            Some(channel) => lemma_channels(tokens, at + 1, count - 1, found.push(channel)),
            None => {},
        }
    }
}

fn digit_of(c: char) -> (r: Option<u8>)
    ensures
        match r {
            Some(value) => hex_digit(c) == Some(value as int) && value < 16,
            None => hex_digit(c) is None,
        },
{
    if '0' <= c && c <= '9' {
        Some((c as u32 - '0' as u32) as u8)
    } else if 'a' <= c && c <= 'f' {
        Some((c as u32 - 'a' as u32 + 10) as u8)
    } else if 'A' <= c && c <= 'F' {
        Some((c as u32 - 'A' as u32 + 10) as u8)
    } else {
        None
    }
}

proof fn lemma_hex_number_grows(text: Seq<char>)
    ensures
        hex_number(text) matches Some(value) ==> value >= 0,
    decreases text.len(),
{
    if text.len() > 1 {
        lemma_hex_number_grows(text.drop_last());
    }
}

/// Reads the number of a colour from its digits.
pub fn hex_color_of(text: &str) -> (r: Option<u32>)
    ensures
        r == hex_color(text@),
{
    let chars = chars_of(text);
    if chars.len() == 0 {
        return None;
    }
    let limit: u64 = 0x1_0000_0000;
    let mut value: u64 = 0;
    let mut i: usize = 0;
    while i < chars.len()
        invariant
            i <= chars.len(),
            chars.len() > 0,
            chars@ == text@,
            limit == 0x1_0000_0000,
            value <= limit,
            i > 0 ==> hex_number(chars@.take(i as int)) is Some,
            i > 0 ==> value == if hex_number(chars@.take(i as int))->0 >= limit {
                limit as int
            } else {
                hex_number(chars@.take(i as int))->0
            },
            i == 0 ==> value == 0,
        decreases chars.len() - i,
    {
        let digit = match digit_of(chars[i]) {
            Some(digit) => digit,
            None => {
                proof {
                    lemma_hex_spoilt(chars@, i as int);
                }
                return None;
            },
        };
        proof {
            assert(chars@.take(i + 1).drop_last() =~= chars@.take(i as int));
            lemma_hex_number_grows(chars@.take(i as int));
        }
        let next: u64 = value * 16 + digit as u64;
        value = if next > limit {
            limit
        } else {
            next
        };
        i += 1;
    }
    proof {
        assert(chars@.take(chars.len() as int) =~= chars@);
        lemma_hex_number_grows(chars@);
        if chars.len() == 6 {
            lemma_six_digits(chars@);
        }
    }
    if chars.len() == 6 {
        Some((0xFF00_0000u64 + value) as u32)
    } else if value < limit {
        Some(value as u32)
    } else {
        None
    }
}

/// Digits that hold another character at `at` write no number.
proof fn lemma_hex_spoilt(text: Seq<char>, at: int)
    requires
        0 <= at < text.len(),
        hex_digit(text[at]) is None,
    ensures
        hex_number(text) is None,
    decreases text.len(),
{
    if text.len() > 1 && at < text.len() - 1 {
        lemma_hex_spoilt(text.drop_last(), at);
    }
}

/// What numbers of up to six digits stay below.
spec fn hex_limit(digits: int) -> int {
    if digits <= 1 {
        0x10
    } else if digits == 2 {
        0x100
    } else if digits == 3 {
        0x1000
    } else if digits == 4 {
        0x1_0000
    } else if digits == 5 {
        0x10_0000
    } else {
        0x100_0000
    }
}

proof fn lemma_hex_bound(text: Seq<char>)
    requires
        text.len() <= 6,
    ensures
        hex_number(text) matches Some(value) ==> value < hex_limit(text.len() as int),
    decreases text.len(),
{
    if text.len() > 1 {
        lemma_hex_bound(text.drop_last());
    }
}

/// Six digits write a number of 24 bits.
proof fn lemma_six_digits(text: Seq<char>)
    requires
        text.len() == 6,
    ensures
        hex_number(text) matches Some(value) ==> value < 0x100_0000,
{
    lemma_hex_bound(text);
}

fn channel_ahead(parser: &Parser, offset: usize) -> (r: Option<u8>)
    ensures
        r == channel_at(parser.tokens(), parser.position() + offset),
{
    match parser.peek_ahead(offset) {
        Some(token) => token.try_as_u8(),
        None => None,
    }
}

fn word_ahead(parser: &Parser, word: &str) -> (r: bool)
    ensures
        r == (token_at(parser.tokens(), parser.position()) == Some(TokenView::Ident(word@))),
{
    match parser.peek() {
        Some(Token::Ident(name)) => named(name, word),
        _ => false,
    }
}

/// Reads the arguments of a colour function that stand `offset` tokens
/// ahead: `(`, `count` channels and `)`. Gives the channels and how many
/// tokens they take.
fn parse_color_function(parser: &Parser, offset: usize, count: usize) -> (r: Result<
    (Vec<u8>, usize),
>)
    requires
        offset == 1,
        count <= 4,
    ensures
        match r {
            Ok((found, taken)) => color_function(
                parser.tokens(),
                parser.position() + offset,
                count as int,
            ) == Ok::<(Seq<u8>, int), Seq<char>>((found@, parser.position() + offset + taken))
                && found.len() == count && parser.position() + offset + taken
                <= parser.tokens().len(),
            Err(error) => color_function(
                parser.tokens(),
                parser.position() + offset,
                count as int,
            ) == Err::<(Seq<u8>, int), Seq<char>>(error@),
        },
{
    let start = parser.mark();
    let ghost tokens = parser.tokens();
    match parser.peek_ahead(offset) {
        Some(Token::ParenOpen) => {},
        _ => {
            return Err(ParseError::expected_token(&Token::ParenOpen, parser.peek_ahead(offset)));
        },
    }
    let mut found: Vec<u8> = Vec::new();
    let mut ahead: usize = offset + 1;
    let mut left: usize = count;
    proof {
        lemma_channels(tokens, start + offset + 1, count as int, Seq::empty());
    }
    while left > 0
        invariant
            tokens == parser.tokens(),
            start == parser.position(),
            token_at(tokens, start + offset) == Some(TokenView::ParenOpen),
            ahead <= 2 + 2 * (count - left),
            left <= count <= 4,
            found.len() + left == count,
            offset == 1,
            channels(tokens, start + ahead, left as int, found@) == channels(
                tokens,
                start + offset + 1,
                count as int,
                Seq::empty(),
            ),
        decreases left,
    {
        let at = if found.len() > 0 && match parser.peek_ahead(ahead) {
            Some(Token::Comma) => true,
            _ => false,
        } {
            ahead + 1
        } else {
            ahead
        };
        match channel_ahead(parser, at) {
            Some(channel) => {
                found.push(channel);
                ahead = at + 1;
                left -= 1;
            },
            None => {
                return Err(ParseError::unexpected_token(parser.peek_ahead(at)));
            },
        }
    }
    match parser.peek_ahead(ahead) {
        Some(Token::ParenClose) => Ok((found, ahead + 1 - offset)),
        _ => Err(ParseError::expected_token(&Token::ParenClose, parser.peek_ahead(ahead))),
    }
}

impl Color {
    /// Reads a colour: `#` and hexadecimal digits, or one of `argb(..)`,
    /// `rgba(..)` and `rgb(..)`.
    pub fn parse(parser: &mut Parser) -> (r: Result<Self>)
        ensures
            plain(
                *old(parser),
                *final(parser),
                r,
                color(old(parser).tokens(), old(parser).position()),
            ),
    {
        let start = parser.mark();
        if match parser.peek() {
            Some(Token::Pound) => true,
            _ => false,
        } {
            let found = match parser.peek_ahead(1) {
                Some(Token::Ident(digits)) => hex_color_of(digits.as_str()),
                _ => None,
            };
            match found {
                Some(number) => {
                    parser.skip(2);
                    Ok(Color::from_u32(number))
                },
                None => Err(ParseError::unexpected_token(parser.peek_ahead(1))),
            }
        } else if word_ahead(parser, "argb") {
            match parse_color_function(parser, 1, 4) {
                Ok((found, taken)) => {
                    parser.skip(1 + taken);
                    Ok(Color::from_rgba(found[1], found[2], found[3], found[0]))
                },
                Err(error) => Err(error),
            }
        } else if word_ahead(parser, "rgba") {
            match parse_color_function(parser, 1, 4) {
                Ok((found, taken)) => {
                    parser.skip(1 + taken);
                    Ok(Color::from_rgba(found[0], found[1], found[2], found[3]))
                },
                Err(error) => Err(error),
            }
        } else if word_ahead(parser, "rgb") {
            match parse_color_function(parser, 1, 3) {
                Ok((found, taken)) => {
                    parser.skip(1 + taken);
                    Ok(Color::from_rgb(found[0], found[1], found[2]))
                },
                Err(error) => Err(error),
            }
        } else {
            Err(ParseError::new("failed to parse color"))
        }
    }
}

} // verus!
