//! The grammar, production by production.
//!
//! A production reads the tokens from a position on and gives what it
//! built and the position behind it, or the description of why it does not
//! fit. Where a production offers alternatives, the first that fits wins.

use vstd::prelude::*;
use crate::elements::Orientation;
use crate::geometry::Px;
use crate::lang::lexer::{numeric_value, token_text, StringPartView, TokenView};
use crate::lang::parser::{expected_text, token_at, unexpected_text};
use crate::lang::program::{
    AttributeView, ExpressionView, ForStatementView, FormattingView, IndexExpressionView,
    LiteralView, NodeDeclView, NumberView, StatementView,
};
use crate::lang::value::IndexView;
use crate::styling::{FontSlant, FontWeight, LengthView, Position, Thickness};

verus! {

/// What a production gives: the value and the position behind it, or why
/// it does not fit.
pub type Parsed<T> = std::result::Result<(T, int), Seq<char>>;

pub open spec fn font_weight_named(name: Seq<char>) -> Option<FontWeight> {
    if name == "light"@ {
        Some(FontWeight::Light)
    } else if name == "normal"@ {
        Some(FontWeight::Normal)
    } else if name == "bold"@ {
        Some(FontWeight::Bold)
    } else {
        None
    }
}

pub open spec fn font_slant_named(name: Seq<char>) -> Option<FontSlant> {
    if name == "upright"@ {
        Some(FontSlant::Upright)
    } else if name == "italic"@ {
        Some(FontSlant::Italic)
    } else if name == "oblique"@ {
        Some(FontSlant::Oblique)
    } else {
        None
    }
}

pub open spec fn position_named(name: Seq<char>) -> Option<Position> {
    if name == "absolute"@ {
        Some(Position::Absolute)
    } else if name == "relative"@ {
        Some(Position::Relative)
    } else {
        None
    }
}

pub open spec fn orientation_named(name: Seq<char>) -> Option<Orientation> {
    if name == "vertical"@ {
        Some(Orientation::Vertical)
    } else if name == "horizontal"@ {
        Some(Orientation::Horizontal)
    } else {
        None
    }
}

/// The name that the token at `position` is, if it is an identifier.
pub open spec fn name_at(tokens: Seq<TokenView>, position: int) -> Option<Seq<char>> {
    match token_at(tokens, position) {
        Some(TokenView::Ident(name)) => Some(name),
        _ => None,
    }
}

/// A font weight: one of `light`, `normal`, `bold`.
pub open spec fn font_weight(tokens: Seq<TokenView>, position: int) -> Parsed<FontWeight> {
    match name_at(tokens, position) {
        Some(name) if font_weight_named(name) is Some => Ok(
            (font_weight_named(name)->0, position + 1),
        ),
        _ => Err(unexpected_text(token_at(tokens, position))),
    }
}

/// A font slant: one of `upright`, `italic`, `oblique`.
pub open spec fn font_slant(tokens: Seq<TokenView>, position: int) -> Parsed<FontSlant> {
    match name_at(tokens, position) {
        Some(name) if font_slant_named(name) is Some => Ok(
            (font_slant_named(name)->0, position + 1),
        ),
        _ => Err(unexpected_text(token_at(tokens, position))),
    }
}

/// A position: `absolute` or `relative`.
pub open spec fn position_keyword(tokens: Seq<TokenView>, position: int) -> Parsed<Position> {
    match name_at(tokens, position) {
        Some(name) if position_named(name) is Some => Ok((position_named(name)->0, position + 1)),
        _ => Err(unexpected_text(token_at(tokens, position))),
    }
}

/// An orientation: `vertical` or `horizontal`.
pub open spec fn orientation(tokens: Seq<TokenView>, position: int) -> Parsed<Orientation> {
    match name_at(tokens, position) {
        Some(name) if orientation_named(name) is Some => Ok(
            (orientation_named(name)->0, position + 1),
        ),
        _ => Err(unexpected_text(token_at(tokens, position))),
    }
}

/// Whether the token at `position` is a number.
pub open spec fn numeric_at(tokens: Seq<TokenView>, position: int) -> bool {
    token_at(tokens, position) matches Some(token) && numeric_value(token) is Some
}

/// The whole pixels of the number at `position`.
pub open spec fn pixels_at(tokens: Seq<TokenView>, position: int) -> Px {
    numeric_value(tokens[position])->0
}

/// The place in a sequence that the integer at `position` names, if one
/// stands there and is no negative number.
pub open spec fn place_at(tokens: Seq<TokenView>, position: int) -> Option<usize> {
    match token_at(tokens, position) {
        Some(TokenView::Integer(value)) if 0 <= value <= usize::MAX => Some(value as usize),
        _ => None,
    }
}

/// The keys behind the first name of a path: `.` and a name, or `[`, a
/// place and `]`, as often as they follow. A `.` or `[` that nothing
/// fitting follows spoils the path.
pub open spec fn chain(tokens: Seq<TokenView>, position: int, keys: Seq<IndexView>) -> Parsed<
    Seq<IndexView>,
>
    decreases tokens.len() - position,
{
    match token_at(tokens, position) {
        Some(TokenView::Dot) => match name_at(tokens, position + 1) {
            Some(name) => chain(tokens, position + 2, keys.push(IndexView::String(name))),
            None => Err(unexpected_text(token_at(tokens, position + 1))),
        },
        Some(TokenView::BracketOpen) => match place_at(tokens, position + 1) {
            Some(place) => if token_at(tokens, position + 2) == Some(TokenView::BracketClose) {
                chain(tokens, position + 3, keys.push(IndexView::Number(place)))
            } else {
                Err(
                    expected_text(
                        token_text(TokenView::BracketClose),
                        token_at(tokens, position + 2),
                    ),
                )
            },
            None => Err(unexpected_text(token_at(tokens, position + 1))),
        },
        _ => Ok((keys, position)),
    }
}

/// A path into data: a name and the keys chained to it.
pub open spec fn index_path(tokens: Seq<TokenView>, position: int) -> Parsed<IndexExpressionView> {
    match name_at(tokens, position) {
        Some(name) => match chain(tokens, position + 1, Seq::empty()) {
            Ok((keys, next)) => Ok((IndexExpressionView { target: name, index: keys }, next)),
            Err(error) => Err(error),
        },
        None => Err(unexpected_text(token_at(tokens, position))),
    }
}

/// A boolean literal.
pub open spec fn boolean(tokens: Seq<TokenView>, position: int) -> Parsed<bool> {
    match token_at(tokens, position) {
        Some(TokenView::Boolean(value)) => Ok((value, position + 1)),
        other => Err(unexpected_text(other)),
    }
}

/// A range: a place, two dots, a place.
pub open spec fn range(tokens: Seq<TokenView>, position: int) -> Parsed<(usize, usize)> {
    match place_at(tokens, position) {
        Some(start) => if token_at(tokens, position + 1) != Some(TokenView::Dot) {
            Err(expected_text(token_text(TokenView::Dot), token_at(tokens, position + 1)))
        } else if token_at(tokens, position + 2) != Some(TokenView::Dot) {
            Err(expected_text(token_text(TokenView::Dot), token_at(tokens, position + 2)))
        } else {
            match place_at(tokens, position + 3) {
                Some(end) => Ok(((start, end), position + 4)),
                None => Err(unexpected_text(token_at(tokens, position + 3))),
            }
        },
        None => Err(unexpected_text(token_at(tokens, position))),
    }
}

/// A number by itself: one that neither a `%` nor another number follows,
/// for with those it begins a percentage or a thickness.
pub open spec fn number(tokens: Seq<TokenView>, position: int) -> Parsed<NumberView> {
    if !numeric_at(tokens, position) {
        Err(unexpected_text(token_at(tokens, position)))
    } else if token_at(tokens, position + 1) == Some(TokenView::Percent) || numeric_at(
        tokens,
        position + 1,
    ) {
        Err(unexpected_text(token_at(tokens, position + 1)))
    } else {
        match tokens[position] {
            TokenView::Float(text) => Ok((NumberView::Float(text), position + 1)),
            _ => Ok((NumberView::Int(pixels_at(tokens, position)), position + 1)),
        }
    }
}

/// A percentage: a number and `%`.
pub open spec fn length(tokens: Seq<TokenView>, position: int) -> Parsed<LengthView> {
    if !numeric_at(tokens, position) {
        Err(unexpected_text(token_at(tokens, position)))
    } else if token_at(tokens, position + 1) != Some(TokenView::Percent) {
        Err(expected_text(token_text(TokenView::Percent), token_at(tokens, position + 1)))
    } else {
        Ok((LengthView::Percent(pixels_at(tokens, position)), position + 2))
    }
}

/// A plain string.
pub open spec fn string(tokens: Seq<TokenView>, position: int) -> Parsed<Seq<char>> {
    match token_at(tokens, position) {
        Some(TokenView::String(text)) => Ok((text, position + 1)),
        other => Err(unexpected_text(other)),
    }
}

/// An integer.
pub open spec fn integer(tokens: Seq<TokenView>, position: int) -> Parsed<i64> {
    match token_at(tokens, position) {
        Some(TokenView::Integer(value)) => Ok((value, position + 1)),
        other => Err(unexpected_text(other)),
    }
}

/// A number of either kind, in whole pixels.
pub open spec fn whole(tokens: Seq<TokenView>, position: int) -> Parsed<Px> {
    if numeric_at(tokens, position) {
        Ok((pixels_at(tokens, position), position + 1))
    } else {
        Err(unexpected_text(token_at(tokens, position)))
    }
}

/// A literal: a boolean, a range, a number, a percentage or a string, in
/// this order of trial.
pub open spec fn literal(tokens: Seq<TokenView>, position: int) -> Parsed<LiteralView> {
    if boolean(tokens, position) is Ok {
        Ok((LiteralView::Boolean(boolean(tokens, position)->Ok_0.0), position + 1))
    } else if range(tokens, position) is Ok {
        Ok(
            (
                LiteralView::Range(
                    range(tokens, position)->Ok_0.0.0,
                    range(tokens, position)->Ok_0.0.1,
                ),
                position + 4,
            ),
        )
    } else if number(tokens, position) is Ok {
        Ok((LiteralView::Number(number(tokens, position)->Ok_0.0), position + 1))
    } else if length(tokens, position) is Ok {
        Ok((LiteralView::Length(length(tokens, position)->Ok_0.0), position + 2))
    } else {
        match string(tokens, position) {
            Ok((text, next)) => Ok((LiteralView::String(text), next)),
            Err(error) => Err(error),
        }
    }
}

/// How many numbers stand in a row from `position`, up to `limit`.
pub open spec fn numeric_run(tokens: Seq<TokenView>, position: int, limit: int) -> int
    decreases limit,
{
    if limit <= 0 || !numeric_at(tokens, position) {
        0
    } else {
        1 + numeric_run(tokens, position + 1, limit - 1)
    }
}

/// The text that `"failed to parse thickness"` is.
pub open spec fn no_thickness() -> Seq<char> {
    "failed to parse thickness"@
}

/// A thickness in short: up to four numbers in a row. Four are left, top,
/// right and bottom; two are the vertical and the horizontal measure, and a
/// third behind them is dropped; one is the measure of all sides.
pub open spec fn thickness(tokens: Seq<TokenView>, position: int) -> Parsed<Thickness> {
    let count = numeric_run(tokens, position, 4);
    if count == 4 {
        Ok(
            (
                Thickness {
                    left: pixels_at(tokens, position),
                    top: pixels_at(tokens, position + 1),
                    right: pixels_at(tokens, position + 2),
                    bottom: pixels_at(tokens, position + 3),
                },
                position + 4,
            ),
        )
    } else if count >= 2 {
        Ok(
            (
                Thickness {
                    left: pixels_at(tokens, position + 1),
                    top: pixels_at(tokens, position),
                    right: pixels_at(tokens, position + 1),
                    bottom: pixels_at(tokens, position),
                },
                position + count,
            ),
        )
    } else if count == 1 {
        Ok(
            (
                Thickness {
                    left: pixels_at(tokens, position),
                    top: pixels_at(tokens, position),
                    right: pixels_at(tokens, position),
                    bottom: pixels_at(tokens, position),
                },
                position + 1,
            ),
        )
    } else {
        Err(no_thickness())
    }
}

/// The pieces of the first `n` parts of an interpolated string: text as it
/// is, a region as the expression that its tokens begin with. A region
/// that begins with no expression spoils the string.
pub open spec fn pieces(parts: Seq<StringPartView>, n: int) -> std::result::Result<
    Seq<FormattingView>,
    Seq<char>,
>
    decreases parts, 0int, n,
{
    if n <= 0 || n > parts.len() {
        Ok(Seq::empty())
    } else {
        match pieces(parts, n - 1) {
            Ok(before) => match parts[n - 1] {
                StringPartView::String(text) => Ok(before.push(FormattingView::String(text))),
                StringPartView::Formatted(inner) => match expression(inner, 0) {
                    Ok((value, _)) => Ok(before.push(FormattingView::Expression(value))),
                    Err(error) => Err(error),
                },
            },
            Err(error) => Err(error),
        }
    }
}

/// An interpolated string.
pub open spec fn formatted(tokens: Seq<TokenView>, position: int) -> Parsed<Seq<FormattingView>>
    decreases tokens, 1int, 0int,
{
    match token_at(tokens, position) {
        Some(TokenView::FormattedString(parts)) => match pieces(parts, parts.len() as int) {
            Ok(built) => Ok((built, position + 1)),
            Err(error) => Err(error),
        },
        other => Err(unexpected_text(other)),
    }
}

/// An expression: a font weight, a font slant, a position, an orientation,
/// a path, a literal, a thickness, an interpolated string or a name, in
/// this order of trial.
///
/// A name alone is a path already, so the last alternative is left for a
/// name that a spoilt chain follows: such a path counts as its first name,
/// and the chain stays where it is.
pub open spec fn expression(tokens: Seq<TokenView>, position: int) -> Parsed<ExpressionView>
    decreases tokens, 2int, 0int,
{
    if font_weight(tokens, position) is Ok {
        Ok((ExpressionView::FontWeight(font_weight(tokens, position)->Ok_0.0), position + 1))
    } else if font_slant(tokens, position) is Ok {
        Ok((ExpressionView::FontSlant(font_slant(tokens, position)->Ok_0.0), position + 1))
    } else if position_keyword(tokens, position) is Ok {
        Ok((ExpressionView::Position(position_keyword(tokens, position)->Ok_0.0), position + 1))
    } else if orientation(tokens, position) is Ok {
        Ok((ExpressionView::Orientation(orientation(tokens, position)->Ok_0.0), position + 1))
    } else if index_path(tokens, position) is Ok {
        Ok(
            (
                ExpressionView::Index(index_path(tokens, position)->Ok_0.0),
                index_path(tokens, position)->Ok_0.1,
            ),
        )
    } else if literal(tokens, position) is Ok {
        Ok(
            (
                ExpressionView::Literal(literal(tokens, position)->Ok_0.0),
                literal(tokens, position)->Ok_0.1,
            ),
        )
    } else if thickness(tokens, position) is Ok {
        Ok(
            (
                ExpressionView::Thickness(thickness(tokens, position)->Ok_0.0),
                thickness(tokens, position)->Ok_0.1,
            ),
        )
    } else if formatted(tokens, position) is Ok {
        Ok((ExpressionView::FormattedString(formatted(tokens, position)->Ok_0.0), position + 1))
    } else {
        match name_at(tokens, position) {
            Some(name) => Ok((ExpressionView::Ident(name), position + 1)),
            None => Err(unexpected_text(token_at(tokens, position))),
        }
    }
}

pub proof fn lemma_chain_bounds(tokens: Seq<TokenView>, position: int, keys: Seq<IndexView>)
    requires
        0 <= position <= tokens.len(),
    ensures
        chain(tokens, position, keys) matches Ok((_, next)) ==> position <= next <= tokens.len(),
    decreases tokens.len() - position,
{
    match token_at(tokens, position) {
        Some(TokenView::Dot) => match name_at(tokens, position + 1) {
            Some(name) => lemma_chain_bounds(
                tokens,
                position + 2,
                keys.push(IndexView::String(name)),
            ),
            None => {},
        },
        Some(TokenView::BracketOpen) => match place_at(tokens, position + 1) {
            Some(place) => if token_at(tokens, position + 2) == Some(TokenView::BracketClose) {
                lemma_chain_bounds(tokens, position + 3, keys.push(IndexView::Number(place)));
            },
            None => {},
        },
        _ => {},
    }
}

pub proof fn lemma_numeric_run(tokens: Seq<TokenView>, position: int, limit: int)
    requires
        0 <= position,
        0 <= limit,
    ensures
        0 <= numeric_run(tokens, position, limit) <= limit,
        position + numeric_run(tokens, position, limit) <= tokens.len() || numeric_run(
            tokens,
            position,
            limit,
        ) == 0,
        forall|k: int|
            position <= k < position + numeric_run(tokens, position, limit) ==> numeric_at(
                tokens,
                k,
            ),
        numeric_run(tokens, position, limit) < limit ==> !numeric_at(
            tokens,
            position + numeric_run(tokens, position, limit),
        ),
    decreases limit,
{
    if limit > 0 && numeric_at(tokens, position) {
        lemma_numeric_run(tokens, position + 1, limit - 1);
    }
}

/// An expression that fits takes at least one token, and none beyond the
/// last.
pub proof fn lemma_expression_bounds(tokens: Seq<TokenView>, position: int)
    requires
        0 <= position,
    ensures
        expression(tokens, position) matches Ok((_, next)) ==> position < next <= tokens.len(),
{
    if position < tokens.len() {
        lemma_chain_bounds(tokens, position + 1, Seq::empty());
    }
    lemma_numeric_run(tokens, position, 4);
}

/// An attribute: a name, `:` and an expression.
pub open spec fn attribute(tokens: Seq<TokenView>, position: int) -> Parsed<AttributeView> {
    match name_at(tokens, position) {
        Some(name) => if token_at(tokens, position + 1) != Some(TokenView::Colon) {
            Err(expected_text(token_text(TokenView::Colon), token_at(tokens, position + 1)))
        } else {
            match expression(tokens, position + 2) {
                Ok((value, next)) => Ok((AttributeView { name, value }, next)),
                Err(error) => Err(error),
            }
        },
        None => Err(unexpected_text(token_at(tokens, position))),
    }
}

/// The attributes at the head of a body, behind those in `found`: as many
/// as follow one another with a `,` between them. A `,` behind the last is
/// taken too.
pub open spec fn attributes(tokens: Seq<TokenView>, position: int, found: Seq<AttributeView>) -> (
    Seq<AttributeView>,
    int,
)
    decreases tokens.len() - position,
{
    if position < 0 {
        (found, position)
    } else {
        proof {
            lemma_expression_bounds(tokens, position + 2);
        }
        match attribute(tokens, position) {
            Ok((value, next)) => if token_at(tokens, next) == Some(TokenView::Comma) {
                attributes(tokens, next + 1, found.push(value))
            } else {
                (found.push(value), next)
            },
            Err(_) => (found, position),
        }
    }
}

/// The arguments of a node behind its `(` and those in `found`:
/// expressions with a `,` between them, up to and with the `)`.
pub open spec fn arguments(tokens: Seq<TokenView>, position: int, found: Seq<ExpressionView>) -> Parsed<
    Seq<ExpressionView>,
>
    decreases tokens.len() - position,
{
    if position < 0 {
        Err(Seq::empty())
    } else if token_at(tokens, position) == Some(TokenView::ParenClose) {
        Ok((found, position + 1))
    } else if found.len() > 0 && token_at(tokens, position) != Some(TokenView::Comma) {
        Err(expected_text(token_text(TokenView::Comma), token_at(tokens, position)))
    } else {
        let start = if found.len() > 0 {
            position + 1
        } else {
            position
        };
        proof {
            lemma_expression_bounds(tokens, start);
        }
        match expression(tokens, start) {
            Ok((value, next)) => arguments(tokens, next, found.push(value)),
            Err(error) => Err(error),
        }
    }
}

pub proof fn lemma_attribute_bounds(tokens: Seq<TokenView>, position: int)
    requires
        0 <= position,
    ensures
        attribute(tokens, position) matches Ok((_, next)) ==> position + 2 < next <= tokens.len(),
{
    lemma_expression_bounds(tokens, position + 2);
}

pub proof fn lemma_attributes_bounds(
    tokens: Seq<TokenView>,
    position: int,
    found: Seq<AttributeView>,
)
    requires
        0 <= position <= tokens.len(),
    ensures
        position <= attributes(tokens, position, found).1 <= tokens.len(),
    decreases tokens.len() - position,
{
    lemma_attribute_bounds(tokens, position);
    match attribute(tokens, position) {
        Ok((value, next)) => if token_at(tokens, next) == Some(TokenView::Comma) {
            lemma_attributes_bounds(tokens, next + 1, found.push(value));
        },
        Err(_) => {},
    }
}

pub proof fn lemma_arguments_bounds(
    tokens: Seq<TokenView>,
    position: int,
    found: Seq<ExpressionView>,
)
    requires
        0 <= position,
    ensures
        arguments(tokens, position, found) matches Ok((_, next)) ==> position < next
            <= tokens.len(),
    decreases tokens.len() - position,
{
    if token_at(tokens, position) == Some(TokenView::ParenClose) {
    } else if found.len() > 0 && token_at(tokens, position) != Some(TokenView::Comma) {
    } else {
        let start = if found.len() > 0 {
            position + 1
        } else {
            position
        };
        lemma_expression_bounds(tokens, start);
        match expression(tokens, start) {
            Ok((value, next)) => lemma_arguments_bounds(tokens, next, found.push(value)),
            Err(error) => {},
        }
    }
}

/// The token that the name `for` is.
pub open spec fn for_keyword() -> TokenView {
    TokenView::Ident("for"@)
}

/// The token that the name `in` is.
pub open spec fn in_keyword() -> TokenView {
    TokenView::Ident("in"@)
}

/// Where the body of the repetition at `position` opens, with its variable
/// and its target: behind `for`, a name, `in`, an expression and `{`.
pub open spec fn for_head(tokens: Seq<TokenView>, position: int) -> Parsed<
    (Seq<char>, ExpressionView),
> {
    if token_at(tokens, position) != Some(for_keyword()) {
        Err(expected_text(token_text(for_keyword()), token_at(tokens, position)))
    } else {
        match name_at(tokens, position + 1) {
            Some(name) => if token_at(tokens, position + 2) != Some(in_keyword()) {
                Err(expected_text(token_text(in_keyword()), token_at(tokens, position + 2)))
            } else {
                match expression(tokens, position + 3) {
                    Ok((target, next)) => if token_at(tokens, next) != Some(
                        TokenView::BraceOpen,
                    ) {
                        Err(
                            expected_text(
                                token_text(TokenView::BraceOpen),
                                token_at(tokens, next),
                            ),
                        )
                    } else {
                        Ok(((name, target), next + 1))
                    },
                    Err(error) => Err(error),
                }
            },
            None => Err(unexpected_text(token_at(tokens, position + 1))),
        }
    }
}

/// Where the body of the node at `position` opens, with the node's name,
/// arguments and attributes; for a node without a body, where the node
/// ends. The flag tells which.
pub open spec fn node_head(tokens: Seq<TokenView>, position: int) -> Parsed<
    (Seq<char>, Seq<ExpressionView>, Seq<AttributeView>, bool),
> {
    match name_at(tokens, position) {
        Some(name) => {
            let listed = if token_at(tokens, position + 1) == Some(TokenView::ParenOpen) {
                arguments(tokens, position + 2, Seq::empty())
            } else {
                Ok((Seq::empty(), position + 1))
            };
            match listed {
                Ok((args, next)) => if token_at(tokens, next) == Some(TokenView::BraceOpen) {
                    let (found, body) = attributes(tokens, next + 1, Seq::empty());
                    Ok(((name, args, found, true), body))
                } else {
                    Ok(((name, args, Seq::empty(), false), next))
                },
                Err(error) => Err(error),
            }
        },
        None => Err(unexpected_text(token_at(tokens, position))),
    }
}

pub proof fn lemma_head_bounds(tokens: Seq<TokenView>, position: int)
    requires
        0 <= position,
    ensures
        for_head(tokens, position) matches Ok((_, next)) ==> position < next <= tokens.len(),
        node_head(tokens, position) matches Ok((_, next)) ==> position < next <= tokens.len(),
{
    lemma_expression_bounds(tokens, position + 3);
    lemma_arguments_bounds(tokens, position + 2, Seq::empty());
    match name_at(tokens, position) {
        Some(name) => {
            let listed = if token_at(tokens, position + 1) == Some(TokenView::ParenOpen) {
                arguments(tokens, position + 2, Seq::<ExpressionView>::empty())
            } else {
                Ok((Seq::<ExpressionView>::empty(), position + 1))
            };
            match listed {
                Ok((args, next)) => if token_at(tokens, next) == Some(TokenView::BraceOpen) {
                    lemma_attributes_bounds(tokens, next + 1, Seq::empty());
                },
                Err(error) => {},
            }
        },
        None => {},
    }
}

/// The statements of a body behind those in `found`, up to and with the
/// `}` that closes it.
pub open spec fn block(tokens: Seq<TokenView>, position: int, found: Seq<StatementView>) -> Parsed<
    Seq<StatementView>,
>
    decreases tokens.len() - position, 3int,
{
    if position < 0 || position > tokens.len() {
        Err(Seq::empty())
    } else if token_at(tokens, position) == Some(TokenView::BraceClose) {
        Ok((found, position + 1))
    } else {
        match statement(tokens, position) {
            Ok((value, next)) => if position < next <= tokens.len() {
                block(tokens, next, found.push(value))
            } else {
                Err(Seq::empty())
            },
            Err(error) => Err(error),
        }
    }
}

/// A repetition: `for`, a name, `in`, an expression and a body in braces.
pub open spec fn for_statement(tokens: Seq<TokenView>, position: int) -> Parsed<ForStatementView>
    decreases tokens.len() - position, 1int,
{
    if position < 0 {
        Err(Seq::empty())
    } else {
        proof {
            lemma_head_bounds(tokens, position);
        }
        match for_head(tokens, position) {
            Ok(((name, target), opened)) => match block(tokens, opened, Seq::empty()) {
                Ok((body, next)) => Ok((ForStatementView { name, target, body }, next)),
                Err(error) => Err(error),
            },
            Err(error) => Err(error),
        }
    }
}

/// A node: a name, then maybe arguments in parentheses, then maybe a body
/// in braces of attributes and statements.
pub open spec fn node(tokens: Seq<TokenView>, position: int) -> Parsed<NodeDeclView>
    decreases tokens.len() - position, 1int,
{
    if position < 0 {
        Err(Seq::empty())
    } else {
        proof {
            lemma_head_bounds(tokens, position);
        }
        match node_head(tokens, position) {
            Ok(((name, args, found, opened), next)) => if opened {
                match block(tokens, next, Seq::empty()) {
                    Ok((body, end)) => Ok(
                        (NodeDeclView { name, args, attributes: found, body }, end),
                    ),
                    Err(error) => Err(error),
                }
            } else {
                Ok((NodeDeclView { name, args, attributes: found, body: Seq::empty() }, next))
            },
            Err(error) => Err(error),
        }
    }
}

/// A statement: a repetition, or else a node.
pub open spec fn statement(tokens: Seq<TokenView>, position: int) -> Parsed<StatementView>
    decreases tokens.len() - position, 2int,
{
    match for_statement(tokens, position) {
        Ok((value, next)) => Ok((StatementView::ForStatement(value), next)),
        Err(_) => match node(tokens, position) {
            Ok((value, next)) => Ok((StatementView::Node(value), next)),
            Err(error) => Err(error),
        },
    }
}

/// A statement that fits takes at least one token, and none beyond the
/// last.
pub proof fn lemma_statement_bounds(tokens: Seq<TokenView>, position: int)
    requires
        0 <= position,
    ensures
        statement(tokens, position) matches Ok((_, next)) ==> position < next <= tokens.len(),
        for_statement(tokens, position) matches Ok((_, next)) ==> position < next
            <= tokens.len(),
        node(tokens, position) matches Ok((_, next)) ==> position < next <= tokens.len(),
    decreases tokens.len() - position, 2int,
{
    lemma_head_bounds(tokens, position);
    match for_head(tokens, position) {
        Ok((_, opened)) => lemma_block_bounds(tokens, opened, Seq::empty()),
        Err(_) => {},
    }
    match node_head(tokens, position) {
        Ok(((_, _, _, opened), next)) => if opened {
            lemma_block_bounds(tokens, next, Seq::empty());
        },
        Err(_) => {},
    }
}

/// A body that fits ends behind where it began, and not beyond the last
/// token.
pub proof fn lemma_block_bounds(tokens: Seq<TokenView>, position: int, found: Seq<StatementView>)
    requires
        0 <= position,
    ensures
        block(tokens, position, found) matches Ok((_, next)) ==> position < next <= tokens.len(),
    decreases tokens.len() - position, 3int,
{
    if position > tokens.len() {
    } else if token_at(tokens, position) == Some(TokenView::BraceClose) {
    } else {
        match statement(tokens, position) {
            Ok((value, next)) => if position < next <= tokens.len() {
                lemma_block_bounds(tokens, next, found.push(value));
            },
            Err(_) => {},
        }
    }
}

} // verus!
