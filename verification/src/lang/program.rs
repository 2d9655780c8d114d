//! The syntax tree and the grammar that builds it.

use vstd::prelude::*;
use crate::elements::Orientation;
use crate::geometry::Px;
use crate::lang::grammar::{
    arguments, attribute, attributes, block, boolean, chain, expression, font_slant, font_weight,
    for_head, for_statement, formatted, index_path, integer, lemma_attribute_bounds,
    lemma_expression_bounds, lemma_head_bounds, lemma_numeric_run, length, literal, name_at, node,
    node_head, number, numeric_at, orientation, pieces, pixels_at, place_at, position_keyword,
    range, statement, string, thickness, whole, Parsed,
};
use crate::lang::lexer::{
    copy_parts, copy_tokens, lemma_formatted_string_view, lemma_formatted_view, part_views,
    token_text, StringPart, StringPartView, Token, TokenView,
};
use crate::lang::parser::{expected_text, token_at, unexpected_text, ParseError, Parser, Result};
use crate::lang::value::{index_views, named, Index, IndexView};
use crate::styling::{
    FontFamily, FontSize, FontSlant, FontWeight, Length, LengthView, Position, Thickness,
};

verus! {

/// A number as the source wrote it.
#[derive(Debug)]
pub enum Number {
    /// With a fraction: the text of the literal.
    Float(String),
    Int(i64),
}

pub enum NumberView {
    Float(Seq<char>),
    Int(i64),
}

impl View for Number {
    type V = NumberView;

    open spec fn view(&self) -> NumberView {
        match self {
            Number::Float(text) => NumberView::Float(text@),
            Number::Int(value) => NumberView::Int(*value),
        }
    }
}

#[derive(Debug)]
pub enum Literal {
    Number(Number),
    Length(Length),
    String(String),
    Boolean(bool),
    /// From the first number up to, not including, the second.
    Range(usize, usize),
}

pub enum LiteralView {
    Number(NumberView),
    Length(LengthView),
    String(Seq<char>),
    Boolean(bool),
    Range(usize, usize),
}

impl View for Literal {
    type V = LiteralView;

    open spec fn view(&self) -> LiteralView {
        match self {
            Literal::Number(number) => LiteralView::Number(number@),
            Literal::Length(length) => LiteralView::Length(length@),
            Literal::String(text) => LiteralView::String(text@),
            Literal::Boolean(value) => LiteralView::Boolean(*value),
            Literal::Range(start, end) => LiteralView::Range(*start, *end),
        }
    }
}

/// A path into data: the name it starts at and the keys behind it.
#[derive(Debug)]
pub struct IndexExpression {
    pub target: String,
    pub index: Vec<Index>,
}

pub struct IndexExpressionView {
    pub target: Seq<char>,
    pub index: Seq<IndexView>,
}

impl View for IndexExpression {
    type V = IndexExpressionView;

    open spec fn view(&self) -> IndexExpressionView {
        IndexExpressionView { target: self.target@, index: index_views(self.index@) }
    }
}

/// One piece of an interpolated string.
#[derive(Debug)]
pub enum Formatting {
    String(String),
    Expression(Expression),
}

#[derive(Debug)]
pub enum Expression {
    Position(Position),
    Orientation(Orientation),
    FontSlant(FontSlant),
    FontWeight(FontWeight),
    Thickness(Thickness),
    Index(IndexExpression),
    Ident(String),
    Literal(Literal),
    FormattedString(Vec<Formatting>),
}

pub enum FormattingView {
    String(Seq<char>),
    Expression(ExpressionView),
}

pub enum ExpressionView {
    Position(Position),
    Orientation(Orientation),
    FontSlant(FontSlant),
    FontWeight(FontWeight),
    Thickness(Thickness),
    Index(IndexExpressionView),
    Ident(Seq<char>),
    Literal(LiteralView),
    FormattedString(Seq<FormattingView>),
}

/// The values of the first `n` pieces.
pub open spec fn leading_pieces(pieces: Seq<Formatting>, n: int) -> Seq<FormattingView>
    decreases pieces, n,
{
    if n <= 0 || n > pieces.len() {
        Seq::empty()
    } else {
        leading_pieces(pieces, n - 1).push(pieces[n - 1].view())
    }
}

impl View for Formatting {
    type V = FormattingView;

    open spec fn view(&self) -> FormattingView
        decreases self, 0int,
    {
        match self {
            Formatting::String(text) => FormattingView::String(text@),
            Formatting::Expression(expression) => FormattingView::Expression(expression.view()),
        }
    }
}

impl View for Expression {
    type V = ExpressionView;

    open spec fn view(&self) -> ExpressionView
        decreases self, 0int,
    {
        match self {
            Expression::Position(value) => ExpressionView::Position(*value),
            Expression::Orientation(value) => ExpressionView::Orientation(*value),
            Expression::FontSlant(value) => ExpressionView::FontSlant(*value),
            Expression::FontWeight(value) => ExpressionView::FontWeight(*value),
            Expression::Thickness(value) => ExpressionView::Thickness(*value),
            Expression::Index(path) => ExpressionView::Index(path@),
            Expression::Ident(name) => ExpressionView::Ident(name@),
            Expression::Literal(literal) => ExpressionView::Literal(literal@),
            Expression::FormattedString(pieces) => ExpressionView::FormattedString(
                leading_pieces(pieces@, pieces@.len() as int),
            ),
        }
    }
}

/// The values of a sequence of pieces.
pub open spec fn piece_views(pieces: Seq<Formatting>) -> Seq<FormattingView> {
    pieces.map_values(|p: Formatting| p@)
}

/// The values of a sequence of expressions.
pub open spec fn expression_views(expressions: Seq<Expression>) -> Seq<ExpressionView> {
    expressions.map_values(|e: Expression| e@)
}

pub proof fn lemma_leading_pieces(pieces: Seq<Formatting>, n: int)
    requires
        0 <= n <= pieces.len(),
    ensures
        leading_pieces(pieces, n) == piece_views(pieces.take(n)),
    decreases n,
{
    if n > 0 {
        lemma_leading_pieces(pieces, n - 1);
        let shorter = piece_views(pieces.take(n - 1)).push(pieces[n - 1]@);
        let whole = piece_views(pieces.take(n));
        assert forall|i: int| 0 <= i < n implies shorter[i] == whole[i] by {
            if i < n - 1 {
                assert(pieces.take(n - 1)[i] == pieces.take(n)[i]);
            }
        }
        assert(shorter =~= whole);
    } else {
        assert(leading_pieces(pieces, n) =~= piece_views(pieces.take(n)));
    }
}

pub proof fn lemma_formatted_expression(pieces: Vec<Formatting>)
    ensures
        Expression::FormattedString(pieces)@ == ExpressionView::FormattedString(
            piece_views(pieces@),
        ),
{
    lemma_leading_pieces(pieces@, pieces@.len() as int);
    assert(pieces@.take(pieces@.len() as int) =~= pieces@);
}

/// A property of a node: its name and the expression of its value.
#[derive(Debug)]
pub struct Attribute {
    pub name: String,
    pub value: Expression,
}

pub struct AttributeView {
    pub name: Seq<char>,
    pub value: ExpressionView,
}

impl View for Attribute {
    type V = AttributeView;

    open spec fn view(&self) -> AttributeView {
        AttributeView { name: self.name@, value: self.value@ }
    }
}

/// The values of a sequence of attributes.
pub open spec fn attribute_views(attributes: Seq<Attribute>) -> Seq<AttributeView> {
    attributes.map_values(|a: Attribute| a@)
}

/// A repetition: the body once for each element of the target.
#[derive(Debug)]
pub struct ForStatement {
    pub name: String,
    pub target: Expression,
    pub body: Vec<Statement>,
}

#[derive(Debug)]
pub enum Statement {
    ForStatement(ForStatement),
    Node(NodeDecl),
}

/// The declaration of a node: its name, its positional arguments, its
/// attributes and what stands in its body.
#[derive(Debug)]
pub struct NodeDecl {
    pub name: String,
    pub args: Vec<Expression>,
    pub attributes: Vec<Attribute>,
    pub body: Vec<Statement>,
}

pub struct ForStatementView {
    pub name: Seq<char>,
    pub target: ExpressionView,
    pub body: Seq<StatementView>,
}

pub enum StatementView {
    ForStatement(ForStatementView),
    Node(NodeDeclView),
}

pub struct NodeDeclView {
    pub name: Seq<char>,
    pub args: Seq<ExpressionView>,
    pub attributes: Seq<AttributeView>,
    pub body: Seq<StatementView>,
}

/// The values of the first `n` statements.
pub open spec fn leading_statements(statements: Seq<Statement>, n: int) -> Seq<StatementView>
    decreases statements, n,
{
    if n <= 0 || n > statements.len() {
        Seq::empty()
    } else {
        leading_statements(statements, n - 1).push(statements[n - 1].view())
    }
}

impl View for ForStatement {
    type V = ForStatementView;

    open spec fn view(&self) -> ForStatementView
        decreases self, 0int,
    {
        ForStatementView {
            name: self.name@,
            target: self.target@,
            body: leading_statements(self.body@, self.body@.len() as int),
        }
    }
}

impl View for Statement {
    type V = StatementView;

    open spec fn view(&self) -> StatementView
        decreases self, 0int,
    {
        match self {
            Statement::ForStatement(repeat) => StatementView::ForStatement(repeat.view()),
            Statement::Node(node) => StatementView::Node(node.view()),
        }
    }
}

impl View for NodeDecl {
    type V = NodeDeclView;

    open spec fn view(&self) -> NodeDeclView
        decreases self, 0int,
    {
        NodeDeclView {
            name: self.name@,
            args: expression_views(self.args@),
            attributes: attribute_views(self.attributes@),
            body: leading_statements(self.body@, self.body@.len() as int),
        }
    }
}

/// The values of a sequence of statements.
pub open spec fn statement_views(statements: Seq<Statement>) -> Seq<StatementView> {
    statements.map_values(|s: Statement| s@)
}

pub proof fn lemma_leading_statements(statements: Seq<Statement>, n: int)
    requires
        0 <= n <= statements.len(),
    ensures
        leading_statements(statements, n) == statement_views(statements.take(n)),
    decreases n,
{
    if n > 0 {
        lemma_leading_statements(statements, n - 1);
        let shorter = statement_views(statements.take(n - 1)).push(statements[n - 1]@);
        let whole = statement_views(statements.take(n));
        assert forall|i: int| 0 <= i < n implies shorter[i] == whole[i] by {
            if i < n - 1 {
                assert(statements.take(n - 1)[i] == statements.take(n)[i]);
            }
        }
        assert(shorter =~= whole);
    } else {
        assert(leading_statements(statements, n) =~= statement_views(statements.take(n)));
    }
}

/// The body of a declaration's value is the values of its body.
pub proof fn lemma_body_views(statements: Seq<Statement>)
    ensures
        leading_statements(statements, statements.len() as int) == statement_views(statements),
{
    lemma_leading_statements(statements, statements.len() as int);
    assert(statements.take(statements.len() as int) =~= statements);
}

/// Whether `outcome` and the cursor `after` are what a production gives at
/// the cursor `before`: on success its value and the cursor behind it, on
/// failure its error and the cursor where it was.
pub open spec fn plain<T>(before: Parser, after: Parser, outcome: Result<T>, expected: Parsed<T>) -> bool {
    &&& after.tokens() == before.tokens()
    &&& match outcome {
        Ok(value) => expected == Ok::<(T, int), Seq<char>>((value, after.position())),
        Err(error) => expected == Err::<(T, int), Seq<char>>(error@) && after.position()
            == before.position(),
    }
}

/// As [`plain`], for a production whose value has a view.
pub open spec fn viewed<T: View>(
    before: Parser,
    after: Parser,
    outcome: Result<T>,
    expected: Parsed<T::V>,
) -> bool {
    &&& after.tokens() == before.tokens()
    &&& match outcome {
        Ok(value) => expected == Ok::<(T::V, int), Seq<char>>((value@, after.position())),
        Err(error) => expected == Err::<(T::V, int), Seq<char>>(error@) && after.position()
            == before.position(),
    }
}

fn ident_at(parser: &Parser, offset: usize) -> (r: Option<String>)
    ensures
        match r {
            Some(name) => name_at(parser.tokens(), parser.position() + offset) == Some(name@),
            None => name_at(parser.tokens(), parser.position() + offset) is None,
        },
{
    match parser.peek_ahead(offset) {
        Some(Token::Ident(name)) => Some(name.clone()),
        _ => None,
    }
}

fn punct_at(parser: &Parser, offset: usize, token: &Token) -> (r: bool)
    ensures
        r == (token_at(parser.tokens(), parser.position() + offset) == Some(token@)),
{
    match parser.peek_ahead(offset) {
        Some(found) => found.same(token),
        None => false,
    }
}

fn numeric_ahead(parser: &Parser, offset: usize) -> (r: Option<Px>)
    ensures
        r is Some <==> numeric_at(parser.tokens(), parser.position() + offset),
        r matches Some(value) ==> value == pixels_at(
            parser.tokens(),
            parser.position() + offset,
        ),
{
    match parser.peek_ahead(offset) {
        Some(found) => found.try_as_f32(),
        None => None,
    }
}

fn place_ahead(parser: &Parser, offset: usize) -> (r: Option<usize>)
    ensures
        r == place_at(parser.tokens(), parser.position() + offset),
{
    match parser.peek_ahead(offset) {
        Some(Token::Integer(value)) => {
            if *value >= 0 && (*value as u64) <= (usize::MAX as u64) {
                Some(*value as usize)
            } else {
                None
            }
        },
        _ => None,
    }
}

fn unexpected_ahead(parser: &Parser, offset: usize) -> (r: ParseError)
    ensures
        r@ == unexpected_text(token_at(parser.tokens(), parser.position() + offset)),
{
    ParseError::unexpected_token(parser.peek_ahead(offset))
}

fn expected_ahead(parser: &Parser, offset: usize, expected: &Token) -> (r: ParseError)
    ensures
        r@ == expected_text(
            token_text(expected@),
            token_at(parser.tokens(), parser.position() + offset),
        ),
{
    ParseError::expected_token(expected, parser.peek_ahead(offset))
}

impl FontWeight {
    /// Reads a font weight: one of `light`, `normal`, `bold`.
    pub fn parse(parser: &mut Parser) -> (r: Result<Self>)
        ensures
            plain(
                *old(parser),
                *final(parser),
                r,
                font_weight(old(parser).tokens(), old(parser).position()),
            ),
    {
        let found = match ident_at(parser, 0) {
            Some(name) => {
                if named(&name, "light") {
                    Some(FontWeight::Light)
                } else if named(&name, "normal") {
                    Some(FontWeight::Normal)
                } else if named(&name, "bold") {
                    Some(FontWeight::Bold)
                } else {
                    None
                }
            },
            None => None,
        };
        match found {
            Some(value) => {
                parser.skip(1);
                Ok(value)
            },
            None => Err(unexpected_ahead(parser, 0)),
        }
    }
}

impl FontSlant {
    /// Reads a font slant: one of `upright`, `italic`, `oblique`.
    pub fn parse(parser: &mut Parser) -> (r: Result<Self>)
        ensures
            plain(
                *old(parser),
                *final(parser),
                r,
                font_slant(old(parser).tokens(), old(parser).position()),
            ),
    {
        let found = match ident_at(parser, 0) {
            Some(name) => {
                if named(&name, "upright") {
                    Some(FontSlant::Upright)
                } else if named(&name, "italic") {
                    Some(FontSlant::Italic)
                } else if named(&name, "oblique") {
                    Some(FontSlant::Oblique)
                } else {
                    None
                }
            },
            None => None,
        };
        match found {
            Some(value) => {
                parser.skip(1);
                Ok(value)
            },
            None => Err(unexpected_ahead(parser, 0)),
        }
    }
}

impl Position {
    /// Reads a position: `absolute` or `relative`.
    pub fn parse(parser: &mut Parser) -> (r: Result<Self>)
        ensures
            plain(
                *old(parser),
                *final(parser),
                r,
                position_keyword(old(parser).tokens(), old(parser).position()),
            ),
    {
        let found = match ident_at(parser, 0) {
            Some(name) => {
                if named(&name, "absolute") {
                    Some(Position::Absolute)
                } else if named(&name, "relative") {
                    Some(Position::Relative)
                } else {
                    None
                }
            },
            None => None,
        };
        match found {
            Some(value) => {
                parser.skip(1);
                Ok(value)
            },
            None => Err(unexpected_ahead(parser, 0)),
        }
    }
}

impl Orientation {
    /// Reads an orientation: `vertical` or `horizontal`.
    pub fn parse(parser: &mut Parser) -> (r: Result<Self>)
        ensures
            plain(
                *old(parser),
                *final(parser),
                r,
                orientation(old(parser).tokens(), old(parser).position()),
            ),
    {
        let found = match ident_at(parser, 0) {
            Some(name) => {
                if named(&name, "vertical") {
                    Some(Orientation::Vertical)
                } else if named(&name, "horizontal") {
                    Some(Orientation::Horizontal)
                } else {
                    None
                }
            },
            None => None,
        };
        match found {
            Some(value) => {
                parser.skip(1);
                Ok(value)
            },
            None => Err(unexpected_ahead(parser, 0)),
        }
    }
}

/// Reads a path into data: a name and the keys chained to it.
pub fn parse_index(parser: &mut Parser) -> (r: Result<IndexExpression>)
    ensures
        viewed(
            *old(parser),
            *final(parser),
            r,
            index_path(old(parser).tokens(), old(parser).position()),
        ),
{
    let start = parser.mark();
    let ghost tokens = parser.tokens();
    let target = match ident_at(parser, 0) {
        Some(name) => name,
        None => {
            return Err(unexpected_ahead(parser, 0));
        },
    };
    let mut keys: Vec<Index> = Vec::new();
    let mut offset: usize = 1;
    assert(index_views(keys@) =~= Seq::empty());
    loop
        invariant_except_break
            *parser == *old(parser),
            tokens == parser.tokens(),
            start == parser.position(),
            name_at(tokens, start as int) == Some(target@),
            1 <= offset,
            start + offset <= tokens.len() <= usize::MAX,
            chain(tokens, start + offset, index_views(keys@)) == chain(
                tokens,
                start + 1,
                Seq::empty(),
            ),
        ensures
            *parser == *old(parser),
            tokens == parser.tokens(),
            start == parser.position(),
            start + offset <= tokens.len(),
            chain(tokens, start + 1, Seq::empty()) == Ok::<(Seq<IndexView>, int), Seq<char>>(
                (index_views(keys@), start + offset),
            ),
        decreases tokens.len() - start - offset,
    {
        let ghost before = keys@;
        if punct_at(parser, offset, &Token::Dot) {
            match ident_at(parser, offset + 1) {
                Some(name) => {
                    keys.push(Index::String(name));
                    assert(index_views(keys@) =~= index_views(before).push(
                        IndexView::String(name@),
                    ));
                    offset = offset + 2;
                },
                None => {
                    return Err(unexpected_ahead(parser, offset + 1));
                },
            }
        } else if punct_at(parser, offset, &Token::BracketOpen) {
            match place_ahead(parser, offset + 1) {
                Some(place) => {
                    if punct_at(parser, offset + 2, &Token::BracketClose) {
                        keys.push(Index::Number(place));
                        assert(index_views(keys@) =~= index_views(before).push(
                            IndexView::Number(place),
                        ));
                        offset = offset + 3;
                    } else {
                        return Err(expected_ahead(parser, offset + 2, &Token::BracketClose));
                    }
                },
                None => {
                    return Err(unexpected_ahead(parser, offset + 1));
                },
            }
        } else {
            break ;
        }
    }
    parser.skip(offset);
    Ok(IndexExpression { target, index: keys })
}

/// Reads a boolean literal.
pub fn parse_bool(parser: &mut Parser) -> (r: Result<bool>)
    ensures
        plain(*old(parser), *final(parser), r, boolean(old(parser).tokens(), old(parser).position())),
{
    let found = match parser.peek() {
        Some(Token::Boolean(value)) => Some(*value),
        _ => None,
    };
    match found {
        Some(value) => {
            parser.skip(1);
            Ok(value)
        },
        None => Err(unexpected_ahead(parser, 0)),
    }
}

/// Reads a plain string.
pub fn parse_string(parser: &mut Parser) -> (r: Result<String>)
    ensures
        viewed(*old(parser), *final(parser), r, string(old(parser).tokens(), old(parser).position())),
{
    let found = match parser.peek() {
        Some(Token::String(value)) => Some(value.clone()),
        _ => None,
    };
    match found {
        Some(value) => {
            parser.skip(1);
            Ok(value)
        },
        None => Err(unexpected_ahead(parser, 0)),
    }
}

/// Reads an integer.
pub fn parse_i64(parser: &mut Parser) -> (r: Result<i64>)
    ensures
        plain(*old(parser), *final(parser), r, integer(old(parser).tokens(), old(parser).position())),
{
    let found = match parser.peek() {
        Some(Token::Integer(value)) => Some(*value),
        _ => None,
    };
    match found {
        Some(value) => {
            parser.skip(1);
            Ok(value)
        },
        None => Err(unexpected_ahead(parser, 0)),
    }
}

/// Reads a number of either kind, in whole pixels.
pub fn parse_f32(parser: &mut Parser) -> (r: Result<Px>)
    ensures
        plain(*old(parser), *final(parser), r, whole(old(parser).tokens(), old(parser).position())),
{
    match numeric_ahead(parser, 0) {
        Some(value) => {
            parser.skip(1);
            Ok(value)
        },
        None => Err(unexpected_ahead(parser, 0)),
    }
}

impl FontSize {
    /// Reads a font size: a number.
    pub fn parse(parser: &mut Parser) -> (r: Result<Self>)
        ensures
            final(parser).tokens() == old(parser).tokens(),
            match r {
                Ok(size) => whole(old(parser).tokens(), old(parser).position()) == Ok::<
                    (Px, int),
                    Seq<char>,
                >((size.size, final(parser).position())),
                Err(error) => whole(old(parser).tokens(), old(parser).position()) == Err::<
                    (Px, int),
                    Seq<char>,
                >(error@) && final(parser).position() == old(parser).position(),
            },
    {
        match parse_f32(parser) {
            Ok(size) => Ok(FontSize::new(size)),
            Err(error) => Err(error),
        }
    }
}

impl FontFamily {
    /// Reads a font family: a plain string.
    pub fn parse(parser: &mut Parser) -> (r: Result<Self>)
        ensures
            viewed(
                *old(parser),
                *final(parser),
                r,
                string(old(parser).tokens(), old(parser).position()),
            ),
    {
        match parse_string(parser) {
            Ok(family) => Ok(FontFamily { family }),
            Err(error) => Err(error),
        }
    }
}

/// Reads a range: a place, two dots, a place.
pub fn parse_range(parser: &mut Parser) -> (r: Result<(usize, usize)>)
    ensures
        plain(*old(parser), *final(parser), r, range(old(parser).tokens(), old(parser).position())),
{
    let start = match place_ahead(parser, 0) {
        Some(place) => place,
        None => {
            return Err(unexpected_ahead(parser, 0));
        },
    };
    if !punct_at(parser, 1, &Token::Dot) {
        return Err(expected_ahead(parser, 1, &Token::Dot));
    }
    if !punct_at(parser, 2, &Token::Dot) {
        return Err(expected_ahead(parser, 2, &Token::Dot));
    }
    match place_ahead(parser, 3) {
        Some(end) => {
            parser.skip(4);
            Ok((start, end))
        },
        None => Err(unexpected_ahead(parser, 3)),
    }
}

impl Number {
    /// Reads a number by itself: one that neither a `%` nor another number
    /// follows.
    pub fn parse(parser: &mut Parser) -> (r: Result<Self>)
        ensures
            viewed(
                *old(parser),
                *final(parser),
                r,
                number(old(parser).tokens(), old(parser).position()),
            ),
    {
        if numeric_ahead(parser, 0).is_none() {
            return Err(unexpected_ahead(parser, 0));
        }
        if punct_at(parser, 1, &Token::Percent) || numeric_ahead(parser, 1).is_some() {
            return Err(unexpected_ahead(parser, 1));
        }
        let value = match parser.peek() {
            Some(Token::Float(text)) => Number::Float(text.clone()),
            Some(Token::Integer(value)) => Number::Int(*value),
            _ => Number::Int(0),
        };
        parser.skip(1);
        Ok(value)
    }
}

impl Length {
    /// Reads a percentage: a number and `%`.
    pub fn parse(parser: &mut Parser) -> (r: Result<Self>)
        ensures
            viewed(
                *old(parser),
                *final(parser),
                r,
                length(old(parser).tokens(), old(parser).position()),
            ),
    {
        match numeric_ahead(parser, 0) {
            Some(value) => {
                if punct_at(parser, 1, &Token::Percent) {
                    parser.skip(2);
                    Ok(Length::Percent(value))
                } else {
                    Err(expected_ahead(parser, 1, &Token::Percent))
                }
            },
            None => Err(unexpected_ahead(parser, 0)),
        }
    }
}

impl Literal {
    /// Reads a literal: a boolean, a range, a number, a percentage or a
    /// string, whichever fits first.
    pub fn parse(parser: &mut Parser) -> (r: Result<Self>)
        ensures
            viewed(
                *old(parser),
                *final(parser),
                r,
                literal(old(parser).tokens(), old(parser).position()),
            ),
    {
        match parse_bool(parser) {
            Ok(value) => {
                return Ok(Literal::Boolean(value));
            },
            Err(_) => {},
        }
        match parse_range(parser) {
            Ok((start, end)) => {
                return Ok(Literal::Range(start, end));
            },
            Err(_) => {},
        }
        match Number::parse(parser) {
            Ok(value) => {
                return Ok(Literal::Number(value));
            },
            Err(_) => {},
        }
        match Length::parse(parser) {
            Ok(value) => {
                return Ok(Literal::Length(value));
            },
            Err(_) => {},
        }
        match parse_string(parser) {
            Ok(value) => Ok(Literal::String(value)),
            Err(error) => Err(error),
        }
    }
}

impl Thickness {
    /// Reads a thickness in short: up to four numbers in a row.
    pub fn parse(parser: &mut Parser) -> (r: Result<Self>)
        ensures
            plain(
                *old(parser),
                *final(parser),
                r,
                thickness(old(parser).tokens(), old(parser).position()),
            ),
    {
        let ghost tokens = parser.tokens();
        let start = parser.mark();
        proof {
            lemma_numeric_run(tokens, start as int, 4);
            lemma_numeric_run(tokens, start + 1, 3);
            lemma_numeric_run(tokens, start + 2, 2);
            lemma_numeric_run(tokens, start + 3, 1);
        }
        let first = match numeric_ahead(parser, 0) {
            Some(value) => value,
            None => {
                return Err(ParseError::new("failed to parse thickness"));
            },
        };
        let second = match numeric_ahead(parser, 1) {
            Some(value) => value,
            None => {
                parser.skip(1);
                return Ok(Thickness::all(first));
            },
        };
        let third = match numeric_ahead(parser, 2) {
            Some(value) => value,
            None => {
                parser.skip(2);
                return Ok(Thickness::axis(first, second));
            },
        };
        match numeric_ahead(parser, 3) {
            Some(fourth) => {
                parser.skip(4);
                Ok(Thickness::custom(first, second, third, fourth))
            },
            None => {
                parser.skip(3);
                Ok(Thickness::axis(first, second))
            },
        }
    }
}

pub proof fn lemma_piece_views_push(pieces: Seq<Formatting>, piece: Formatting)
    ensures
        piece_views(pieces.push(piece)) == piece_views(pieces).push(piece@),
{
    assert(piece_views(pieces.push(piece)) =~= piece_views(pieces).push(piece@));
}

/// Builds the pieces of an interpolated string from its parts.
fn build_pieces(parts: &Vec<StringPart>) -> (r: Result<Vec<Formatting>>)
    ensures
        match r {
            Ok(built) => pieces(part_views(parts@), parts.len() as int) == Ok::<
                Seq<FormattingView>,
                Seq<char>,
            >(piece_views(built@)),
            Err(error) => pieces(part_views(parts@), parts.len() as int) == Err::<
                Seq<FormattingView>,
                Seq<char>,
            >(error@),
        },
    decreases part_views(parts@), 0int, 0int,
{
    let ghost views = part_views(parts@);
    let mut built: Vec<Formatting> = Vec::new();
    let mut i: usize = 0;
    assert(piece_views(built@) =~= Seq::empty());
    while i < parts.len()
        invariant
            i <= parts.len(),
            views == part_views(parts@),
            pieces(views, i as int) == Ok::<Seq<FormattingView>, Seq<char>>(piece_views(built@)),
        decreases parts.len() - i,
    {
        let ghost before = built@;
        match &parts[i] {
            StringPart::String(text) => {
                let piece = Formatting::String(text.clone());
                proof {
                    lemma_piece_views_push(before, piece);
                }
                built.push(piece);
            },
            StringPart::Formatted(tokens) => {
                let mut inner = Parser::new(copy_tokens(tokens));
                proof {
                    lemma_formatted_view(*tokens);
                    assert(views[i as int] == StringPartView::Formatted(inner.tokens()));
                    assert(decreases_to!(views => views[i as int]));
                    assert(decreases_to!(views[i as int] => views[i as int]->Formatted_0));
                }
                match Expression::parse(&mut inner) {
                    Ok(value) => {
                        let piece = Formatting::Expression(value);
                        proof {
                            lemma_piece_views_push(before, piece);
                        }
                        built.push(piece);
                    },
                    Err(error) => {
                        proof {
                            lemma_pieces_fail(views, i as int + 1, parts.len() as int);
                        }
                        return Err(error);
                    },
                }
            },
        }
        i += 1;
    }
    Ok(built)
}

/// The parts behind a region that begins with no expression change
/// nothing: the string stays spoilt by the first such region.
pub proof fn lemma_pieces_fail(parts: Seq<StringPartView>, failed: int, n: int)
    requires
        0 <= failed <= n <= parts.len(),
        pieces(parts, failed) is Err,
    ensures
        pieces(parts, n) == pieces(parts, failed),
    decreases n,
{
    if failed < n {
        lemma_pieces_fail(parts, failed, n - 1);
    }
}

/// Reads an interpolated string.
fn parse_formatted(parser: &mut Parser) -> (r: Result<Vec<Formatting>>)
    ensures
        final(parser).tokens() == old(parser).tokens(),
        match r {
            Ok(built) => formatted(old(parser).tokens(), old(parser).position()) == Ok::<
                (Seq<FormattingView>, int),
                Seq<char>,
            >((piece_views(built@), final(parser).position())),
            Err(error) => formatted(old(parser).tokens(), old(parser).position()) == Err::<
                (Seq<FormattingView>, int),
                Seq<char>,
            >(error@) && final(parser).position() == old(parser).position(),
        },
    decreases old(parser).tokens(), 1int, 0int,
{
    let ghost tokens = parser.tokens();
    let start = parser.mark();
    let parts = match parser.peek() {
        Some(Token::FormattedString(parts)) => {
            proof {
                lemma_formatted_string_view(*parts);
            }
            copy_parts(parts)
        },
        _ => {
            return Err(unexpected_ahead(parser, 0));
        },
    };
    proof {
        assert(tokens[start as int] == TokenView::FormattedString(part_views(parts@)));
        assert(decreases_to!(tokens => tokens[start as int]));
        assert(decreases_to!(tokens[start as int] => tokens[start as int]->FormattedString_0));
    }
    match build_pieces(&parts) {
        Ok(built) => {
            parser.skip(1);
            Ok(built)
        },
        Err(error) => Err(error),
    }
}

impl Expression {
    /// Reads an expression: a font weight, a font slant, a position, an
    /// orientation, a path, a literal, a thickness, an interpolated string
    /// or a name, whichever fits first.
    pub fn parse(parser: &mut Parser) -> (r: Result<Self>)
        ensures
            viewed(
                *old(parser),
                *final(parser),
                r,
                expression(old(parser).tokens(), old(parser).position()),
            ),
        decreases old(parser).tokens(), 2int, 0int,
    {
        match FontWeight::parse(parser) {
            Ok(value) => {
                return Ok(Expression::FontWeight(value));
            },
            Err(_) => {},
        }
        match FontSlant::parse(parser) {
            Ok(value) => {
                return Ok(Expression::FontSlant(value));
            },
            Err(_) => {},
        }
        match Position::parse(parser) {
            Ok(value) => {
                return Ok(Expression::Position(value));
            },
            Err(_) => {},
        }
        match Orientation::parse(parser) {
            Ok(value) => {
                return Ok(Expression::Orientation(value));
            },
            Err(_) => {},
        }
        match parse_index(parser) {
            Ok(value) => {
                return Ok(Expression::Index(value));
            },
            Err(_) => {},
        }
        match Literal::parse(parser) {
            Ok(value) => {
                return Ok(Expression::Literal(value));
            },
            Err(_) => {},
        }
        match Thickness::parse(parser) {
            Ok(value) => {
                return Ok(Expression::Thickness(value));
            },
            Err(_) => {},
        }
        match parse_formatted(parser) {
            Ok(value) => {
                proof {
                    lemma_formatted_expression(value);
                }
                return Ok(Expression::FormattedString(value));
            },
            Err(_) => {},
        }
        match ident_at(parser, 0) {
            Some(name) => {
                parser.skip(1);
                Ok(Expression::Ident(name))
            },
            None => Err(unexpected_ahead(parser, 0)),
        }
    }
}

impl Attribute {
    /// Reads an attribute: a name, `:` and an expression.
    pub fn parse(parser: &mut Parser) -> (r: Result<Self>)
        ensures
            viewed(
                *old(parser),
                *final(parser),
                r,
                attribute(old(parser).tokens(), old(parser).position()),
            ),
    {
        let start = parser.mark();
        let name = match ident_at(parser, 0) {
            Some(name) => name,
            None => {
                return Err(unexpected_ahead(parser, 0));
            },
        };
        if !punct_at(parser, 1, &Token::Colon) {
            return Err(expected_ahead(parser, 1, &Token::Colon));
        }
        parser.skip(2);
        match Expression::parse(parser) {
            Ok(value) => Ok(Attribute { name, value }),
            Err(error) => {
                parser.rewind(start);
                Err(error)
            },
        }
    }
}

/// Reads the attributes at the head of a body.
fn parse_attributes(parser: &mut Parser) -> (r: Vec<Attribute>)
    ensures
        final(parser).tokens() == old(parser).tokens(),
        attributes(old(parser).tokens(), old(parser).position(), Seq::empty()) == (
            attribute_views(r@),
            final(parser).position(),
        ),
{
    let ghost tokens = parser.tokens();
    let ghost goal = attributes(tokens, parser.position(), Seq::empty());
    let mut found: Vec<Attribute> = Vec::new();
    assert(attribute_views(found@) =~= Seq::empty());
    loop
        invariant_except_break
            tokens == parser.tokens(),
            attributes(tokens, parser.position(), attribute_views(found@)) == goal,
        ensures
            tokens == parser.tokens(),
            goal == (attribute_views(found@), parser.position()),
        decreases tokens.len() - parser.position(),
    {
        let here = parser.mark();
        let ghost before = found@;
        proof {
            lemma_attribute_bounds(tokens, here as int);
        }
        match Attribute::parse(parser) {
            Ok(value) => {
                assert(attribute_views(before.push(value)) =~= attribute_views(before).push(
                    value@,
                ));
                found.push(value);
                let next = parser.mark();
                if punct_at(parser, 0, &Token::Comma) {
                    parser.skip(1);
                } else {
                    break ;
                }
            },
            Err(_) => {
                break ;
            },
        }
    }
    found
}

/// Reads the arguments of a node behind its `(`, up to and with the `)`.
fn parse_arguments(parser: &mut Parser) -> (r: Result<Vec<Expression>>)
    ensures
        final(parser).tokens() == old(parser).tokens(),
        match r {
            Ok(found) => arguments(old(parser).tokens(), old(parser).position(), Seq::empty())
                == Ok::<(Seq<ExpressionView>, int), Seq<char>>(
                (expression_views(found@), final(parser).position()),
            ),
            Err(error) => arguments(old(parser).tokens(), old(parser).position(), Seq::empty())
                == Err::<(Seq<ExpressionView>, int), Seq<char>>(error@) && final(parser).position() == old(parser).position(),
        },
{
    let ghost tokens = parser.tokens();
    let start = parser.mark();
    let ghost goal = arguments(tokens, start as int, Seq::empty());
    let mut found: Vec<Expression> = Vec::new();
    assert(expression_views(found@) =~= Seq::empty());
    loop
        invariant
            tokens == parser.tokens(),
            tokens == old(parser).tokens(),
            start <= parser.position() <= tokens.len(),
            start == old(parser).position(),
            goal == arguments(tokens, start as int, Seq::empty()),
            arguments(tokens, parser.position(), expression_views(found@)) == goal,
        decreases tokens.len() - parser.position(),
    {
        let here = parser.mark();
        let ghost before = found@;
        if punct_at(parser, 0, &Token::ParenClose) {
            parser.skip(1);
            return Ok(found);
        }
        if found.len() > 0 {
            if punct_at(parser, 0, &Token::Comma) {
                parser.skip(1);
            } else {
                let error = expected_ahead(parser, 0, &Token::Comma);
                parser.rewind(start);
                return Err(error);
            }
        }
        proof {
            lemma_expression_bounds(tokens, parser.position());
        }
        match Expression::parse(parser) {
            Ok(value) => {
                assert(expression_views(before.push(value)) =~= expression_views(before).push(
                    value@,
                ));
                found.push(value);
            },
            Err(error) => {
                parser.rewind(start);
                return Err(error);
            },
        }
    }
}

pub proof fn lemma_statement_views_push(statements: Seq<Statement>, statement: Statement)
    ensures
        statement_views(statements.push(statement)) == statement_views(statements).push(
            statement@,
        ),
{
    assert(statement_views(statements.push(statement)) =~= statement_views(statements).push(
        statement@,
    ));
}

/// Reads the statements of a body, up to and with the `}` that closes it.
fn parse_block(parser: &mut Parser) -> (r: Result<Vec<Statement>>)
    ensures
        final(parser).tokens() == old(parser).tokens(),
        match r {
            Ok(found) => block(old(parser).tokens(), old(parser).position(), Seq::empty()) == Ok::<
                (Seq<StatementView>, int),
                Seq<char>,
            >((statement_views(found@), final(parser).position())) && final(parser).position()
                > old(parser).position(),
            Err(error) => block(old(parser).tokens(), old(parser).position(), Seq::empty())
                == Err::<(Seq<StatementView>, int), Seq<char>>(error@) && final(parser).position() == old(parser).position(),
        },
    decreases old(parser).tokens().len() - old(parser).position(), 3int,
{
    let ghost tokens = parser.tokens();
    let start = parser.mark();
    let ghost goal = block(tokens, start as int, Seq::empty());
    let mut found: Vec<Statement> = Vec::new();
    assert(statement_views(found@) =~= Seq::empty());
    loop
        invariant
            tokens == parser.tokens(),
            tokens == old(parser).tokens(),
            start <= parser.position() <= tokens.len(),
            start == old(parser).position(),
            goal == block(tokens, start as int, Seq::empty()),
            block(tokens, parser.position(), statement_views(found@)) == goal,
        decreases tokens.len() - parser.position(),
    {
        let here = parser.mark();
        let ghost before = found@;
        if punct_at(parser, 0, &Token::BraceClose) {
            parser.skip(1);
            return Ok(found);
        }
        proof {
            crate::lang::grammar::lemma_statement_bounds(tokens, here as int);
        }
        match Statement::parse(parser) {
            Ok(value) => {
                proof {
                    lemma_statement_views_push(before, value);
                }
                let next = parser.mark();
                found.push(value);
            },
            Err(error) => {
                parser.rewind(start);
                return Err(error);
            },
        }
    }
}

/// Reads the head of a repetition: `for`, a name, `in`, an expression and
/// the `{` that opens the body.
fn parse_for_head(parser: &mut Parser) -> (r: Result<(String, Expression)>)
    ensures
        final(parser).tokens() == old(parser).tokens(),
        match r {
            Ok((name, target)) => for_head(old(parser).tokens(), old(parser).position()) == Ok::<
                ((Seq<char>, ExpressionView), int),
                Seq<char>,
            >(((name@, target@), final(parser).position())),
            Err(error) => for_head(old(parser).tokens(), old(parser).position()) == Err::<
                ((Seq<char>, ExpressionView), int),
                Seq<char>,
            >(error@) && final(parser).position() == old(parser).position(),
        },
{
    let start = parser.mark();
    let word_for = Token::ident("for");
    let word_in = Token::ident("in");
    if !punct_at(parser, 0, &word_for) {
        return Err(expected_ahead(parser, 0, &word_for));
    }
    let name = match ident_at(parser, 1) {
        Some(name) => name,
        None => {
            return Err(unexpected_ahead(parser, 1));
        },
    };
    if !punct_at(parser, 2, &word_in) {
        return Err(expected_ahead(parser, 2, &word_in));
    }
    parser.skip(3);
    proof {
        lemma_expression_bounds(parser.tokens(), parser.position());
    }
    match Expression::parse(parser) {
        Ok(target) => {
            let next = parser.mark();
            if punct_at(parser, 0, &Token::BraceOpen) {
                parser.skip(1);
                Ok((name, target))
            } else {
                let error = expected_ahead(parser, 0, &Token::BraceOpen);
                parser.rewind(start);
                Err(error)
            }
        },
        Err(error) => {
            parser.rewind(start);
            Err(error)
        },
    }
}

/// The head of a node: its name, arguments and attributes, and whether a
/// body follows.
pub struct NodeHead {
    pub name: String,
    pub args: Vec<Expression>,
    pub attributes: Vec<Attribute>,
    pub opened: bool,
}

/// Reads the head of a node: its name, then maybe arguments in
/// parentheses, then maybe the `{` of a body and the attributes behind it.
fn parse_node_head(parser: &mut Parser) -> (r: Result<NodeHead>)
    ensures
        final(parser).tokens() == old(parser).tokens(),
        match r {
            Ok(head) => node_head(old(parser).tokens(), old(parser).position()) == Ok::<
                ((Seq<char>, Seq<ExpressionView>, Seq<AttributeView>, bool), int),
                Seq<char>,
            >(
                (
                    (
                        head.name@,
                        expression_views(head.args@),
                        attribute_views(head.attributes@),
                        head.opened,
                    ),
                    final(parser).position(),
                ),
            ),
            Err(error) => node_head(old(parser).tokens(), old(parser).position()) == Err::<
                ((Seq<char>, Seq<ExpressionView>, Seq<AttributeView>, bool), int),
                Seq<char>,
            >(error@) && final(parser).position() == old(parser).position(),
        },
{
    let start = parser.mark();
    let ghost tokens = parser.tokens();
    let name = match ident_at(parser, 0) {
        Some(name) => name,
        None => {
            return Err(unexpected_ahead(parser, 0));
        },
    };
    let args = if punct_at(parser, 1, &Token::ParenOpen) {
        parser.skip(2);
        match parse_arguments(parser) {
            Ok(found) => found,
            Err(error) => {
                parser.rewind(start);
                return Err(error);
            },
        }
    } else {
        parser.skip(1);
        let none: Vec<Expression> = Vec::new();
        assert(expression_views(none@) =~= Seq::empty());
        none
    };
    let next = parser.mark();
    if punct_at(parser, 0, &Token::BraceOpen) {
        parser.skip(1);
        let attributes = parse_attributes(parser);
        Ok(NodeHead { name, args, attributes, opened: true })
    } else {
        let attributes: Vec<Attribute> = Vec::new();
        assert(attribute_views(attributes@) =~= Seq::empty());
        Ok(NodeHead { name, args, attributes, opened: false })
    }
}

impl ForStatement {
    /// Reads a repetition: `for`, a name, `in`, an expression and a body in
    /// braces.
    pub fn parse(parser: &mut Parser) -> (r: Result<Self>)
        ensures
            viewed(
                *old(parser),
                *final(parser),
                r,
                for_statement(old(parser).tokens(), old(parser).position()),
            ),
        decreases old(parser).tokens().len() - old(parser).position(), 1int,
    {
        let start = parser.mark();
        let ghost tokens = parser.tokens();
        proof {
            lemma_head_bounds(tokens, start as int);
        }
        match parse_for_head(parser) {
            Ok((name, target)) => {
                let opened = parser.mark();
                match parse_block(parser) {
                    Ok(body) => {
                        proof {
                            lemma_body_views(body@);
                        }
                        Ok(ForStatement { name, target, body })
                    },
                    Err(error) => {
                        parser.rewind(start);
                        Err(error)
                    },
                }
            },
            Err(error) => Err(error),
        }
    }
}

impl NodeDecl {
    /// Reads a node: a name, then maybe arguments in parentheses, then
    /// maybe a body in braces of attributes and statements.
    pub fn parse(parser: &mut Parser) -> (r: Result<Self>)
        ensures
            viewed(
                *old(parser),
                *final(parser),
                r,
                node(old(parser).tokens(), old(parser).position()),
            ),
        decreases old(parser).tokens().len() - old(parser).position(), 1int,
    {
        let start = parser.mark();
        let ghost tokens = parser.tokens();
        proof {
            lemma_head_bounds(tokens, start as int);
        }
        match parse_node_head(parser) {
            Ok(head) => {
                let opened = parser.mark();
                if head.opened {
                    match parse_block(parser) {
                        Ok(body) => {
                            proof {
                                lemma_body_views(body@);
                            }
                            Ok(
                                NodeDecl {
                                    name: head.name,
                                    args: head.args,
                                    attributes: head.attributes,
                                    body,
                                },
                            )
                        },
                        Err(error) => {
                            parser.rewind(start);
                            Err(error)
                        },
                    }
                } else {
                    let body: Vec<Statement> = Vec::new();
                    proof {
                        lemma_body_views(body@);
                        assert(statement_views(body@) =~= Seq::empty());
                    }
                    Ok(
                        NodeDecl {
                            name: head.name,
                            args: head.args,
                            attributes: head.attributes,
                            body,
                        },
                    )
                }
            },
            Err(error) => Err(error),
        }
    }
}

impl Statement {
    /// Reads a statement: a repetition, or else a node.
    pub fn parse(parser: &mut Parser) -> (r: Result<Self>)
        ensures
            viewed(
                *old(parser),
                *final(parser),
                r,
                statement(old(parser).tokens(), old(parser).position()),
            ),
        decreases old(parser).tokens().len() - old(parser).position(), 2int,
    {
        match ForStatement::parse(parser) {
            Ok(value) => Ok(Statement::ForStatement(value)),
            Err(_) => match NodeDecl::parse(parser) {
                Ok(value) => Ok(Statement::Node(value)),
                Err(error) => Err(error),
            },
        }
    }
}

} // verus!
