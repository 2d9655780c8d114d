//! Binding a declaration to data: from the syntax tree to the styled tree.

use vstd::prelude::*;
use crate::elements::{
    ContainerElement, Element, GridElement, ImageElement, Masonry, Orientation, TextElement,
};
use crate::geometry::{clamp, Px};
use crate::lang::grammar::node;
use crate::lang::lexer::float_whole;
use crate::lang::parser::{ParseError, Parser, Result};
use crate::lang::program::{
    attribute_views, expression_views, lemma_body_views, lemma_formatted_expression, piece_views,
    statement_views, Attribute, AttributeView, Expression, ExpressionView, ForStatement,
    ForStatementView, Formatting, FormattingView, IndexExpression, IndexExpressionView, Literal,
    LiteralView, NodeDecl, NodeDeclView, Number, NumberView, Statement, StatementView,
};
use crate::lang::value::{
    index_views, named, optional_value, value_text, Index, Indexable, IndexView, Value, ValueView,
};
use crate::node::{
    children_of, lemma_children_views, lemma_node_views_add, lemma_node_views_push, node_views,
    with_children, with_orientation, with_spacing, ElementView, Node, NodeView,
};
use crate::styling::colors::color_of;
use crate::styling::style::plain_style;
use crate::styling::{
    Color, FontFamily, FontSize, Length, LengthView, Style, StyleView, Thickness,
};
use crate::text::{bool_text, decimal_text, push_bool, push_text};

verus! {

/// The value that a loop gives its variable in one round.
#[derive(Debug)]
pub struct Binding {
    pub name: String,
    pub value: Value,
}

pub struct BindingView {
    pub name: Seq<char>,
    pub value: ValueView,
}

impl View for Binding {
    type V = BindingView;

    open spec fn view(&self) -> BindingView {
        BindingView { name: self.name@, value: self.value@ }
    }
}

/// The values of a sequence of bindings.
pub open spec fn binding_views(scope: Seq<Binding>) -> Seq<BindingView> {
    scope.map_values(|b: Binding| b@)
}

/// One entry of the colour table.
#[derive(Debug)]
pub struct ThemeColor {
    pub name: String,
    pub color: Color,
}

pub struct ThemeColorView {
    pub name: Seq<char>,
    pub color: Color,
}

impl View for ThemeColor {
    type V = ThemeColorView;

    open spec fn view(&self) -> ThemeColorView {
        ThemeColorView { name: self.name@, color: self.color }
    }
}

impl ThemeColor {
    pub fn new(name: &str, color: Color) -> (r: Self)
        ensures
            r@ == (ThemeColorView { name: name@, color }),
    {
        Self { name: name.to_owned(), color }
    }
}

/// The values of a colour table.
pub open spec fn theme_views(theme: Seq<ThemeColor>) -> Seq<ThemeColorView> {
    theme.map_values(|c: ThemeColor| c@)
}

/// What a path stands for: a scalar of the data, or a colour of the table.
#[derive(Debug)]
pub enum Resolved {
    Value(Value),
    Color(Color),
}

pub enum ResolvedView {
    Value(ValueView),
    Color(Color),
}

impl View for Resolved {
    type V = ResolvedView;

    open spec fn view(&self) -> ResolvedView {
        match self {
            Resolved::Value(value) => ResolvedView::Value(value@),
            Resolved::Color(color) => ResolvedView::Color(*color),
        }
    }
}

/// The value of what a path may stand for.
pub open spec fn optional_resolved(found: Option<Resolved>) -> Option<ResolvedView> {
    match found {
        Some(value) => Some(value@),
        None => None,
    }
}

/// Data that holds nothing: what binds where the host has no data.
#[derive(Debug, Clone, Copy, PartialEq, Eq, Structural)]
pub struct NoData;

impl Indexable for NoData {
    open spec fn lookup(&self, keys: Seq<IndexView>) -> Option<ValueView> {
        None
    }

    fn index(&self, keys: Vec<Index>) -> (r: Option<Value>) {
        None
    }
}

/// What the innermost of the first `n` bindings of `name` holds.
pub open spec fn bound_in(scope: Seq<BindingView>, name: Seq<char>, n: int) -> Option<ValueView>
    decreases n,
{
    if n <= 0 || n > scope.len() {
        None
    } else if scope[n - 1].name == name {
        Some(scope[n - 1].value)
    } else {
        bound_in(scope, name, n - 1)
    }
}

/// The colour of the first entry from `from` on that is called `name`.
pub open spec fn color_from(theme: Seq<ThemeColorView>, name: Seq<char>, from: int) -> Option<Color>
    decreases theme.len() - from,
{
    if from < 0 || from >= theme.len() {
        None
    } else if theme[from].name == name {
        Some(theme[from].color)
    } else {
        color_from(theme, name, from + 1)
    }
}

/// The keys of a path, its first name among them.
pub open spec fn full_path(path: IndexExpressionView) -> Seq<IndexView> {
    seq![IndexView::String(path.target)] + path.index
}

/// The name under `theme` that a path asks the colour table for.
pub open spec fn theme_name(path: IndexExpressionView) -> Option<Seq<char>> {
    if path.target == "theme"@ && path.index.len() == 1 {
        match path.index[0] {
            IndexView::String(name) => Some(name),
            IndexView::Number(_) => None,
        }
    } else {
        None
    }
}

/// What a path stands for. The innermost loop that binds its first name
/// answers first, and with nothing if keys follow the name; then the data;
/// then, for `theme` and one name, the colour table.
pub open spec fn resolved<D: Indexable>(
    path: IndexExpressionView,
    scope: Seq<BindingView>,
    data: Option<D>,
    theme: Seq<ThemeColorView>,
) -> Option<ResolvedView> {
    if bound_in(scope, path.target, scope.len() as int) is Some {
        if path.index.len() == 0 {
            Some(ResolvedView::Value(bound_in(scope, path.target, scope.len() as int)->0))
        } else {
            None
        }
    } else if data is Some && data->0.lookup(full_path(path)) is Some {
        Some(ResolvedView::Value(data->0.lookup(full_path(path))->0))
    } else {
        match theme_name(path) {
            Some(name) => match color_from(theme, name, 0) {
                Some(color) => Some(ResolvedView::Color(color)),
                None => None,
            },
            None => None,
        }
    }
}

/// The whole pixels of a number as the source wrote it.
pub open spec fn number_pixels(number: NumberView) -> Px {
    match number {
        NumberView::Float(text) => float_whole(text),
        NumberView::Int(value) => value,
    }
}

/// The pixels that a scalar counts as: an integer held to the pixel range,
/// and nothing for any other scalar.
pub open spec fn value_pixels(value: ValueView) -> Option<Px> {
    match value {
        ValueView::I8(v) => Some(v as Px),
        ValueView::U8(v) => Some(v as Px),
        ValueView::I16(v) => Some(v as Px),
        ValueView::U16(v) => Some(v as Px),
        ValueView::I32(v) => Some(v as Px),
        ValueView::U32(v) => Some(v as Px),
        ValueView::I64(v) => Some(v),
        ValueView::U64(v) => Some(clamp(v as int)),
        _ => None,
    }
}

/// The pixels of an expression: of a number, or of a path to an integer.
pub open spec fn pixels<D: Indexable>(
    expression: ExpressionView,
    scope: Seq<BindingView>,
    data: Option<D>,
    theme: Seq<ThemeColorView>,
) -> Option<Px> {
    match expression {
        ExpressionView::Literal(LiteralView::Number(number)) => Some(number_pixels(number)),
        ExpressionView::Index(path) => match resolved(path, scope, data, theme) {
            Some(ResolvedView::Value(value)) => value_pixels(value),
            _ => None,
        },
        _ => None,
    }
}

/// The place that an expression names: its pixels, where they are no
/// negative number.
pub open spec fn place<D: Indexable>(
    expression: ExpressionView,
    scope: Seq<BindingView>,
    data: Option<D>,
    theme: Seq<ThemeColorView>,
) -> Option<usize> {
    match pixels(expression, scope, data, theme) {
        Some(value) if 0 <= value <= usize::MAX => Some(value as usize),
        _ => None,
    }
}

/// The text of an expression: of a string, a number or a boolean as the
/// source wrote it, of a path to a scalar, or of an interpolated string,
/// whose pieces stand one behind the other.
pub open spec fn text<D: Indexable>(
    expression: ExpressionView,
    scope: Seq<BindingView>,
    data: Option<D>,
    theme: Seq<ThemeColorView>,
) -> Option<Seq<char>>
    decreases expression, 0int,
{
    match expression {
        ExpressionView::Literal(LiteralView::String(value)) => Some(value),
        ExpressionView::Literal(LiteralView::Boolean(value)) => Some(bool_text(value)),
        ExpressionView::Literal(LiteralView::Number(NumberView::Int(value))) => Some(
            decimal_text(value as int),
        ),
        ExpressionView::Literal(LiteralView::Number(NumberView::Float(value))) => Some(value),
        ExpressionView::Index(path) => match resolved(path, scope, data, theme) {
            Some(ResolvedView::Value(value)) => Some(value_text(value)),
            _ => None,
        },
        ExpressionView::FormattedString(pieces) => Some(
            joined(pieces, pieces.len() as int, scope, data, theme),
        ),
        _ => None,
    }
}

/// The first `n` pieces of an interpolated string as text. A piece without
/// a text stands for no text at all.
pub open spec fn joined<D: Indexable>(
    pieces: Seq<FormattingView>,
    n: int,
    scope: Seq<BindingView>,
    data: Option<D>,
    theme: Seq<ThemeColorView>,
) -> Seq<char>
    decreases pieces, n,
{
    if n <= 0 || n > pieces.len() {
        Seq::empty()
    } else {
        joined(pieces, n - 1, scope, data, theme) + match pieces[n - 1] {
            FormattingView::String(value) => value,
            FormattingView::Expression(inner) => match text(inner, scope, data, theme) {
                Some(value) => value,
                None => Seq::empty(),
            },
        }
    }
}

/// The colour of an expression: of a path into the colour table, or of a
/// number written `0xAARRGGBB`, in the source or in the data.
pub open spec fn colour<D: Indexable>(
    expression: ExpressionView,
    scope: Seq<BindingView>,
    data: Option<D>,
    theme: Seq<ThemeColorView>,
) -> Option<Color> {
    match expression {
        ExpressionView::Index(path) => match resolved(path, scope, data, theme) {
            Some(ResolvedView::Color(color)) => Some(color),
            Some(ResolvedView::Value(ValueView::U32(value))) => Some(color_of(value)),
            _ => None,
        },
        ExpressionView::Literal(LiteralView::Number(NumberView::Int(value))) => if 0 <= value
            <= u32::MAX {
            Some(color_of(value as u32))
        } else {
            None
        },
        _ => None,
    }
}

/// The thickness of an expression: one in short, or a number for all four
/// sides.
pub open spec fn thick<D: Indexable>(
    expression: ExpressionView,
    scope: Seq<BindingView>,
    data: Option<D>,
    theme: Seq<ThemeColorView>,
) -> Option<Thickness> {
    match expression {
        ExpressionView::Thickness(value) => Some(value),
        other => match pixels(other, scope, data, theme) {
            Some(value) => Some(
                Thickness { left: value, top: value, right: value, bottom: value },
            ),
            None => None,
        },
    }
}

/// The length of an expression: a percentage, or a number of pixels.
pub open spec fn long<D: Indexable>(
    expression: ExpressionView,
    scope: Seq<BindingView>,
    data: Option<D>,
    theme: Seq<ThemeColorView>,
) -> Option<LengthView> {
    match expression {
        ExpressionView::Literal(LiteralView::Length(value)) => Some(value),
        other => match pixels(other, scope, data, theme) {
            Some(value) => Some(LengthView::Px(value)),
            None => None,
        },
    }
}

/// The style after one attribute. The attribute's name picks the property;
/// an attribute of another name, or one whose expression gives no value of
/// the property's kind, leaves the style as it is.
pub open spec fn styled<D: Indexable>(
    style: StyleView,
    attribute: AttributeView,
    scope: Seq<BindingView>,
    data: Option<D>,
    theme: Seq<ThemeColorView>,
) -> StyleView {
    let name = attribute.name;
    let value = attribute.value;
    if name == "margin"@ {
        match thick(value, scope, data, theme) {
            Some(sides) => StyleView { margin: sides, ..style },
            None => style,
        }
    } else if name == "padding"@ {
        match thick(value, scope, data, theme) {
            Some(sides) => StyleView { padding: sides, ..style },
            None => style,
        }
    } else if name == "corner-radius"@ {
        match thick(value, scope, data, theme) {
            Some(sides) => StyleView { corner_radius: sides, ..style },
            None => style,
        }
    } else if name == "width"@ {
        match long(value, scope, data, theme) {
            Some(length) => StyleView { width: Some(length), ..style },
            None => style,
        }
    } else if name == "height"@ {
        match long(value, scope, data, theme) {
            Some(length) => StyleView { height: Some(length), ..style },
            None => style,
        }
    } else if name == "background"@ {
        match colour(value, scope, data, theme) {
            Some(color) => StyleView { background: Some(color), ..style },
            None => style,
        }
    } else if name == "color"@ {
        match colour(value, scope, data, theme) {
            Some(color) => StyleView { color: Some(color), ..style },
            None => style,
        }
    } else if name == "font-family"@ {
        match text(value, scope, data, theme) {
            Some(family) => StyleView { font_family: family, ..style },
            None => style,
        }
    } else if name == "font-size"@ {
        match pixels(value, scope, data, theme) {
            Some(size) => StyleView { font_size: FontSize { size }, ..style },
            None => style,
        }
    } else if name == "font-weight"@ {
        match value {
            ExpressionView::FontWeight(weight) => StyleView { font_weight: weight, ..style },
            _ => style,
        }
    } else if name == "font-slant"@ {
        match value {
            ExpressionView::FontSlant(slant) => StyleView { font_slant: slant, ..style },
            _ => style,
        }
    } else if name == "position"@ {
        match value {
            ExpressionView::Position(position) => StyleView { position, ..style },
            _ => style,
        }
    } else if name == "x"@ {
        match pixels(value, scope, data, theme) {
            Some(x) => StyleView { x: Some(x), ..style },
            None => style,
        }
    } else if name == "y"@ {
        match pixels(value, scope, data, theme) {
            Some(y) => StyleView { y: Some(y), ..style },
            None => style,
        }
    } else if name == "row"@ {
        match place(value, scope, data, theme) {
            Some(row) => StyleView { row, ..style },
            None => style,
        }
    } else if name == "row-span"@ {
        match place(value, scope, data, theme) {
            Some(row_span) => StyleView { row_span, ..style },
            None => style,
        }
    } else if name == "column"@ {
        match place(value, scope, data, theme) {
            Some(column) => StyleView { column, ..style },
            None => style,
        }
    } else if name == "column-span"@ {
        match place(value, scope, data, theme) {
            Some(column_span) => StyleView { column_span, ..style },
            None => style,
        }
    } else {
        style
    }
}

/// The element after one attribute: `spacing` sets the gap of a container
/// of any kind and `orientation` the axis of a linear flow.
pub open spec fn arranged<D: Indexable>(
    element: ElementView,
    attribute: AttributeView,
    scope: Seq<BindingView>,
    data: Option<D>,
    theme: Seq<ThemeColorView>,
) -> ElementView {
    if attribute.name == "spacing"@ {
        match pixels(attribute.value, scope, data, theme) {
            Some(gap) => with_spacing(element, gap),
            None => element,
        }
    } else if attribute.name == "orientation"@ {
        match attribute.value {
            ExpressionView::Orientation(axis) => with_orientation(element, axis),
            _ => element,
        }
    } else {
        element
    }
}

/// A node after the first `n` of its attributes, each applied in turn.
pub open spec fn attributed<D: Indexable>(
    start: NodeView,
    attributes: Seq<AttributeView>,
    n: int,
    scope: Seq<BindingView>,
    data: Option<D>,
    theme: Seq<ThemeColorView>,
) -> NodeView
    decreases n,
{
    if n <= 0 || n > attributes.len() {
        start
    } else {
        let before = attributed(start, attributes, n - 1, scope, data, theme);
        NodeView {
            style: styled(before.style, attributes[n - 1], scope, data, theme),
            element: arranged(before.element, attributes[n - 1], scope, data, theme),
        }
    }
}

/// The bytes that an expression leads to in the data, and none where it
/// leads to no bytes.
pub open spec fn bytes<D: Indexable>(
    expression: ExpressionView,
    scope: Seq<BindingView>,
    data: Option<D>,
    theme: Seq<ThemeColorView>,
) -> Seq<u8> {
    match expression {
        ExpressionView::Index(path) => match resolved(path, scope, data, theme) {
            Some(ResolvedView::Value(ValueView::BinaryData(found))) => found,
            _ => Seq::empty(),
        },
        _ => Seq::empty(),
    }
}

/// The text of the first argument, and none without one.
pub open spec fn first_text<D: Indexable>(
    args: Seq<ExpressionView>,
    scope: Seq<BindingView>,
    data: Option<D>,
    theme: Seq<ThemeColorView>,
) -> Seq<char> {
    if args.len() == 0 {
        Seq::empty()
    } else {
        match text(args[0], scope, data, theme) {
            Some(value) => value,
            None => Seq::empty(),
        }
    }
}

/// The empty element that a declaration's name and arguments ask for.
///
/// `Row`, `Column` and `Container` are linear flows, `Masonry` takes its
/// column width and `Text` its text from the first argument, and `Image`
/// takes bytes from the data, or else a name, from its first argument; its
/// picture has no size until it is decoded. Any other name asks for
/// nothing.
pub open spec fn element_named<D: Indexable>(
    name: Seq<char>,
    args: Seq<ExpressionView>,
    scope: Seq<BindingView>,
    data: Option<D>,
    theme: Seq<ThemeColorView>,
) -> Option<ElementView> {
    if name == "Row"@ {
        Some(
            ElementView::Container {
                orientation: Orientation::Horizontal,
                spacing: 0,
                children: Seq::empty(),
            },
        )
    } else if name == "Column"@ || name == "Container"@ {
        Some(
            ElementView::Container {
                orientation: Orientation::Vertical,
                spacing: 0,
                children: Seq::empty(),
            },
        )
    } else if name == "Masonry"@ {
        Some(
            ElementView::Masonry {
                spacing: 0,
                item_width: if args.len() == 0 {
                    0
                } else {
                    match pixels(args[0], scope, data, theme) {
                        Some(width) => width,
                        None => 0,
                    }
                },
                children: Seq::empty(),
            },
        )
    } else if name == "Grid"@ {
        Some(
            ElementView::Grid {
                rows: Seq::empty(),
                columns: Seq::empty(),
                spacing: 0,
                children: Seq::empty(),
            },
        )
    } else if name == "Text"@ {
        Some(ElementView::Text { data: first_text(args, scope, data, theme) })
    } else if name == "Image"@ {
        Some(
            ElementView::Image {
                name: first_text(args, scope, data, theme),
                bytes: if args.len() == 0 {
                    Seq::empty()
                } else {
                    bytes(args[0], scope, data, theme)
                },
                width: 0,
                height: 0,
            },
        )
    } else {
        None
    }
}

/// The description of the error at a declaration of an unknown name.
pub open spec fn unknown_element(name: Seq<char>) -> Seq<char> {
    "Unknown element "@ + name
}

/// The values that a loop over `target` goes through: the numbers of a
/// range, or the bytes that a path leads to; none for any other target.
pub open spec fn elements<D: Indexable>(
    target: ExpressionView,
    scope: Seq<BindingView>,
    data: Option<D>,
    theme: Seq<ThemeColorView>,
) -> Seq<ValueView> {
    match target {
        ExpressionView::Literal(LiteralView::Range(start, end)) => if start < end {
            Seq::new((end - start) as nat, |i: int| ValueView::U64((start + i) as u64))
        } else {
            Seq::empty()
        },
        other => bytes(other, scope, data, theme).map_values(|byte: u8| ValueView::U8(byte)),
    }
}

/// The node that a declaration stands for: the element of its name, its
/// attributes applied in order, and the nodes of its body for children.
pub open spec fn bound<D: Indexable>(
    decl: NodeDeclView,
    scope: Seq<BindingView>,
    data: Option<D>,
    theme: Seq<ThemeColorView>,
) -> std::result::Result<NodeView, Seq<char>>
    decreases decl, 0int, 0int,
{
    match element_named(decl.name, decl.args, scope, data, theme) {
        Some(element) => {
            let own = attributed(
                NodeView { style: plain_style(1), element },
                decl.attributes,
                decl.attributes.len() as int,
                scope,
                data,
                theme,
            );
            match expanded(decl.body, decl.body.len() as int, scope, data, theme) {
                Ok(children) => Ok(
                    NodeView { style: own.style, element: with_children(own.element, children) },
                ),
                Err(error) => Err(error),
            }
        },
        None => Err(unknown_element(decl.name)),
    }
}

/// The nodes of the first `n` statements: one for a declaration, and for a
/// loop those of every round, in order.
pub open spec fn expanded<D: Indexable>(
    statements: Seq<StatementView>,
    n: int,
    scope: Seq<BindingView>,
    data: Option<D>,
    theme: Seq<ThemeColorView>,
) -> std::result::Result<Seq<NodeView>, Seq<char>>
    decreases statements, 0int, n,
{
    if n <= 0 || n > statements.len() {
        Ok(Seq::empty())
    } else {
        match expanded(statements, n - 1, scope, data, theme) {
            Ok(before) => match statements[n - 1] {
                StatementView::Node(decl) => match bound(decl, scope, data, theme) {
                    Ok(built) => Ok(before.push(built)),
                    Err(error) => Err(error),
                },
                StatementView::ForStatement(repeat) => match repeated(
                    repeat,
                    elements(repeat.target, scope, data, theme),
                    elements(repeat.target, scope, data, theme).len() as int,
                    scope,
                    data,
                    theme,
                ) {
                    Ok(rounds) => Ok(before + rounds),
                    Err(error) => Err(error),
                },
            },
            Err(error) => Err(error),
        }
    }
}

/// The nodes of the first `n` rounds of a loop over `items`: the body, with
/// the loop's variable bound innermost to the item of the round.
pub open spec fn repeated<D: Indexable>(
    repeat: ForStatementView,
    items: Seq<ValueView>,
    n: int,
    scope: Seq<BindingView>,
    data: Option<D>,
    theme: Seq<ThemeColorView>,
) -> std::result::Result<Seq<NodeView>, Seq<char>>
    decreases repeat, 0int, n,
{
    if n <= 0 || n > items.len() {
        Ok(Seq::empty())
    } else {
        match repeated(repeat, items, n - 1, scope, data, theme) {
            Ok(before) => match expanded(
                repeat.body,
                repeat.body.len() as int,
                scope.push(BindingView { name: repeat.name, value: items[n - 1] }),
                data,
                theme,
            ) {
                Ok(round) => Ok(before + round),
                Err(error) => Err(error),
            },
            Err(error) => Err(error),
        }
    }
}

/// The data that a reference to data, if any, refers to.
pub open spec fn held<D>(data: Option<&D>) -> Option<D> {
    match data {
        Some(found) => Some(*found),
        None => None,
    }
}

fn lookup_binding(scope: &Vec<Binding>, name: &String) -> (r: Option<Value>)
    ensures
        optional_value(r) == bound_in(binding_views(scope@), name@, scope.len() as int),
{
    let ghost views = binding_views(scope@);
    let mut i: usize = scope.len();
    while i > 0
        invariant
            i <= scope.len(),
            views == binding_views(scope@),
            bound_in(views, name@, i as int) == bound_in(views, name@, scope.len() as int),
        decreases i,
    {
        i -= 1;
        if scope[i].name == *name {
            return Some(scope[i].value.duplicate());
        }
    }
    None
}

fn lookup_color(theme: &Vec<ThemeColor>, name: &String) -> (r: Option<Color>)
    ensures
        r == color_from(theme_views(theme@), name@, 0),
{
    let ghost views = theme_views(theme@);
    let mut i: usize = 0;
    while i < theme.len()
        invariant
            i <= theme.len(),
            views == theme_views(theme@),
            color_from(views, name@, i as int) == color_from(views, name@, 0),
        decreases theme.len() - i,
    {
        if theme[i].name == *name {
            return Some(theme[i].color);
        }
        i += 1;
    }
    None
}

fn whole_path(path: &IndexExpression) -> (r: Vec<Index>)
    ensures
        index_views(r@) == full_path(path@),
{
    let mut keys: Vec<Index> = Vec::new();
    keys.push(Index::String(path.target.clone()));
    let mut i: usize = 0;
    assert(index_views(keys@) =~= seq![IndexView::String(path.target@)] + index_views(
        path.index@,
    ).take(0));
    while i < path.index.len()
        invariant
            i <= path.index.len(),
            index_views(keys@) == seq![IndexView::String(path.target@)] + index_views(
                path.index@,
            ).take(i as int),
        decreases path.index.len() - i,
    {
        let ghost before = keys@;
        keys.push(path.index[i].duplicate());
        i += 1;
        assert(index_views(keys@) =~= seq![IndexView::String(path.target@)] + index_views(
            path.index@,
        ).take(i as int)) by {
            assert(index_views(keys@) =~= index_views(before).push(path.index@[i - 1]@));
        }
    }
    assert(index_views(path.index@).take(path.index.len() as int) =~= index_views(path.index@));
    keys
}

/// Finds what a path stands for: in the innermost loop that binds its
/// first name, else in the data, else in the colour table.
pub fn resolve<D: Indexable>(
    path: &IndexExpression,
    scope: &Vec<Binding>,
    data: Option<&D>,
    theme: &Vec<ThemeColor>,
) -> (r: Option<Resolved>)
    ensures
        optional_resolved(r) == resolved(
            path@,
            binding_views(scope@),
            held(data),
            theme_views(theme@),
        ),
{
    match lookup_binding(scope, &path.target) {
        Some(value) => {
            return if path.index.len() == 0 {
                Some(Resolved::Value(value))
            } else {
                None
            };
        },
        None => {},
    }
    match data {
        Some(root) => {
            match root.index(whole_path(path)) {
                Some(value) => {
                    return Some(Resolved::Value(value));
                },
                None => {},
            }
        },
        None => {},
    }
    if named(&path.target, "theme") && path.index.len() == 1 {
        match &path.index[0] {
            Index::String(name) => match lookup_color(theme, name) {
                Some(color) => Some(Resolved::Color(color)),
                None => None,
            },
            Index::Number(_) => None,
        }
    } else {
        None
    }
}

fn pixels_of_number(number: &Number) -> (r: Px)
    ensures
        r == number_pixels(number@),
{
    match number {
        Number::Float(text) => {
            let token = crate::lang::lexer::Token::Float(text.clone());
            match token.try_as_f32() {
                Some(value) => value,
                None => 0,
            }
        },
        Number::Int(value) => *value,
    }
}

fn pixels_of_value(value: &Value) -> (r: Option<Px>)
    ensures
        r == value_pixels(value@),
{
    match value {
        Value::I8(v) => Some(*v as Px),
        Value::U8(v) => Some(*v as Px),
        Value::I16(v) => Some(*v as Px),
        Value::U16(v) => Some(*v as Px),
        Value::I32(v) => Some(*v as Px),
        Value::U32(v) => Some(*v as Px),
        Value::I64(v) => Some(*v),
        Value::U64(v) => {
            if *v > 0x7fff_ffff_ffff_ffffu64 {
                Some(Px::MAX)
            } else {
                Some(*v as Px)
            }
        },
        _ => None,
    }
}

fn pixels_of<D: Indexable>(
    expression: &Expression,
    scope: &Vec<Binding>,
    data: Option<&D>,
    theme: &Vec<ThemeColor>,
) -> (r: Option<Px>)
    ensures
        r == pixels(expression@, binding_views(scope@), held(data), theme_views(theme@)),
{
    match expression {
        Expression::Literal(Literal::Number(number)) => Some(pixels_of_number(number)),
        Expression::Index(path) => match resolve(path, scope, data, theme) {
            Some(Resolved::Value(value)) => pixels_of_value(&value),
            _ => None,
        },
        Expression::FormattedString(pieces) => {
            proof {
                lemma_formatted_expression(*pieces);
            }
            None
        },
        _ => None,
    }
}

fn place_of<D: Indexable>(
    expression: &Expression,
    scope: &Vec<Binding>,
    data: Option<&D>,
    theme: &Vec<ThemeColor>,
) -> (r: Option<usize>)
    ensures
        r == place(expression@, binding_views(scope@), held(data), theme_views(theme@)),
{
    match pixels_of(expression, scope, data, theme) {
        Some(value) => {
            if value >= 0 && (value as u64) <= (usize::MAX as u64) {
                Some(value as usize)
            } else {
                None
            }
        },
        None => None,
    }
}

fn join_pieces<D: Indexable>(
    pieces: &Vec<Formatting>,
    scope: &Vec<Binding>,
    data: Option<&D>,
    theme: &Vec<ThemeColor>,
) -> (r: String)
    ensures
        r@ == joined(
            piece_views(pieces@),
            pieces.len() as int,
            binding_views(scope@),
            held(data),
            theme_views(theme@),
        ),
    decreases pieces, 1int,
{
    let ghost views = piece_views(pieces@);
    let mut out = String::new();
    let mut i: usize = 0;
    assert(out@ =~= joined(
        views,
        0,
        binding_views(scope@),
        held(data),
        theme_views(theme@),
    ));
    while i < pieces.len()
        invariant
            i <= pieces.len(),
            views == piece_views(pieces@),
            out@ == joined(
                views,
                i as int,
                binding_views(scope@),
                held(data),
                theme_views(theme@),
            ),
        decreases pieces.len() - i,
    {
        match &pieces[i] {
            Formatting::String(value) => push_text(&mut out, value.as_str()),
            Formatting::Expression(inner) => match text_of(inner, scope, data, theme) {
                Some(value) => push_text(&mut out, value.as_str()),
                None => {
                    assert(out@ + Seq::<char>::empty() =~= out@);
                },
            },
        }
        i += 1;
    }
    out
}

/// The text of an expression, if it has one.
pub fn text_of<D: Indexable>(
    expression: &Expression,
    scope: &Vec<Binding>,
    data: Option<&D>,
    theme: &Vec<ThemeColor>,
) -> (r: Option<String>)
    ensures
        match r {
            Some(value) => text(
                expression@,
                binding_views(scope@),
                held(data),
                theme_views(theme@),
            ) == Some(value@),
            None => text(expression@, binding_views(scope@), held(data), theme_views(theme@))
                is None,
        },
    decreases expression, 0int,
{
    match expression {
        Expression::Literal(Literal::String(value)) => Some(value.clone()),
        Expression::Literal(Literal::Boolean(value)) => {
            let mut out = String::new();
            push_bool(&mut out, *value);
            assert(out@ =~= bool_text(*value));
            Some(out)
        },
        Expression::Literal(Literal::Number(Number::Int(value))) => Some(
            crate::text::decimal_string(*value),
        ),
        Expression::Literal(Literal::Number(Number::Float(value))) => Some(value.clone()),
        Expression::Index(path) => match resolve(path, scope, data, theme) {
            Some(Resolved::Value(value)) => Some(value.into_string()),
            _ => None,
        },
        Expression::FormattedString(pieces) => {
            proof {
                lemma_formatted_expression(*pieces);
            }
            Some(join_pieces(pieces, scope, data, theme))
        },
        _ => None,
    }
}

fn colour_of<D: Indexable>(
    expression: &Expression,
    scope: &Vec<Binding>,
    data: Option<&D>,
    theme: &Vec<ThemeColor>,
) -> (r: Option<Color>)
    ensures
        r == colour(expression@, binding_views(scope@), held(data), theme_views(theme@)),
{
    match expression {
        Expression::Index(path) => match resolve(path, scope, data, theme) {
            Some(Resolved::Color(color)) => Some(color),
            Some(Resolved::Value(Value::U32(value))) => Some(Color::from_u32(value)),
            _ => None,
        },
        Expression::Literal(Literal::Number(Number::Int(value))) => {
            if 0 <= *value && *value <= 0xffff_ffff {
                Some(Color::from_u32(*value as u32))
            } else {
                None
            }
        },
        Expression::FormattedString(pieces) => {
            proof {
                lemma_formatted_expression(*pieces);
            }
            None
        },
        _ => None,
    }
}

fn thick_of<D: Indexable>(
    expression: &Expression,
    scope: &Vec<Binding>,
    data: Option<&D>,
    theme: &Vec<ThemeColor>,
) -> (r: Option<Thickness>)
    ensures
        r == thick(expression@, binding_views(scope@), held(data), theme_views(theme@)),
{
    match expression {
        Expression::Thickness(value) => Some(*value),
        _ => match pixels_of(expression, scope, data, theme) {
            Some(value) => Some(Thickness::all(value)),
            None => None,
        },
    }
}

fn long_of<D: Indexable>(
    expression: &Expression,
    scope: &Vec<Binding>,
    data: Option<&D>,
    theme: &Vec<ThemeColor>,
) -> (r: Option<Length>)
    ensures
        crate::styling::style::optional_length(r) == long(
            expression@,
            binding_views(scope@),
            held(data),
            theme_views(theme@),
        ),
{
    match expression {
        Expression::Literal(Literal::Length(value)) => Some(value.duplicate()),
        _ => match pixels_of(expression, scope, data, theme) {
            Some(value) => Some(Length::Px(value)),
            None => None,
        },
    }
}

fn bytes_of<D: Indexable>(
    expression: &Expression,
    scope: &Vec<Binding>,
    data: Option<&D>,
    theme: &Vec<ThemeColor>,
) -> (r: Vec<u8>)
    ensures
        r@ == bytes(expression@, binding_views(scope@), held(data), theme_views(theme@)),
{
    match expression {
        Expression::Index(path) => match resolve(path, scope, data, theme) {
            Some(Resolved::Value(Value::BinaryData(found))) => found,
            _ => Vec::new(),
        },
        Expression::FormattedString(pieces) => {
            proof {
                lemma_formatted_expression(*pieces);
            }
            Vec::new()
        },
        _ => Vec::new(),
    }
}

/// Applies one attribute to a style.
fn restyle<D: Indexable>(
    style: &mut Style,
    attribute: &Attribute,
    scope: &Vec<Binding>,
    data: Option<&D>,
    theme: &Vec<ThemeColor>,
)
    ensures
        final(style)@ == styled(
            old(style)@,
            attribute@,
            binding_views(scope@),
            held(data),
            theme_views(theme@),
        ),
{
    let name = &attribute.name;
    let value = &attribute.value;
    if named(name, "margin") {
        match thick_of(value, scope, data, theme) {
            Some(sides) => {
                style.margin = sides;
            },
            None => {},
        }
    } else if named(name, "padding") {
        match thick_of(value, scope, data, theme) {
            Some(sides) => {
                style.padding = sides;
            },
            None => {},
        }
    } else if named(name, "corner-radius") {
        match thick_of(value, scope, data, theme) {
            Some(sides) => {
                style.corner_radius = sides;
            },
            None => {},
        }
    } else if named(name, "width") {
        match long_of(value, scope, data, theme) {
            Some(length) => {
                style.width = Some(length);
            },
            None => {},
        }
    } else if named(name, "height") {
        match long_of(value, scope, data, theme) {
            Some(length) => {
                style.height = Some(length);
            },
            None => {},
        }
    } else if named(name, "background") {
        match colour_of(value, scope, data, theme) {
            Some(color) => {
                style.background = Some(color);
            },
            None => {},
        }
    } else if named(name, "color") {
        match colour_of(value, scope, data, theme) {
            Some(color) => {
                style.color = Some(color);
            },
            None => {},
        }
    } else if named(name, "font-family") {
        match text_of(value, scope, data, theme) {
            Some(family) => {
                style.font_family = FontFamily { family };
            },
            None => {},
        }
    } else if named(name, "font-size") {
        match pixels_of(value, scope, data, theme) {
            Some(size) => {
                style.font_size = FontSize::new(size);
            },
            None => {},
        }
    } else if named(name, "font-weight") {
        match value {
            Expression::FontWeight(weight) => {
                style.font_weight = *weight;
            },
            Expression::FormattedString(pieces) => {
                proof {
                    lemma_formatted_expression(*pieces);
                }
            },
            _ => {},
        }
    } else if named(name, "font-slant") {
        match value {
            Expression::FontSlant(slant) => {
                style.font_slant = *slant;
            },
            Expression::FormattedString(pieces) => {
                proof {
                    lemma_formatted_expression(*pieces);
                }
            },
            _ => {},
        }
    } else if named(name, "position") {
        match value {
            Expression::Position(position) => {
                style.position = *position;
            },
            Expression::FormattedString(pieces) => {
                proof {
                    lemma_formatted_expression(*pieces);
                }
            },
            _ => {},
        }
    } else if named(name, "x") {
        match pixels_of(value, scope, data, theme) {
            Some(x) => {
                style.x = Some(x);
            },
            None => {},
        }
    } else if named(name, "y") {
        match pixels_of(value, scope, data, theme) {
            Some(y) => {
                style.y = Some(y);
            },
            None => {},
        }
    } else if named(name, "row") {
        match place_of(value, scope, data, theme) {
            Some(row) => {
                style.row = row;
            },
            None => {},
        }
    } else if named(name, "row-span") {
        match place_of(value, scope, data, theme) {
            Some(span) => {
                style.row_span = span;
            },
            None => {},
        }
    } else if named(name, "column") {
        match place_of(value, scope, data, theme) {
            Some(column) => {
                style.column = column;
            },
            None => {},
        }
    } else if named(name, "column-span") {
        match place_of(value, scope, data, theme) {
            Some(span) => {
                style.column_span = span;
            },
            None => {},
        }
    }
}

/// Applies one attribute to an element.
fn rearrange<D: Indexable>(
    element: &mut Element,
    attribute: &Attribute,
    scope: &Vec<Binding>,
    data: Option<&D>,
    theme: &Vec<ThemeColor>,
)
    ensures
        final(element)@ == arranged(
            old(element)@,
            attribute@,
            binding_views(scope@),
            held(data),
            theme_views(theme@),
        ),
{
    let name = &attribute.name;
    let value = &attribute.value;
    if named(name, "spacing") {
        match pixels_of(value, scope, data, theme) {
            Some(gap) => {
                element.set_spacing(gap);
            },
            None => {},
        }
    } else if named(name, "orientation") {
        match value {
            Expression::Orientation(axis) => {
                element.set_orientation(*axis);
            },
            Expression::FormattedString(pieces) => {
                proof {
                    lemma_formatted_expression(*pieces);
                }
            },
            _ => {},
        }
    }
}

/// Applies one attribute to a node in the making.
fn apply<D: Indexable>(
    node: &mut Node,
    attribute: &Attribute,
    scope: &Vec<Binding>,
    data: Option<&D>,
    theme: &Vec<ThemeColor>,
)
    ensures
        final(node)@ == (NodeView {
            style: styled(
                old(node)@.style,
                attribute@,
                binding_views(scope@),
                held(data),
                theme_views(theme@),
            ),
            element: arranged(
                old(node)@.element,
                attribute@,
                binding_views(scope@),
                held(data),
                theme_views(theme@),
            ),
        }),
{
    restyle(&mut node.style, attribute, scope, data, theme);
    rearrange(&mut node.element, attribute, scope, data, theme);
}

fn first_text_of<D: Indexable>(
    args: &Vec<Expression>,
    scope: &Vec<Binding>,
    data: Option<&D>,
    theme: &Vec<ThemeColor>,
) -> (r: String)
    ensures
        r@ == first_text(
            expression_views(args@),
            binding_views(scope@),
            held(data),
            theme_views(theme@),
        ),
{
    if args.len() == 0 {
        String::new()
    } else {
        match text_of(&args[0], scope, data, theme) {
            Some(value) => value,
            None => String::new(),
        }
    }
}

/// Makes the empty element that a declaration's name and arguments ask for.
fn element_of<D: Indexable>(
    name: &String,
    args: &Vec<Expression>,
    scope: &Vec<Binding>,
    data: Option<&D>,
    theme: &Vec<ThemeColor>,
) -> (r: Option<Element>)
    ensures
        match r {
            Some(element) => element_named(
                name@,
                expression_views(args@),
                binding_views(scope@),
                held(data),
                theme_views(theme@),
            ) == Some(element@),
            None => element_named(
                name@,
                expression_views(args@),
                binding_views(scope@),
                held(data),
                theme_views(theme@),
            ) is None,
        },
{
    let none: Vec<Node> = Vec::new();
    proof {
        lemma_children_views(none@);
        assert(node_views(none@) =~= Seq::empty());
    }
    if named(name, "Row") {
        Some(Element::Container(ContainerElement::row_of(none)))
    } else if named(name, "Column") || named(name, "Container") {
        Some(Element::Container(ContainerElement::column_of(none)))
    } else if named(name, "Masonry") {
        let width = if args.len() == 0 {
            0
        } else {
            match pixels_of(&args[0], scope, data, theme) {
                Some(width) => width,
                None => 0,
            }
        };
        Some(Element::Masonry(Masonry { spacing: 0, item_width: width, children: none }))
    } else if named(name, "Grid") {
        let rows: Vec<crate::elements::Row> = Vec::new();
        let columns: Vec<crate::elements::Column> = Vec::new();
        proof {
            assert(crate::node::row_tracks(rows@) =~= Seq::empty());
            assert(crate::node::column_tracks(columns@) =~= Seq::empty());
        }
        Some(Element::Grid(GridElement { rows, columns, spacing: 0, children: none }))
    } else if named(name, "Text") {
        Some(Element::Text(TextElement::new(first_text_of(args, scope, data, theme))))
    } else if named(name, "Image") {
        let label = first_text_of(args, scope, data, theme);
        let found = if args.len() == 0 {
            Vec::new()
        } else {
            bytes_of(&args[0], scope, data, theme)
        };
        Some(Element::Image(ImageElement { name: label, data: found, width: 0, height: 0 }))
    } else {
        None
    }
}

/// The values of a sequence of scalars.
pub open spec fn value_views(values: Seq<Value>) -> Seq<ValueView> {
    values.map_values(|v: Value| v@)
}

/// Lists the values that a loop over `target` goes through.
fn elements_of<D: Indexable>(
    target: &Expression,
    scope: &Vec<Binding>,
    data: Option<&D>,
    theme: &Vec<ThemeColor>,
) -> (r: Vec<Value>)
    ensures
        value_views(r@) == elements(
            target@,
            binding_views(scope@),
            held(data),
            theme_views(theme@),
        ),
{
    let mut items: Vec<Value> = Vec::new();
    match target {
        Expression::Literal(Literal::Range(start, end)) => {
            let mut i: usize = *start;
            while i < *end
                invariant
                    *start <= i <= *end || (*end < *start && i == *start),
                    items.len() == if i >= *start {
                        i - *start
                    } else {
                        0
                    },
                    forall|k: int|
                        0 <= k < items.len() ==> (#[trigger] items@[k])@ == ValueView::U64(
                            (*start + k) as u64,
                        ),
                decreases *end - i,
            {
                items.push(Value::U64(i as u64));
                i += 1;
            }
            assert(value_views(items@) =~= elements(
                target@,
                binding_views(scope@),
                held(data),
                theme_views(theme@),
            ));
        },
        _ => {
            let found = bytes_of(target, scope, data, theme);
            let mut i: usize = 0;
            while i < found.len()
                invariant
                    i <= found.len(),
                    items.len() == i,
                    forall|k: int|
                        0 <= k < i ==> (#[trigger] items@[k])@ == ValueView::U8(found@[k]),
                decreases found.len() - i,
            {
                items.push(Value::U8(found[i]));
                i += 1;
            }
            assert(value_views(items@) =~= found@.map_values(|byte: u8| ValueView::U8(byte)));
        },
    }
    items
}

/// Builds the nodes that a loop stands for: its body once for each value
/// of its target, with the loop's variable bound to the value.
fn unroll<D: Indexable>(
    repeat: &ForStatement,
    scope: &mut Vec<Binding>,
    data: Option<&D>,
    theme: &Vec<ThemeColor>,
) -> (r: Result<Vec<Node>>)
    ensures
        binding_views(final(scope)@) == binding_views(old(scope)@),
        match r {
            Ok(built) => repeated(
                repeat@,
                elements(
                    repeat@.target,
                    binding_views(old(scope)@),
                    held(data),
                    theme_views(theme@),
                ),
                elements(
                    repeat@.target,
                    binding_views(old(scope)@),
                    held(data),
                    theme_views(theme@),
                ).len() as int,
                binding_views(old(scope)@),
                held(data),
                theme_views(theme@),
            ) == Ok::<Seq<NodeView>, Seq<char>>(node_views(built@)),
            Err(error) => repeated(
                repeat@,
                elements(
                    repeat@.target,
                    binding_views(old(scope)@),
                    held(data),
                    theme_views(theme@),
                ),
                elements(
                    repeat@.target,
                    binding_views(old(scope)@),
                    held(data),
                    theme_views(theme@),
                ).len() as int,
                binding_views(old(scope)@),
                held(data),
                theme_views(theme@),
            ) == Err::<Seq<NodeView>, Seq<char>>(error@),
        },
    decreases repeat, 0int,
{
    let ghost outer = binding_views(scope@);
    let ghost root = held(data);
    let ghost table = theme_views(theme@);
    let items = elements_of(&repeat.target, scope, data, theme);
    let ghost values = value_views(items@);
    let mut built: Vec<Node> = Vec::new();
    let mut i: usize = 0;
    proof {
        lemma_body_views(repeat.body@);
        assert(node_views(built@) =~= Seq::empty());
    }
    while i < items.len()
        invariant
            i <= items.len(),
            values == value_views(items@),
            values == elements(repeat@.target, outer, root, table),
            outer == binding_views(scope@),
            outer == binding_views(old(scope)@),
            root == held(data),
            table == theme_views(theme@),
            repeat@.body == statement_views(repeat.body@),
            repeated(repeat@, values, i as int, outer, root, table) == Ok::<
                Seq<NodeView>,
                Seq<char>,
            >(node_views(built@)),
        decreases items.len() - i,
    {
        let ghost before = scope@;
        let binding = Binding { name: repeat.name.clone(), value: items[i].duplicate() };
        assert(binding_views(before.push(binding)) =~= outer.push(
            BindingView { name: repeat@.name, value: values[i as int] },
        ));
        scope.push(binding);
        let round = expand(&repeat.body, scope, data, theme);
        let ghost inside = scope@;
        scope.pop();
        assert(binding_views(scope@) =~= outer) by {
            assert(binding_views(inside) == binding_views(before.push(binding)));
            assert(binding_views(scope@) =~= binding_views(inside).drop_last());
        }
        match round {
            Ok(nodes) => {
                let mut nodes = nodes;
                proof {
                    lemma_node_views_add(built@, nodes@);
                }
                built.append(&mut nodes);
            },
            Err(error) => {
                proof {
                    lemma_repeated_fail(
                        repeat@,
                        values,
                        i as int + 1,
                        items.len() as int,
                        outer,
                        root,
                        table,
                    );
                }
                return Err(error);
            },
        }
        i += 1;
    }
    Ok(built)
}

/// The rounds behind one that fails change nothing.
pub proof fn lemma_repeated_fail<D: Indexable>(
    repeat: ForStatementView,
    items: Seq<ValueView>,
    failed: int,
    n: int,
    scope: Seq<BindingView>,
    data: Option<D>,
    theme: Seq<ThemeColorView>,
)
    requires
        0 <= failed <= n <= items.len(),
        repeated(repeat, items, failed, scope, data, theme) is Err,
    ensures
        repeated(repeat, items, n, scope, data, theme) == repeated(
            repeat,
            items,
            failed,
            scope,
            data,
            theme,
        ),
    decreases n,
{
    if failed < n {
        lemma_repeated_fail(repeat, items, failed, n - 1, scope, data, theme);
    }
}

/// The statements behind one that fails change nothing.
pub proof fn lemma_expanded_fail<D: Indexable>(
    statements: Seq<StatementView>,
    failed: int,
    n: int,
    scope: Seq<BindingView>,
    data: Option<D>,
    theme: Seq<ThemeColorView>,
)
    requires
        0 <= failed <= n <= statements.len(),
        expanded(statements, failed, scope, data, theme) is Err,
    ensures
        expanded(statements, n, scope, data, theme) == expanded(
            statements,
            failed,
            scope,
            data,
            theme,
        ),
    decreases n,
{
    if failed < n {
        lemma_expanded_fail(statements, failed, n - 1, scope, data, theme);
    }
}

/// Builds the nodes of some statements.
fn expand<D: Indexable>(
    statements: &Vec<Statement>,
    scope: &mut Vec<Binding>,
    data: Option<&D>,
    theme: &Vec<ThemeColor>,
) -> (r: Result<Vec<Node>>)
    ensures
        binding_views(final(scope)@) == binding_views(old(scope)@),
        match r {
            Ok(built) => expanded(
                statement_views(statements@),
                statements.len() as int,
                binding_views(old(scope)@),
                held(data),
                theme_views(theme@),
            ) == Ok::<Seq<NodeView>, Seq<char>>(node_views(built@)),
            Err(error) => expanded(
                statement_views(statements@),
                statements.len() as int,
                binding_views(old(scope)@),
                held(data),
                theme_views(theme@),
            ) == Err::<Seq<NodeView>, Seq<char>>(error@),
        },
    decreases statements, 1int,
{
    let ghost outer = binding_views(scope@);
    let ghost root = held(data);
    let ghost table = theme_views(theme@);
    let ghost views = statement_views(statements@);
    let mut built: Vec<Node> = Vec::new();
    let mut i: usize = 0;
    assert(node_views(built@) =~= Seq::empty());
    while i < statements.len()
        invariant
            i <= statements.len(),
            views == statement_views(statements@),
            outer == binding_views(scope@),
            outer == binding_views(old(scope)@),
            root == held(data),
            table == theme_views(theme@),
            expanded(views, i as int, outer, root, table) == Ok::<Seq<NodeView>, Seq<char>>(
                node_views(built@),
            ),
        decreases statements.len() - i,
    {
        match &statements[i] {
            Statement::Node(decl) => match bind(decl, scope, data, theme) {
                Ok(node) => {
                    proof {
                        lemma_node_views_push(built@, node);
                    }
                    built.push(node);
                },
                Err(error) => {
                    proof {
                        lemma_expanded_fail(
                            views,
                            i as int + 1,
                            statements.len() as int,
                            outer,
                            root,
                            table,
                        );
                    }
                    return Err(error);
                },
            },
            Statement::ForStatement(inner) => match unroll(inner, scope, data, theme) {
                Ok(nodes) => {
                    let mut nodes = nodes;
                    proof {
                        lemma_node_views_add(built@, nodes@);
                    }
                    built.append(&mut nodes);
                },
                Err(error) => {
                    proof {
                        lemma_expanded_fail(
                            views,
                            i as int + 1,
                            statements.len() as int,
                            outer,
                            root,
                            table,
                        );
                    }
                    return Err(error);
                },
            },
        }
        i += 1;
    }
    Ok(built)
}

/// Builds the node that a declaration stands for.
///
/// # Errors
///
/// Fails at the first declaration, in the order of the source, whose name
/// is that of no element.
pub fn bind<D: Indexable>(
    decl: &NodeDecl,
    scope: &mut Vec<Binding>,
    data: Option<&D>,
    theme: &Vec<ThemeColor>,
) -> (r: Result<Node>)
    ensures
        binding_views(final(scope)@) == binding_views(old(scope)@),
        match r {
            Ok(built) => bound(
                decl@,
                binding_views(old(scope)@),
                held(data),
                theme_views(theme@),
            ) == Ok::<NodeView, Seq<char>>(built@),
            Err(error) => bound(
                decl@,
                binding_views(old(scope)@),
                held(data),
                theme_views(theme@),
            ) == Err::<NodeView, Seq<char>>(error@),
        },
    decreases decl, 0int,
{
    let ghost outer = binding_views(scope@);
    let ghost root = held(data);
    let ghost table = theme_views(theme@);
    proof {
        lemma_body_views(decl.body@);
    }
    let element = match element_of(&decl.name, &decl.args, scope, data, theme) {
        Some(element) => element,
        None => {
            let mut message = String::new();
            push_text(&mut message, "Unknown element ");
            push_text(&mut message, decl.name.as_str());
            assert(message@ =~= unknown_element(decl.name@));
            return Err(ParseError(message));
        },
    };
    let mut node = Node { style: Style::new(), element };
    let ghost start = node@;
    let ghost attributes = attribute_views(decl.attributes@);
    let mut i: usize = 0;
    while i < decl.attributes.len()
        invariant
            i <= decl.attributes.len(),
            attributes == attribute_views(decl.attributes@),
            outer == binding_views(scope@),
            root == held(data),
            table == theme_views(theme@),
            node@ == attributed(start, attributes, i as int, outer, root, table),
        decreases decl.attributes.len() - i,
    {
        apply(&mut node, &decl.attributes[i], scope, data, theme);
        i += 1;
    }
    match expand(&decl.body, scope, data, theme) {
        Ok(children) => {
            let ghost own = node@;
            proof {
                assert(children_of(own.element) =~= Seq::empty()) by {
                    lemma_attributed_childless(
                        start,
                        attributes,
                        decl.attributes.len() as int,
                        outer,
                        root,
                        table,
                    );
                }
                assert(children_of(own.element) + node_views(children@) =~= node_views(
                    children@,
                ));
            }
            node.element.extend(children);
            Ok(node)
        },
        Err(error) => Err(error),
    }
}

/// Attributes give a node no children.
pub proof fn lemma_attributed_childless<D: Indexable>(
    start: NodeView,
    attributes: Seq<AttributeView>,
    n: int,
    scope: Seq<BindingView>,
    data: Option<D>,
    theme: Seq<ThemeColorView>,
)
    requires
        children_of(start.element) == Seq::<NodeView>::empty(),
    ensures
        children_of(attributed(start, attributes, n, scope, data, theme).element) == Seq::<
            NodeView,
        >::empty(),
    decreases n,
{
    if 0 < n <= attributes.len() {
        lemma_attributed_childless(start, attributes, n - 1, scope, data, theme);
    }
}

/// Reads a declaration at the cursor and builds the node that it stands
/// for, with the colours of `theme` and the scalars of `data` for the paths
/// in it.
///
/// # Errors
///
/// Fails, and leaves the cursor, where no declaration stands at the cursor
/// or one in it has the name of no element.
pub fn parse_node<D: Indexable>(parser: &mut Parser, theme: &Vec<ThemeColor>, data: Option<&D>) -> (r:
    Result<Node>)
    ensures
        final(parser).tokens() == old(parser).tokens(),
        match node(old(parser).tokens(), old(parser).position()) {
            Ok((decl, next)) => match bound(decl, Seq::empty(), held(data), theme_views(theme@)) {
                Ok(built) => r matches Ok(found) && found@ == built && final(parser).position()
                    == next,
                Err(error) => r matches Err(found) && found@ == error && final(parser).position() == old(parser).position(),
            },
            Err(error) => r matches Err(found) && found@ == error && final(parser).position()
                == old(parser).position(),
        },
{
    let start = parser.mark();
    proof {
        crate::lang::grammar::lemma_statement_bounds(parser.tokens(), start as int);
    }
    match NodeDecl::parse(parser) {
        Ok(decl) => {
            let mut scope: Vec<Binding> = Vec::new();
            assert(binding_views(scope@) =~= Seq::empty());
            match bind(&decl, &mut scope, data, theme) {
                Ok(built) => Ok(built),
                Err(error) => {
                    parser.rewind(start);
                    Err(error)
                },
            }
        },
        Err(error) => Err(error),
    }
}

/// An interpolated string of a text and a name that the innermost loop
/// binds reads as the text with the text of the bound value behind it.
pub proof fn law_interpolated_binding<D: Indexable>(
    lead: Seq<char>,
    name: Seq<char>,
    value: ValueView,
    scope: Seq<BindingView>,
    data: Option<D>,
    theme: Seq<ThemeColorView>,
)
    ensures
        text(
            ExpressionView::FormattedString(
                seq![
                    FormattingView::String(lead),
                    FormattingView::Expression(
                        ExpressionView::Index(
                            IndexExpressionView { target: name, index: Seq::empty() },
                        ),
                    ),
                ],
            ),
            scope.push(BindingView { name, value }),
            data,
            theme,
        ) == Some(lead + value_text(value)),
{
    let pieces = seq![
        FormattingView::String(lead),
        FormattingView::Expression(
            ExpressionView::Index(IndexExpressionView { target: name, index: Seq::empty() }),
        ),
    ];
    let inner = scope.push(BindingView { name, value });
    let path = IndexExpressionView { target: name, index: Seq::empty() };
    assert(bound_in(inner, name, inner.len() as int) == Some(value));
    assert(resolved(path, inner, data, theme) == Some(ResolvedView::Value(value)));
    assert(text(ExpressionView::Index(path), inner, data, theme) == Some(value_text(value)));
    assert(joined(pieces, 0, inner, data, theme) =~= Seq::empty());
    assert(joined(pieces, 1, inner, data, theme) =~= lead);
    assert(joined(pieces, 2, inner, data, theme) =~= lead + value_text(value));
}

} // verus!
