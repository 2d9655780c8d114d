//! The visual and box-model properties of a node.

pub mod colors;
pub mod font;
pub mod position;
pub mod style;
pub mod thickness;

pub use self::colors::Color;
pub use self::font::{FontFamily, FontSize, FontSlant, FontWeight};
pub use self::position::Position;
pub use self::style::{Style, StyleBuilder, StyleView};
pub use self::thickness::Thickness;

use vstd::prelude::*;
use crate::geometry::Px;

verus! {

/// One arithmetic step over two lengths.
#[derive(Debug)]
pub enum Operation {
    Add(Length, Length),
    Sub(Length, Length),
    Mul(Length, Length),
    Div(Length, Length),
}

/// A size along one axis.
#[derive(Debug)]
pub enum Length {
    /// Sized by the content.
    Auto,
    /// Whole pixels.
    Px(Px),
    /// Hundredths of the space that the parent offers along the axis.
    Percent(Px),
    /// The width that the parent offers.
    ParentWidth,
    /// The height that the parent offers.
    ParentHeight,
    /// Arithmetic over other lengths; the last operation gives the value.
    Dynamic(Vec<Operation>),
}

/// The mathematical value of an [`Operation`].
pub enum OperationView {
    Add(LengthView, LengthView),
    Sub(LengthView, LengthView),
    Mul(LengthView, LengthView),
    Div(LengthView, LengthView),
}

/// The mathematical value of a [`Length`].
pub enum LengthView {
    Auto,
    Px(Px),
    Percent(Px),
    ParentWidth,
    ParentHeight,
    Dynamic(Seq<OperationView>),
}

impl View for Operation {
    type V = OperationView;

    open spec fn view(&self) -> OperationView
        decreases self, 0int,
    {
        match self {
            Operation::Add(a, b) => OperationView::Add(a.view(), b.view()),
            Operation::Sub(a, b) => OperationView::Sub(a.view(), b.view()),
            Operation::Mul(a, b) => OperationView::Mul(a.view(), b.view()),
            Operation::Div(a, b) => OperationView::Div(a.view(), b.view()),
        }
    }
}

impl View for Length {
    type V = LengthView;

    open spec fn view(&self) -> LengthView
        decreases self, 0int,
    {
        match self {
            Length::Auto => LengthView::Auto,
            Length::Px(value) => LengthView::Px(*value),
            Length::Percent(value) => LengthView::Percent(*value),
            Length::ParentWidth => LengthView::ParentWidth,
            Length::ParentHeight => LengthView::ParentHeight,
            Length::Dynamic(operations) => LengthView::Dynamic(
                leading_views(operations@, operations@.len() as int),
            ),
        }
    }
}

/// The values of the first `n` of a sequence of operations.
pub open spec fn leading_views(operations: Seq<Operation>, n: int) -> Seq<OperationView>
    decreases operations, n,
{
    if n <= 0 || n > operations.len() {
        Seq::empty()
    } else {
        leading_views(operations, n - 1).push(operations[n - 1].view())
    }
}

pub proof fn lemma_leading_views(operations: Seq<Operation>, n: int)
    requires
        0 <= n <= operations.len(),
    ensures
        leading_views(operations, n) == operation_views(operations.take(n)),
    decreases n,
{
    if n > 0 {
        lemma_leading_views(operations, n - 1);
        let shorter = operation_views(operations.take(n - 1)).push(operations[n - 1]@);
        let whole = operation_views(operations.take(n));
        assert forall|i: int| 0 <= i < n implies shorter[i] == whole[i] by {
            if i < n - 1 {
                assert(operations.take(n - 1)[i] == operations.take(n)[i]);
            }
        }
        assert(shorter =~= whole);
    } else {
        assert(leading_views(operations, n) =~= operation_views(operations.take(n)));
    }
}

/// The values of a sequence of operations.
pub open spec fn operation_views(operations: Seq<Operation>) -> Seq<OperationView> {
    operations.map_values(|o: Operation| o@)
}

pub proof fn lemma_dynamic_view(operations: Vec<Operation>)
    ensures
        Length::Dynamic(operations)@ == LengthView::Dynamic(operation_views(operations@)),
{
    lemma_leading_views(operations@, operations@.len() as int);
    assert(operations@.take(operations@.len() as int) =~= operations@);
}

/// The two lengths that an operation works on.
pub open spec fn operands(operation: OperationView) -> (LengthView, LengthView) {
    match operation {
        OperationView::Add(a, b) => (a, b),
        OperationView::Sub(a, b) => (a, b),
        OperationView::Mul(a, b) => (a, b),
        OperationView::Div(a, b) => (a, b),
    }
}

/// Whether a length leaves the size to the content: it is `Auto`, or
/// arithmetic with such a length among its operands.
pub open spec fn is_auto(length: LengthView) -> bool
    decreases length, 0int,
{
    match length {
        LengthView::Auto => true,
        LengthView::Dynamic(operations) => any_auto(operations, operations.len() as int),
        _ => false,
    }
}

/// Whether one of the first `n` operations has an operand that is auto.
pub open spec fn any_auto(operations: Seq<OperationView>, n: int) -> bool
    decreases operations, n,
{
    if n <= 0 || n > operations.len() {
        false
    } else {
        any_auto(operations, n - 1) || is_auto(operands(operations[n - 1]).0) || is_auto(
            operands(operations[n - 1]).1,
        )
    }
}

fn copy_operations(operations: &Vec<Operation>) -> (r: Vec<Operation>)
    ensures
        operation_views(r@) == operation_views(operations@),
    decreases operations, 2int,
{
    let mut out: Vec<Operation> = Vec::new();
    let mut i: usize = 0;
    while i < operations.len()
        invariant
            i <= operations.len(),
            out.len() == i,
            forall|k: int| 0 <= k < i ==> (#[trigger] out@[k])@ == operations@[k]@,
        decreases operations.len() - i,
    {
        out.push(operations[i].duplicate());
        i += 1;
    }
    assert(operation_views(out@) =~= operation_views(operations@));
    out
}

fn any_operation_auto(operations: &Vec<Operation>) -> (r: bool)
    ensures
        r == any_auto(operation_views(operations@), operations.len() as int),
    decreases operations, 2int,
{
    let ghost views = operation_views(operations@);
    let mut found = false;
    let mut i: usize = 0;
    while i < operations.len()
        invariant
            i <= operations.len(),
            views == operation_views(operations@),
            found == any_auto(views, i as int),
        decreases operations.len() - i,
    {
        let here = operations[i].is_auto();
        found = found || here;
        i += 1;
    }
    found
}

impl Operation {
    /// A copy with the same value.
    pub fn duplicate(&self) -> (r: Self)
        ensures
            r@ == self@,
        decreases self, 1int,
    {
        match self {
            Operation::Add(a, b) => Operation::Add(a.duplicate(), b.duplicate()),
            Operation::Sub(a, b) => Operation::Sub(a.duplicate(), b.duplicate()),
            Operation::Mul(a, b) => Operation::Mul(a.duplicate(), b.duplicate()),
            Operation::Div(a, b) => Operation::Div(a.duplicate(), b.duplicate()),
        }
    }

    fn is_auto(&self) -> (r: bool)
        ensures
            r == (is_auto(operands(self@).0) || is_auto(operands(self@).1)),
        decreases self, 1int,
    {
        match self {
            Operation::Add(a, b) => a.is_auto() || b.is_auto(),
            Operation::Sub(a, b) => a.is_auto() || b.is_auto(),
            Operation::Mul(a, b) => a.is_auto() || b.is_auto(),
            Operation::Div(a, b) => a.is_auto() || b.is_auto(),
        }
    }
}

impl Length {
    /// A copy with the same value.
    pub fn duplicate(&self) -> (r: Self)
        ensures
            r@ == self@,
        decreases self, 0int,
    {
        match self {
            Length::Auto => Length::Auto,
            Length::Px(value) => Length::Px(*value),
            Length::Percent(value) => Length::Percent(*value),
            Length::ParentWidth => Length::ParentWidth,
            Length::ParentHeight => Length::ParentHeight,
            Length::Dynamic(operations) => {
                let out = copy_operations(operations);
                proof {
                    lemma_dynamic_view(*operations);
                    lemma_dynamic_view(out);
                }
                Length::Dynamic(out)
            },
        }
    }

    /// Whether the length leaves the size to the content.
    #[must_use]
    pub fn is_auto(&self) -> (r: bool)
        ensures
            r == is_auto(self@),
        decreases self, 0int,
    {
        match self {
            Length::Auto => true,
            Length::Dynamic(operations) => {
                proof {
                    lemma_dynamic_view(*operations);
                }
                any_operation_auto(operations)
            },
            _ => false,
        }
    }
}

impl Clone for Operation {
    fn clone(&self) -> (r: Self)
        ensures
            r@ == self@,
    {
        self.duplicate()
    }
}

impl Clone for Length {
    fn clone(&self) -> (r: Self)
        ensures
            r@ == self@,
    {
        self.duplicate()
    }
}

#[must_use]
pub fn px(value: Px) -> (r: Length)
    ensures
        r@ == LengthView::Px(value),
{
    Length::Px(value)
}

#[must_use]
pub fn percent(value: Px) -> (r: Length)
    ensures
        r@ == LengthView::Percent(value),
{
    Length::Percent(value)
}

#[must_use]
pub fn parent_width() -> (r: Length)
    ensures
        r@ == LengthView::ParentWidth,
{
    Length::ParentWidth
}

#[must_use]
pub fn parent_height() -> (r: Length)
    ensures
        r@ == LengthView::ParentHeight,
{
    Length::ParentHeight
}

#[must_use]
pub fn auto() -> (r: Length)
    ensures
        r@ == LengthView::Auto,
{
    Length::Auto
}

/// Arithmetic over other lengths.
pub fn dynamic(ops: Vec<Operation>) -> (r: Length)
    ensures
        r@ == LengthView::Dynamic(operation_views(ops@)),
{
    proof {
        lemma_dynamic_view(ops);
    }
    Length::Dynamic(ops)
}

} // verus!
