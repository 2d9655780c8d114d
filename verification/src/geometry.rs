//! Whole-pixel arithmetic and the plane types built on it.

use vstd::prelude::*;
use vstd::std_specs::convert::FromSpecImpl;

verus! {

/// A length or coordinate in whole pixels.
pub type Px = i64;

/// The pixel value nearest to `v`.
pub open spec fn clamp(v: int) -> Px {
    if v < Px::MIN {
        Px::MIN
    } else if v > Px::MAX {
        Px::MAX
    } else {
        v as Px
    }
}

/// The quotient of `a` by `b` rounded towards negative infinity, for `b != 0`.
pub open spec fn floor_div(a: int, b: int) -> int {
    if b > 0 {
        a / b
    } else {
        (-a) / (-b)
    }
}

/// Saturating division: the floor of the quotient, and the far end of the
/// range on the side of `a` where `b` is zero.
pub open spec fn div_or_limit(a: int, b: int) -> Px {
    if b != 0 {
        clamp(floor_div(a, b))
    } else if a > 0 {
        Px::MAX
    } else if a < 0 {
        Px::MIN
    } else {
        0
    }
}

/// The larger of two pixel values.
pub open spec fn px_max(a: Px, b: Px) -> Px {
    if a >= b {
        a
    } else {
        b
    }
}

fn narrow(v: i128) -> (r: Px)
    ensures
        r == clamp(v as int),
{
    if v < -0x8000_0000_0000_0000i128 {
        Px::MIN
    } else if v > 0x7fff_ffff_ffff_ffffi128 {
        Px::MAX
    } else {
        v as Px
    }
}

/// Quotient of a non-negative by a positive, and its remainder test, give
/// the floor of any quotient with a positive divisor.
proof fn lemma_floor_of_negative(n: int, d: int)
    requires
        n > 0,
        d > 0,
    ensures
        (-n) / d == -((n + d - 1) / d),
{
    let q = (n + d - 1) / d;
    let r = (n + d - 1) % d;
    assert(n + d - 1 == d * q + r && 0 <= r < d) by {
        vstd::arithmetic::div_mod::lemma_fundamental_div_mod(n + d - 1, d);
    }
    let s = d - 1 - r;
    assert(-n == d * (-q) + s) by (nonlinear_arith)
        requires
            n + d - 1 == d * q + r,
            s == d - 1 - r,
    ;
    assert(0 <= s < d);
    vstd::arithmetic::div_mod::lemma_fundamental_div_mod_converse(-n, d, -q, s);
}

fn floor_quotient(a: i128, b: i128) -> (r: i128)
    requires
        b > 0,
        -0x4000_0000_0000_0000_0000_0000_0000_0000i128 <= a,
        a <= 0x4000_0000_0000_0000_0000_0000_0000_0000i128,
        b <= 0x10_0000_0000_0000_0000_0000_0000i128,
    ensures
        r == a as int / b as int,
{
    if a >= 0 {
        a / b
    } else {
        let n: i128 = -a;
        proof {
            let ni = n as int;
            let bi = b as int;
            lemma_floor_of_negative(ni, bi);
            assert((ni + bi - 1) / bi >= 0) by (nonlinear_arith)
                requires
                    ni > 0,
                    bi > 0,
            ;
            assert((ni + bi - 1) / bi <= ni + bi - 1) by (nonlinear_arith)
                requires
                    ni > 0,
                    bi > 0,
            ;
        }
        -((n + b - 1) / b)
    }
}

/// Saturating sum.
pub fn px_add(a: Px, b: Px) -> (r: Px)
    ensures
        r == clamp(a + b),
{
    narrow(a as i128 + b as i128)
}

/// Saturating difference.
pub fn px_sub(a: Px, b: Px) -> (r: Px)
    ensures
        r == clamp(a - b),
{
    narrow(a as i128 - b as i128)
}

/// Saturating product.
pub fn px_mul(a: Px, b: Px) -> (r: Px)
    ensures
        r == clamp(a * b),
{
    let wide_a: i128 = a as i128;
    let wide_b: i128 = b as i128;
    assert(-0x4000_0000_0000_0000_0000_0000_0000_0000 <= wide_a * wide_b
        <= 0x4000_0000_0000_0000_0000_0000_0000_0000) by (nonlinear_arith)
        requires
            -0x8000_0000_0000_0000 <= wide_a <= 0x7fff_ffff_ffff_ffff,
            -0x8000_0000_0000_0000 <= wide_b <= 0x7fff_ffff_ffff_ffff,
    ;
    narrow(wide_a * wide_b)
}

/// Saturating floor division.
pub fn px_div(a: Px, b: Px) -> (r: Px)
    ensures
        r == div_or_limit(a as int, b as int),
{
    if b == 0 {
        if a > 0 {
            Px::MAX
        } else if a < 0 {
            Px::MIN
        } else {
            0
        }
    } else if b > 0 {
        narrow(floor_quotient(a as i128, b as i128))
    } else {
        narrow(floor_quotient(-(a as i128), -(b as i128)))
    }
}

/// `a * num / den`, the product taken exactly before the saturating floor
/// division.
pub fn px_scale(a: Px, num: Px, den: Px) -> (r: Px)
    ensures
        r == div_or_limit(a * num, den as int),
{
    let wide_a: i128 = a as i128;
    let wide_n: i128 = num as i128;
    assert(-0x4000_0000_0000_0000_0000_0000_0000_0000 <= wide_a * wide_n
        <= 0x4000_0000_0000_0000_0000_0000_0000_0000) by (nonlinear_arith)
        requires
            -0x8000_0000_0000_0000 <= wide_a <= 0x7fff_ffff_ffff_ffff,
            -0x8000_0000_0000_0000 <= wide_n <= 0x7fff_ffff_ffff_ffff,
    ;
    let product: i128 = wide_a * wide_n;
    if den == 0 {
        if product > 0 {
            Px::MAX
        } else if product < 0 {
            Px::MIN
        } else {
            0
        }
    } else if den > 0 {
        narrow(floor_quotient(product, den as i128))
    } else {
        narrow(floor_quotient(-product, -(den as i128)))
    }
}

/// `a` taken `count` times, saturating.
pub fn px_times(a: Px, count: usize) -> (r: Px)
    ensures
        r == clamp(a * count),
{
    let wide_a: i128 = a as i128;
    let wide_c: i128 = count as i128;
    assert(-0x7fff_ffff_ffff_ffff_ffff_ffff_ffff_ffff <= wide_a * wide_c
        <= 0x7fff_ffff_ffff_ffff_ffff_ffff_ffff_ffff) by (nonlinear_arith)
        requires
            -0x8000_0000_0000_0000 <= wide_a <= 0x7fff_ffff_ffff_ffff,
            0 <= wide_c <= 0xffff_ffff_ffff_ffff,
    ;
    narrow(wide_a * wide_c)
}

/// The weighted share of `available`: `weight` parts of `total`, rounded
/// down; nothing where the weights sum to zero.
pub open spec fn share(available: Px, weight: u32, total: nat) -> Px {
    if total == 0 {
        0
    } else {
        clamp(available * weight / (total as int))
    }
}

/// `weight` parts of `total` of `available`, rounded down.
pub fn px_share(available: Px, weight: u32, total: u128) -> (r: Px)
    ensures
        r == share(available, weight, total as nat),
{
    let wide_a: i128 = available as i128;
    let wide_w: i128 = weight as i128;
    assert(-0x8000_0000_0000_0000_0000_0000 <= wide_a * wide_w
        <= 0x8000_0000_0000_0000_0000_0000) by (nonlinear_arith)
        requires
            -0x8000_0000_0000_0000 <= wide_a <= 0x7fff_ffff_ffff_ffff,
            0 <= wide_w <= 0xffff_ffff,
    ;
    let product: i128 = wide_a * wide_w;
    if total == 0 {
        0
    } else if total > 0x10_0000_0000_0000_0000_0000_0000u128 {
        // The space is less than one part.
        proof {
            let p = product as int;
            let t = total as int;
            if p >= 0 {
                vstd::arithmetic::div_mod::lemma_basic_div(p, t);
            } else {
                assert(p / t == -1) by {
                    vstd::arithmetic::div_mod::lemma_fundamental_div_mod_converse(p, t, -1, p + t);
                }
            }
        }
        if product >= 0 {
            0
        } else {
            -1
        }
    } else {
        narrow(floor_quotient(product, total as i128))
    }
}

/// A point of the plane.
#[derive(Clone, Copy, Debug, PartialEq, Eq, Structural)]
pub struct Point {
    pub x: Px,
    pub y: Px,
}

impl Point {
    pub fn new(x: Px, y: Px) -> (r: Self)
        ensures
            r == (Point { x, y }),
    {
        Self { x, y }
    }
}

/// The extent of a box.
#[derive(Clone, Copy, Debug, PartialEq, Eq, Structural)]
pub struct Size {
    pub width: Px,
    pub height: Px,
}

impl Size {
    pub fn new(width: Px, height: Px) -> (r: Self)
        ensures
            r == (Size { width, height }),
    {
        Self { width, height }
    }
}

/// An axis-aligned box: its top-left corner and its extent.
#[derive(Clone, Copy, Debug, PartialEq, Eq, Structural)]
pub struct Rect {
    pub origin: Point,
    pub size: Size,
}

impl Rect {
    pub fn new(origin: Point, size: Size) -> (r: Self)
        ensures
            r == (Rect { origin, size }),
    {
        Self { origin, size }
    }

    /// The box at `x` and `y` of the given extent.
    pub open spec fn from_xywh_spec(x: Px, y: Px, width: Px, height: Px) -> Self {
        Rect { origin: Point { x, y }, size: Size { width, height } }
    }

    pub fn from_xywh(x: Px, y: Px, width: Px, height: Px) -> (r: Self)
        ensures
            r == Self::from_xywh_spec(x, y, width, height),
    {
        Self { origin: Point::new(x, y), size: Size::new(width, height) }
    }

    pub fn x(&self) -> (r: Px)
        ensures
            r == self.origin.x,
    {
        self.origin.x
    }

    pub fn y(&self) -> (r: Px)
        ensures
            r == self.origin.y,
    {
        self.origin.y
    }

    pub fn width(&self) -> (r: Px)
        ensures
            r == self.size.width,
    {
        self.size.width
    }

    pub fn height(&self) -> (r: Px)
        ensures
            r == self.size.height,
    {
        self.size.height
    }
}

impl From<Point> for Size {
    fn from(value: Point) -> (r: Self) {
        Size { width: value.x, height: value.y }
    }
}

impl FromSpecImpl<Point> for Size {
    open spec fn obeys_from_spec() -> bool {
        true
    }

    open spec fn from_spec(value: Point) -> Self {
        Size { width: value.x, height: value.y }
    }
}

impl From<Size> for Point {
    fn from(value: Size) -> (r: Self) {
        Point { x: value.width, y: value.height }
    }
}

impl FromSpecImpl<Size> for Point {
    open spec fn obeys_from_spec() -> bool {
        true
    }

    open spec fn from_spec(value: Size) -> Self {
        Point { x: value.width, y: value.height }
    }
}

} // verus!
