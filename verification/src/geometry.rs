//! Whole-unit geometry of the graph: points, rectangles and the anchor points of sockets.
//!
//! All positions are relative to the centre of the graph and counted in whole layout units.
//! Sums that leave the range of a [`Scalar`] stop at its nearest bound.

use vstd::prelude::*;

verus! {

/// One coordinate, in whole layout units.
pub type Scalar = i64;

/// The distance between two neighbouring sockets on one side of a node.
pub const SOCKET_PADDING: Scalar = 10;

/// The distance between the end of a side and the first socket on it.
pub const PAD: Scalar = 5;

/// A position in the plane.
#[derive(Copy, Clone, Debug, PartialEq, Eq, Hash, Structural)]
pub struct Point {
    pub x: Scalar,
    pub y: Scalar,
}

/// The stretch between two coordinates on one axis.
#[derive(Copy, Clone, Debug, PartialEq, Eq, Hash, Structural)]
pub struct Range {
    pub start: Scalar,
    pub end: Scalar,
}

/// An axis-aligned rectangle: its extent on the horizontal and on the vertical axis.
#[derive(Copy, Clone, Debug, PartialEq, Eq, Hash, Structural)]
pub struct Rect {
    pub x: Range,
    pub y: Range,
}

/// The direction in which sockets are laid out along a side.
#[derive(Copy, Clone, Debug, PartialEq, Eq, Hash, Structural)]
pub enum Direction {
    /// From the start of the side's range towards its end.
    Forwards,
    /// From the end of the side's range towards its start.
    Backwards,
}

/// Represents the side of a node widget's bounding rectangle.
///
/// This is used to describe default node socket layout.
#[derive(Copy, Clone, Debug, PartialEq, Eq, Hash, Structural)]
pub enum SocketSide {
    Left,
    Right,
    Top,
    Bottom,
}

/// Describes the layout of either input or output sockets.
#[derive(Copy, Clone, Debug, PartialEq, Eq, Hash, Structural)]
pub struct SocketLayout {
    /// Represents the side of a node widget's bounding rectangle.
    pub side: SocketSide,
    /// The direction in which sockets will be laid out over the side.
    pub direction: Direction,
}

/// The layouts of a node's input and output sockets.
#[derive(Copy, Clone, Debug, PartialEq, Eq, Hash, Structural)]
pub struct SocketLayouts {
    pub input: SocketLayout,
    pub output: SocketLayout,
}

/// The scalar nearest to `v`.
pub open spec fn clamp(v: int) -> Scalar {
    if v < i64::MIN {
        i64::MIN
    } else if v > i64::MAX {
        i64::MAX
    } else {
        v as i64
    }
}

/// Where a point ends up once it has been moved by `delta`.
pub open spec fn moved(from: Point, delta: Point) -> Point {
    Point { x: clamp(from.x + delta.x), y: clamp(from.y + delta.y) }
}

/// The zero-size rectangle that sits at `xy`.
pub open spec fn rect_at(xy: Point) -> Rect {
    Rect { x: Range { start: xy.x, end: xy.x }, y: Range { start: xy.y, end: xy.y } }
}

/// How far along `range` the socket with the given index sits, before the result is
/// brought into the range of a scalar.
pub open spec fn socket_offset(index: nat, range: Range, direction: Direction) -> int {
    match direction {
        Direction::Forwards => range.start + PAD + index * SOCKET_PADDING,
        Direction::Backwards => range.end - PAD - index * SOCKET_PADDING,
    }
}

/// The position of a socket along `range`.
pub open spec fn socket_scalar(index: nat, range: Range, direction: Direction) -> Scalar {
    clamp(socket_offset(index, range, direction))
}

/// Where the socket with the given index sits on its side of a rectangle: on the edge of
/// that side, and along it as far as its index says.
pub open spec fn side_anchor(index: nat, rect: Rect, layout: SocketLayout) -> Point {
    match layout.side {
        SocketSide::Left => Point {
            x: rect.x.start,
            y: socket_scalar(index, rect.y, layout.direction),
        },
        SocketSide::Right => Point {
            x: rect.x.end,
            y: socket_scalar(index, rect.y, layout.direction),
        },
        SocketSide::Bottom => Point {
            x: socket_scalar(index, rect.x, layout.direction),
            y: rect.y.start,
        },
        SocketSide::Top => Point {
            x: socket_scalar(index, rect.x, layout.direction),
            y: rect.y.end,
        },
    }
}

/// The anchor point of the socket with the given index on a node that is at `xy` and covers
/// `rect`.
///
/// On a rectangle that has an area the socket sits on its side of the rectangle. A rectangle
/// without an area has no sides to place sockets on: there the anchor is the node's own
/// position.
pub open spec fn socket_anchor(index: nat, rect: Rect, xy: Point, layout: SocketLayout) -> Point {
    if rect.is_degenerate() {
        xy
    } else {
        side_anchor(index, rect, layout)
    }
}

/// Brings a wide intermediate result back into the range of a scalar.
fn saturate(v: i128) -> (r: Scalar)
    ensures
        r == clamp(v as int),
{
    if v < -0x8000_0000_0000_0000i128 {
        i64::MIN
    } else if v > 0x7fff_ffff_ffff_ffffi128 {
        i64::MAX
    } else {
        v as i64
    }
}

impl Point {
    /// The centre of the graph.
    pub fn origin() -> (p: Point)
        ensures
            p == (Point { x: 0, y: 0 }),
    {
        Point { x: 0, y: 0 }
    }

    /// Whether this point, read as a displacement, moves nothing.
    pub fn is_zero(&self) -> (zero: bool)
        ensures
            zero == (*self == Point { x: 0, y: 0 }),
    {
        self.x == 0 && self.y == 0
    }

    /// This point moved by `delta`, each coordinate stopping at the bounds of a scalar.
    pub fn moved_by(&self, delta: Point) -> (to: Point)
        ensures
            to == moved(*self, delta),
    {
        let x: Scalar = saturate(self.x as i128 + delta.x as i128);
        let y: Scalar = saturate(self.y as i128 + delta.y as i128);
        Point { x, y }
    }
}

impl Rect {
    pub open spec fn spec_is_degenerate(&self) -> bool {
        self.x.start == self.x.end || self.y.start == self.y.end
    }

    /// Whether the rectangle has no area: its width or its height is zero.
    #[verifier::when_used_as_spec(spec_is_degenerate)]
    pub fn is_degenerate(&self) -> (degenerate: bool)
        ensures
            degenerate == self.is_degenerate(),
    {
        self.x.start == self.x.end || self.y.start == self.y.end
    }

    /// The zero-size rectangle at the given position.
    ///
    /// It stands in for the bounding rectangle of a node that has not been drawn yet.
    pub fn at_point(xy: Point) -> (rect: Rect)
        ensures
            rect == rect_at(xy),
    {
        Rect { x: Range { start: xy.x, end: xy.x }, y: Range { start: xy.y, end: xy.y } }
    }
}

impl SocketLayout {
    /// Where input sockets go unless the caller says otherwise: down the left side, from the
    /// top.
    pub fn default_input() -> (layout: SocketLayout)
        ensures
            layout == (SocketLayout { side: SocketSide::Left, direction: Direction::Backwards }),
    {
        SocketLayout { side: SocketSide::Left, direction: Direction::Backwards }
    }

    /// Where output sockets go unless the caller says otherwise: down the right side, from
    /// the top.
    pub fn default_output() -> (layout: SocketLayout)
        ensures
            layout == (SocketLayout { side: SocketSide::Right, direction: Direction::Backwards }),
    {
        SocketLayout { side: SocketSide::Right, direction: Direction::Backwards }
    }
}

/// The position of a socket along some range given its index and layout direction.
///
/// The first socket sits half a padding away from the end of the range that the direction
/// starts from, each further one a whole padding beyond the one before.
pub fn range_scalar(index: usize, range: Range, direction: Direction) -> (s: Scalar)
    ensures
        s == socket_scalar(index as nat, range, direction),
{
    let step: i128 = index as i128 * SOCKET_PADDING as i128;
    match direction {
        Direction::Forwards => saturate(range.start as i128 + PAD as i128 + step),
        Direction::Backwards => saturate(range.end as i128 - PAD as i128 - step),
    }
}

/// Find the position of the socket given its index, the rect and the position of its node,
/// and the socket layout.
///
/// On a rectangle that has an area, the coordinate across the side is that of the
/// rectangle's edge and the coordinate along the side comes from [`range_scalar`]. On a
/// rectangle without an area, as it stands in for a node that has not been drawn yet, the
/// socket is at the node's position.
pub fn socket_point(index: usize, rect: Rect, xy: Point, layout: &SocketLayout) -> (p: Point)
    ensures
        p == socket_anchor(index as nat, rect, xy, *layout),
{
    if rect.is_degenerate() {
        return xy;
    }
    match layout.side {
        SocketSide::Left => Point {
            x: rect.x.start,
            y: range_scalar(index, rect.y, layout.direction),
        },
        SocketSide::Right => Point {
            x: rect.x.end,
            y: range_scalar(index, rect.y, layout.direction),
        },
        SocketSide::Bottom => Point {
            x: range_scalar(index, rect.x, layout.direction),
            y: rect.y.start,
        },
        SocketSide::Top => Point {
            x: range_scalar(index, rect.x, layout.direction),
            y: rect.y.end,
        },
    }
}

/// A point moved by a displacement that keeps both sums in range lands exactly on the sum.
pub proof fn lemma_moved_is_sum(from: Point, delta: Point)
    requires
        i64::MIN <= from.x + delta.x <= i64::MAX,
        i64::MIN <= from.y + delta.y <= i64::MAX,
    ensures
        moved(from, delta).x == from.x + delta.x,
        moved(from, delta).y == from.y + delta.y,
{
}

/// On a rectangle without an area every socket is at the node's own position, whatever its
/// index and layout. The zero-size rectangle that stands in for a node that has not been
/// drawn is such a rectangle.
pub proof fn lemma_anchor_falls_back(index: nat, rect: Rect, xy: Point, layout: SocketLayout)
    ensures
        rect.is_degenerate() ==> socket_anchor(index, rect, xy, layout) == xy,
        rect_at(xy).is_degenerate(),
        socket_anchor(index, rect_at(xy), xy, layout) == xy,
{
}

/// On the right side of a rectangle that has an area, laid out backwards, the first socket
/// sits on the rectangle's right edge half a padding below its top, and the second a whole
/// padding below the first.
pub proof fn lemma_right_backwards_anchors(rect: Rect, xy: Point)
    requires
        !rect.is_degenerate(),
        i64::MIN <= rect.y.end - PAD - SOCKET_PADDING,
    ensures
        socket_anchor(
            0,
            rect,
            xy,
            SocketLayout { side: SocketSide::Right, direction: Direction::Backwards },
        ) == (Point { x: rect.x.end, y: (rect.y.end - PAD) as i64 }),
        socket_anchor(
            1,
            rect,
            xy,
            SocketLayout { side: SocketSide::Right, direction: Direction::Backwards },
        ) == (Point { x: rect.x.end, y: (rect.y.end - PAD - SOCKET_PADDING) as i64 }),
{
}

/// Sockets keep the order of their indices along a side: going forwards a later socket is
/// never before an earlier one, going backwards never after it.
pub proof fn lemma_socket_scalar_monotonic(i: nat, j: nat, range: Range, direction: Direction)
    requires
        i <= j,
    ensures
        direction == Direction::Forwards ==> socket_scalar(i, range, direction) <= socket_scalar(
            j,
            range,
            direction,
        ),
        direction == Direction::Backwards ==> socket_scalar(j, range, direction) <= socket_scalar(
            i,
            range,
            direction,
        ),
{
    assert(i * SOCKET_PADDING <= j * SOCKET_PADDING) by (nonlinear_arith)
        requires
            i <= j,
    ;
}

/// While no position leaves the range of a scalar, different sockets of one side have
/// different positions, exactly one padding apart for neighbours.
pub proof fn lemma_socket_scalar_spacing(i: nat, range: Range, direction: Direction)
    requires
        i64::MIN <= socket_offset(i + 1, range, direction) <= i64::MAX,
        i64::MIN <= socket_offset(i, range, direction) <= i64::MAX,
    ensures
        direction == Direction::Forwards ==> socket_scalar(i + 1, range, direction)
            == socket_scalar(i, range, direction) + SOCKET_PADDING,
        direction == Direction::Backwards ==> socket_scalar(i + 1, range, direction)
            == socket_scalar(i, range, direction) - SOCKET_PADDING,
{
    assert((i + 1) * SOCKET_PADDING == i * SOCKET_PADDING + SOCKET_PADDING) by (nonlinear_arith);
}

/// The anchors of one side keep the order of their indices along the side, and all lie on
/// the same edge of the rectangle. On a rectangle without an area they all coincide.
pub proof fn lemma_socket_anchor_monotonic(
    i: nat,
    j: nat,
    rect: Rect,
    xy: Point,
    layout: SocketLayout,
)
    requires
        i <= j,
    ensures
        (layout.side == SocketSide::Left || layout.side == SocketSide::Right) ==> {
            &&& socket_anchor(i, rect, xy, layout).x == socket_anchor(j, rect, xy, layout).x
            &&& layout.direction == Direction::Forwards ==> socket_anchor(i, rect, xy, layout).y
                <= socket_anchor(j, rect, xy, layout).y
            &&& layout.direction == Direction::Backwards ==> socket_anchor(j, rect, xy, layout).y
                <= socket_anchor(i, rect, xy, layout).y
        },
        (layout.side == SocketSide::Top || layout.side == SocketSide::Bottom) ==> {
            &&& socket_anchor(i, rect, xy, layout).y == socket_anchor(j, rect, xy, layout).y
            &&& layout.direction == Direction::Forwards ==> socket_anchor(i, rect, xy, layout).x
                <= socket_anchor(j, rect, xy, layout).x
            &&& layout.direction == Direction::Backwards ==> socket_anchor(j, rect, xy, layout).x
                <= socket_anchor(i, rect, xy, layout).x
        },
{
    lemma_socket_scalar_monotonic(i, j, rect.x, layout.direction);
    lemma_socket_scalar_monotonic(i, j, rect.y, layout.direction);
}

} // verus!
