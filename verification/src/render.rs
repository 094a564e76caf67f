//! Drawing, as plain shapes: every screen but Wade's face is a list of
//! rectangles and discs in palette colors, which the platform fills in. The
//! shapes are placed from the layout, so what is drawn is what can be tapped.

use vstd::prelude::*;

use crate::geometry::{Point, Rectangle, Size};
use crate::layout::{self, Target, Tile};
use crate::timer::{Digits, TimerButton};

verus! {

/// A color of the palette. The platform chooses the pixel values.
#[derive(Clone, Copy, Debug, PartialEq, Eq, Structural, Hash)]
pub enum Ink {
    /// The screen behind everything.
    Background,
    /// Eyes, marks, digits and enabled buttons: a cool white.
    Eye,
    /// Navigation buttons and disabled buttons: low contrast.
    Dim,
}

/// One filled shape.
#[derive(Clone, Copy, Debug, PartialEq, Eq, Structural, Hash)]
pub enum Shape {
    /// `area`, its corners rounded to `radius`.
    Fill { area: Rectangle, radius: u32, ink: Ink },
    /// A band `width` wide just inside the edge of `area`, its corners
    /// rounded to `radius`.
    Outline { area: Rectangle, radius: u32, width: u32, ink: Ink },
    /// The disc inscribed in the square `area`.
    Disc { area: Rectangle, ink: Ink },
    /// A ring `width` wide just inside the edge of the disc inscribed in `area`.
    Ring { area: Rectangle, width: u32, ink: Ink },
}

impl Shape {
    /// The rectangle the shape is drawn in.
    pub open spec fn area(self) -> Rectangle {
        match self {
            Shape::Fill { area, .. } => area,
            Shape::Outline { area, .. } => area,
            Shape::Disc { area, .. } => area,
            Shape::Ring { area, .. } => area,
        }
    }
}

/// True if every pixel of `inner` is a pixel of `outer`.
pub open spec fn inside(inner: Rectangle, outer: Rectangle) -> bool {
    &&& outer.top_left.x <= inner.top_left.x
    &&& inner.top_left.x + inner.size.width <= outer.top_left.x + outer.size.width
    &&& outer.top_left.y <= inner.top_left.y
    &&& inner.top_left.y + inner.size.height <= outer.top_left.y + outer.size.height
}

/// True if every shape of `shapes` is drawn inside `outer`.
pub open spec fn all_inside(shapes: Seq<Shape>, outer: Rectangle) -> bool {
    forall|i: int| 0 <= i < shapes.len() ==> inside(#[trigger] shapes[i].area(), outer)
}

/// Pushing a shape drawn inside `outer` keeps every shape inside it.
proof fn lemma_push_inside(shapes: Seq<Shape>, s: Shape, outer: Rectangle)
    requires
        all_inside(shapes, outer),
        inside(s.area(), outer),
    ensures
        all_inside(shapes.push(s), outer),
{
    assert forall|i: int| 0 <= i < shapes.push(s).len() implies inside(
        #[trigger] shapes.push(s)[i].area(),
        outer,
    ) by {
        if i < shapes.len() {
            assert(shapes.push(s)[i] == shapes[i]);
        }
    }
}

/// Shapes inside a rectangle that is inside another are inside that one too.
proof fn lemma_inside_widens(shapes: Seq<Shape>, inner: Rectangle, outer: Rectangle)
    requires
        all_inside(shapes, inner),
        inside(inner, outer),
    ensures
        all_inside(shapes, outer),
{
    assert forall|i: int| 0 <= i < shapes.len() implies inside(#[trigger] shapes[i].area(), outer) by {
        assert(inside(shapes[i].area(), inner));
    }
}

/// The rectangle `w` by `h` at `x`, `y`.
pub open spec fn rect_at(x: int, y: int, w: int, h: int) -> Rectangle {
    Rectangle {
        top_left: Point { x: x as i32, y: y as i32 },
        size: Size { width: w as u32, height: h as u32 },
    }
}

/// A digit's width and height.
pub const DIGIT_WIDTH: i32 = 36;
pub const DIGIT_HEIGHT: i32 = 64;
/// Segment thickness; each segment is a pill with fully rounded ends.
pub const THICKNESS: i32 = 8;
/// Space between the ends of neighboring segments.
pub const GAP: i32 = 3;
/// Space between digits.
pub const SPACING: i32 = 10;
/// The width the colon takes between minutes and seconds.
pub const COLON: i32 = 24;

/// Segments, one bit each: top, upper right, lower right, bottom, lower left,
/// upper left, and middle.
pub const SEG_A: u8 = 1;
pub const SEG_B: u8 = 2;
pub const SEG_C: u8 = 4;
pub const SEG_D: u8 = 8;
pub const SEG_E: u8 = 16;
pub const SEG_F: u8 = 32;
pub const SEG_G: u8 = 64;

/// The segments lit for the decimal digit `n`.
pub open spec fn numeral_spec(n: u8) -> u8 {
    if n == 0 {
        SEG_A | SEG_B | SEG_C | SEG_D | SEG_E | SEG_F
    } else if n == 1 {
        SEG_B | SEG_C
    } else if n == 2 {
        SEG_A | SEG_B | SEG_D | SEG_E | SEG_G
    } else if n == 3 {
        SEG_A | SEG_B | SEG_C | SEG_D | SEG_G
    } else if n == 4 {
        SEG_B | SEG_C | SEG_F | SEG_G
    } else if n == 5 {
        SEG_A | SEG_C | SEG_D | SEG_F | SEG_G
    } else if n == 6 {
        SEG_A | SEG_C | SEG_D | SEG_E | SEG_F | SEG_G
    } else if n == 7 {
        SEG_A | SEG_B | SEG_C
    } else if n == 8 {
        SEG_A | SEG_B | SEG_C | SEG_D | SEG_E | SEG_F | SEG_G
    } else {
        SEG_A | SEG_B | SEG_C | SEG_D | SEG_F | SEG_G
    }
}

/// The segments lit for the decimal digit `n`, as a seven-segment display
/// shows it (a 9 with its bottom bar).
pub fn numeral(n: u8) -> (segments: u8)
    requires
        n <= 9,
    ensures
        segments == numeral_spec(n),
{
    if n == 0 {
        SEG_A | SEG_B | SEG_C | SEG_D | SEG_E | SEG_F
    } else if n == 1 {
        SEG_B | SEG_C
    } else if n == 2 {
        SEG_A | SEG_B | SEG_D | SEG_E | SEG_G
    } else if n == 3 {
        SEG_A | SEG_B | SEG_C | SEG_D | SEG_G
    } else if n == 4 {
        SEG_B | SEG_C | SEG_F | SEG_G
    } else if n == 5 {
        SEG_A | SEG_C | SEG_D | SEG_F | SEG_G
    } else if n == 6 {
        SEG_A | SEG_C | SEG_D | SEG_E | SEG_F | SEG_G
    } else if n == 7 {
        SEG_A | SEG_B | SEG_C
    } else if n == 8 {
        SEG_A | SEG_B | SEG_C | SEG_D | SEG_E | SEG_F | SEG_G
    } else {
        SEG_A | SEG_B | SEG_C | SEG_D | SEG_F | SEG_G
    }
}

/// The pill of segment `bit` of a digit whose top-left corner is at `x`, `y`.
/// Each pill ends `GAP` short of the corner where its neighbors meet.
pub open spec fn pill(bit: u8, x: int, y: int) -> Rectangle {
    let end = THICKNESS / 2 + GAP;
    let across = DIGIT_WIDTH - 2 * end;
    let down = DIGIT_HEIGHT / 2 - THICKNESS / 2 - 2 * GAP;
    let right = DIGIT_WIDTH - THICKNESS;
    let lower = DIGIT_HEIGHT / 2 + GAP;
    if bit == SEG_A {
        rect_at(x + end, y, across, THICKNESS as int)
    } else if bit == SEG_B {
        rect_at(x + right, y + end, THICKNESS as int, down)
    } else if bit == SEG_C {
        rect_at(x + right, y + lower, THICKNESS as int, down)
    } else if bit == SEG_D {
        rect_at(x + end, y + DIGIT_HEIGHT - THICKNESS, across, THICKNESS as int)
    } else if bit == SEG_E {
        rect_at(x, y + lower, THICKNESS as int, down)
    } else if bit == SEG_F {
        rect_at(x, y + end, THICKNESS as int, down)
    } else {
        rect_at(x + end, y + (DIGIT_HEIGHT - THICKNESS) / 2, across, THICKNESS as int)
    }
}

/// Each segment's pill sits where its name says, in the digit whose box
/// has its top-left corner at `x`, `y`: the top, middle and bottom bars lie
/// across, at the top edge, the middle and the bottom edge; the others stand
/// upright, upper right (B) and lower right (C) against the right edge,
/// lower left (E) and upper left (F) against the left edge, each within its
/// half of the digit's height.
pub proof fn lemma_segments_sit_where_named(x: int, y: int)
    requires
        digit_fits(x, y),
    ensures
        ({
            let a = pill(SEG_A, x, y);
            a.size.width > a.size.height && a.top_left.y == y
        }),
        ({
            let d = pill(SEG_D, x, y);
            d.size.width > d.size.height && d.top_left.y + d.size.height == y + DIGIT_HEIGHT
        }),
        ({
            let g = pill(SEG_G, x, y);
            g.size.width > g.size.height && 2 * g.top_left.y + g.size.height == 2 * y + DIGIT_HEIGHT
        }),
        forall|bit: u8|
            bit == SEG_B || bit == SEG_C ==> {
                let p = #[trigger] pill(bit, x, y);
                p.size.height > p.size.width && p.top_left.x + p.size.width == x + DIGIT_WIDTH && 2 * p.top_left.x
                    > 2 * x + DIGIT_WIDTH
            },
        forall|bit: u8|
            bit == SEG_E || bit == SEG_F ==> {
                let p = #[trigger] pill(bit, x, y);
                p.size.height > p.size.width && p.top_left.x == x && 2 * (p.top_left.x + p.size.width) < 2 * x
                    + DIGIT_WIDTH
            },
        forall|bit: u8|
            bit == SEG_B || bit == SEG_F ==> {
                let p = #[trigger] pill(bit, x, y);
                p.top_left.y > y && 2 * (p.top_left.y + p.size.height) < 2 * y + DIGIT_HEIGHT
            },
        forall|bit: u8|
            bit == SEG_C || bit == SEG_E ==> {
                let p = #[trigger] pill(bit, x, y);
                2 * p.top_left.y > 2 * y + DIGIT_HEIGHT && p.top_left.y + p.size.height < y + DIGIT_HEIGHT
            },
{
}

/// True if `x`, `y` is far enough from the edges of `i32` for a digit there.
pub open spec fn digit_fits(x: int, y: int) -> bool {
    0 <= x && x + DIGIT_WIDTH <= i32::MAX && 0 <= y && y + DIGIT_HEIGHT <= i32::MAX
}

/// The pill of segment `bit`, as a list: empty unless `segments` lights it.
pub open spec fn lit(segments: u8, bit: u8, x: int, y: int) -> Seq<Shape> {
    if segments & bit != 0 {
        seq![Shape::Fill { area: pill(bit, x, y), radius: (THICKNESS / 2) as u32, ink: Ink::Eye }]
    } else {
        seq![]
    }
}

/// One digit with `segments` lit, its top-left corner at `x`, `y`: a pill
/// for each lit segment, in the order top, upper right, lower right, bottom,
/// lower left, upper left, middle.
pub open spec fn glyph_shapes(segments: u8, x: int, y: int) -> Seq<Shape> {
    lit(segments, SEG_A, x, y) + lit(segments, SEG_B, x, y) + lit(segments, SEG_C, x, y) + lit(
        segments,
        SEG_D,
        x,
        y,
    ) + lit(segments, SEG_E, x, y) + lit(segments, SEG_F, x, y) + lit(segments, SEG_G, x, y)
}

/// A digit's box.
pub open spec fn digit_box(x: int, y: int) -> Rectangle {
    rect_at(x, y, DIGIT_WIDTH as int, DIGIT_HEIGHT as int)
}

/// Every pill of a digit lies inside the digit's box.
pub proof fn lemma_glyph_inside(segments: u8, x: int, y: int)
    requires
        digit_fits(x, y),
    ensures
        all_inside(glyph_shapes(segments, x, y), digit_box(x, y)),
{
    let g = glyph_shapes(segments, x, y);
    assert forall|i: int| 0 <= i < g.len() implies inside(#[trigger] g[i].area(), digit_box(x, y)) by {
        let bit = g[i].area();
        assert(g[i] is Fill);
    }
}

/// Append the pill of segment `bit`, if `segments` lights it.
fn segment(shapes: &mut Vec<Shape>, segments: u8, bit: u8, x: i32, y: i32)
    requires
        digit_fits(x as int, y as int),
        bit == SEG_A || bit == SEG_B || bit == SEG_C || bit == SEG_D || bit == SEG_E || bit == SEG_F
            || bit == SEG_G,
    ensures
        final(shapes)@ == old(shapes)@ + lit(segments, bit, x as int, y as int),
{
    if segments & bit != 0 {
        let end = THICKNESS / 2 + GAP;
        let across = (DIGIT_WIDTH - 2 * end) as u32;
        let down = (DIGIT_HEIGHT / 2 - THICKNESS / 2 - 2 * GAP) as u32;
        let right = DIGIT_WIDTH - THICKNESS;
        let lower = DIGIT_HEIGHT / 2 + GAP;
        let thick = THICKNESS as u32;
        let area = if bit == SEG_A {
            Rectangle::new(Point::new(x + end, y), Size::new(across, thick))
        } else if bit == SEG_B {
            Rectangle::new(Point::new(x + right, y + end), Size::new(thick, down))
        } else if bit == SEG_C {
            Rectangle::new(Point::new(x + right, y + lower), Size::new(thick, down))
        } else if bit == SEG_D {
            Rectangle::new(Point::new(x + end, y + DIGIT_HEIGHT - THICKNESS), Size::new(across, thick))
        } else if bit == SEG_E {
            Rectangle::new(Point::new(x, y + lower), Size::new(thick, down))
        } else if bit == SEG_F {
            Rectangle::new(Point::new(x, y + end), Size::new(thick, down))
        } else {
            Rectangle::new(
                Point::new(x + end, y + (DIGIT_HEIGHT - THICKNESS) / 2),
                Size::new(across, thick),
            )
        };
        shapes.push(Shape::Fill { area, radius: (THICKNESS / 2) as u32, ink: Ink::Eye });
        assert(shapes@ =~= old(shapes)@ + lit(segments, bit, x as int, y as int));
    } else {
        assert(shapes@ =~= old(shapes)@ + lit(segments, bit, x as int, y as int));
    }
}

/// Append one digit with `segments` lit, its top-left corner at `x`, `y`.
pub fn glyph(shapes: &mut Vec<Shape>, segments: u8, x: i32, y: i32)
    requires
        digit_fits(x as int, y as int),
    ensures
        final(shapes)@ == old(shapes)@ + glyph_shapes(segments, x as int, y as int),
{
    let ghost (gx, gy) = (x as int, y as int);
    segment(shapes, segments, SEG_A, x, y);
    segment(shapes, segments, SEG_B, x, y);
    segment(shapes, segments, SEG_C, x, y);
    segment(shapes, segments, SEG_D, x, y);
    segment(shapes, segments, SEG_E, x, y);
    segment(shapes, segments, SEG_F, x, y);
    segment(shapes, segments, SEG_G, x, y);
    assert(shapes@ =~= old(shapes)@ + glyph_shapes(segments, gx, gy));
}

/// Where a line of MM:SS starts: centered in the digits band.
pub open spec fn time_left() -> int {
    (320 - (4 * DIGIT_WIDTH + 2 * SPACING + COLON)) / 2
}

pub open spec fn time_top() -> int {
    48 + (88 - DIGIT_HEIGHT) / 2
}

/// Where digit `i` of MM:SS starts, counting from the left: after the colon's
/// space for the seconds.
pub open spec fn digit_left(i: int) -> int {
    time_left() + i * (DIGIT_WIDTH + SPACING) + if i >= 2 {
        COLON - SPACING
    } else {
        0
    }
}

/// The colon's dot at height `dy` in the digits: centered in the colon's space.
pub open spec fn colon_dot(dy: int) -> Shape {
    Shape::Disc {
        area: rect_at(
            time_left() + 2 * DIGIT_WIDTH + SPACING + (COLON - THICKNESS) / 2,
            time_top() + dy - THICKNESS / 2,
            THICKNESS as int,
            THICKNESS as int,
        ),
        ink: Ink::Eye,
    }
}

/// The time `minutes`:`seconds` as shapes: four digits and a colon.
pub open spec fn time_shapes(minutes: u8, seconds: u8) -> Seq<Shape> {
    glyph_shapes(numeral_spec(minutes / 10 % 10), digit_left(0), time_top()) + glyph_shapes(
        numeral_spec(minutes % 10),
        digit_left(1),
        time_top(),
    ) + glyph_shapes(numeral_spec(seconds / 10 % 10), digit_left(2), time_top()) + glyph_shapes(
        numeral_spec(seconds % 10),
        digit_left(3),
        time_top(),
    ) + seq![colon_dot(DIGIT_HEIGHT / 3), colon_dot(DIGIT_HEIGHT - DIGIT_HEIGHT / 3)]
}

/// The time as MM:SS, centered in the digits band and drawn inside it.
pub fn time(digits: Digits) -> (shapes: Vec<Shape>)
    ensures
        shapes@ == time_shapes(digits@.0, digits@.1),
        all_inside(shapes@, layout::timer_digits()),
{
    let (m, s) = (digits.minutes(), digits.seconds());
    let left: i32 = (320 - (4 * DIGIT_WIDTH + 2 * SPACING + COLON)) / 2;
    let top: i32 = 48 + (88 - DIGIT_HEIGHT) / 2;
    let mut shapes: Vec<Shape> = Vec::new();
    glyph(&mut shapes, numeral(m / 10 % 10), left, top);
    glyph(&mut shapes, numeral(m % 10), left + DIGIT_WIDTH + SPACING, top);
    glyph(&mut shapes, numeral(s / 10 % 10), left + 2 * (DIGIT_WIDTH + SPACING) + COLON - SPACING, top);
    glyph(&mut shapes, numeral(s % 10), left + 3 * (DIGIT_WIDTH + SPACING) + COLON - SPACING, top);
    let x = left + 2 * DIGIT_WIDTH + SPACING + (COLON - THICKNESS) / 2;
    let dot = THICKNESS as u32;
    shapes.push(
        Shape::Disc {
            area: Rectangle::new(Point::new(x, top + DIGIT_HEIGHT / 3 - THICKNESS / 2), Size::new(dot, dot)),
            ink: Ink::Eye,
        },
    );
    shapes.push(
        Shape::Disc {
            area: Rectangle::new(
                Point::new(x, top + DIGIT_HEIGHT - DIGIT_HEIGHT / 3 - THICKNESS / 2),
                Size::new(dot, dot),
            ),
            ink: Ink::Eye,
        },
    );
    proof {
        assert(shapes@ =~= time_shapes(m, s));
        let band = layout::timer_digits_spec();
        let g0 = glyph_shapes(numeral_spec(m / 10 % 10), digit_left(0), time_top());
        let g1 = glyph_shapes(numeral_spec(m % 10), digit_left(1), time_top());
        let g2 = glyph_shapes(numeral_spec(s / 10 % 10), digit_left(2), time_top());
        let g3 = glyph_shapes(numeral_spec(s % 10), digit_left(3), time_top());
        lemma_glyph_inside(numeral_spec(m / 10 % 10), digit_left(0), time_top());
        lemma_glyph_inside(numeral_spec(m % 10), digit_left(1), time_top());
        lemma_glyph_inside(numeral_spec(s / 10 % 10), digit_left(2), time_top());
        lemma_glyph_inside(numeral_spec(s % 10), digit_left(3), time_top());
        lemma_inside_widens(g0, digit_box(digit_left(0), time_top()), band);
        lemma_inside_widens(g1, digit_box(digit_left(1), time_top()), band);
        lemma_inside_widens(g2, digit_box(digit_left(2), time_top()), band);
        lemma_inside_widens(g3, digit_box(digit_left(3), time_top()), band);
        let all = shapes@;
        assert forall|i: int| 0 <= i < all.len() implies inside(#[trigger] all[i].area(), band) by {
            let n0 = g0.len() as int;
            let n1 = n0 + g1.len();
            let n2 = n1 + g2.len();
            let n3 = n2 + g3.len();
            if i < n0 {
                assert(all[i] == g0[i]);
            } else if i < n1 {
                assert(all[i] == g1[i - n0]);
            } else if i < n2 {
                assert(all[i] == g2[i - n1]);
            } else if i < n3 {
                assert(all[i] == g3[i - n2]);
            }
        }
    }
    shapes
}

/// A picture drawn from shapes. Screens show icons, never words.
#[derive(Clone, Copy, Debug, PartialEq, Eq, Structural, Hash)]
pub enum Icon {
    Stopwatch,
    Gear,
    Apps,
    Minus,
    Plus,
    Play,
    Pause,
    Stop,
    Check,
}

/// How a piece of an icon is filled.
#[derive(Clone, Copy, Debug, PartialEq, Eq, Structural, Hash)]
pub enum Stroke {
    /// Solid, with slightly rounded corners.
    Bar,
    /// A ring three pixels wide at the icon's size.
    Ring,
}

/// A piece of an icon at its smallest size, placed from the icon's middle.
#[derive(Clone, Copy, Debug, PartialEq, Eq, Structural, Hash)]
pub struct Piece {
    pub dx: i32,
    pub dy: i32,
    pub w: u32,
    pub h: u32,
    pub stroke: Stroke,
}

/// Icons reach at most this far from their middle, at their smallest size.
pub const ICON_REACH: i32 = 18;

/// True if `p` stays within `ICON_REACH` of the middle on every side.
pub open spec fn piece_fits(p: Piece) -> bool {
    -ICON_REACH <= p.dx && p.dx + p.w <= ICON_REACH && -ICON_REACH <= p.dy && p.dy + p.h
        <= ICON_REACH
}

/// The pieces of each icon.
pub open spec fn icon_pieces(icon: Icon) -> Seq<Piece> {
    match icon {
        Icon::Stopwatch => seq![
            Piece { dx: -12i32, dy: -10i32, w: 24, h: 24, stroke: Stroke::Ring },
            Piece { dx: -4i32, dy: -17i32, w: 8, h: 4, stroke: Stroke::Bar },
            Piece { dx: -1i32, dy: -13i32, w: 2, h: 3, stroke: Stroke::Bar },
            Piece { dx: -1i32, dy: -6i32, w: 2, h: 8, stroke: Stroke::Bar },
        ],
        Icon::Gear => seq![
            Piece { dx: -10i32, dy: -10i32, w: 20, h: 20, stroke: Stroke::Ring },
            Piece { dx: -3i32, dy: -15i32, w: 6, h: 6, stroke: Stroke::Bar },
            Piece { dx: -3i32, dy: 9, w: 6, h: 6, stroke: Stroke::Bar },
            Piece { dx: -15i32, dy: -3i32, w: 6, h: 6, stroke: Stroke::Bar },
            Piece { dx: 9, dy: -3i32, w: 6, h: 6, stroke: Stroke::Bar },
        ],
        Icon::Apps => seq![
            Piece { dx: -10i32, dy: -10i32, w: 8, h: 8, stroke: Stroke::Bar },
            Piece { dx: 2, dy: -10i32, w: 8, h: 8, stroke: Stroke::Bar },
            Piece { dx: -10i32, dy: 2, w: 8, h: 8, stroke: Stroke::Bar },
            Piece { dx: 2, dy: 2, w: 8, h: 8, stroke: Stroke::Bar },
        ],
        Icon::Minus => seq![Piece { dx: -8i32, dy: -2i32, w: 16, h: 4, stroke: Stroke::Bar }],
        Icon::Plus => seq![
            Piece { dx: -8i32, dy: -2i32, w: 16, h: 4, stroke: Stroke::Bar },
            Piece { dx: -2i32, dy: -8i32, w: 4, h: 16, stroke: Stroke::Bar },
        ],
        // A triangle pointing right, in columns two pixels wide.
        Icon::Play => seq![
            Piece { dx: -6i32, dy: -8i32, w: 2, h: 16, stroke: Stroke::Bar },
            Piece { dx: -4i32, dy: -7i32, w: 2, h: 14, stroke: Stroke::Bar },
            Piece { dx: -2i32, dy: -6i32, w: 2, h: 12, stroke: Stroke::Bar },
            Piece { dx: 0, dy: -5i32, w: 2, h: 10, stroke: Stroke::Bar },
            Piece { dx: 2, dy: -4i32, w: 2, h: 8, stroke: Stroke::Bar },
            Piece { dx: 4, dy: -3i32, w: 2, h: 6, stroke: Stroke::Bar },
            Piece { dx: 6, dy: -2i32, w: 2, h: 4, stroke: Stroke::Bar },
            Piece { dx: 8, dy: -1i32, w: 2, h: 2, stroke: Stroke::Bar },
        ],
        Icon::Pause => seq![
            Piece { dx: -7i32, dy: -8i32, w: 5, h: 16, stroke: Stroke::Bar },
            Piece { dx: 2, dy: -8i32, w: 5, h: 16, stroke: Stroke::Bar },
        ],
        Icon::Stop => seq![Piece { dx: -7i32, dy: -7i32, w: 14, h: 14, stroke: Stroke::Bar }],
        // A tick in steps, a short arm down and a long arm up.
        Icon::Check => seq![
            Piece { dx: -8i32, dy: 0, w: 3, h: 3, stroke: Stroke::Bar },
            Piece { dx: -6i32, dy: 2, w: 3, h: 3, stroke: Stroke::Bar },
            Piece { dx: -4i32, dy: 4, w: 3, h: 3, stroke: Stroke::Bar },
            Piece { dx: -2i32, dy: 2, w: 3, h: 3, stroke: Stroke::Bar },
            Piece { dx: 0, dy: 0, w: 3, h: 3, stroke: Stroke::Bar },
            Piece { dx: 2, dy: -2i32, w: 3, h: 3, stroke: Stroke::Bar },
            Piece { dx: 4, dy: -4i32, w: 3, h: 3, stroke: Stroke::Bar },
            Piece { dx: 6, dy: -6i32, w: 3, h: 3, stroke: Stroke::Bar },
            Piece { dx: 8, dy: -8i32, w: 3, h: 3, stroke: Stroke::Bar },
        ],
    }
}

/// The pieces of `icon`.
pub fn pieces(icon: Icon) -> (p: Vec<Piece>)
    ensures
        p@ == icon_pieces(icon),
        forall|i: int| 0 <= i < p@.len() ==> piece_fits(#[trigger] p@[i]),
{
    let bar = |dx: i32, dy: i32, w: u32, h: u32| -> (r: Piece)
        ensures
            r == (Piece { dx, dy, w, h, stroke: Stroke::Bar }),
        { Piece { dx, dy, w, h, stroke: Stroke::Bar } };
    let p = match icon {
        Icon::Stopwatch => vec![
            Piece { dx: -12i32, dy: -10i32, w: 24, h: 24, stroke: Stroke::Ring },
            bar(-4, -17, 8, 4),
            bar(-1, -13, 2, 3),
            bar(-1, -6, 2, 8),
        ],
        Icon::Gear => vec![
            Piece { dx: -10i32, dy: -10i32, w: 20, h: 20, stroke: Stroke::Ring },
            bar(-3, -15, 6, 6),
            bar(-3, 9, 6, 6),
            bar(-15, -3, 6, 6),
            bar(9, -3, 6, 6),
        ],
        Icon::Apps => vec![bar(-10, -10, 8, 8), bar(2, -10, 8, 8), bar(-10, 2, 8, 8), bar(2, 2, 8, 8)],
        Icon::Minus => vec![bar(-8, -2, 16, 4)],
        Icon::Plus => vec![bar(-8, -2, 16, 4), bar(-2, -8, 4, 16)],
        Icon::Play => vec![
            bar(-6, -8, 2, 16),
            bar(-4, -7, 2, 14),
            bar(-2, -6, 2, 12),
            bar(0, -5, 2, 10),
            bar(2, -4, 2, 8),
            bar(4, -3, 2, 6),
            bar(6, -2, 2, 4),
            bar(8, -1, 2, 2),
        ],
        Icon::Pause => vec![bar(-7, -8, 5, 16), bar(2, -8, 5, 16)],
        Icon::Stop => vec![bar(-7, -7, 14, 14)],
        Icon::Check => vec![
            bar(-8, 0, 3, 3),
            bar(-6, 2, 3, 3),
            bar(-4, 4, 3, 3),
            bar(-2, 2, 3, 3),
            bar(0, 0, 3, 3),
            bar(2, -2, 3, 3),
            bar(4, -4, 3, 3),
            bar(6, -6, 3, 3),
            bar(8, -8, 3, 3),
        ],
    };
    assert(p@ =~= icon_pieces(icon));
    p
}

/// True if `area` is within the screen's reach of coordinates and large
/// enough for an icon at `scale`.
pub open spec fn icon_room(area: Rectangle, scale: u32) -> bool {
    &&& 1 <= scale <= 2
    &&& 0 <= area.top_left.x && area.top_left.x + area.size.width <= 10_000
    &&& 0 <= area.top_left.y && area.top_left.y + area.size.height <= 10_000
    &&& area.size.width >= 2 * ICON_REACH * scale
    &&& area.size.height >= 2 * ICON_REACH * scale
}

/// The middle of `area`: the pixel just past it, so shapes of even size
/// offset by half their size sit exactly centered.
pub open spec fn middle(area: Rectangle) -> (int, int) {
    (area.top_left.x + area.size.width / 2, area.top_left.y + area.size.height / 2)
}

/// `p` placed at `scale` from the middle of `area`, in `ink`.
pub open spec fn placed(p: Piece, area: Rectangle, scale: u32, ink: Ink) -> Shape {
    let (mx, my) = middle(area);
    let r = rect_at(mx + p.dx * scale, my + p.dy * scale, p.w * scale, p.h * scale);
    match p.stroke {
        Stroke::Bar => Shape::Fill { area: r, radius: scale, ink },
        Stroke::Ring => Shape::Ring { area: r, width: (3 * scale) as u32, ink },
    }
}

/// `icon` at `scale`, centered in `area`, in `ink`.
pub open spec fn icon_shapes(icon: Icon, area: Rectangle, scale: u32, ink: Ink) -> Seq<Shape> {
    icon_pieces(icon).map_values(|p: Piece| placed(p, area, scale, ink))
}

/// A piece that fits, placed in an area with room, is drawn inside it.
proof fn lemma_placed_inside(p: Piece, area: Rectangle, scale: u32, ink: Ink)
    requires
        piece_fits(p),
        icon_room(area, scale),
    ensures
        inside(placed(p, area, scale, ink).area(), area),
{
    let s = scale as int;
    assert(p.dx * s >= -ICON_REACH * s && (p.dx + p.w) * s <= ICON_REACH * s) by (nonlinear_arith)
        requires
            -ICON_REACH <= p.dx,
            p.dx + p.w <= ICON_REACH,
            s >= 1,
    ;
    assert(p.dy * s >= -ICON_REACH * s && (p.dy + p.h) * s <= ICON_REACH * s) by (nonlinear_arith)
        requires
            -ICON_REACH <= p.dy,
            p.dy + p.h <= ICON_REACH,
            s >= 1,
    ;
    assert((p.dx + p.w) * s == p.dx * s + p.w * s) by (nonlinear_arith);
    assert((p.dy + p.h) * s == p.dy * s + p.h * s) by (nonlinear_arith);
    assert(p.w * s >= 0 && p.h * s >= 0) by (nonlinear_arith)
        requires
            s >= 1,
    ;
}

/// Draw `icon` at `scale` in `ink`, centered in `area` and inside it.
pub fn icon_at(icon: Icon, area: Rectangle, scale: u32, ink: Ink) -> (shapes: Vec<Shape>)
    requires
        icon_room(area, scale),
    ensures
        shapes@ == icon_shapes(icon, area, scale, ink),
        all_inside(shapes@, area),
{
    let ps = pieces(icon);
    let mx = area.top_left.x + (area.size.width / 2) as i32;
    let my = area.top_left.y + (area.size.height / 2) as i32;
    let mut shapes: Vec<Shape> = Vec::new();
    let mut i: usize = 0;
    while i < ps.len()
        invariant
            i <= ps@.len(),
            ps@ == icon_pieces(icon),
            forall|k: int| 0 <= k < ps@.len() ==> piece_fits(#[trigger] ps@[k]),
            icon_room(area, scale),
            mx == middle(area).0,
            my == middle(area).1,
            shapes@ == icon_shapes(icon, area, scale, ink).subrange(0, i as int),
            all_inside(shapes@, area),
        decreases ps@.len() - i,
    {
        let p = ps[i];
        proof {
            assert(piece_fits(ps@[i as int]));
            lemma_placed_inside(p, area, scale, ink);
            let s = scale as int;
            assert(-36 <= p.dx * s <= 36 && -36 <= p.dy * s <= 36 && p.w * s <= 72 && p.h * s <= 72)
                by (nonlinear_arith)
                requires
                    piece_fits(p),
                    1 <= s <= 2,
            ;
        }
        let r = Rectangle::new(
            Point::new(mx + p.dx * scale as i32, my + p.dy * scale as i32),
            Size::new(p.w * scale, p.h * scale),
        );
        let shape = match p.stroke {
            Stroke::Bar => Shape::Fill { area: r, radius: scale, ink },
            Stroke::Ring => Shape::Ring { area: r, width: 3 * scale, ink },
        };
        proof {
            assert(shape == placed(p, area, scale, ink));
            lemma_push_inside(shapes@, shape, area);
        }
        shapes.push(shape);
        i = i + 1;
        proof {
            assert(shapes@ =~= icon_shapes(icon, area, scale, ink).subrange(0, i as int));
        }
    }
    proof {
        assert(shapes@ =~= icon_shapes(icon, area, scale, ink));
    }
    shapes
}

/// Corner radius and outline width of buttons.
pub const BUTTON_RADIUS: u32 = 12;
pub const BUTTON_LINE: u32 = 3;
/// Tiles draw their icons at twice the size of a button's.
pub const TILE_ICON_SCALE: u32 = 2;

/// A button showing `icon` at `scale` in `area`: outlined, filled while
/// pressed with the icon cut out of the fill, and dimmed while it ignores taps.
pub open spec fn button_shapes(area: Rectangle, icon: Icon, scale: u32, enabled: bool, pressed: bool) -> Seq<Shape> {
    let color = if enabled {
        Ink::Eye
    } else {
        Ink::Dim
    };
    let frame = seq![Shape::Outline { area, radius: BUTTON_RADIUS, width: BUTTON_LINE, ink: color }];
    if pressed {
        frame.push(Shape::Fill { area, radius: BUTTON_RADIUS, ink: color }) + icon_shapes(
            icon,
            area,
            scale,
            Ink::Background,
        )
    } else {
        frame + icon_shapes(icon, area, scale, color)
    }
}

/// Both lists of shapes are drawn inside `outer`, so their concatenation is.
proof fn lemma_concat_inside(a: Seq<Shape>, b: Seq<Shape>, outer: Rectangle)
    requires
        all_inside(a, outer),
        all_inside(b, outer),
    ensures
        all_inside(a + b, outer),
{
    assert forall|i: int| 0 <= i < (a + b).len() implies inside(#[trigger] (a + b)[i].area(), outer) by {
        if i < a.len() {
            assert((a + b)[i] == a[i]);
        } else {
            assert((a + b)[i] == b[i - a.len()]);
        }
    }
}

/// Append `more` to `shapes`, keeping every shape inside `outer`.
fn append_inside(shapes: &mut Vec<Shape>, more: Vec<Shape>, Ghost(outer): Ghost<Rectangle>)
    requires
        all_inside(old(shapes)@, outer),
        all_inside(more@, outer),
    ensures
        final(shapes)@ == old(shapes)@ + more@,
        all_inside(final(shapes)@, outer),
{
    let mut more = more;
    let ghost added = more@;
    shapes.append(&mut more);
    proof {
        lemma_concat_inside(old(shapes)@, added, outer);
    }
}

/// Draw a button; see [`button_shapes`]. Every shape is inside `area`.
pub fn button(area: Rectangle, icon: Icon, scale: u32, enabled: bool, pressed: bool) -> (shapes: Vec<Shape>)
    requires
        icon_room(area, scale),
    ensures
        shapes@ == button_shapes(area, icon, scale, enabled, pressed),
        all_inside(shapes@, area),
{
    let color = if enabled {
        Ink::Eye
    } else {
        Ink::Dim
    };
    let mut shapes = vec![Shape::Outline { area, radius: BUTTON_RADIUS, width: BUTTON_LINE, ink: color }];
    proof {
        assert(inside(area, area));
        assert(all_inside(shapes@, area));
    }
    if pressed {
        let fill = Shape::Fill { area, radius: BUTTON_RADIUS, ink: color };
        proof {
            lemma_push_inside(shapes@, fill, area);
        }
        shapes.push(fill);
        append_inside(&mut shapes, icon_at(icon, area, scale, Ink::Background), Ghost(area));
    } else {
        append_inside(&mut shapes, icon_at(icon, area, scale, color), Ghost(area));
    }
    shapes
}

/// A navigation button's pressed look in `area`: a disc behind the icon
/// while pressed, nothing otherwise.
pub open spec fn nav_shapes(area: Rectangle, pressed: bool) -> Seq<Shape> {
    if pressed {
        seq![Shape::Disc { area: rect_at(area.top_left.x + 4, area.top_left.y + 4, 40, 40), ink: Ink::Eye }]
    } else {
        seq![]
    }
}

/// A navigation button's icon ink: dark on the disc while pressed, dim
/// otherwise.
pub open spec fn nav_ink(pressed: bool) -> Ink {
    if pressed {
        Ink::Background
    } else {
        Ink::Dim
    }
}

/// The apps button's shapes: its pressed look, then the apps grid.
pub open spec fn apps_button_shapes(pressed: bool) -> Seq<Shape> {
    nav_shapes(layout::apps_spec(), pressed) + icon_shapes(Icon::Apps, layout::apps_spec(), 1, nav_ink(pressed))
}

/// The first `n` squares of the back chevron in `ink`: for each step, the
/// upper arm's square, then the lower arm's.
pub open spec fn chevron_shapes(n: int, ink: Ink) -> Seq<Shape> {
    Seq::new(n as nat, |i: int| chevron_step(i / 2, i % 2 == 1, ink))
}

/// The back button's shapes: its pressed look, then the eight steps of the
/// chevron.
pub open spec fn back_button_shapes(pressed: bool) -> Seq<Shape> {
    nav_shapes(layout::back_spec(), pressed) + chevron_shapes(16, nav_ink(pressed))
}

/// Draw a navigation button's pressed look, if pressed, and return the ink
/// for its icon. Pressed, the button inverts: a disc behind a dark icon.
fn nav_button(shapes: &mut Vec<Shape>, area: Rectangle, pressed: bool) -> (ink: Ink)
    requires
        area.size.width == 48 && area.size.height == 48,
        0 <= area.top_left.x <= 1_000 && 0 <= area.top_left.y <= 1_000,
        all_inside(old(shapes)@, area),
    ensures
        final(shapes)@ == old(shapes)@ + nav_shapes(area, pressed),
        ink == nav_ink(pressed),
        all_inside(final(shapes)@, area),
{
    if pressed {
        let disc = Shape::Disc {
            area: Rectangle::new(
                Point::new(area.top_left.x + 4, area.top_left.y + 4),
                Size::new(40, 40),
            ),
            ink: Ink::Eye,
        };
        proof {
            lemma_push_inside(old(shapes)@, disc, area);
        }
        shapes.push(disc);
        assert(shapes@ =~= old(shapes)@ + nav_shapes(area, pressed));
        Ink::Background
    } else {
        assert(shapes@ =~= old(shapes)@ + nav_shapes(area, pressed));
        Ink::Dim
    }
}

/// The apps button: a small, low-contrast grid of four squares in the
/// bottom-right corner.
pub fn apps_button(pressed: bool) -> (shapes: Vec<Shape>)
    ensures
        shapes@ == apps_button_shapes(pressed),
        all_inside(shapes@, layout::apps()),
        pressed ==> shapes@.contains(
            Shape::Disc { area: rect_at(276, 196, 40, 40), ink: Ink::Eye },
        ),
{
    let area = layout::apps();
    let mut shapes: Vec<Shape> = Vec::new();
    let ink = nav_button(&mut shapes, area, pressed);
    proof {
        if pressed {
            assert(shapes@[0] == Shape::Disc { area: rect_at(276, 196, 40, 40), ink: Ink::Eye });
        }
    }
    let ghost before = shapes@;
    append_inside(&mut shapes, icon_at(Icon::Apps, area, 1, ink), Ghost(area));
    proof {
        if pressed {
            assert(shapes@[0] == before[0]);
        }
        assert(before =~= nav_shapes(layout::apps_spec(), pressed));
    }
    shapes
}

/// One step of the back chevron: a three-pixel square `k` across and `k`
/// up or down from its tip.
pub open spec fn chevron_step(k: int, down: bool, ink: Ink) -> Shape {
    Shape::Fill { area: rect_at(19 + k, if down { 22 + k } else { 22 - k }, 3, 3), radius: 0, ink }
}

/// The back button: a small, low-contrast chevron pointing left in the
/// top-left corner. Each arm steps one pixel across per pixel down, a true
/// 45°, so the staircase is even at this size.
pub fn back_button(pressed: bool) -> (shapes: Vec<Shape>)
    ensures
        shapes@ == back_button_shapes(pressed),
        all_inside(shapes@, layout::back()),
        pressed ==> shapes@.contains(Shape::Disc { area: rect_at(4, 4, 40, 40), ink: Ink::Eye }),
{
    let area = layout::back();
    let mut shapes: Vec<Shape> = Vec::new();
    let ink = nav_button(&mut shapes, area, pressed);
    let ghost first = shapes@;
    proof {
        assert(first =~= nav_shapes(layout::back_spec(), pressed));
        assert(first + chevron_shapes(0, ink) =~= first);
    }
    let mut k: i32 = 0;
    while k < 8
        invariant
            0 <= k <= 8,
            area == layout::back_spec(),
            all_inside(shapes@, area),
            shapes@.len() >= first.len(),
            shapes@.subrange(0, first.len() as int) == first,
            first == nav_shapes(layout::back_spec(), pressed),
            ink == nav_ink(pressed),
            shapes@ == first + chevron_shapes(2 * k, ink),
        decreases 8 - k,
    {
        let up = Shape::Fill { area: Rectangle::new(Point::new(19 + k, 22 - k), Size::new(3, 3)), radius: 0, ink };
        let down = Shape::Fill { area: Rectangle::new(Point::new(19 + k, 22 + k), Size::new(3, 3)), radius: 0, ink };
        proof {
            lemma_push_inside(shapes@, up, area);
            lemma_push_inside(shapes@.push(up), down, area);
            assert(shapes@.push(up).push(down).subrange(0, first.len() as int) == shapes@.subrange(0, first.len() as int));
            let n = 2 * k as int;
            assert(up == chevron_step(n / 2, n % 2 == 1, ink));
            assert(down == chevron_step((n + 1) / 2, (n + 1) % 2 == 1, ink));
            assert(chevron_shapes(n + 2, ink) =~= chevron_shapes(n, ink).push(up).push(down));
            assert(shapes@.push(up).push(down) =~= first + chevron_shapes(n + 2, ink));
        }
        shapes.push(up);
        shapes.push(down);
        k = k + 1;
    }
    proof {
        if pressed {
            assert(shapes@[0] == shapes@.subrange(0, first.len() as int)[0]);
        }
    }
    shapes
}

/// An app screen's title: its icon in the top-right corner, which takes no
/// touches.
pub fn title(icon: Icon) -> (shapes: Vec<Shape>)
    ensures
        shapes@ == icon_shapes(icon, layout::title(), 1, Ink::Eye),
        all_inside(shapes@, layout::title()),
{
    icon_at(icon, layout::title(), 1, Ink::Eye)
}

/// Each timer button's icon.
pub open spec fn button_icon_spec(button: TimerButton) -> Icon {
    match button {
        TimerButton::Minus => Icon::Minus,
        TimerButton::Plus => Icon::Plus,
        TimerButton::Start => Icon::Play,
        TimerButton::Resume => Icon::Play,
        TimerButton::Pause => Icon::Pause,
        TimerButton::Reset => Icon::Stop,
        TimerButton::Dismiss => Icon::Check,
    }
}

/// A timer button's icon shows what pressing it does: a button that makes
/// the set time shorter shows Minus and one that makes it longer shows Plus;
/// one that sets the timer running shows Play, one that pauses it Pause; one
/// that resets a paused timer shows Stop, and one that clears a finished
/// timer shows Check.
pub proof fn lemma_button_icons_show_their_action(s: crate::timer::TimerState, b: TimerButton, now: crate::time::Instant)
    requires
        // As every `Duration` is.
        s.set()@ <= crate::time::max_nanos(),
    ensures
        s.pressed(b, now) matches Some(next) && next.set()@ < s.set()@ ==> button_icon_spec(b) == Icon::Minus,
        s.pressed(b, now) matches Some(next) && next.set()@ > s.set()@ ==> button_icon_spec(b) == Icon::Plus,
        s.pressed(b, now) matches Some(next) && next is Running ==> button_icon_spec(b) == Icon::Play,
        s.pressed(b, now) matches Some(next) && next is Paused ==> button_icon_spec(b) == Icon::Pause,
        s is Paused ==> (s.pressed(b, now) matches Some(next) && next is Ready ==> button_icon_spec(b) == Icon::Stop),
        s is Done ==> (s.pressed(b, now) matches Some(next) && next is Ready ==> button_icon_spec(b) == Icon::Check),
{
    broadcast use crate::time::group_time;

    if let crate::timer::TimerState::Ready { set } = s {
        if let Some(d) = crate::timer::shorter_spec(set) {
            assert(d@ < set@);
        }
        if let Some(d) = crate::timer::longer_spec(set) {
            assert(d@ > set@);
        }
    }
}

/// Each timer button's icon.
pub fn button_icon(button: TimerButton) -> (icon: Icon)
    ensures
        icon == button_icon_spec(button),
{
    match button {
        TimerButton::Minus => Icon::Minus,
        TimerButton::Plus => Icon::Plus,
        TimerButton::Start | TimerButton::Resume => Icon::Play,
        TimerButton::Pause => Icon::Pause,
        TimerButton::Reset => Icon::Stop,
        TimerButton::Dismiss => Icon::Check,
    }
}

/// Each tile shows its app's title icon.
pub fn tile_icon(tile: Tile) -> (icon: Icon)
    ensures
        icon == (match tile {
            Tile::Timer => Icon::Stopwatch,
            Tile::Settings => Icon::Gear,
        }),
{
    match tile {
        Tile::Timer => Icon::Stopwatch,
        Tile::Settings => Icon::Gear,
    }
}

/// The logical screen, 320 by 240.
pub open spec fn screen_area() -> Rectangle {
    rect_at(0, 0, 320, 240)
}

/// Shapes inside a rectangle that lies on the screen are on the screen.
proof fn lemma_on_screen(shapes: Seq<Shape>, area: Rectangle)
    requires
        all_inside(shapes, area),
        inside(area, screen_area()),
    ensures
        all_inside(shapes, screen_area()),
{
    lemma_inside_widens(shapes, area, screen_area());
}

/// The Buddy screen's shapes besides Wade's face: the apps button.
pub open spec fn buddy_screen_shapes(view: crate::view::BuddyView) -> Seq<Shape> {
    apps_button_shapes(view.apps_pressed)
}

/// The Buddy screen's shapes besides Wade's face: the apps button.
pub fn buddy_screen(view: crate::view::BuddyView) -> (shapes: Vec<Shape>)
    ensures
        shapes@ == buddy_screen_shapes(view),
        all_inside(shapes@, screen_area()),
{
    let shapes = apps_button(view.apps_pressed);
    proof {
        lemma_on_screen(shapes@, layout::apps_spec());
    }
    shapes
}

/// The outline of the button on `tile`'s hit area.
pub open spec fn tile_outline(tile: Tile) -> Shape {
    Shape::Outline { area: layout::tile_area(tile), radius: BUTTON_RADIUS, width: BUTTON_LINE, ink: Ink::Eye }
}

/// Pushing onto a list keeps what it contained.
proof fn lemma_still_contains(before: Seq<Shape>, after: Seq<Shape>, s: Shape)
    requires
        before.contains(s),
        after.len() >= before.len(),
        after.subrange(0, before.len() as int) == before,
    ensures
        after.contains(s),
{
    let j = choose|j: int| 0 <= j < before.len() && before[j] == s;
    assert(after.subrange(0, before.len() as int)[j] == after[j]);
}

/// The button on `tile`'s hit area: its title icon at tile size, pressed
/// while the touch in progress is on it.
pub open spec fn tile_button_shapes(pressed: Option<Target>, tile: Tile) -> Seq<Shape> {
    let icon = match tile {
        Tile::Timer => Icon::Stopwatch,
        Tile::Settings => Icon::Gear,
    };
    button_shapes(layout::tile_area(tile), icon, TILE_ICON_SCALE, true, pressed == Some(Target::Tile(tile)))
}

/// The Launcher's shapes: the back button, its title, then the Timer's and
/// the Settings' tile buttons.
pub open spec fn launcher_screen_shapes(view: crate::view::LauncherView) -> Seq<Shape> {
    back_button_shapes(view.pressed == Some(Target::Back)) + icon_shapes(Icon::Apps, layout::title_spec(), 1, Ink::Eye)
        + tile_button_shapes(view.pressed, Tile::Timer) + tile_button_shapes(view.pressed, Tile::Settings)
}

/// The Launcher: the back button, its title, and a button for each tile
/// drawn on the tile's hit area.
pub fn launcher_screen(view: crate::view::LauncherView) -> (shapes: Vec<Shape>)
    ensures
        shapes@ == launcher_screen_shapes(view),
        all_inside(shapes@, screen_area()),
        shapes@.contains(tile_outline(Tile::Timer)),
        shapes@.contains(tile_outline(Tile::Settings)),
{
    let mut shapes = back_button(view.pressed == Some(Target::Back));
    proof {
        lemma_on_screen(shapes@, layout::back_spec());
    }
    let t = title(Icon::Apps);
    proof {
        lemma_on_screen(t@, layout::title_spec());
    }
    append_inside(&mut shapes, t, Ghost(screen_area()));
    let ghost head = shapes@;
    let tiles = layout::tiles();
    let mut i: usize = 0;
    proof {
        assert(head + seq![] =~= head);
    }
    while i < 2
        invariant
            0 <= i <= 2,
            head == back_button_shapes(view.pressed == Some(Target::Back)) + icon_shapes(Icon::Apps, layout::title_spec(), 1, Ink::Eye),
            shapes@ == head + (if i >= 1 {
                tile_button_shapes(view.pressed, Tile::Timer)
            } else {
                seq![]
            }) + (if i >= 2 {
                tile_button_shapes(view.pressed, Tile::Settings)
            } else {
                seq![]
            }),
            tiles@ == seq![(Tile::Timer, layout::tile_area(Tile::Timer)), (Tile::Settings, layout::tile_area(Tile::Settings))],
            all_inside(shapes@, screen_area()),
            i >= 1 ==> shapes@.contains(tile_outline(Tile::Timer)),
            i >= 2 ==> shapes@.contains(tile_outline(Tile::Settings)),
        decreases 2 - i,
    {
        let (tile, area) = tiles[i];
        let pressed = match view.pressed {
            Some(Target::Tile(t)) => t == tile,
            _ => false,
        };
        let b = button(area, tile_icon(tile), TILE_ICON_SCALE, true, pressed);
        proof {
            lemma_on_screen(b@, area);
            assert(b@[0] == tile_outline(tile));
        }
        let ghost before = shapes@;
        append_inside(&mut shapes, b, Ghost(screen_area()));
        proof {
            assert(shapes@[before.len() as int] == b@[0]);
            assert(shapes@.subrange(0, before.len() as int) == before);
            if i >= 1 {
                lemma_still_contains(before, shapes@, tile_outline(Tile::Timer));
            }
            assert(pressed == (view.pressed == Some(Target::Tile(tile))));
            assert(b@ == tile_button_shapes(view.pressed, tile));
            if i == 0 {
                assert(shapes@ =~= head + tile_button_shapes(view.pressed, Tile::Timer) + seq![]);
            } else {
                assert(shapes@ =~= head + tile_button_shapes(view.pressed, Tile::Timer) + tile_button_shapes(
                    view.pressed,
                    Tile::Settings,
                ));
            }
        }
        i = i + 1;
    }
    proof {
        assert(shapes@ =~= launcher_screen_shapes(view));
    }
    shapes
}

/// The Settings screen's shapes: the back button and its title.
pub open spec fn settings_screen_shapes(view: crate::view::SettingsView) -> Seq<Shape> {
    back_button_shapes(view.pressed == Some(Target::Back)) + icon_shapes(Icon::Gear, layout::title_spec(), 1, Ink::Eye)
}

/// The Settings screen: the back button and its title.
pub fn settings_screen(view: crate::view::SettingsView) -> (shapes: Vec<Shape>)
    ensures
        shapes@ == settings_screen_shapes(view),
        all_inside(shapes@, screen_area()),
{
    let mut shapes = back_button(view.pressed == Some(Target::Back));
    proof {
        lemma_on_screen(shapes@, layout::back_spec());
    }
    let t = title(Icon::Gear);
    proof {
        lemma_on_screen(t@, layout::title_spec());
    }
    append_inside(&mut shapes, t, Ghost(screen_area()));
    shapes
}

/// The button in slot `i` of the Timer screen's row, if the slot holds one:
/// drawn on the slot, dimmed while disabled, pressed while the touch in
/// progress is on it.
pub open spec fn slot_shapes(view: crate::view::TimerView, i: int) -> Seq<Shape> {
    match view.row@[i] {
        Some(b) => button_shapes(
            layout::timer_row_spec()[i],
            button_icon_spec(b.button),
            1,
            b.enabled,
            view.pressed == Some(Target::Timer(b.button)),
        ),
        None => seq![],
    }
}

/// The buttons of the first `n` slots of the Timer screen's row, in order.
pub open spec fn row_shapes(view: crate::view::TimerView, n: nat) -> Seq<Shape>
    decreases n,
{
    if n == 0 {
        seq![]
    } else {
        row_shapes(view, (n - 1) as nat) + slot_shapes(view, n - 1)
    }
}

/// The Timer screen's shapes: the back button, its title, the time, then
/// the row's buttons.
pub open spec fn timer_screen_shapes(view: crate::view::TimerView) -> Seq<Shape> {
    back_button_shapes(view.pressed == Some(Target::Back)) + icon_shapes(Icon::Stopwatch, layout::title_spec(), 1, Ink::Eye)
        + time_shapes(view.digits@.0, view.digits@.1) + row_shapes(view, 3)
}

/// The Timer screen: the back button, its title, the time, and the row's
/// buttons, each drawn on the slot it takes taps in, dimmed while disabled.
pub fn timer_screen(view: crate::view::TimerView) -> (shapes: Vec<Shape>)
    ensures
        shapes@ == timer_screen_shapes(view),
        all_inside(shapes@, screen_area()),
        forall|i: int|
            0 <= i < 3 && (#[trigger] view.row@[i]) is Some ==> shapes@.contains(
                Shape::Outline {
                    area: layout::timer_row_spec()[i],
                    radius: BUTTON_RADIUS,
                    width: BUTTON_LINE,
                    ink: if view.row@[i]->0.enabled {
                        Ink::Eye
                    } else {
                        Ink::Dim
                    },
                },
            ),
{
    let mut shapes = back_button(view.pressed == Some(Target::Back));
    proof {
        lemma_on_screen(shapes@, layout::back_spec());
    }
    let t = title(Icon::Stopwatch);
    proof {
        lemma_on_screen(t@, layout::title_spec());
    }
    append_inside(&mut shapes, t, Ghost(screen_area()));
    let digits = time(view.digits);
    proof {
        lemma_on_screen(digits@, layout::timer_digits_spec());
    }
    append_inside(&mut shapes, digits, Ghost(screen_area()));
    let ghost head = shapes@;
    let slots = layout::timer_row();
    let mut i: usize = 0;
    proof {
        assert(head + row_shapes(view, 0) =~= head);
    }
    while i < 3
        invariant
            0 <= i <= 3,
            head == back_button_shapes(view.pressed == Some(Target::Back)) + icon_shapes(Icon::Stopwatch, layout::title_spec(), 1, Ink::Eye)
                + time_shapes(view.digits@.0, view.digits@.1),
            shapes@ == head + row_shapes(view, i as nat),
            slots@ == layout::timer_row_spec(),
            all_inside(shapes@, screen_area()),
            forall|k: int|
                0 <= k < i && (#[trigger] view.row@[k]) is Some ==> shapes@.contains(
                    Shape::Outline {
                        area: layout::timer_row_spec()[k],
                        radius: BUTTON_RADIUS,
                        width: BUTTON_LINE,
                        ink: if view.row@[k]->0.enabled {
                            Ink::Eye
                        } else {
                            Ink::Dim
                        },
                    },
                ),
        decreases 3 - i,
    {
        if let Some(b) = view.row[i] {
            let area = slots[i];
            let pressed = view.pressed == Some(Target::Timer(b.button));
            let drawn = button(area, button_icon(b.button), 1, b.enabled, pressed);
            let ghost outline = drawn@[0];
            proof {
                lemma_on_screen(drawn@, area);
            }
            let ghost before = shapes@;
            append_inside(&mut shapes, drawn, Ghost(screen_area()));
            proof {
                assert(shapes@[before.len() as int] == outline);
                assert forall|k: int| 0 <= k < i + 1 && (#[trigger] view.row@[k]) is Some implies shapes@.contains(
                    Shape::Outline {
                        area: layout::timer_row_spec()[k],
                        radius: BUTTON_RADIUS,
                        width: BUTTON_LINE,
                        ink: if view.row@[k]->0.enabled {
                            Ink::Eye
                        } else {
                            Ink::Dim
                        },
                    },
                ) by {
                    if k < i {
                        let s = Shape::Outline {
                            area: layout::timer_row_spec()[k],
                            radius: BUTTON_RADIUS,
                            width: BUTTON_LINE,
                            ink: if view.row@[k]->0.enabled {
                                Ink::Eye
                            } else {
                                Ink::Dim
                            },
                        };
                        assert(before.contains(s));
                        let j = choose|j: int| 0 <= j < before.len() && before[j] == s;
                        assert(shapes@[j] == s);
                    }
                }
                assert(drawn@ == slot_shapes(view, i as int));
                assert(shapes@ =~= head + row_shapes(view, (i + 1) as nat));
            }
        } else {
            proof {
                assert(slot_shapes(view, i as int) =~= seq![]);
                assert(shapes@ =~= head + row_shapes(view, (i + 1) as nat));
            }
        }
        i = i + 1;
    }
    shapes
}

/// The shapes of a frame for `view`: those of the screen it shows.
pub open spec fn frame_shapes(view: crate::view::View) -> Seq<Shape> {
    match view {
        crate::view::View::Buddy(b) => buddy_screen_shapes(b),
        crate::view::View::Launcher(l) => launcher_screen_shapes(l),
        crate::view::View::Timer(t) => timer_screen_shapes(t),
        crate::view::View::Settings(s) => settings_screen_shapes(s),
    }
}

/// Every shape of a frame for `view`, besides Wade's face, which the
/// platform draws first. Every shape lies on the screen.
pub fn frame(view: &crate::view::View) -> (shapes: Vec<Shape>)
    ensures
        shapes@ == frame_shapes(*view),
        all_inside(shapes@, screen_area()),
{
    match view {
        crate::view::View::Buddy(b) => buddy_screen(*b),
        crate::view::View::Launcher(l) => launcher_screen(*l),
        crate::view::View::Timer(t) => timer_screen(*t),
        crate::view::View::Settings(s) => settings_screen(*s),
    }
}

} // verus!
