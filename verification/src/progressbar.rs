//! Geometry of the progress bar: an outline and a fill that grows with the
//! ratio.

use vstd::prelude::*;
use crate::ratio::{Ratio, scaled_floor, lemma_scaled_floor_bounds, lemma_scaled_floor_monotonic};

verus! {

/// What becomes of the inside of a rectangle.
#[derive(Clone, Copy, Debug, PartialEq, Eq, Structural)]
pub enum Fill {
    /// Only the border is lit.
    Hollow,
    /// The inside is lit like the border.
    Solid,
}

/// An axis-aligned rectangle in device pixels: its top-left corner and size.
#[derive(Clone, Copy, Debug, PartialEq, Eq, Structural)]
pub struct Rect {
    pub x: i32,
    pub y: i32,
    pub width: u32,
    pub height: u32,
}

/// How a rectangle is painted: a lit border of `stroke_width` pixels, and
/// the inside as `fill` says.
#[derive(Clone, Copy, Debug, PartialEq, Eq, Structural)]
pub struct Style {
    pub stroke_width: u32,
    pub fill: Fill,
}

/// A rectangle together with the way it is painted.
#[derive(Clone, Copy, Debug, PartialEq, Eq, Structural)]
pub struct Shape {
    pub rect: Rect,
    pub style: Style,
}

/// What one drawing of the bar consists of, in the order in which the two
/// rectangles go to the display.
#[derive(Clone, Copy, Debug, PartialEq, Eq, Structural)]
pub struct BarShapes {
    pub outline: Shape,
    pub fill: Shape,
}

/// A horizontal progress bar of `length` by `width` pixels at `(x, y)`.
#[derive(Clone, Copy, Debug, PartialEq, Eq, Structural)]
pub struct ProgressBar {
    x: u32,
    y: u32,
    length: u32,
    width: u32,
}

/// The signed display coordinate that holds the bits of `v`: values above
/// `i32::MAX` come out negative.
pub open spec fn coord(v: u32) -> i32 {
    if v <= i32::MAX {
        v as i32
    } else {
        (v - 0x1_0000_0000) as i32
    }
}

/// The style of the outline: a border of one pixel and nothing inside.
pub open spec fn outline_style() -> Style {
    Style { stroke_width: 1, fill: Fill::Hollow }
}

/// The style of the fill: a border of one pixel round a lit inside.
pub open spec fn fill_style() -> Style {
    Style { stroke_width: 1, fill: Fill::Solid }
}

fn to_coord(v: u32) -> (c: i32)
    ensures
        c == coord(v),
{
    if v <= 0x7fff_ffff {
        v as i32
    } else {
        (v as i64 - 0x1_0000_0000) as i32
    }
}

impl ProgressBar {
    pub closed spec fn x(self) -> u32 {
        self.x
    }

    pub closed spec fn y(self) -> u32 {
        self.y
    }

    pub closed spec fn length(self) -> u32 {
        self.length
    }

    pub closed spec fn width(self) -> u32 {
        self.width
    }

    /// Both extents are positive.
    pub open spec fn wf(self) -> bool {
        self.length() > 0 && self.width() > 0
    }

    /// The width in pixels of the fill at `ratio`: `floor(length * ratio)`.
    pub open spec fn fill_width(self, ratio: Ratio) -> nat {
        scaled_floor(self.length() as nat, ratio)
    }

    /// The outline: the whole bar, painted hollow.
    pub open spec fn outline(self) -> Shape {
        Shape {
            rect: Rect {
                x: coord(self.x()),
                y: coord(self.y()),
                width: self.length(),
                height: self.width(),
            },
            style: outline_style(),
        }
    }

    /// The fill at `ratio`: the left part of the bar, painted solid.
    pub open spec fn fill(self, ratio: Ratio) -> Shape {
        Shape {
            rect: Rect {
                x: coord(self.x()),
                y: coord(self.y()),
                width: self.fill_width(ratio) as u32,
                height: self.width(),
            },
            style: fill_style(),
        }
    }

    /// A bar of `length` by `width` pixels whose top-left corner is `(x, y)`.
    pub fn new(x: u32, y: u32, length: u32, width: u32) -> (bar: Self)
        requires
            length > 0,
            width > 0,
        ensures
            bar.wf(),
            bar.x() == x,
            bar.y() == y,
            bar.length() == length,
            bar.width() == width,
    {
        Self { x, y, length, width }
    }

    /// The two rectangles that show `ratio`: first the outline, then the fill
    /// on top of it from the same corner. The bar itself does not change.
    pub fn draw(&mut self, ratio: Ratio) -> (shapes: BarShapes)
        requires
            old(self).wf(),
            ratio.wf(),
        ensures
            *final(self) == *old(self),
            shapes.outline == old(self).outline(),
            shapes.fill == old(self).fill(ratio),
            shapes.fill.rect.width == old(self).fill_width(ratio),
            shapes.fill.rect.width < old(self).length(),
    {
        proof {
            lemma_scaled_floor_bounds(self.length as nat, ratio);
        }
        let left = to_coord(self.x);
        let top = to_coord(self.y);
        let fill = ratio.scale(self.length);
        BarShapes {
            outline: Shape {
                rect: Rect { x: left, y: top, width: self.length, height: self.width },
                style: Style { stroke_width: 1, fill: Fill::Hollow },
            },
            fill: Shape {
                rect: Rect { x: left, y: top, width: fill, height: self.width },
                style: Style { stroke_width: 1, fill: Fill::Solid },
            },
        }
    }
}

/// The fill is `floor(length * ratio)`: the one whole number of pixels `w`
/// with `w <= length * ratio < w + 1`. It lies between nothing and the
/// length of the bar, and a ratio of zero gives no fill at all.
pub proof fn lemma_fill_width_bounds(bar: ProgressBar, ratio: Ratio)
    requires
        ratio.wf(),
    ensures
        0 <= bar.fill_width(ratio) <= bar.length(),
        bar.fill_width(ratio) * ratio.denom() <= bar.length() * ratio.numer(),
        bar.length() * ratio.numer() < (bar.fill_width(ratio) + 1) * ratio.denom(),
        ratio.numer() == 0 ==> bar.fill_width(ratio) == 0,
        bar.fill(ratio).rect.width == bar.fill_width(ratio),
{
    lemma_scaled_floor_bounds(bar.length() as nat, ratio);
}

/// With the bar fixed, a larger ratio never gives a narrower fill.
pub proof fn lemma_fill_width_monotonic(bar: ProgressBar, low: Ratio, high: Ratio)
    requires
        low.wf(),
        high.wf(),
        low.le(high),
    ensures
        bar.fill_width(low) <= bar.fill_width(high),
        bar.fill(low).rect.width <= bar.fill(high).rect.width,
{
    lemma_scaled_floor_monotonic(bar.length() as nat, low, high);
    lemma_fill_width_bounds(bar, low);
    lemma_fill_width_bounds(bar, high);
}

} // verus!
