//! Logical and physical coordinates.
//!
//! Pointer positions and the display's scale factor are fixed-point numbers with sixteen
//! fractional bits: the integer `65536` stands for one logical unit, and for a scale of one
//! physical pixel per logical unit.

use vstd::prelude::*;

verus! {

/// Sub-units in one logical unit, and the scale factor that maps one unit to one pixel.
pub const UNIT: u32 = 65536;

/// Smallest width and height of a selection that is searched, in whole logical units.
pub const MIN_SELECTION_UNITS: u32 = 5;

/// `UNIT` as a mathematical integer.
pub open spec fn unit() -> int {
    65536
}

/// Smallest width and height of a selection that is searched, in sub-units.
pub open spec fn min_selection() -> int {
    5 * unit()
}

/// A pointer position in sub-units of the logical coordinate space.
#[derive(Clone, Copy, Debug, PartialEq, Eq, Structural)]
pub struct LogicalPoint {
    pub x: i32,
    pub y: i32,
}

/// A rectangle of the captured image in physical pixels.
#[derive(Clone, Copy, Debug, PartialEq, Eq, Structural)]
pub struct PixelRegion {
    pub x: u32,
    pub y: u32,
    pub width: u32,
    pub height: u32,
}

/// The two corners of a drag gesture, in the order in which the pointer visited them.
#[derive(Clone, Copy, Debug, PartialEq, Eq, Structural)]
pub struct SelectionRect {
    pub start: LogicalPoint,
    pub end: LogicalPoint,
}

/// The product of a length in sub-units and a scale factor that makes one physical pixel:
/// `UNIT` times `UNIT`.
pub open spec fn pixel() -> int {
    0x1_0000_0000
}

/// Whole physical pixels in `length` sub-units at `scale`: the product with the fraction cut
/// off. A length left of the origin covers no pixel.
pub open spec fn scaled(length: int, scale: int) -> int {
    if length <= 0 {
        0
    } else {
        (length * scale) / 0x1_0000_0000
    }
}

/// The physical pixel count nearest to `length` sub-units at `scale`, halves going up.
pub open spec fn nearest(length: int, scale: int) -> int {
    (2 * (length * scale) + 0x1_0000_0000) / 0x2_0000_0000
}

/// Scales one coordinate or dimension.
fn scale_length(length: i64, scale: u32) -> (pixels: u32)
    requires
        -0x8000_0000 <= length <= 0xffff_ffff,
    ensures
        pixels == scaled(length as int, scale as int),
{
    if length <= 0 {
        0
    } else {
        let wide: u64 = length as u64;
        let factor: u64 = scale as u64;
        assert(wide * factor <= 0xffff_ffff * 0xffff_ffff) by (nonlinear_arith)
            requires
                0 <= wide <= 0xffff_ffff,
                0 <= factor <= 0xffff_ffff,
        ;
        let product: u64 = wide * factor;
        (product / 0x1_0000_0000) as u32
    }
}

impl SelectionRect {
    /// The smaller of the two horizontal coordinates.
    pub open spec fn left(self) -> int {
        if self.start.x <= self.end.x {
            self.start.x as int
        } else {
            self.end.x as int
        }
    }

    /// The smaller of the two vertical coordinates.
    pub open spec fn top(self) -> int {
        if self.start.y <= self.end.y {
            self.start.y as int
        } else {
            self.end.y as int
        }
    }

    /// The horizontal distance between the corners.
    pub open spec fn extent_x(self) -> int {
        if self.start.x <= self.end.x {
            self.end.x - self.start.x
        } else {
            self.start.x - self.end.x
        }
    }

    /// The vertical distance between the corners.
    pub open spec fn extent_y(self) -> int {
        if self.start.y <= self.end.y {
            self.end.y - self.start.y
        } else {
            self.start.y - self.end.y
        }
    }

    /// A selection is searched when it spans the minimum in both directions.
    pub open spec fn large_enough(self) -> bool {
        self.extent_x() >= min_selection() && self.extent_y() >= min_selection()
    }

    /// The selection in physical pixels at `scale`.
    pub open spec fn pixels(self, scale: u32) -> PixelRegion {
        PixelRegion {
            x: scaled(self.left(), scale as int) as u32,
            y: scaled(self.top(), scale as int) as u32,
            width: scaled(self.extent_x(), scale as int) as u32,
            height: scaled(self.extent_y(), scale as int) as u32,
        }
    }

    /// The rectangle spanned by two pointer positions.
    pub fn from_two_pos(start: LogicalPoint, end: LogicalPoint) -> (rect: SelectionRect)
        ensures
            rect.start == start,
            rect.end == end,
    {
        SelectionRect { start, end }
    }

    /// The smaller horizontal coordinate, in sub-units.
    pub fn min_x(&self) -> (x: i32)
        ensures
            x == self.left(),
    {
        if self.start.x <= self.end.x {
            self.start.x
        } else {
            self.end.x
        }
    }

    /// The smaller vertical coordinate, in sub-units.
    pub fn min_y(&self) -> (y: i32)
        ensures
            y == self.top(),
    {
        if self.start.y <= self.end.y {
            self.start.y
        } else {
            self.end.y
        }
    }

    /// The width in sub-units.
    pub fn width(&self) -> (w: u32)
        ensures
            w == self.extent_x(),
    {
        let a: i64 = self.start.x as i64;
        let b: i64 = self.end.x as i64;
        if a <= b {
            (b - a) as u32
        } else {
            (a - b) as u32
        }
    }

    /// The height in sub-units.
    pub fn height(&self) -> (h: u32)
        ensures
            h == self.extent_y(),
    {
        let a: i64 = self.start.y as i64;
        let b: i64 = self.end.y as i64;
        if a <= b {
            (b - a) as u32
        } else {
            (a - b) as u32
        }
    }

    /// Whether the selection spans at least five logical units in both directions.
    pub fn is_large_enough(&self) -> (large: bool)
        ensures
            large == self.large_enough(),
    {
        self.width() >= MIN_SELECTION_UNITS * UNIT && self.height() >= MIN_SELECTION_UNITS * UNIT
    }

    /// Converts the selection to physical pixels: each coordinate and dimension is multiplied
    /// by the scale factor and cut down to a whole pixel.
    pub fn to_pixels(&self, scale: u32) -> (region: PixelRegion)
        ensures
            region == self.pixels(scale),
            region.x == scaled(self.left(), scale as int),
            region.y == scaled(self.top(), scale as int),
            region.width == scaled(self.extent_x(), scale as int),
            region.height == scaled(self.extent_y(), scale as int),
    {
        PixelRegion {
            x: scale_length(self.min_x() as i64, scale),
            y: scale_length(self.min_y() as i64, scale),
            width: scale_length(self.width() as i64, scale),
            height: scale_length(self.height() as i64, scale),
        }
    }
}

impl PixelRegion {
    /// A region that covers at least one pixel.
    pub open spec fn non_empty(self) -> bool {
        self.width >= 1 && self.height >= 1
    }

    /// Whether the region covers at least one pixel.
    pub fn is_non_empty(&self) -> (b: bool)
        ensures
            b == self.non_empty(),
    {
        self.width >= 1 && self.height >= 1
    }
}

/// A length of at least five logical units covers at least one pixel at any scale of one
/// fifth or more, and the pixel count is the product with its fraction cut off. Where that
/// fraction is below one half, this is also the nearest whole number of pixels.
pub proof fn lemma_scaled_length(length: int, scale: int)
    requires
        min_selection() <= length <= 0xffff_ffff,
        0 <= scale <= 0xffff_ffff,
        5 * scale >= unit(),
    ensures
        1 <= scaled(length, scale) <= 0xffff_ffff,
        scaled(length, scale) * pixel() <= length * scale,
        length * scale < (scaled(length, scale) + 1) * pixel(),
        2 * ((length * scale) % pixel()) < pixel() ==> scaled(length, scale)
            == nearest(length, scale),
{
    let product = length * scale;
    assert(product >= pixel()) by (nonlinear_arith)
        requires
            product == length * scale,
            length >= 5 * unit(),
            5 * scale >= unit(),
            unit() == 65536,
    ;
    assert(product <= 0xffff_ffff * 0xffff_ffff) by (nonlinear_arith)
        requires
            product == length * scale,
            0 <= length <= 0xffff_ffff,
            0 <= scale <= 0xffff_ffff,
    ;
}

/// Every selection that is large enough for a search converts, at any scale of one fifth or
/// more, to a region that is not empty and whose dimensions are the selection's dimensions
/// times the scale factor, cut down to whole pixels; where the fraction cut off is below one
/// half, they are the nearest whole numbers.
pub proof fn lemma_large_selection_has_pixels(rect: SelectionRect, scale: u32)
    requires
        rect.large_enough(),
        5 * scale >= unit(),
    ensures
        rect.pixels(scale).non_empty(),
        rect.pixels(scale).width == (rect.extent_x() * scale) / pixel(),
        rect.pixels(scale).height == (rect.extent_y() * scale) / pixel(),
        2 * ((rect.extent_x() * scale) % pixel()) < pixel() ==> rect.pixels(
            scale,
        ).width == nearest(rect.extent_x(), scale as int),
        2 * ((rect.extent_y() * scale) % pixel()) < pixel() ==> rect.pixels(
            scale,
        ).height == nearest(rect.extent_y(), scale as int),
{
    lemma_scaled_length(rect.extent_x(), scale as int);
    lemma_scaled_length(rect.extent_y(), scale as int);
}

} // verus!
