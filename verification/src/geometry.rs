//! Screen coordinates and the placement of the selection indicator.
//!
//! The indicator of a menu item is a filled circle. Its centre sits at a
//! fixed offset from the item's anchor, the origin of the item's label.

use vstd::prelude::*;

verus! {

/// Radius of the selection indicator.
pub const INDICATOR_RADIUS: i32 = 10;

/// Horizontal offset of the indicator's centre from an item's anchor.
pub const INDICATOR_DX: i32 = -15;

/// Vertical offset of the indicator's centre from an item's anchor.
pub const INDICATOR_DY: i32 = -10;

/// A position on the drawing surface.
#[derive(Clone, Copy, Debug, PartialEq, Eq, Structural)]
pub struct Point {
    pub x: i32,
    pub y: i32,
}

impl Point {
    /// True when the indicator that belongs to this anchor, together with
    /// its bounding box, has coordinates that fit the coordinate type.
    pub open spec fn indicator_fits(self) -> bool {
        &&& i32::MIN <= self.x + INDICATOR_DX - INDICATOR_RADIUS
        &&& self.x + INDICATOR_DX + INDICATOR_RADIUS <= i32::MAX
        &&& i32::MIN <= self.y + INDICATOR_DY - INDICATOR_RADIUS
        &&& self.y + INDICATOR_DY + INDICATOR_RADIUS <= i32::MAX
    }

    /// Centre of the indicator that belongs to this anchor.
    pub open spec fn indicator_center(self) -> Point {
        Point { x: (self.x + INDICATOR_DX) as i32, y: (self.y + INDICATOR_DY) as i32 }
    }

    /// Top left corner of the box that bounds the indicator of this anchor.
    pub open spec fn indicator_box_origin(self) -> Point {
        Point {
            x: (self.x + INDICATOR_DX - INDICATOR_RADIUS) as i32,
            y: (self.y + INDICATOR_DY - INDICATOR_RADIUS) as i32,
        }
    }

    /// Decides [`Point::indicator_fits`].
    pub fn can_hold_indicator(&self) -> (fits: bool)
        ensures
            fits == self.indicator_fits(),
    {
        self.x >= i32::MIN - INDICATOR_DX + INDICATOR_RADIUS && self.y >= i32::MIN - INDICATOR_DY
            + INDICATOR_RADIUS
    }

    /// Computes [`Point::indicator_center`].
    pub fn center_of_indicator(&self) -> (center: Point)
        requires
            self.indicator_fits(),
        ensures
            center == self.indicator_center(),
    {
        Point { x: self.x + INDICATOR_DX, y: self.y + INDICATOR_DY }
    }

    /// Computes [`Point::indicator_box_origin`].
    pub fn origin_of_indicator_box(&self) -> (origin: Point)
        requires
            self.indicator_fits(),
        ensures
            origin == self.indicator_box_origin(),
    {
        Point {
            x: self.x + INDICATOR_DX - INDICATOR_RADIUS,
            y: self.y + INDICATOR_DY - INDICATOR_RADIUS,
        }
    }
}

} // verus!
