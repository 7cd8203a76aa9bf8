//! Layout decisions of the display that do not depend on the terminal.
use vstd::prelude::*;

verus! {

/// A rectangle of terminal cells.
#[derive(Debug, Clone, Copy, PartialEq, Eq, Structural)]
pub struct Rect {
    pub x: u16,
    pub y: u16,
    pub width: u16,
    pub height: u16,
}

/// `a - b`, or zero when `b` exceeds `a`.
pub open spec fn sat_sub(a: u16, b: u16) -> int {
    if a >= b {
        a - b
    } else {
        0
    }
}

/// The width of a popup that takes `percent_x` percent of `outer`.
pub open spec fn popup_width(percent_x: u16, outer: Rect) -> int {
    (outer.width * percent_x) / 100
}

/// Whether centering a popup in `outer` stays within 16-bit coordinates.
pub open spec fn centering_fits(percent_x: u16, height: u16, outer: Rect) -> bool {
    &&& outer.width * percent_x <= u16::MAX
    &&& outer.x + sat_sub(outer.width, popup_width(percent_x, outer) as u16) / 2 <= u16::MAX
    &&& outer.y + sat_sub(outer.height, height) / 2 <= u16::MAX
}

/// A rectangle `percent_x` percent as wide as `outer` and `height` rows
/// high, centered in `outer` and never larger than it.
pub fn centered_rect(percent_x: u16, height: u16, outer: Rect) -> (r: Rect)
    requires
        centering_fits(percent_x, height, outer),
    ensures
        r.x == outer.x + sat_sub(outer.width, popup_width(percent_x, outer) as u16) / 2,
        r.y == outer.y + sat_sub(outer.height, height) / 2,
        r.width == if popup_width(percent_x, outer) <= outer.width {
            popup_width(percent_x, outer)
        } else {
            outer.width as int
        },
        r.height == if height <= outer.height {
            height
        } else {
            outer.height
        },
{
    let popup_width = outer.width * percent_x / 100;
    let x = outer.x + (if outer.width >= popup_width {
        outer.width - popup_width
    } else {
        0
    }) / 2;
    let y = outer.y + (if outer.height >= height {
        outer.height - height
    } else {
        0
    }) / 2;
    let width = if popup_width <= outer.width {
        popup_width
    } else {
        outer.width
    };
    let h = if height <= outer.height {
        height
    } else {
        outer.height
    };
    Rect { x, y, width, height: h }
}

/// What the "current reading" slot of the header shows.
#[derive(Debug, Clone, Copy, PartialEq, Eq, Structural)]
pub enum ReadingSlot {
    /// A dash placeholder: no reading yet.
    Placeholder,
    /// The over-range marker: the last reading could not be converted.
    OverRange,
    /// The current reading.
    Value,
}

/// The content of the current-reading slot, given whether the meter is
/// connected, whether any reading has been counted, and whether the last
/// reading converted to a power.
pub fn current_reading_slot(connected: bool, has_data: bool, has_current: bool) -> (r:
    ReadingSlot)
    ensures
        r == if !has_data {
            ReadingSlot::Placeholder
        } else if connected && !has_current {
            ReadingSlot::OverRange
        } else if has_current {
            ReadingSlot::Value
        } else {
            ReadingSlot::Placeholder
        },
{
    if !has_data {
        ReadingSlot::Placeholder
    } else if connected && !has_current {
        ReadingSlot::OverRange
    } else if has_current {
        ReadingSlot::Value
    } else {
        ReadingSlot::Placeholder
    }
}

} // verus!
