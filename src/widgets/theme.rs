use vstd::prelude::*;

use crate::layout::Area;

verus! {

/// Shared geometry of the editor's widgets.
pub struct UIStyle;

impl UIStyle {
    /// The rectangle of `percent_x` by `percent_y` percent of `area`
    /// (rounded down), centred in it (rounded towards the top left).
    pub fn centered_rect(percent_x: u16, percent_y: u16, area: Area) -> (r: Area)
        requires
            percent_x <= 100,
            percent_y <= 100,
            area.x + area.width <= u16::MAX,
            area.y + area.height <= u16::MAX,
        ensures
            r.width == area.width * percent_x / 100,
            r.height == area.height * percent_y / 100,
            r.x == area.x + (area.width - r.width) / 2,
            r.y == area.y + (area.height - r.height) / 2,
    {
        let width = scale(area.width, percent_x);
        let height = scale(area.height, percent_y);
        let x = area.x + (area.width - width) / 2;
        let y = area.y + (area.height - height) / 2;
        Area { x, y, width, height }
    }
}

/// `percent` percent of `length`, rounded down.
fn scale(length: u16, percent: u16) -> (r: u16)
    requires
        percent <= 100,
    ensures
        r == length * percent / 100,
        r <= length,
{
    proof {
        assert(length * percent <= length * 100) by (nonlinear_arith)
            requires
                percent <= 100,
        ;
        assert(length * percent / 100 <= length * 100 / 100) by (nonlinear_arith)
            requires
                length * percent <= length * 100,
        ;
        assert(length * percent <= 65535 * 100) by (nonlinear_arith)
            requires
                percent <= 100,
                length <= 65535,
        ;
    }
    let p: u32 = length as u32 * percent as u32 / 100;
    p as u16
}

} // verus!
