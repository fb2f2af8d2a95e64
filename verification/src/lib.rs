pub mod command;
pub mod config;
pub mod errors;
pub mod pipeline;
pub mod run;
pub mod strutil;

use vstd::prelude::*;

verus! {

/// One physical monitor as reported by the window manager: a unique name and
/// integer pixel bounds.
#[derive(Debug)]
pub struct Display {
    pub name: String,
    pub x_min: i64,
    pub y_min: i64,
    pub x_max: i64,
    pub y_max: i64,
}

impl Display {
    /// The bounds form a real rectangle and stay inside 32-bit coordinate
    /// space, so widths and heights can be computed without overflow.
    pub open spec fn wf(self) -> bool {
        &&& -0x8000_0000 <= self.x_min <= self.x_max <= 0x8000_0000
        &&& -0x8000_0000 <= self.y_min <= self.y_max <= 0x8000_0000
    }

    pub fn new(name: String, x_min: i64, y_min: i64, x_max: i64, y_max: i64) -> (d: Option<
        Display,
    >)
        ensures
            d is Some <==> (-0x8000_0000 <= x_min <= x_max <= 0x8000_0000 && -0x8000_0000 <= y_min
                <= y_max <= 0x8000_0000),
            d matches Some(d) ==> d.wf() && d.name@ == name@ && d.x_min == x_min && d.y_min == y_min
                && d.x_max == x_max && d.y_max == y_max,
    {
        if -0x8000_0000 <= x_min && x_min <= x_max && x_max <= 0x8000_0000 && -0x8000_0000 <= y_min
            && y_min <= y_max && y_max <= 0x8000_0000 {
            Some(Display { name, x_min, y_min, x_max, y_max })
        } else {
            None
        }
    }
}

} // verus!

