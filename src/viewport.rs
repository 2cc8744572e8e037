// Viewports in character cells, sized from what the client reports.
use vstd::prelude::*;

verus! {

/// A rectangle of character cells.
#[derive(Debug, Clone, Copy, PartialEq, Eq, Structural)]
pub struct Viewport {
    pub x: u16,
    pub y: u16,
    pub width: u16,
    pub height: u16,
}

/// A client-reported dimension narrowed to 16 bits: values past the range
/// saturate instead of wrapping.
pub open spec fn clamp_spec(v: u32) -> u16 {
    if v <= 0xffff {
        v as u16
    } else {
        0xffff
    }
}

/// The viewport at the origin with the given size.
pub open spec fn at_origin(width: u16, height: u16) -> Viewport {
    Viewport { x: 0, y: 0, width, height }
}

pub fn clamp_dimension(v: u32) -> (r: u16)
    ensures
        r == clamp_spec(v),
{
    if v <= 0xffff {
        v as u16
    } else {
        0xffff
    }
}

impl Viewport {
    /// The viewport at the origin with the given size.
    pub fn new(width: u16, height: u16) -> (r: Viewport)
        ensures
            r == at_origin(width, height),
    {
        Viewport { x: 0, y: 0, width, height }
    }

    /// The viewport for a terminal of `cols` columns and `rows` rows as the
    /// client reports them.
    pub fn from_client(cols: u32, rows: u32) -> (r: Viewport)
        ensures
            r == at_origin(clamp_spec(cols), clamp_spec(rows)),
    {
        Viewport::new(clamp_dimension(cols), clamp_dimension(rows))
    }
}

} // verus!
