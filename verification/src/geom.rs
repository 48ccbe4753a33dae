//! Points, boxes and rectangles over exact rational coordinates.

use vstd::prelude::*;

verus! {

use crate::rat::{Rat, RatV, rv_wf};

/// Why a render pass stopped.
#[derive(Clone, Copy, Debug, PartialEq, Eq, Structural)]
pub enum RenderError {
    /// An exact coordinate left the machine-representable range.
    NumericRange,
    /// The diagram holds no bounding box and no port: no bounds exist.
    NoCoordinates,
}

/// A point, in data space or pixel space.
#[derive(Clone, Copy, Debug, PartialEq, Eq, Structural)]
pub struct Pt {
    pub x: Rat,
    pub y: Rat,
}

pub struct PtV {
    pub x: RatV,
    pub y: RatV,
}

impl View for Pt {
    type V = PtV;

    open spec fn view(&self) -> PtV {
        PtV { x: self.x@, y: self.y@ }
    }
}

impl Pt {
    pub open spec fn wf(self) -> bool {
        self.x.wf() && self.y.wf()
    }

    pub fn new(x: Rat, y: Rat) -> (r: Pt)
        ensures
            r == (Pt { x, y }),
    {
        Pt { x, y }
    }
}

pub open spec fn pv_wf(p: PtV) -> bool {
    rv_wf(p.x) && rv_wf(p.y)
}

/// A glyph's bounding box in data-space units: origin and size.
#[derive(Clone, Copy, Debug, PartialEq, Eq, Structural)]
pub struct BBox {
    pub x: Rat,
    pub y: Rat,
    pub w: Rat,
    pub h: Rat,
}

pub struct BBoxV {
    pub x: RatV,
    pub y: RatV,
    pub w: RatV,
    pub h: RatV,
}

impl View for BBox {
    type V = BBoxV;

    open spec fn view(&self) -> BBoxV {
        BBoxV { x: self.x@, y: self.y@, w: self.w@, h: self.h@ }
    }
}

impl BBox {
    pub open spec fn wf(self) -> bool {
        self.x.wf() && self.y.wf() && self.w.wf() && self.h.wf()
    }
}

/// A normalized rectangle in pixel space: top-left corner and non-negative size.
#[derive(Clone, Copy, Debug, PartialEq, Eq, Structural)]
pub struct Rect {
    pub x0: Rat,
    pub y0: Rat,
    pub w: Rat,
    pub h: Rat,
}

pub struct RectV {
    pub x0: RatV,
    pub y0: RatV,
    pub w: RatV,
    pub h: RatV,
}

impl View for Rect {
    type V = RectV;

    open spec fn view(&self) -> RectV {
        RectV { x0: self.x0@, y0: self.y0@, w: self.w@, h: self.h@ }
    }
}

impl Rect {
    pub open spec fn wf(self) -> bool {
        self.x0.wf() && self.y0.wf() && self.w.wf() && self.h.wf()
    }
}

pub open spec fn rect_wf_v(r: RectV) -> bool {
    rv_wf(r.x0) && rv_wf(r.y0) && rv_wf(r.w) && rv_wf(r.h)
}

/// The data-space extent of the whole diagram.
#[derive(Clone, Copy, Debug, PartialEq, Eq, Structural)]
pub struct Bounds {
    pub min_x: Rat,
    pub max_x: Rat,
    pub min_y: Rat,
    pub max_y: Rat,
}

pub struct BoundsV {
    pub min_x: RatV,
    pub max_x: RatV,
    pub min_y: RatV,
    pub max_y: RatV,
}

impl View for Bounds {
    type V = BoundsV;

    open spec fn view(&self) -> BoundsV {
        BoundsV { min_x: self.min_x@, max_x: self.max_x@, min_y: self.min_y@, max_y: self.max_y@ }
    }
}

impl Bounds {
    pub open spec fn wf(self) -> bool {
        self.min_x.wf() && self.max_x.wf() && self.min_y.wf() && self.max_y.wf()
    }
}

/// Lift an optional arithmetic result into the render pass's error domain.
pub fn ranged(o: Option<Rat>) -> (r: Result<Rat, RenderError>)
    ensures
        r matches Ok(v) ==> o == Some(v),
        r is Err <==> o is None,
        r matches Err(e) ==> e == RenderError::NumericRange,
{
    match o {
        Some(v) => Ok(v),
        None => Err(RenderError::NumericRange),
    }
}

} // verus!
