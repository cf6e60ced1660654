use vstd::prelude::*;
use crate::limits::RADIUS_MAX;

verus! {

/// An 8-bit-per-channel color.
#[derive(Clone, Copy, PartialEq, Eq, Structural, Debug)]
pub struct Rgb {
    pub red: u8,
    pub green: u8,
    pub blue: u8,
}

/// The visual parameters attached to a shape when it is dropped: the
/// number of polygon edges, the radius in model units, fill and stroke
/// colors, and the stroke width in model units. A shape keeps its own
/// copy, so later edits to the pending style never reach placed shapes.
#[derive(Clone, Copy, PartialEq, Eq, Structural, Debug)]
pub struct Style {
    pub edges: u32,
    pub radius: i64,
    pub color: Rgb,
    pub stroke: Rgb,
    pub stroke_width: i64,
}

/// A well-formed style has a nonnegative radius no larger than the model
/// bound, and a nonnegative stroke width. The edge count is nonnegative by
/// its type; zero is valid and yields an empty point sequence.
pub open spec fn style_wf(s: Style) -> bool {
    &&& 0 <= s.radius <= RADIUS_MAX
    &&& 0 <= s.stroke_width
}

/// A partial update to the pending style: absent fields are left as they
/// are, present fields are clamped into the style's valid ranges.
#[derive(Clone, Copy, Debug)]
pub struct StylePatch {
    pub edges: Option<i32>,
    pub radius: Option<i64>,
    pub color: Option<Rgb>,
    pub stroke: Option<Rgb>,
    pub stroke_width: Option<i64>,
}

/// A requested edge count, clamped to nonnegative.
pub open spec fn clamp_edges_spec(v: int) -> int {
    if v < 0 {
        0
    } else {
        v
    }
}

/// A requested radius, clamped into `[0, RADIUS_MAX]`.
pub open spec fn clamp_radius_spec(v: int) -> int {
    if v < 0 {
        0
    } else if v > RADIUS_MAX {
        RADIUS_MAX as int
    } else {
        v
    }
}

/// A requested stroke width, clamped to nonnegative.
pub open spec fn clamp_width_spec(v: int) -> int {
    if v < 0 {
        0
    } else {
        v
    }
}

/// The style that results from merging a patch into `s`, field by field.
pub open spec fn apply_patch_spec(s: Style, p: StylePatch) -> Style {
    Style {
        edges: match p.edges {
            Some(v) => clamp_edges_spec(v as int) as u32,
            None => s.edges,
        },
        radius: match p.radius {
            Some(v) => clamp_radius_spec(v as int) as i64,
            None => s.radius,
        },
        color: match p.color {
            Some(c) => c,
            None => s.color,
        },
        stroke: match p.stroke {
            Some(c) => c,
            None => s.stroke,
        },
        stroke_width: match p.stroke_width {
            Some(v) => clamp_width_spec(v as int) as i64,
            None => s.stroke_width,
        },
    }
}

impl Style {
    /// Merge a partial update into this style, clamping each requested
    /// value into its valid range, so that the result stays well-formed.
    pub fn updated(self, patch: StylePatch) -> (t: Style)
        requires
            style_wf(self),
        ensures
            t == apply_patch_spec(self, patch),
            style_wf(t),
    {
        let mut t = self;
        match patch.edges {
            Some(v) => {
                t.edges = if v < 0 {
                    0
                } else {
                    v as u32
                };
            },
            None => {},
        }
        match patch.radius {
            Some(v) => {
                t.radius = if v < 0 {
                    0
                } else if v > RADIUS_MAX {
                    RADIUS_MAX
                } else {
                    v
                };
            },
            None => {},
        }
        match patch.color {
            Some(c) => {
                t.color = c;
            },
            None => {},
        }
        match patch.stroke {
            Some(c) => {
                t.stroke = c;
            },
            None => {},
        }
        match patch.stroke_width {
            Some(v) => {
                t.stroke_width = if v < 0 {
                    0
                } else {
                    v
                };
            },
            None => {},
        }
        t
    }
}

} // verus!
