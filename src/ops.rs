//! The operations a drawing primitive issues on a 2D rendering context, and
//! the exact sequence that each primitive issues.
//!
//! Coordinates stay integers here; the host turns each of them into the
//! context's floating-point coordinate when it performs the operation.

use vstd::prelude::*;
use crate::style::{CanvasColor, FontDesc, make_canvas_color, make_canvas_font};

verus! {

/// A position in backend space: `(x, y)` in pixels.
pub type BackendCoord = (i32, i32);

/// One call on a 2D rendering context.
#[derive(Clone, Debug, PartialEq, Eq)]
#[allow(inconsistent_fields)]
pub enum CanvasOp {
    SetFillStyle(String),
    SetStrokeStyle(String),
    FillRect { x: i32, y: i32, width: i64, height: i64 },
    StrokeRect { x: i32, y: i32, width: i64, height: i64 },
    BeginPath,
    MoveTo { x: i32, y: i32 },
    LineTo { x: i32, y: i32 },
    Stroke,
    Fill,
    /// A full circle: an arc from angle 0 to angle 2π.
    Arc { x: i32, y: i32, radius: u32 },
    SetTextBaseline(String),
    SetFont(String),
    FillText { text: String, x: i32, y: i64 },
}

/// What an operation is, with its strings as character sequences.
pub enum OpModel {
    SetFillStyle(Seq<char>),
    SetStrokeStyle(Seq<char>),
    FillRect { x: int, y: int, width: int, height: int },
    StrokeRect { x: int, y: int, width: int, height: int },
    BeginPath,
    MoveTo { x: int, y: int },
    LineTo { x: int, y: int },
    Stroke,
    Fill,
    Arc { x: int, y: int, radius: int },
    SetTextBaseline(Seq<char>),
    SetFont(Seq<char>),
    FillText { text: Seq<char>, x: int, y: int },
}

impl View for CanvasOp {
    type V = OpModel;

    open spec fn view(&self) -> OpModel {
        match self {
            CanvasOp::SetFillStyle(s) => OpModel::SetFillStyle(s@),
            CanvasOp::SetStrokeStyle(s) => OpModel::SetStrokeStyle(s@),
            CanvasOp::FillRect { x, y, width, height } => OpModel::FillRect {
                x: *x as int,
                y: *y as int,
                width: *width as int,
                height: *height as int,
            },
            CanvasOp::StrokeRect { x, y, width, height } => OpModel::StrokeRect {
                x: *x as int,
                y: *y as int,
                width: *width as int,
                height: *height as int,
            },
            CanvasOp::BeginPath => OpModel::BeginPath,
            CanvasOp::MoveTo { x, y } => OpModel::MoveTo { x: *x as int, y: *y as int },
            CanvasOp::LineTo { x, y } => OpModel::LineTo { x: *x as int, y: *y as int },
            CanvasOp::Stroke => OpModel::Stroke,
            CanvasOp::Fill => OpModel::Fill,
            CanvasOp::Arc { x, y, radius } => OpModel::Arc {
                x: *x as int,
                y: *y as int,
                radius: *radius as int,
            },
            CanvasOp::SetTextBaseline(s) => OpModel::SetTextBaseline(s@),
            CanvasOp::SetFont(s) => OpModel::SetFont(s@),
            CanvasOp::FillText { text, x, y } => OpModel::FillText {
                text: text@,
                x: *x as int,
                y: *y as int,
            },
        }
    }
}

/// The models of a sequence of operations.
pub open spec fn ops_model(ops: Seq<CanvasOp>) -> Seq<OpModel> {
    ops.map_values(|o: CanvasOp| o@)
}

impl CanvasOp {
    /// Whether the host may report a failure for this operation: only arc
    /// construction and text filling can fail; every other call is taken to
    /// succeed.
    pub open spec fn spec_fallible(&self) -> bool {
        self is Arc || self is FillText
    }

    #[verifier::when_used_as_spec(spec_fallible)]
    pub fn fallible(&self) -> (b: bool)
        ensures
            b == self.spec_fallible(),
    {
        match self {
            CanvasOp::Arc { .. } => true,
            CanvasOp::FillText { .. } => true,
            _ => false,
        }
    }
}

pub open spec fn move_to(p: BackendCoord) -> OpModel {
    OpModel::MoveTo { x: p.0 as int, y: p.1 as int }
}

pub open spec fn line_to(p: BackendCoord) -> OpModel {
    OpModel::LineTo { x: p.0 as int, y: p.1 as int }
}

/// One line-to for each of `points`, in order.
pub open spec fn line_tos(points: Seq<BackendCoord>) -> Seq<OpModel> {
    Seq::new(points.len(), |i: int| line_to(points[i]))
}

/// The operations of a polyline through `points` stroked in `style`: a new
/// path, then, when there is a first point, the stroke style, a move to that
/// point and a line to each later one, and last one stroke.
pub open spec fn path_model(points: Seq<BackendCoord>, style: Seq<char>) -> Seq<OpModel> {
    let body = if points.len() == 0 {
        Seq::empty()
    } else {
        seq![OpModel::SetStrokeStyle(style), move_to(points[0])] + line_tos(points.drop_first())
    };
    seq![OpModel::BeginPath] + body + seq![OpModel::Stroke]
}

/// The text baseline that text drawing sets: `bottom`.
pub open spec fn bottom_baseline() -> Seq<char> {
    seq!['b', 'o', 't', 't', 'o', 'm']
}

} // verus!
