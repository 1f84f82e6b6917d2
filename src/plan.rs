//! For each drawing primitive, the operations it issues, in order.

use vstd::prelude::*;
use crate::ops::{BackendCoord, CanvasOp, OpModel, ops_model, path_model, move_to, line_to, line_tos, bottom_baseline};
use crate::style::{CanvasColor, FontDesc, make_canvas_color, make_canvas_font};

verus! {

/// A circle around `center` with the given radius: the fill style and a
/// fill when `fill` holds, else the stroke style and a stroke, around a new
/// path holding one arc over the full turn.
pub fn circle_ops(
    center: BackendCoord,
    radius: u32,
    color: &CanvasColor,
    fill: bool,
) -> (ops: Vec<CanvasOp>)
    ensures
        ops_model(ops@) == seq![
            if fill {
                OpModel::SetFillStyle(color.css())
            } else {
                OpModel::SetStrokeStyle(color.css())
            },
            OpModel::BeginPath,
            OpModel::Arc { x: center.0 as int, y: center.1 as int, radius: radius as int },
            if fill {
                OpModel::Fill
            } else {
                OpModel::Stroke
            },
        ],
{
    let mut ops: Vec<CanvasOp> = Vec::new();
    if fill {
        ops.push(CanvasOp::SetFillStyle(make_canvas_color(color)));
    } else {
        ops.push(CanvasOp::SetStrokeStyle(make_canvas_color(color)));
    }
    ops.push(CanvasOp::BeginPath);
    ops.push(CanvasOp::Arc { x: center.0, y: center.1, radius });
    if fill {
        ops.push(CanvasOp::Fill);
    } else {
        ops.push(CanvasOp::Stroke);
    }
    assert(ops_model(ops@) =~= seq![
        if fill {
            OpModel::SetFillStyle(color.css())
        } else {
            OpModel::SetStrokeStyle(color.css())
        },
        OpModel::BeginPath,
        OpModel::Arc { x: center.0 as int, y: center.1 as int, radius: radius as int },
        if fill {
            OpModel::Fill
        } else {
            OpModel::Stroke
        },
    ]);
    ops
}

/// The rectangle from `upper_left` to `bottom_right`, filled or stroked.
/// Its width and height are `bottom_right - upper_left`, component-wise,
/// negative ones included.
pub fn rect_ops(
    upper_left: BackendCoord,
    bottom_right: BackendCoord,
    color: &CanvasColor,
    fill: bool,
) -> (ops: Vec<CanvasOp>)
    ensures
        ({
            let x = upper_left.0 as int;
            let y = upper_left.1 as int;
            let width = bottom_right.0 - upper_left.0;
            let height = bottom_right.1 - upper_left.1;
            ops_model(ops@) == if fill {
                seq![
                    OpModel::SetFillStyle(color.css()),
                    OpModel::FillRect { x, y, width, height },
                ]
            } else {
                seq![
                    OpModel::SetStrokeStyle(color.css()),
                    OpModel::StrokeRect { x, y, width, height },
                ]
            }
        }),
{
    let width: i64 = bottom_right.0 as i64 - upper_left.0 as i64;
    let height: i64 = bottom_right.1 as i64 - upper_left.1 as i64;
    let mut ops: Vec<CanvasOp> = Vec::new();
    if fill {
        ops.push(CanvasOp::SetFillStyle(make_canvas_color(color)));
        ops.push(CanvasOp::FillRect { x: upper_left.0, y: upper_left.1, width, height });
    } else {
        ops.push(CanvasOp::SetStrokeStyle(make_canvas_color(color)));
        ops.push(CanvasOp::StrokeRect { x: upper_left.0, y: upper_left.1, width, height });
    }
    assert(ops_model(ops@) =~= if fill {
        seq![
            OpModel::SetFillStyle(color.css()),
            OpModel::FillRect {
                x: upper_left.0 as int,
                y: upper_left.1 as int,
                width: width as int,
                height: height as int,
            },
        ]
    } else {
        seq![
            OpModel::SetStrokeStyle(color.css()),
            OpModel::StrokeRect {
                x: upper_left.0 as int,
                y: upper_left.1 as int,
                width: width as int,
                height: height as int,
            },
        ]
    });
    ops
}

/// The polyline through `points`, stroked once at the end; over no points it
/// is a new path and a stroke alone.
pub fn path_ops(points: &Vec<BackendCoord>, color: &CanvasColor) -> (ops: Vec<CanvasOp>)
    ensures
        ops_model(ops@) == path_model(points@, color.css()),
{
    let mut ops: Vec<CanvasOp> = Vec::new();
    ops.push(CanvasOp::BeginPath);
    if points.len() > 0 {
        ops.push(CanvasOp::SetStrokeStyle(make_canvas_color(color)));
        let start = points[0];
        ops.push(CanvasOp::MoveTo { x: start.0, y: start.1 });
        let ghost head = seq![
            OpModel::BeginPath,
            OpModel::SetStrokeStyle(color.css()),
            move_to(points@[0]),
        ];
        assert(ops_model(ops@) =~= head + line_tos(points@.subrange(1, 1)));
        let mut i: usize = 1;
        while i < points.len()
            invariant
                1 <= i <= points.len(),
                ops_model(ops@) == head + line_tos(points@.subrange(1, i as int)),
            decreases points.len() - i,
        {
            let next = points[i];
            let ghost before = ops@;
            ops.push(CanvasOp::LineTo { x: next.0, y: next.1 });
            assert(ops_model(ops@) =~= ops_model(before).push(line_to(next)));
            assert(line_tos(points@.subrange(1, i + 1)) =~= line_tos(
                points@.subrange(1, i as int),
            ).push(line_to(next)));
            i = i + 1;
        }
        assert(points@.subrange(1, points@.len() as int) =~= points@.drop_first());
    }
    let ghost before = ops@;
    ops.push(CanvasOp::Stroke);
    assert(ops_model(ops@) =~= ops_model(before).push(OpModel::Stroke));
    assert(ops_model(ops@) =~= path_model(points@, color.css()));
    ops
}

/// `text` in `font` with its top-left corner at `pos`: the baseline is set
/// to `bottom` and the text is filled one font size below `pos`.
pub fn text_ops(
    text: &str,
    font: &FontDesc,
    pos: BackendCoord,
    color: &CanvasColor,
) -> (ops: Vec<CanvasOp>)
    ensures
        ops_model(ops@) == seq![
            OpModel::SetTextBaseline(bottom_baseline()),
            OpModel::SetFillStyle(color.css()),
            OpModel::SetFont(font.css()),
            OpModel::FillText { text: text@, x: pos.0 as int, y: pos.1 + font.size },
        ],
{
    proof {
        reveal_strlit("bottom");
        assert("bottom"@ =~= bottom_baseline());
    }
    let mut ops: Vec<CanvasOp> = Vec::new();
    ops.push(CanvasOp::SetTextBaseline(String::from_str("bottom")));
    ops.push(CanvasOp::SetFillStyle(make_canvas_color(color)));
    ops.push(CanvasOp::SetFont(make_canvas_font(font)));
    let y: i64 = pos.1 as i64 + font.size as i64;
    ops.push(CanvasOp::FillText { text: String::from_str(text), x: pos.0, y });
    assert(ops_model(ops@) =~= seq![
        OpModel::SetTextBaseline(bottom_baseline()),
        OpModel::SetFillStyle(color.css()),
        OpModel::SetFont(font.css()),
        OpModel::FillText { text: text@, x: pos.0 as int, y: pos.1 + font.size },
    ]);
    ops
}

/// A straight stroke from `from` to `to` on a new path.
pub fn line_ops(from: BackendCoord, to: BackendCoord, color: &CanvasColor) -> (ops: Vec<CanvasOp>)
    ensures
        ops_model(ops@) == seq![
            OpModel::SetStrokeStyle(color.css()),
            OpModel::BeginPath,
            move_to(from),
            line_to(to),
            OpModel::Stroke,
        ],
{
    let mut ops: Vec<CanvasOp> = Vec::new();
    ops.push(CanvasOp::SetStrokeStyle(make_canvas_color(color)));
    ops.push(CanvasOp::BeginPath);
    ops.push(CanvasOp::MoveTo { x: from.0, y: from.1 });
    ops.push(CanvasOp::LineTo { x: to.0, y: to.1 });
    ops.push(CanvasOp::Stroke);
    assert(ops_model(ops@) =~= seq![
        OpModel::SetStrokeStyle(color.css()),
        OpModel::BeginPath,
        move_to(from),
        line_to(to),
        OpModel::Stroke,
    ]);
    ops
}

/// One pixel at `point`: a filled 1×1 rectangle there in `color`.
pub fn pixel_ops(point: BackendCoord, color: &CanvasColor) -> (ops: Vec<CanvasOp>)
    ensures
        ops_model(ops@) == seq![
            OpModel::SetFillStyle(color.css()),
            OpModel::FillRect { x: point.0 as int, y: point.1 as int, width: 1, height: 1 },
        ],
{
    let mut ops: Vec<CanvasOp> = Vec::new();
    ops.push(CanvasOp::SetFillStyle(make_canvas_color(color)));
    ops.push(CanvasOp::FillRect { x: point.0, y: point.1, width: 1, height: 1 });
    assert(ops_model(ops@) =~= seq![
        OpModel::SetFillStyle(color.css()),
        OpModel::FillRect { x: point.0 as int, y: point.1 as int, width: 1, height: 1 },
    ]);
    ops
}

} // verus!
