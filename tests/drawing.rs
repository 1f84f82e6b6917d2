use canvas_backend::{
    circle_ops, decimal_text, line_ops, make_canvas_color, make_canvas_font, op_outcome, path_ops,
    pixel_ops, rect_ops, text_ops, CanvasColor, CanvasError, CanvasOp, DrawingErrorKind, FontDesc,
};

fn color(r: u8, g: u8, b: u8, alpha: f64) -> CanvasColor {
    CanvasColor::new(r, g, b, format!("{}", alpha))
}

fn style(c: &CanvasColor) -> String {
    make_canvas_color(c)
}

#[test]
fn decimal_text_small_and_large() {
    assert_eq!(decimal_text(0), "0");
    assert_eq!(decimal_text(7), "7");
    assert_eq!(decimal_text(10), "10");
    assert_eq!(decimal_text(255), "255");
    assert_eq!(decimal_text(u64::MAX), u64::MAX.to_string());
}

#[test]
fn color_string_formatting() {
    let c = color(10, 20, 30, 0.5);
    assert_eq!(make_canvas_color(&c), "rgba(10,20,30,0.5)");
}

#[test]
fn color_string_extremes() {
    assert_eq!(make_canvas_color(&color(0, 0, 0, 0.0)), "rgba(0,0,0,0)");
    assert_eq!(make_canvas_color(&color(255, 255, 255, 1.0)), "rgba(255,255,255,1)");
    assert_eq!(color(1, 2, 3, 0.25).rgb(), (1, 2, 3));
}

#[test]
fn font_string_formatting() {
    let f = FontDesc::new(12, "sans-serif".to_string());
    assert_eq!(make_canvas_font(&f), "12px sans-serif");
    assert_eq!(f.get_size(), 12);
    assert_eq!(f.get_name(), "sans-serif");
}

#[test]
fn pixel_is_one_filled_square() {
    let c = color(1, 2, 3, 1.0);
    let ops = pixel_ops((4, -5), &c);
    assert_eq!(
        ops,
        vec![
            CanvasOp::SetFillStyle("rgba(1,2,3,1)".to_string()),
            CanvasOp::FillRect { x: 4, y: -5, width: 1, height: 1 },
        ]
    );
}

#[test]
fn line_is_one_stroked_segment() {
    let c = color(9, 8, 7, 0.5);
    let ops = line_ops((1, 2), (3, 4), &c);
    assert_eq!(
        ops,
        vec![
            CanvasOp::SetStrokeStyle(style(&c)),
            CanvasOp::BeginPath,
            CanvasOp::MoveTo { x: 1, y: 2 },
            CanvasOp::LineTo { x: 3, y: 4 },
            CanvasOp::Stroke,
        ]
    );
}

#[test]
fn filled_rect_from_origin() {
    let c = color(10, 20, 30, 0.5);
    let ops = rect_ops((0, 0), (10, 20), &c, true);
    assert_eq!(
        ops,
        vec![
            CanvasOp::SetFillStyle("rgba(10,20,30,0.5)".to_string()),
            CanvasOp::FillRect { x: 0, y: 0, width: 10, height: 20 },
        ]
    );
}

#[test]
fn stroked_rect_keeps_negative_extent() {
    let c = color(0, 0, 0, 1.0);
    let ops = rect_ops((10, 5), (4, 9), &c, false);
    assert_eq!(
        ops,
        vec![
            CanvasOp::SetStrokeStyle(style(&c)),
            CanvasOp::StrokeRect { x: 10, y: 5, width: -6, height: 4 },
        ]
    );
}

#[test]
fn rect_extent_across_whole_range() {
    let c = color(0, 0, 0, 1.0);
    let ops = rect_ops((i32::MIN, i32::MAX), (i32::MAX, i32::MIN), &c, true);
    assert_eq!(
        ops[1],
        CanvasOp::FillRect {
            x: i32::MIN,
            y: i32::MAX,
            width: u32::MAX as i64,
            height: -(u32::MAX as i64),
        }
    );
}

#[test]
fn empty_path_only_strokes() {
    let c = color(1, 1, 1, 1.0);
    let ops = path_ops(&Vec::new(), &c);
    assert_eq!(ops, vec![CanvasOp::BeginPath, CanvasOp::Stroke]);
}

#[test]
fn three_point_path() {
    let c = color(1, 1, 1, 1.0);
    let ops = path_ops(&vec![(0, 0), (5, 5), (10, 0)], &c);
    assert_eq!(
        ops,
        vec![
            CanvasOp::BeginPath,
            CanvasOp::SetStrokeStyle(style(&c)),
            CanvasOp::MoveTo { x: 0, y: 0 },
            CanvasOp::LineTo { x: 5, y: 5 },
            CanvasOp::LineTo { x: 10, y: 0 },
            CanvasOp::Stroke,
        ]
    );
    let moves = ops.iter().filter(|o| matches!(o, CanvasOp::MoveTo { .. })).count();
    let lines = ops.iter().filter(|o| matches!(o, CanvasOp::LineTo { .. })).count();
    let strokes = ops.iter().filter(|o| matches!(o, CanvasOp::Stroke)).count();
    assert_eq!((moves, lines, strokes), (1, 2, 1));
    assert_eq!(ops.last(), Some(&CanvasOp::Stroke));
}

#[test]
fn single_point_path() {
    let c = color(1, 1, 1, 1.0);
    let ops = path_ops(&vec![(3, 4)], &c);
    assert_eq!(
        ops,
        vec![
            CanvasOp::BeginPath,
            CanvasOp::SetStrokeStyle(style(&c)),
            CanvasOp::MoveTo { x: 3, y: 4 },
            CanvasOp::Stroke,
        ]
    );
}

#[test]
fn stroked_circle_is_full_arc() {
    let c = color(5, 6, 7, 0.75);
    let ops = circle_ops((20, 30), 8, &c, false);
    assert_eq!(
        ops,
        vec![
            CanvasOp::SetStrokeStyle("rgba(5,6,7,0.75)".to_string()),
            CanvasOp::BeginPath,
            CanvasOp::Arc { x: 20, y: 30, radius: 8 },
            CanvasOp::Stroke,
        ]
    );
    assert!(!ops.iter().any(|o| matches!(o, CanvasOp::Fill | CanvasOp::SetFillStyle(_))));
}

#[test]
fn filled_circle() {
    let c = color(5, 6, 7, 1.0);
    let ops = circle_ops((-1, 0), 0, &c, true);
    assert_eq!(
        ops,
        vec![
            CanvasOp::SetFillStyle(style(&c)),
            CanvasOp::BeginPath,
            CanvasOp::Arc { x: -1, y: 0, radius: 0 },
            CanvasOp::Fill,
        ]
    );
}

#[test]
fn arc_failure_is_drawing_error() {
    let arc = CanvasOp::Arc { x: 0, y: 0, radius: 3 };
    let r = op_outcome(&arc, Err(Some("\"IndexSizeError\"".to_string())));
    assert_eq!(
        r,
        Err(DrawingErrorKind::DrawingError(CanvasError::new(Some(
            "\"IndexSizeError\"".to_string()
        ))))
    );
    assert_eq!(op_outcome(&arc, Ok(())), Ok(()));
}

#[test]
fn fill_text_failure_without_serialization() {
    let op = CanvasOp::FillText { text: "a".to_string(), x: 0, y: 0 };
    let r = op_outcome(&op, Err(None));
    assert_eq!(r, Err(DrawingErrorKind::DrawingError(CanvasError::new(None))));
}

#[test]
fn infallible_operation_ignores_failure() {
    assert_eq!(op_outcome(&CanvasOp::Stroke, Err(Some("x".to_string()))), Ok(()));
    assert_eq!(op_outcome(&CanvasOp::BeginPath, Err(None)), Ok(()));
}

#[test]
fn error_messages() {
    let known = CanvasError::new(Some("{\"code\":1}".to_string()));
    assert_eq!(known.message(), "Canvas Error: {\"code\":1}");
    assert_eq!(known.debug_message(), "CanvasError({\"code\":1})");
    let unknown = CanvasError::new(None);
    assert_eq!(unknown.message(), "Canvas Error: Unknown");
    assert_eq!(unknown.debug_message(), "CanvasError(Unknown)");
}

#[test]
fn text_below_position_by_font_size() {
    let c = color(0, 0, 0, 1.0);
    let f = FontDesc::new(12, "serif".to_string());
    let ops = text_ops("hello", &f, (5, 7), &c);
    assert_eq!(
        ops,
        vec![
            CanvasOp::SetTextBaseline("bottom".to_string()),
            CanvasOp::SetFillStyle("rgba(0,0,0,1)".to_string()),
            CanvasOp::SetFont("12px serif".to_string()),
            CanvasOp::FillText { text: "hello".to_string(), x: 5, y: 19 },
        ]
    );
}

#[test]
fn text_offset_does_not_overflow() {
    let c = color(0, 0, 0, 1.0);
    let f = FontDesc::new(u32::MAX, "mono".to_string());
    let ops = text_ops("", &f, (0, i32::MAX), &c);
    assert_eq!(
        ops[3],
        CanvasOp::FillText { text: String::new(), x: 0, y: i32::MAX as i64 + u32::MAX as i64 }
    );
}
