//! Drawing primitives for an HTML canvas, planned as exact sequences of
//! rendering-context operations.

pub mod decimal;
pub mod style;
pub mod ops;
pub mod plan;
pub mod error;

pub use decimal::decimal_text;
pub use error::{CanvasError, DrawingErrorKind, op_outcome};
pub use ops::{BackendCoord, CanvasOp};
pub use plan::{circle_ops, line_ops, path_ops, pixel_ops, rect_ops, text_ops};
pub use style::{CanvasColor, FontDesc, make_canvas_color, make_canvas_font};
