//! Errors of drawing calls.

use vstd::prelude::*;
use crate::ops::CanvasOp;

verus! {

/// A failure that the host reported for a drawing operation. It keeps only a
/// rendering of the host's failure value: its JSON text, or nothing when that
/// value could not be serialized.
#[derive(Clone, Debug, PartialEq, Eq)]
pub struct CanvasError {
    pub detail: Option<String>,
}

/// The error of a drawing call.
#[derive(Clone, Debug, PartialEq, Eq)]
pub enum DrawingErrorKind {
    /// The host failed to perform an operation.
    DrawingError(CanvasError),
}

/// `Unknown`: what stands for a failure value that could not be serialized.
pub open spec fn unknown_text() -> Seq<char> {
    seq!['U', 'n', 'k', 'n', 'o', 'w', 'n']
}

impl CanvasError {
    pub fn new(detail: Option<String>) -> (e: CanvasError)
        ensures
            e.detail == detail,
    {
        CanvasError { detail }
    }

    /// How the failure value reads: its JSON text, else `Unknown`.
    pub open spec fn shown(&self) -> Seq<char> {
        match self.detail {
            Some(s) => s@,
            None => unknown_text(),
        }
    }

    fn append_shown(&self, s: &mut String)
        ensures
            final(s)@ == old(s)@ + self.shown(),
    {
        proof {
            reveal_strlit("Unknown");
            assert("Unknown"@ =~= unknown_text());
        }
        match &self.detail {
            Some(d) => s.append(d.as_str()),
            None => s.append("Unknown"),
        }
    }

    /// The message of this error: `Canvas Error: ` and the failure value.
    pub fn message(&self) -> (m: String)
        ensures
            m@ == seq!['C', 'a', 'n', 'v', 'a', 's', ' ', 'E', 'r', 'r', 'o', 'r', ':', ' ']
                + self.shown(),
    {
        proof {
            reveal_strlit("Canvas Error: ");
        }
        let mut m = String::from_str("Canvas Error: ");
        self.append_shown(&mut m);
        assert(m@ =~= seq!['C', 'a', 'n', 'v', 'a', 's', ' ', 'E', 'r', 'r', 'o', 'r', ':', ' ']
            + self.shown());
        m
    }

    /// The debugging form of this error: `CanvasError(`, the failure value
    /// and `)`.
    pub fn debug_message(&self) -> (m: String)
        ensures
            m@ == seq!['C', 'a', 'n', 'v', 'a', 's', 'E', 'r', 'r', 'o', 'r', '('] + self.shown()
                + seq![')'],
    {
        proof {
            reveal_strlit("CanvasError(");
            reveal_strlit(")");
        }
        let mut m = String::from_str("CanvasError(");
        self.append_shown(&mut m);
        m.append(")");
        assert(m@ =~= seq!['C', 'a', 'n', 'v', 'a', 's', 'E', 'r', 'r', 'o', 'r', '('] + self.shown()
            + seq![')']);
        m
    }
}

/// What a drawing call makes of the host's answer to one of its operations.
/// `host` is `Err` with the failure value's JSON text (or nothing) when the
/// host reported a failure. A failure of an operation that can fail ends the
/// call with a drawing error that carries that text; any other answer lets
/// the call go on.
pub fn op_outcome(
    op: &CanvasOp,
    host: Result<(), Option<String>>,
) -> (r: Result<(), DrawingErrorKind>)
    ensures
        r is Err <==> (op.fallible() && host is Err),
        match (r, host) {
            (Err(DrawingErrorKind::DrawingError(e)), Err(d)) => e.detail == d,
            _ => true,
        },
{
    match host {
        Err(detail) => {
            if op.fallible() {
                Err(DrawingErrorKind::DrawingError(CanvasError::new(detail)))
            } else {
                Ok(())
            }
        },
        Ok(()) => Ok(()),
    }
}

} // verus!
