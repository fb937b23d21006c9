use vstd::prelude::*;
use crate::geometry::{Rect, WHITE};

verus! {

/// Message code sent to a window that is being destroyed.
pub const WM_DESTROY: u32 = 0x0002;

/// Message code asking a window to repaint its invalid region.
pub const WM_PAINT: u32 = 0x000F;

/// What the window callback does with one message.
#[derive(Clone, Copy, Debug, PartialEq, Eq, Structural)]
pub enum Handling {
    /// Post a quit signal carrying `exit_code`, then answer 0.
    PostQuit { exit_code: i32 },
    /// Run a paint session over the invalid region, then answer 0.
    Paint,
    /// Hand the message unchanged to the default handler and answer what it answers.
    Forward,
}

/// The handling of each message code.
pub open spec fn handling_of(msg: u32) -> Handling {
    if msg == WM_DESTROY {
        Handling::PostQuit { exit_code: 0 }
    } else if msg == WM_PAINT {
        Handling::Paint
    } else {
        Handling::Forward
    }
}

/// The callback's answer: what the default handler answered for a forwarded
/// message, 0 for a message handled here.
pub open spec fn reply_of(h: Handling, forwarded: Option<isize>) -> isize {
    match h {
        Handling::Forward => forwarded.unwrap(),
        _ => 0,
    }
}

/// Decides how the window callback handles message `msg`.
pub fn window_proc(msg: u32) -> (h: Handling)
    ensures
        h == handling_of(msg),
{
    if msg == WM_DESTROY {
        Handling::PostQuit { exit_code: 0 }
    } else if msg == WM_PAINT {
        Handling::Paint
    } else {
        Handling::Forward
    }
}

/// The value the callback returns once `h` has been carried out; `forwarded`
/// holds the default handler's answer, present exactly when the message was forwarded.
pub fn window_result(h: Handling, forwarded: Option<isize>) -> (r: isize)
    requires
        (h is Forward) == (forwarded is Some),
    ensures
        r == reply_of(h, forwarded),
{
    match h {
        Handling::Forward => match forwarded {
            Some(v) => v,
            None => 0,
        },
        _ => 0,
    }
}

/// One step of a paint session, after the session has begun and reported its
/// invalid region.
#[derive(Clone, Copy, Debug, PartialEq, Eq, Structural)]
pub enum PaintOp {
    /// Create a solid brush of `color`; it is the session's brush from then on.
    CreateBrush { color: u32 },
    /// Fill `rect` with the session's brush.
    Fill { rect: Rect },
    /// Delete the session's brush.
    DeleteBrush,
    /// End the paint session.
    EndPaint,
}

/// The steps of a paint session whose invalid region is `invalid`.
pub open spec fn paint_plan(invalid: Rect) -> Seq<PaintOp> {
    seq![
        PaintOp::CreateBrush { color: WHITE },
        PaintOp::Fill { rect: invalid },
        PaintOp::DeleteBrush,
        PaintOp::EndPaint,
    ]
}

/// The steps to carry out, in order, once a paint session reports `invalid`.
pub fn paint_ops(invalid: Rect) -> (ops: Vec<PaintOp>)
    ensures
        ops@ == paint_plan(invalid),
{
    let ops = vec![
        PaintOp::CreateBrush { color: WHITE },
        PaintOp::Fill { rect: invalid },
        PaintOp::DeleteBrush,
        PaintOp::EndPaint,
    ];
    assert(ops@ =~= paint_plan(invalid));
    ops
}

/// A destroy message posts exactly one quit signal, with exit code 0, and the
/// callback answers 0.
pub proof fn lemma_destroy_posts_one_quit()
    ensures
        handling_of(WM_DESTROY) == (Handling::PostQuit { exit_code: 0 }),
        reply_of(handling_of(WM_DESTROY), None) == 0,
        forall|m: u32| m != WM_DESTROY ==> handling_of(m) !is PostQuit,
{
}

/// A paint message is answered with 0, and its session fills exactly the
/// invalid region it reported, once, with a white brush that it creates
/// before the fill and deletes after it.
pub proof fn lemma_paint_fills_invalid_region(invalid: Rect)
    ensures
        handling_of(WM_PAINT) == Handling::Paint,
        reply_of(handling_of(WM_PAINT), None) == 0,
        forall|i: int|
            0 <= i < paint_plan(invalid).len() && paint_plan(invalid)[i] is Fill
                ==> i == 1 && paint_plan(invalid)[i]->rect == invalid,
        paint_plan(invalid)[0] == (PaintOp::CreateBrush { color: WHITE }),
        paint_plan(invalid)[2] == PaintOp::DeleteBrush,
        paint_plan(invalid).last() == PaintOp::EndPaint,
{
}

/// Every message other than destroy and paint is forwarded, and the callback
/// answers exactly what the default handler answered for it.
pub proof fn lemma_other_messages_pass_through(msg: u32, default_reply: isize)
    requires
        msg != WM_DESTROY,
        msg != WM_PAINT,
    ensures
        handling_of(msg) == Handling::Forward,
        reply_of(handling_of(msg), Some(default_reply)) == default_reply,
{
}

} // verus!
