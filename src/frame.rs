use vstd::prelude::*;
use crate::error::AppError;

verus! {

/// An 8-bit RGBA color.
#[derive(Clone, Copy, Debug, PartialEq, Eq, Structural)]
pub struct Rgba {
    pub r: u8,
    pub g: u8,
    pub b: u8,
    pub a: u8,
}

/// Opaque white.
pub open spec fn white() -> Rgba {
    Rgba { r: 255, g: 255, b: 255, a: 255 }
}

/// A piece of text to draw, its top-left corner at (`x`, `y`) in window pixels.
#[derive(Clone, Copy, Debug)]
pub struct TextSection {
    pub text: &'static str,
    pub x: u32,
    pub y: u32,
}

/// The text drawn in every frame.
pub open spec fn greeting_text() -> Seq<char> {
    "hello"@
}

/// The operations of one frame, in the order they are recorded and submitted.
#[derive(Clone, Copy, Debug)]
pub enum FrameOp {
    /// Take the next presentable image from the presentation chain.
    Acquire,
    /// Open a command encoder for this frame.
    BeginEncoder,
    /// A render pass that clears the whole acquired image to `color` and
    /// stores the result; it draws nothing.
    ClearPass { color: Rgba },
    /// Put `section` on the rasterizer's queue for this frame.
    QueueText { section: TextSection },
    /// Let the rasterizer draw its queue into the acquired image, in a
    /// coordinate space of `width` by `height` pixels.
    DrawQueued { width: u32, height: u32 },
    /// Finish the encoder and submit its commands to the queue.
    Submit,
}

/// `op` clears the image to opaque white.
pub open spec fn is_white_clear(op: FrameOp) -> bool {
    match op {
        FrameOp::ClearPass { color } => color == white(),
        _ => false,
    }
}

/// `op` queues the greeting at (10, 10).
pub open spec fn is_greeting(op: FrameOp) -> bool {
    match op {
        FrameOp::QueueText { section } => section.text@ == greeting_text() && section.x == 10
            && section.y == 10,
        _ => false,
    }
}

/// `op` draws the queued text over a `width` by `height` target.
pub open spec fn is_draw(op: FrameOp, width: u32, height: u32) -> bool {
    match op {
        FrameOp::DrawQueued { width: w, height: h } => w == width && h == height,
        _ => false,
    }
}

/// The six operations of a frame drawn over a `width` by `height` window:
/// acquire, open the encoder, clear to white, queue the greeting, draw, submit.
pub open spec fn frame_plan_spec(ops: Seq<FrameOp>, width: u32, height: u32) -> bool {
    &&& ops.len() == 6
    &&& ops[0] is Acquire
    &&& ops[1] is BeginEncoder
    &&& is_white_clear(ops[2])
    &&& is_greeting(ops[3])
    &&& is_draw(ops[4], width, height)
    &&& ops[5] is Submit
}

/// The section that every frame queues: "hello" at (10, 10).
pub fn greeting() -> (r: TextSection)
    ensures
        r.text@ == greeting_text(),
        r.x == 10,
        r.y == 10,
{
    proof {
        reveal_strlit("hello");
    }
    TextSection { text: "hello", x: 10, y: 10 }
}

/// The operations of one frame over a `width` by `height` window.
pub fn frame_plan(width: u32, height: u32) -> (r: Vec<FrameOp>)
    ensures
        frame_plan_spec(r@, width, height),
{
    let section = greeting();
    let ops: Vec<FrameOp> = vec![
        FrameOp::Acquire,
        FrameOp::BeginEncoder,
        FrameOp::ClearPass { color: Rgba { r: 255, g: 255, b: 255, a: 255 } },
        FrameOp::QueueText { section },
        FrameOp::DrawQueued { width, height },
        FrameOp::Submit,
    ];
    ops
}

/// What becomes of a frame whose image acquisition `acquired` or not: a frame
/// without an image cannot be drawn, and the presentation chain is reported
/// stale.
pub fn check_acquired(acquired: bool) -> (r: Result<(), AppError>)
    ensures
        acquired ==> r == Ok::<(), AppError>(()),
        !acquired ==> r == Err::<(), AppError>(AppError::SurfaceStale),
{
    if acquired {
        Ok(())
    } else {
        Err(AppError::SurfaceStale)
    }
}

/// Every frame clears the whole image to white before any text is drawn:
/// the plan holds exactly one clear, it is white, and it comes before the
/// only draw.
pub proof fn lemma_clear_before_text(ops: Seq<FrameOp>, width: u32, height: u32)
    requires
        frame_plan_spec(ops, width, height),
    ensures
        forall|i: int| 0 <= i < ops.len() && (#[trigger] ops[i]) is ClearPass ==> i == 2 && is_white_clear(ops[i]),
        forall|i: int| 0 <= i < ops.len() && (#[trigger] ops[i]) is DrawQueued ==> i == 4,
{
}

/// Every frame queues one section, "hello" at (10, 10), whatever the size
/// of the window.
pub proof fn lemma_greeting_every_frame(ops: Seq<FrameOp>, width: u32, height: u32)
    requires
        frame_plan_spec(ops, width, height),
    ensures
        forall|i: int| 0 <= i < ops.len() && (#[trigger] ops[i]) is QueueText ==> i == 3 && is_greeting(ops[i]),
        is_greeting(ops[3]),
{
}

} // verus!
