use vstd::prelude::*;
use crate::config::ChainConfig;
use crate::frame::{frame_plan, frame_plan_spec, FrameOp};

verus! {

/// What the windowing system reports to the loop.
#[derive(Clone, Copy, Debug, PartialEq, Eq, Structural)]
pub enum LoopEvent {
    /// Every pending event of this iteration was delivered.
    MainEventsCleared,
    /// The window asks to be drawn.
    RedrawRequested,
    /// The user asks to close the window.
    CloseRequested,
    /// The window's drawable area changed to `width` by `height` pixels.
    Resized { width: u32, height: u32 },
    /// Anything else.
    Other,
}

/// What the loop does in answer to an event.
#[derive(Clone, Copy, Debug, PartialEq, Eq, Structural)]
pub enum LoopAction {
    Nothing,
    /// Ask the window for a redraw.
    RequestRedraw,
    /// Draw one frame now.
    RenderFrame,
    /// Leave the loop and end the program.
    Exit,
}

/// Whether the loop keeps polling or leaves.
#[derive(Clone, Copy, Debug, PartialEq, Eq, Structural)]
pub enum ControlFlow {
    /// Go on at once, without waiting for an event.
    Poll,
    /// Leave the loop.
    Exit,
}

/// The state of the event loop: whether the window is still open, and the
/// presentation chain that every frame is drawn into. The chain is set up
/// once at startup and kept as it is, resizes included.
#[derive(Clone, Copy, Debug, PartialEq, Eq, Structural)]
pub struct LoopState {
    pub open: bool,
    pub chain: ChainConfig,
}

/// Whether the window is open after `event`.
pub open spec fn open_after(open: bool, event: LoopEvent) -> bool {
    open && event != LoopEvent::CloseRequested
}

/// The answer of a loop whose window is `open` to `event`.
pub open spec fn action_for(open: bool, event: LoopEvent) -> LoopAction {
    if !open {
        LoopAction::Nothing
    } else {
        match event {
            LoopEvent::MainEventsCleared => LoopAction::RequestRedraw,
            LoopEvent::RedrawRequested => LoopAction::RenderFrame,
            LoopEvent::CloseRequested => LoopAction::Exit,
            _ => LoopAction::Nothing,
        }
    }
}

/// The state after the events `evs`, in order.
pub open spec fn state_after(s: LoopState, evs: Seq<LoopEvent>) -> LoopState
    decreases evs.len(),
{
    if evs.len() == 0 {
        s
    } else {
        let p = state_after(s, evs.drop_last());
        LoopState { open: open_after(p.open, evs.last()), chain: p.chain }
    }
}

impl LoopState {
    /// The loop of a window that was just opened, drawing into `chain`.
    pub fn new(chain: ChainConfig) -> (r: LoopState)
        ensures
            r.open,
            r.chain == chain,
    {
        LoopState { open: true, chain }
    }

    /// Answers `event`: a redraw is asked for once all events are delivered,
    /// a frame is drawn on each redraw, a close request ends the loop, and
    /// everything else, resizes included, is let pass. A closed loop does
    /// nothing more.
    pub fn handle(&mut self, event: LoopEvent) -> (r: LoopAction)
        ensures
            r == action_for(old(self).open, event),
            final(self).open == open_after(old(self).open, event),
            final(self).chain == old(self).chain,
    {
        if !self.open {
            return LoopAction::Nothing;
        }
        match event {
            LoopEvent::MainEventsCleared => LoopAction::RequestRedraw,
            LoopEvent::RedrawRequested => LoopAction::RenderFrame,
            LoopEvent::CloseRequested => {
                self.open = false;
                LoopAction::Exit
            },
            _ => LoopAction::Nothing,
        }
    }

    /// Polls without waiting while the window is open; leaves once it closed.
    pub fn control_flow(&self) -> (r: ControlFlow)
        ensures
            r == (if self.open { ControlFlow::Poll } else { ControlFlow::Exit }),
    {
        if self.open {
            ControlFlow::Poll
        } else {
            ControlFlow::Exit
        }
    }

    /// The operations of the next frame, drawn over the chain's size.
    pub fn frame(&self) -> (r: Vec<FrameOp>)
        ensures
            frame_plan_spec(r@, self.chain.width, self.chain.height),
    {
        frame_plan(self.chain.width, self.chain.height)
    }
}

/// The window stays open until a close request arrives: after any events, it
/// is open exactly when it was open before and none of them asked to close.
/// The presentation chain is never changed by events.
pub proof fn lemma_open_until_close(s: LoopState, evs: Seq<LoopEvent>)
    ensures
        state_after(s, evs).open <==> (s.open && !evs.contains(LoopEvent::CloseRequested)),
        state_after(s, evs).chain == s.chain,
    decreases evs.len(),
{
    if evs.len() > 0 {
        let p = evs.drop_last();
        lemma_open_until_close(s, p);
        if p.contains(LoopEvent::CloseRequested) {
            let i = choose|i: int| 0 <= i < p.len() && p[i] == LoopEvent::CloseRequested;
            assert(evs[i] == p[i]);
        }
        if evs.contains(LoopEvent::CloseRequested) {
            let i = choose|i: int| 0 <= i < evs.len() && evs[i] == LoopEvent::CloseRequested;
            if i < evs.len() - 1 {
                assert(p[i] == evs[i]);
            }
        } else {
            assert(evs[evs.len() - 1] == evs.last());
        }
    }
}

/// A resize leaves the loop as it was, so the redraw after it draws a frame
/// into the same chain: the loop does not stop on a resize.
pub proof fn lemma_resize_then_redraw(s: LoopState, width: u32, height: u32)
    requires
        s.open,
    ensures
        open_after(s.open, LoopEvent::Resized { width, height }),
        action_for(s.open, LoopEvent::Resized { width, height }) == LoopAction::Nothing,
        action_for(open_after(s.open, LoopEvent::Resized { width, height }), LoopEvent::RedrawRequested)
            == LoopAction::RenderFrame,
        state_after(s, seq![LoopEvent::Resized { width, height }]) == s,
{
    let evs = seq![LoopEvent::Resized { width, height }];
    assert(evs.drop_last() =~= Seq::<LoopEvent>::empty());
    assert(state_after(s, evs.drop_last()) == s);
    assert(evs.last() == LoopEvent::Resized { width, height });
}

} // verus!
