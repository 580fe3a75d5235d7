use vstd::prelude::*;
use crate::error::AppError;

verus! {

/// The steps of startup, in the order they run; `Running` hands control to the
/// event loop and `Failed` ends the program.
#[derive(Clone, Copy, Debug, PartialEq, Eq, Structural)]
pub enum StartupStage {
    /// Read the whole font file into memory.
    ReadFont,
    /// Turn the font bytes into a text rasterizer builder.
    ParseFont,
    /// Create the one window of the program.
    CreateWindow,
    /// Find a high-performance adapter that can present to the window.
    FindAdapter,
    /// Open a logical device and its command queue on the adapter.
    RequestDevice,
    /// Configure the presentation chain for the window.
    ConfigureChain,
    /// Bind the text rasterizer to the device and the chain's format.
    BuildRasterizer,
    /// Startup is over: the event loop runs.
    Running,
    /// Startup stopped on this error.
    Failed(AppError),
}

/// The stage at position `n` of a startup in which nothing fails.
pub open spec fn stage_at(n: nat) -> StartupStage {
    if n == 0 {
        StartupStage::ReadFont
    } else if n == 1 {
        StartupStage::ParseFont
    } else if n == 2 {
        StartupStage::CreateWindow
    } else if n == 3 {
        StartupStage::FindAdapter
    } else if n == 4 {
        StartupStage::RequestDevice
    } else if n == 5 {
        StartupStage::ConfigureChain
    } else if n == 6 {
        StartupStage::BuildRasterizer
    } else {
        StartupStage::Running
    }
}

/// The number of stages before the loop runs, each of which may fail
/// (`ReadFont` to `FindAdapter`).
pub const FALLIBLE_STAGES: usize = 4;

/// The error that ends startup when the work of `stage` fails, if that work can fail.
pub open spec fn failure_of(stage: StartupStage) -> Option<AppError> {
    match stage {
        StartupStage::ReadFont => Some(AppError::FontMissing),
        StartupStage::ParseFont => Some(AppError::FontInvalid),
        StartupStage::CreateWindow => Some(AppError::WindowUnavailable),
        StartupStage::FindAdapter => Some(AppError::NoAdapter),
        _ => None,
    }
}

/// The stage that follows `stage` when its work succeeded.
pub open spec fn successor(stage: StartupStage) -> StartupStage {
    match stage {
        StartupStage::ReadFont => StartupStage::ParseFont,
        StartupStage::ParseFont => StartupStage::CreateWindow,
        StartupStage::CreateWindow => StartupStage::FindAdapter,
        StartupStage::FindAdapter => StartupStage::RequestDevice,
        StartupStage::RequestDevice => StartupStage::ConfigureChain,
        StartupStage::ConfigureChain => StartupStage::BuildRasterizer,
        StartupStage::BuildRasterizer => StartupStage::Running,
        StartupStage::Running => StartupStage::Running,
        StartupStage::Failed(e) => StartupStage::Failed(e),
    }
}

/// One startup transition: the work of `stage` ran and succeeded when `ok`.
/// A failure is fatal where the work can fail; the outcome of work that
/// cannot fail is not consulted. `Running` and `Failed` are final.
pub open spec fn step(stage: StartupStage, ok: bool) -> StartupStage {
    match failure_of(stage) {
        Some(e) => if ok { successor(stage) } else { StartupStage::Failed(e) },
        None => successor(stage),
    }
}

/// The stage reached from the first one after the outcomes `outs`, in order.
pub open spec fn stage_after(outs: Seq<bool>) -> StartupStage
    decreases outs.len(),
{
    if outs.len() == 0 {
        StartupStage::ReadFont
    } else {
        step(stage_after(outs.drop_last()), outs.last())
    }
}

/// Whether every fallible stage among the first `n` succeeded in `outs`.
pub open spec fn fallible_ok(outs: Seq<bool>, n: int) -> bool {
    forall|j: int| 0 <= j < n && j < outs.len() && j < FALLIBLE_STAGES ==> #[trigger] outs[j]
}

/// Where the outcomes `outs` lead: to the stage at their position while every
/// fallible stage succeeded, and to a failure once one did not.
pub proof fn lemma_stage_after(outs: Seq<bool>)
    ensures
        fallible_ok(outs, outs.len() as int) ==> stage_after(outs) == stage_at(outs.len()),
        !fallible_ok(outs, outs.len() as int) ==> stage_after(outs) is Failed,
    decreases outs.len(),
{
    if outs.len() > 0 {
        let p = outs.drop_last();
        lemma_stage_after(p);
        let n = outs.len() as int;
        if fallible_ok(outs, n) {
            assert(fallible_ok(p, n - 1)) by {
                assert forall|j: int| 0 <= j < n - 1 && j < p.len() && j < FALLIBLE_STAGES implies #[trigger] p[j] by {
                    assert(p[j] == outs[j]);
                }
            }
            if n - 1 < FALLIBLE_STAGES {
                assert(outs[n - 1]);
            }
        } else if fallible_ok(p, n - 1) {
            let j = choose|j: int| !(0 <= j < n && j < outs.len() && j < FALLIBLE_STAGES ==> #[trigger] outs[j]);
            if j < n - 1 {
                assert(p[j] == outs[j]);
            }
        }
    }
}

/// The outcomes `outs` with every fallible stage among the first `k` succeeding.
proof fn lemma_take_fallible(outs: Seq<bool>, k: int)
    requires
        0 <= k <= outs.len(),
    ensures
        fallible_ok(outs.take(k), k) == fallible_ok(outs, k),
{
    let t = outs.take(k);
    if fallible_ok(outs, k) {
        assert forall|j: int| 0 <= j < k && j < t.len() && j < FALLIBLE_STAGES implies #[trigger] t[j] by {
            assert(t[j] == outs[j]);
        }
    }
    if fallible_ok(t, k) {
        assert forall|j: int| 0 <= j < k && j < outs.len() && j < FALLIBLE_STAGES implies #[trigger] outs[j] by {
            assert(t[j] == outs[j]);
        }
    }
}

/// The window is created at one point of startup only: after exactly two
/// steps, the font having been read and parsed. Whatever the outcomes, no other
/// prefix of them leads to window creation, so at most one window is made, and
/// none when the font is missing or invalid.
pub proof fn lemma_one_window(outs: Seq<bool>, k: int)
    requires
        0 <= k <= outs.len(),
    ensures
        stage_after(outs.take(k)) == StartupStage::CreateWindow <==> (k == 2 && outs[0] && outs[1]),
{
    lemma_stage_after(outs.take(k));
    lemma_take_fallible(outs, k);
    if k == 2 && outs[0] && outs[1] {
        assert(fallible_ok(outs, k));
    }
    if fallible_ok(outs, k) && k == 2 {
        assert(outs[0] && outs[1]);
    }
}

/// A font that cannot be read ends startup with `FontMissing` before any window
/// is created.
pub proof fn lemma_missing_font_no_window(outs: Seq<bool>)
    requires
        outs.len() > 0,
        !outs[0],
    ensures
        forall|k: int| 0 <= k <= outs.len() ==> stage_after(#[trigger] outs.take(k)) != StartupStage::CreateWindow,
        stage_after(outs) == StartupStage::Failed(AppError::FontMissing),
    decreases outs.len(),
{
    assert forall|k: int| 0 <= k <= outs.len() implies stage_after(#[trigger] outs.take(k)) != StartupStage::CreateWindow by {
        lemma_one_window(outs, k);
    }
    if outs.len() == 1 {
        assert(outs.drop_last() =~= Seq::<bool>::empty());
    } else {
        let p = outs.drop_last();
        lemma_missing_font_no_window(p);
    }
}

/// Without an adapter the event loop never starts: a failed adapter search
/// ends startup with `NoAdapter`, once the font and the window were had.
pub proof fn lemma_no_adapter_no_loop(outs: Seq<bool>)
    requires
        outs.len() > 3,
        !outs[3],
    ensures
        forall|k: int| 0 <= k <= outs.len() ==> stage_after(#[trigger] outs.take(k)) != StartupStage::Running,
        (outs[0] && outs[1] && outs[2]) ==> stage_after(outs) == StartupStage::Failed(AppError::NoAdapter),
    decreases outs.len(),
{
    assert forall|k: int| 0 <= k <= outs.len() implies stage_after(#[trigger] outs.take(k)) != StartupStage::Running by {
        lemma_stage_after(outs.take(k));
        lemma_take_fallible(outs, k);
        if k > 3 {
            assert(!fallible_ok(outs, k));
        }
    }
    if outs.len() == 4 {
        let p = outs.drop_last();
        lemma_stage_after(p);
        if outs[0] && outs[1] && outs[2] {
            assert(fallible_ok(p, 3)) by {
                assert forall|j: int| 0 <= j < 3 && j < p.len() && j < FALLIBLE_STAGES implies #[trigger] p[j] by {
                    assert(p[j] == outs[j]);
                }
            }
        }
    } else {
        let p = outs.drop_last();
        lemma_no_adapter_no_loop(p);
        assert(p[3] == outs[3]);
        assert(p[0] == outs[0] && p[1] == outs[1] && p[2] == outs[2]);
    }
}

/// A startup in which every step succeeds reaches the event loop after seven steps.
pub proof fn lemma_startup_succeeds(outs: Seq<bool>)
    requires
        outs.len() == 7,
        forall|j: int| 0 <= j < 7 ==> #[trigger] outs[j],
    ensures
        stage_after(outs) == StartupStage::Running,
{
    lemma_stage_after(outs);
}

/// The stage at which startup begins.
pub fn first_stage() -> (r: StartupStage)
    ensures
        r == stage_after(Seq::empty()),
        r == StartupStage::ReadFont,
{
    StartupStage::ReadFont
}

/// The stage that follows `stage` once its work has run, `ok` telling whether
/// it succeeded.
pub fn next_stage(stage: StartupStage, ok: bool) -> (r: StartupStage)
    ensures
        r == step(stage, ok),
{
    match stage {
        StartupStage::ReadFont => if ok { StartupStage::ParseFont } else { StartupStage::Failed(AppError::FontMissing) },
        StartupStage::ParseFont => if ok { StartupStage::CreateWindow } else { StartupStage::Failed(AppError::FontInvalid) },
        StartupStage::CreateWindow => if ok { StartupStage::FindAdapter } else { StartupStage::Failed(AppError::WindowUnavailable) },
        StartupStage::FindAdapter => if ok { StartupStage::RequestDevice } else { StartupStage::Failed(AppError::NoAdapter) },
        StartupStage::RequestDevice => StartupStage::ConfigureChain,
        StartupStage::ConfigureChain => StartupStage::BuildRasterizer,
        StartupStage::BuildRasterizer => StartupStage::Running,
        StartupStage::Running => StartupStage::Running,
        StartupStage::Failed(e) => StartupStage::Failed(e),
    }
}

} // verus!
