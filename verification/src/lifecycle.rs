//! What one frame request from the page does, given how far the engine's
//! plugins have come.
use vstd::prelude::*;

verus! {

/// How far the engine's plugins have come.
#[derive(Clone, Copy, Debug, PartialEq, Eq, Structural)]
pub enum PluginsStage {
    /// Plugins are still being added.
    Adding,
    /// All plugins are ready to be finished.
    Ready,
    /// Plugins have been finished but not cleaned up.
    Finished,
    /// Plugins are finished and cleaned up: the app can run frames.
    Cleaned,
}

/// The work one frame request does.
#[derive(Clone, Copy, Debug, PartialEq, Eq, Structural)]
pub enum UpdateStep {
    /// Nothing yet.
    Wait,
    /// Finish the plugins, then clean them up.
    FinishAndCleanup,
    /// Clean the plugins up.
    Cleanup,
    /// Run one frame of the app.
    RunFrame,
}

/// The step for a frame request: ready plugins are finished and cleaned up,
/// finished ones cleaned up, and only a cleaned-up app runs a frame; while
/// plugins are being added nothing happens.
pub fn update_step(stage: PluginsStage) -> (step: UpdateStep)
    ensures
        step == (match stage {
            PluginsStage::Adding => UpdateStep::Wait,
            PluginsStage::Ready => UpdateStep::FinishAndCleanup,
            PluginsStage::Finished => UpdateStep::Cleanup,
            PluginsStage::Cleaned => UpdateStep::RunFrame,
        }),
{
    match stage {
        PluginsStage::Ready => UpdateStep::FinishAndCleanup,
        PluginsStage::Finished => UpdateStep::Cleanup,
        PluginsStage::Cleaned => UpdateStep::RunFrame,
        PluginsStage::Adding => UpdateStep::Wait,
    }
}

} // verus!
