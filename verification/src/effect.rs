//! What the caller has to do after the core has handled something.

use crate::project::{Project, ProjectView};
use crate::request::{GenRequest, GenRequestView};
use crate::turn::{PendingTurn, PendingTurnView};
use vstd::prelude::*;

verus! {

/// The work that the core leaves to its caller. The core decides; the caller talks to the
/// model, the tools, the user and the disk.
#[derive(PartialEq, Eq, Debug)]
pub enum Effect {
    /// Nothing is left to do.
    Idle,
    /// Send this request to the model, and do not wait for the answer.
    Dispatch(GenRequest),
    /// Ask the user for a folder, then report the choice with `folder_picked`.
    PickFolder,
    /// Write this project's record to storage.
    SaveProject(Project),
    /// Run the tool call that this turn is waiting for, in the active project, then report
    /// what came of it with `tool_finished`.
    RunTool(PendingTurn),
}

/// The mathematical value of an [`Effect`].
pub enum EffectView {
    Idle,
    Dispatch(GenRequestView),
    PickFolder,
    SaveProject(ProjectView),
    RunTool(PendingTurnView),
}

impl View for Effect {
    type V = EffectView;

    open spec fn view(&self) -> EffectView {
        match self {
            Effect::Idle => EffectView::Idle,
            Effect::Dispatch(request) => EffectView::Dispatch(request@),
            Effect::PickFolder => EffectView::PickFolder,
            Effect::SaveProject(project) => EffectView::SaveProject(project@),
            Effect::RunTool(turn) => EffectView::RunTool(turn@),
        }
    }
}

} // verus!
