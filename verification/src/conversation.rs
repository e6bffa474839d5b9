//! Sending a message and continuing the conversation.

use crate::effect::{Effect, EffectView};
use crate::message::{Message, MessageView};
use crate::project::ProjectView;
use crate::request::{build_request, request_for, GenRequest, GenRequestView};
use crate::state::{App, AppView, StateView};
use vstd::prelude::*;

verus! {

impl AppView {
    /// The request that continues the conversation of the active project, or nothing where
    /// no project is active.
    pub open spec fn continue_conversation(self) -> Option<GenRequestView> {
        match self.state.active() {
            Some(index) => Some(
                request_for(self.state.projects[index], self.state.max_context_size),
            ),
            None => None,
        }
    }

    /// What sending the draft does. The count of automatic continuations starts again at
    /// zero, whatever it was. Where a project is active, a draft that is not empty becomes a
    /// user message at the end of the project's history, which gives the project an unsaved
    /// change and empties the draft; with or without a new message, the request that
    /// continues the conversation is to be sent. Where no project is active, nothing else
    /// changes and nothing is sent.
    pub open spec fn send_message(self) -> (AppView, EffectView) {
        let reset = StateView { conversation_turns: 0, ..self.state };
        match self.state.active() {
            Some(index) => {
                let project = self.state.projects[index];
                let project = if reset.current_msg.len() > 0 {
                    ProjectView {
                        modified: true,
                        ..project.with_message(MessageView::User(reset.current_msg))
                    }
                } else {
                    project
                };
                let state = StateView {
                    current_msg: Seq::empty(),
                    ..reset.with_project(index, project)
                };
                (
                    self.with_state(state),
                    EffectView::Dispatch(request_for(project, state.max_context_size)),
                )
            },
            None => (self.with_state(reset), EffectView::Idle),
        }
    }
}

impl App {
    /// Builds the request that continues the conversation of the active project. Nothing is
    /// built where no project is active. The caller sends the request and does not wait.
    pub fn continue_conversation(&self) -> (request: Option<GenRequest>)
        ensures
            request.deep_view() == self@.continue_conversation(),
    {
        match self.state.active_index() {
            Some(index) => Some(
                build_request(&self.state.projects[index], self.state.max_context_size),
            ),
            None => None,
        }
    }

    /// Sends the draft, as [`AppView::send_message`] says.
    pub fn send_message(&mut self) -> (effect: Effect)
        ensures
            (final(self)@, effect@) == old(self)@.send_message(),
            final(self)@.state.conversation_turns == 0,
            effect is Idle || effect is Dispatch,
    {
        self.state.conversation_turns = 0;
        match self.state.active_index() {
            Some(index) => {
                if !self.state.current_msg.as_str().is_empty() {
                    let text = self.state.current_msg.clone();
                    self.state.projects[index].history.add_message(Message::User(text));
                    self.state.projects[index].modified = true;
                    self.state.current_msg = String::new();
                }
                let request = build_request(
                    &self.state.projects[index],
                    self.state.max_context_size,
                );
                Effect::Dispatch(request)
            },
            None => Effect::Idle,
        }
    }
}

} // verus!
