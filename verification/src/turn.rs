//! One turn of the assistant: what happens between the arrival of the model's answer and the
//! end of the exchange or the next request.
//!
//! The core cannot run tools, so a turn is handled in steps. `handle_result` takes the
//! answer and stops at the first tool call that runs without approval; the caller runs it and
//! reports with `tool_finished`, which stops at the next such call; the step that finds none
//! left concludes the turn.

use crate::effect::{Effect, EffectView};
use crate::message::{AssistantMsgView, Message, MessageView, ToolCall, ToolCallView, ToolResponse,
    ToolResponseView};
use crate::project::{Project, ProjectView};
use crate::request::{build_request, request_for, GenResponse, GenResponseView, GenResult,
    GenResultView};
use crate::state::{App, AppView};
use crate::tools::{ToolGate, ToolKind};
use vstd::prelude::*;

verus! {

/// The tool calls of an answer once the policy has been consulted for each: a call waits for
/// permission exactly if the policy gates its kind.
pub open spec fn resolve_calls(calls: Seq<ToolCallView>, gate: Set<ToolKind>) -> Seq<
    ToolCallView,
> {
    Seq::new(
        calls.len(),
        |i: int| ToolCallView { waiting_permission: gate.contains(calls[i].kind), ..calls[i] },
    )
}

/// An answer once the policy has been consulted for each of its tool calls.
pub open spec fn resolve_response(response: GenResponseView, gate: Set<ToolKind>)
    -> GenResponseView {
    GenResponseView {
        msg: AssistantMsgView {
            tool_calls: resolve_calls(response.msg.tool_calls, gate),
            ..response.msg
        },
        ..response
    }
}

/// The position of the first call at or after `from` that does not wait for permission, or
/// the number of calls where there is none.
pub open spec fn next_runnable(calls: Seq<ToolCallView>, from: nat) -> nat
    decreases calls.len() - from,
{
    if from >= calls.len() {
        calls.len()
    } else if !calls[from as int].waiting_permission {
        from
    } else {
        next_runnable(calls, from + 1)
    }
}

/// The mathematical value of a [`PendingTurn`]: the answer, with the policy's decisions in its
/// tool calls, and the position of the call that is being run.
pub struct PendingTurnView {
    pub response: GenResponseView,
    pub cursor: nat,
}

impl PendingTurnView {
    /// The call that is being run.
    pub open spec fn call(self) -> ToolCallView {
        self.response.msg.tool_calls[self.cursor as int]
    }

    /// The cursor is on a call, and that call does not wait for permission.
    pub open spec fn well_formed(self) -> bool {
        &&& self.cursor < self.response.msg.tool_calls.len()
        &&& !self.call().waiting_permission
    }
}

/// A turn that has stopped at a tool call which the caller has to run.
#[derive(PartialEq, Eq, Debug)]
pub struct PendingTurn {
    response: GenResponse,
    cursor: usize,
}

impl View for PendingTurn {
    type V = PendingTurnView;

    closed spec fn view(&self) -> PendingTurnView {
        PendingTurnView { response: self.response@, cursor: self.cursor as nat }
    }
}

impl PendingTurn {
    #[verifier::type_invariant]
    spec fn inv(&self) -> bool {
        self@.well_formed()
    }

    /// The call that the caller has to run.
    pub fn call(&self) -> (call: &ToolCall)
        ensures
            call@ == self@.call(),
    {
        proof {
            use_type_invariant(self);
        }
        &self.response.msg.tool_calls[self.cursor]
    }

    /// The answer that this turn handles.
    pub fn response(&self) -> (response: &GenResponse)
        ensures
            response@ == self@.response,
    {
        &self.response
    }
}

impl ProjectView {
    /// The project's totals can take what `response` adds without leaving 64 bits.
    pub open spec fn has_room_for(self, response: GenResponseView) -> bool {
        &&& self.input_token_count + response.prompt_tokens <= u64::MAX
        &&& self.output_token_count + response.completion_tokens <= u64::MAX
        &&& self.input_token_cost + response.prompt_cost <= u64::MAX
        &&& self.output_token_cost + response.completion_cost <= u64::MAX
    }

    /// This project after `message` was added to its history.
    pub open spec fn with_message(self, message: MessageView) -> ProjectView {
        ProjectView { history: self.history.push(message), ..self }
    }

    /// This project after a turn was concluded with `response`: the assistant's message is
    /// the newest entry of the history, the totals have grown by what the answer used up,
    /// and the project has an unsaved change.
    pub open spec fn with_answer(self, response: GenResponseView) -> ProjectView {
        ProjectView {
            history: self.history.push(MessageView::Assistant(response.msg)),
            input_token_count: self.input_token_count + response.prompt_tokens,
            output_token_count: self.output_token_count + response.completion_tokens,
            input_token_cost: self.input_token_cost + response.prompt_cost,
            output_token_cost: self.output_token_cost + response.completion_cost,
            modified: true,
            ..self
        }
    }
}

/// Whether the conversation goes on by itself after an answer with `calls` tool calls, when
/// `turns` automatic continuations have been made in this exchange and `max` are allowed.
pub open spec fn continues(calls: nat, turns: nat, max: nat) -> bool {
    calls > 0 && turns < max
}

impl AppView {
    /// The active project's totals, if a project is active, can take what `response` adds.
    pub open spec fn has_room_for(self, response: GenResponseView) -> bool {
        self.state.active() matches Some(index) ==> self.state.projects[index].has_room_for(
            response,
        )
    }

    /// The application after `message` was added to the history of the project at `index`.
    pub open spec fn with_message(self, index: int, message: MessageView) -> AppView {
        self.with_state(
            self.state.with_project(index, self.state.projects[index].with_message(message)),
        )
    }

    /// The end of a turn in the project at `index`. The answer is recorded in the project.
    /// Where [`continues`] holds, one more automatic continuation is counted and the request
    /// that continues the conversation, built after the answer was recorded, is to be sent.
    /// Otherwise the exchange is over.
    pub open spec fn conclude(self, index: int, response: GenResponseView) -> (
        AppView,
        EffectView,
    ) {
        let project = self.state.projects[index].with_answer(response);
        let state = self.state.with_project(index, project);
        if continues(
            response.msg.tool_calls.len(),
            state.conversation_turns,
            state.max_conversation_turns,
        ) {
            (
                self.with_state(
                    crate::state::StateView {
                        conversation_turns: state.conversation_turns + 1,
                        ..state
                    },
                ),
                EffectView::Dispatch(request_for(project, state.max_context_size)),
            )
        } else {
            (self.with_state(state), EffectView::Idle)
        }
    }

    /// A turn in the project at `index` goes on from the call at `from`: it stops at the
    /// next call that does not wait for permission, and concludes where there is none.
    pub open spec fn proceed(self, index: int, response: GenResponseView, from: nat) -> (
        AppView,
        EffectView,
    ) {
        let next = next_runnable(response.msg.tool_calls, from);
        if next < response.msg.tool_calls.len() {
            (self, EffectView::RunTool(PendingTurnView { response, cursor: next }))
        } else {
            self.conclude(index, response)
        }
    }

    /// What handling a generation result does. A failure changes nothing, and so does an
    /// answer that arrives while no project is active. Otherwise the policy is consulted for
    /// every tool call of the answer, and the turn starts with the first call.
    pub open spec fn handle_result(self, result: GenResultView) -> (AppView, EffectView) {
        match result {
            GenResultView::Error(_) => (self, EffectView::Idle),
            GenResultView::Response(response) => match self.state.active() {
                Some(index) => self.proceed(index, resolve_response(response, self.gate), 0),
                None => (self, EffectView::Idle),
            },
        }
    }

    /// What the end of a tool call does. The tool's text, whether output or error, is added
    /// to the active project's history as the response to the call that the turn was waiting
    /// for, and the turn goes on with the call after it. Where no project is active, nothing
    /// changes.
    pub open spec fn tool_finished(self, turn: PendingTurnView, content: Seq<char>) -> (
        AppView,
        EffectView,
    ) {
        match self.state.active() {
            Some(index) => {
                let response = MessageView::ToolResponse(
                    ToolResponseView { id: turn.call().id, content },
                );
                self.with_message(index, response).proceed(index, turn.response, turn.cursor + 1)
            },
            None => (self, EffectView::Idle),
        }
    }
}

/// The calls that run without approval, in the order of the answer.
pub open spec fn runnable_calls(calls: Seq<ToolCallView>) -> Seq<ToolCallView> {
    calls.filter(|call: ToolCallView| !call.waiting_permission)
}

/// The responses that `calls` leave in the history when the call at each position ends with
/// the text at the same position of `outcomes`.
pub open spec fn tool_responses(calls: Seq<ToolCallView>, outcomes: Seq<Seq<char>>) -> Seq<
    MessageView,
> {
    Seq::new(
        calls.len(),
        |i: int|
            MessageView::ToolResponse(ToolResponseView { id: calls[i].id, content: outcomes[i] }),
    )
}

impl AppView {
    /// Where a step has left the application once the caller has run the tools that it was
    /// asked to run, one after the other, the first ending with the first text of
    /// `outcomes`, and so on for as long as there are tools to run and texts to report.
    pub open spec fn run_tools(self, effect: EffectView, outcomes: Seq<Seq<char>>) -> (
        AppView,
        EffectView,
    )
        decreases outcomes.len(),
    {
        match effect {
            EffectView::RunTool(turn) => if outcomes.len() > 0 {
                let (app, next) = self.tool_finished(turn, outcomes.first());
                app.run_tools(next, outcomes.drop_first())
            } else {
                (self, effect)
            },
            _ => (self, effect),
        }
    }

    /// A whole turn in the project at `index`, said at once: the responses of the calls that
    /// run without approval are added to the history in the order of the calls, and the turn
    /// is concluded with the answer in which every call bears the policy's decision.
    pub open spec fn whole_turn(
        self,
        index: int,
        response: GenResponseView,
        outcomes: Seq<Seq<char>>,
    ) -> (AppView, EffectView) {
        let resolved = resolve_response(response, self.gate);
        let project = self.state.projects[index];
        let responses = tool_responses(runnable_calls(resolved.msg.tool_calls), outcomes);
        let project = ProjectView { history: project.history + responses, ..project };
        self.with_state(self.state.with_project(index, project)).conclude(index, resolved)
    }
}

/// The text that a tool call left behind: its output, or its error as it was reported.
pub open spec fn outcome_text(outcome: Result<String, String>) -> Seq<char> {
    match outcome {
        Ok(output) => output@,
        Err(error) => error@,
    }
}

impl Project {
    /// Whether the project's totals can take what `response` adds.
    pub fn has_room_for(&self, response: &GenResponse) -> (room: bool)
        ensures
            room == self@.has_room_for(response@),
    {
        response.prompt_tokens <= u64::MAX - self.input_token_count && response.completion_tokens
            <= u64::MAX - self.output_token_count && response.prompt_cost <= u64::MAX
            - self.input_token_cost && response.completion_cost <= u64::MAX
            - self.output_token_cost
    }

    /// Records an answer in the project.
    fn record_answer(&mut self, response: GenResponse)
        requires
            old(self)@.has_room_for(response@),
        ensures
            final(self)@ == old(self)@.with_answer(response@),
    {
        self.input_token_count = self.input_token_count + response.prompt_tokens;
        self.output_token_count = self.output_token_count + response.completion_tokens;
        self.input_token_cost = self.input_token_cost + response.prompt_cost;
        self.output_token_cost = self.output_token_cost + response.completion_cost;
        self.history.add_message(Message::Assistant(response.msg));
        self.modified = true;
    }
}

/// Consults the policy for every call and sets its flag.
fn resolve(calls: &mut Vec<ToolCall>, gate: &ToolGate)
    ensures
        final(calls).deep_view() == resolve_calls(old(calls).deep_view(), gate@),
{
    let mut i: usize = 0;
    while i < calls.len()
        invariant
            i <= calls.len(),
            calls.len() == old(calls).len(),
            forall|j: int|
                0 <= j < i ==> calls[j]@ == resolve_calls(old(calls).deep_view(), gate@)[j],
            forall|j: int| i <= j < calls.len() ==> calls[j]@ == old(calls)[j]@,
        decreases calls.len() - i,
    {
        let gated = gate.requires_approval(calls[i].kind);
        calls[i].waiting_permission = gated;
        i += 1;
    }
}

impl App {
    /// Whether the active project's totals, if a project is active, can take what
    /// `response` adds.
    pub fn has_room_for(&self, response: &GenResponse) -> (room: bool)
        ensures
            room == self@.has_room_for(response@),
    {
        match self.state.active_index() {
            Some(index) => self.state.projects[index].has_room_for(response),
            None => true,
        }
    }

    /// Concludes a turn in the project at `index`.
    fn conclude(&mut self, index: usize, response: GenResponse) -> (effect: Effect)
        requires
            old(self)@.state.active() == Some(index as int),
            old(self)@.has_room_for(response@),
        ensures
            (final(self)@, effect@) == old(self)@.conclude(index as int, response@),
    {
        let has_calls = response.msg.tool_calls.len() > 0;
        self.state.projects[index].record_answer(response);
        if has_calls && self.state.conversation_turns < self.state.max_conversation_turns {
            let request = build_request(&self.state.projects[index], self.state.max_context_size);
            self.state.conversation_turns = self.state.conversation_turns + 1;
            Effect::Dispatch(request)
        } else {
            Effect::Idle
        }
    }

    /// Goes on with a turn in the project at `index` from the call at `from`.
    fn proceed(&mut self, index: usize, response: GenResponse, from: usize) -> (effect: Effect)
        requires
            old(self)@.state.active() == Some(index as int),
            old(self)@.has_room_for(response@),
            from <= response.msg.tool_calls.len(),
        ensures
            (final(self)@, effect@) == old(self)@.proceed(index as int, response@, from as nat),
    {
        let mut i: usize = from;
        while i < response.msg.tool_calls.len()
            invariant
                from <= i <= response.msg.tool_calls.len(),
                next_runnable(response@.msg.tool_calls, from as nat) == next_runnable(
                    response@.msg.tool_calls,
                    i as nat,
                ),
            decreases response.msg.tool_calls.len() - i,
        {
            if !response.msg.tool_calls[i].waiting_permission {
                return Effect::RunTool(PendingTurn { response, cursor: i });
            }
            i += 1;
        }
        self.conclude(index, response)
    }

    /// Handles what a generation came to.
    ///
    /// A failure is left to the caller to report and changes nothing. An answer starts a
    /// turn in the active project, as [`AppView::handle_result`] says, and the effect tells
    /// the caller how the turn goes on.
    pub fn handle_result(&mut self, result: GenResult) -> (effect: Effect)
        requires
            result@ matches GenResultView::Response(response) ==> old(self)@.has_room_for(response),
        ensures
            (final(self)@, effect@) == old(self)@.handle_result(result@),
            !(effect is PickFolder || effect is SaveProject),
    {
        match result {
            GenResult::Error(_) => Effect::Idle,
            GenResult::Response(mut response) => {
                match self.state.active_index() {
                    Some(index) => {
                        resolve(&mut response.msg.tool_calls, &self.gate);
                        self.proceed(index, response, 0)
                    },
                    None => Effect::Idle,
                }
            },
        }
    }

    /// Takes what a tool call came to and goes on with the turn that was waiting for it, as
    /// [`AppView::tool_finished`] says.
    pub fn tool_finished(&mut self, turn: PendingTurn, outcome: Result<String, String>) -> (effect:
        Effect)
        requires
            old(self)@.has_room_for(turn@.response),
        ensures
            (final(self)@, effect@) == old(self)@.tool_finished(turn@, outcome_text(outcome)),
            !(effect is PickFolder || effect is SaveProject),
    {
        proof {
            use_type_invariant(&turn);
        }
        assert(turn.cursor < turn.response.msg.tool_calls.len());
        match self.state.active_index() {
            Some(index) => {
                let content = match outcome {
                    Ok(output) => output,
                    Err(error) => error,
                };
                let id = turn.response.msg.tool_calls[turn.cursor].id.clone();
                let message = Message::ToolResponse(ToolResponse { id, content });
                self.state.projects[index].history.add_message(message);
                let from = turn.cursor + 1;
                self.proceed(index, turn.response, from)
            },
            None => Effect::Idle,
        }
    }
}

} // verus!
