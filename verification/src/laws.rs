//! What holds of the core whatever it is given: laws that relate its functions to each other.

use crate::effect::EffectView;
use crate::event::{UiEventView, DELETE_FORBIDDEN_FILE_BUTTON, INSTRUCTIONS_TEXT_INPUT,
    MAX_CONTEXT_SIZE, MAX_CONVERSATION_TURNS, MESSAGE_INPUT, MODEL_SELECT,
    NEW_FORBIDDEN_FILE_BUTTON, NEW_FORBIDDEN_FILE_NAME, NEW_PROJECT_BUTTON, PROJECT_NAME_INPUT,
    SAVE_PROJECT_BUTTON, SELECT_PROJECT_FOLDER, SELECT_PROJECT_LINK, SEND_MESSAGE_BUTTON,
    TOOL_CHECKBOX};
use crate::event_loop::{InputView, Source};
use crate::message::{MessageView, ToolCallView, ToolResponseView};
use crate::numeric::parsed_u32;
use crate::project::ProjectView;
use crate::request::{request_for, request_messages, window_of, GenResponseView, GenResultView};
use crate::state::AppView;
use crate::tools::{tool_catalog, ToolGate, ToolKind};
use crate::turn::{continues, next_runnable, resolve_calls, resolve_response, runnable_calls,
    tool_responses, PendingTurnView};
use vstd::prelude::*;

verus! {

/// The context window over a history of `n` entries holds the smaller of `n` and the limit.
/// Its entries are the newest entries of the history, each taken once and in the order of
/// the history: the entry at position `i` of the window is the entry at position
/// `n - len + i` of the history, so that the oldest entry of the window comes first and the
/// newest entry of the history comes last.
pub proof fn law_context_window(history: Seq<MessageView>, limit: nat)
    ensures
        window_of(history, limit).len() == if history.len() <= limit {
            history.len()
        } else {
            limit
        },
        forall|i: int|
            0 <= i < window_of(history, limit).len() ==> window_of(history, limit)[i]
                == history[history.len() - window_of(history, limit).len() + i],
{
}

/// A request ends with the context window, and the system preamble is its first message
/// even where the history is empty.
pub proof fn law_request_carries_preamble_and_window(project: ProjectView, limit: nat)
    ensures
        request_messages(project, limit).len() >= 1,
        request_messages(project, limit)[0] is System,
        window_of(project.history, limit).is_suffix_of(request_messages(project, limit)),
        project.history.len() == 0 && project.instructions.len() == 0 ==> request_messages(
            project,
            limit,
        ).len() == 1,
{
}

/// Every tool kind occurs in the catalog, and none occurs twice.
pub proof fn law_catalog_lists_each_kind_once()
    ensures
        tool_catalog().no_duplicates(),
        forall|kind: ToolKind| tool_catalog().contains(kind),
{
    let catalog = tool_catalog();
    assert forall|kind: ToolKind| catalog.contains(kind) by {
        match kind {
            ToolKind::ExecuteBashCmd => assert(catalog[0] == kind),
            ToolKind::ReadFile => assert(catalog[1] == kind),
            ToolKind::WriteFile => assert(catalog[2] == kind),
            ToolKind::ListFiles => assert(catalog[3] == kind),
        }
    }
}

/// What is left of a sequence without duplicates when some of its entries are taken out
/// has no duplicates either.
proof fn lemma_filter_keeps_entries_apart<A>(entries: Seq<A>, keep: spec_fn(A) -> bool)
    requires
        entries.no_duplicates(),
    ensures
        entries.filter(keep).no_duplicates(),
    decreases entries.len(),
{
    reveal(Seq::filter);
    if entries.len() > 0 {
        let rest = entries.drop_last();
        lemma_filter_keeps_entries_apart(rest, keep);
        if keep(entries.last()) {
            if rest.filter(keep).contains(entries.last()) {
                rest.lemma_filter_contains_rev(keep, entries.last());
            }
        }
    }
}

/// The tools that a request offers are exactly the tools that the project has activated,
/// and none is offered twice.
pub proof fn law_request_offers_the_activated_tools(project: ProjectView, limit: nat)
    ensures
        request_for(project, limit).tools.no_duplicates(),
        forall|kind: ToolKind|
            request_for(project, limit).tools.contains(kind) <==> project.activated_tools.contains(
                kind,
            ),
{
    let activated = |kind: ToolKind| project.activated_tools.contains(kind);
    let offered = tool_catalog().filter(activated);
    law_catalog_lists_each_kind_once();
    lemma_filter_keeps_entries_apart(tool_catalog(), activated);
    assert forall|kind: ToolKind| offered.contains(kind) <==> project.activated_tools.contains(
        kind,
    ) by {
        if offered.contains(kind) {
            let j = choose|j: int| 0 <= j < offered.len() && offered[j] == kind;
            tool_catalog().lemma_filter_pred(activated, j);
        }
        if project.activated_tools.contains(kind) {
            let j = choose|j: int| 0 <= j < tool_catalog().len() && tool_catalog()[j] == kind;
            tool_catalog().lemma_filter_contains(activated, j);
        }
    }
}

/// Sending always starts the count of automatic continuations again at zero, whatever it
/// was, and whether or not a project is active.
pub proof fn law_send_resets_turns(app: AppView)
    ensures
        app.send_message().0.state.conversation_turns == 0,
{
}

/// The calls from `from` on that run without approval are none where no such call is
/// left, and otherwise the next such call followed by those after it.
proof fn lemma_runnable_from(calls: Seq<ToolCallView>, from: nat)
    requires
        from <= calls.len(),
    ensures
        next_runnable(calls, from) <= calls.len(),
        from <= next_runnable(calls, from),
        next_runnable(calls, from) == calls.len() ==> runnable_calls(calls.skip(from as int))
            == Seq::<ToolCallView>::empty(),
        next_runnable(calls, from) < calls.len() ==> {
            let next = next_runnable(calls, from) as int;
            &&& !calls[next].waiting_permission
            &&& runnable_calls(calls.skip(from as int)) == seq![calls[next]] + runnable_calls(
                calls.skip(next + 1),
            )
        },
    decreases calls.len() - from,
{
    let runs = |call: ToolCallView| !call.waiting_permission;
    if from >= calls.len() {
        reveal(Seq::filter);
    } else {
        let rest = calls.skip(from as int + 1);
        assert(calls.skip(from as int) =~= seq![calls[from as int]] + rest);
        rest.lemma_filter_prepend(calls[from as int], runs);
        if calls[from as int].waiting_permission {
            lemma_runnable_from(calls, from + 1);
        }
    }
}

/// A turn that goes on from the call at `from` ends, once the tools have been run, as if
/// the responses still to come had been added to the history at once.
proof fn lemma_turn_from(
    app: AppView,
    index: int,
    response: GenResponseView,
    from: nat,
    outcomes: Seq<Seq<char>>,
)
    requires
        app.state.active() == Some(index),
        from <= response.msg.tool_calls.len(),
        outcomes.len() == runnable_calls(response.msg.tool_calls.skip(from as int)).len(),
    ensures
        ({
            let (stopped, effect) = app.proceed(index, response, from);
            stopped.run_tools(effect, outcomes)
        }) == ({
            let project = app.state.projects[index];
            let responses = tool_responses(
                runnable_calls(response.msg.tool_calls.skip(from as int)),
                outcomes,
            );
            let project = ProjectView { history: project.history + responses, ..project };
            app.with_state(app.state.with_project(index, project)).conclude(index, response)
        }),
    decreases response.msg.tool_calls.len() - from,
{
    let calls = response.msg.tool_calls;
    let history = app.state.projects[index].history;
    let responses = tool_responses(runnable_calls(calls.skip(from as int)), outcomes);
    lemma_runnable_from(calls, from);
    let next = next_runnable(calls, from);
    if next < calls.len() {
        let message = MessageView::ToolResponse(
            ToolResponseView { id: calls[next as int].id, content: outcomes.first() },
        );
        let after = app.with_message(index, message);
        lemma_turn_from(after, index, response, next + 1, outcomes.drop_first());
        let later = tool_responses(
            runnable_calls(calls.skip(next as int + 1)),
            outcomes.drop_first(),
        );
        assert(history.push(message) + later =~= history + responses);
    }
}

/// Handling an answer step by step comes to the same as the whole turn said at once. When
/// a project is active and the caller reports one text for each call that runs without
/// approval, the steps leave the application, and leave the caller to do, exactly what
/// [`AppView::whole_turn`] says: for each such call a response with the call's id and its
/// text, in the order of the calls, then the assistant's message in which exactly the gated
/// calls wait for permission, then the totals, the unsaved change and the decision to
/// continue.
pub proof fn law_steps_make_the_whole_turn(
    app: AppView,
    index: int,
    response: GenResponseView,
    outcomes: Seq<Seq<char>>,
)
    requires
        app.state.active() == Some(index),
        outcomes.len() == runnable_calls(resolve_calls(response.msg.tool_calls, app.gate)).len(),
    ensures
        ({
            let (stopped, effect) = app.handle_result(GenResultView::Response(response));
            stopped.run_tools(effect, outcomes)
        }) == app.whole_turn(index, response, outcomes),
{
    let resolved = resolve_response(response, app.gate);
    assert(resolved.msg.tool_calls.skip(0) =~= resolved.msg.tool_calls);
    lemma_turn_from(app, index, resolved, 0, outcomes);
}

/// One answer of the model together with the texts that its tools came to.
pub struct Answer {
    pub response: GenResponseView,
    pub outcomes: Seq<Seq<char>>,
}

impl AppView {
    /// An exchange: the answers that arrive one after the other once the user has sent a
    /// message, each handled as a whole turn. The result is the application at the end and
    /// the number of automatic continuations that were made on the way.
    pub open spec fn exchange(self, answers: Seq<Answer>) -> (AppView, nat)
        decreases answers.len(),
    {
        if answers.len() == 0 {
            (self, 0)
        } else {
            match self.state.active() {
                Some(index) => {
                    let (app, effect) = self.whole_turn(
                        index,
                        answers.first().response,
                        answers.first().outcomes,
                    );
                    let (end, later) = app.exchange(answers.drop_first());
                    (
                        end,
                        if effect is Dispatch {
                            later + 1
                        } else {
                            later
                        },
                    )
                },
                None => self.exchange(answers.drop_first()),
            }
        }
    }
}

/// However many answers arrive, and whatever they hold, an exchange makes no more automatic
/// continuations than the limit leaves room for: the count at its start and the
/// continuations made since never add up to more than the limit, where the count was within
/// the limit at the start. The limit itself, and which project is active, stay as they were.
pub proof fn law_exchange_counts_its_continuations(app: AppView, answers: Seq<Answer>)
    requires
        app.state.conversation_turns <= app.state.max_conversation_turns,
    ensures
        app.exchange(answers).0.state.conversation_turns == app.state.conversation_turns
            + app.exchange(answers).1,
        app.exchange(answers).0.state.conversation_turns <= app.state.max_conversation_turns,
        app.exchange(answers).0.state.max_conversation_turns == app.state.max_conversation_turns,
    decreases answers.len(),
{
    if answers.len() > 0 {
        match app.state.active() {
            Some(index) => {
                let next = app.whole_turn(
                    index,
                    answers.first().response,
                    answers.first().outcomes,
                ).0;
                law_exchange_counts_its_continuations(next, answers.drop_first());
            },
            None => {
                law_exchange_counts_its_continuations(app, answers.drop_first());
            },
        }
    }
}

/// In the exchange that follows a send, the number of automatic continuations never exceeds
/// the limit on conversation turns, whatever the count was before the send, however many
/// answers arrive and whatever they hold.
pub proof fn law_continuations_never_exceed_the_limit(app: AppView, answers: Seq<Answer>)
    ensures
        app.send_message().0.exchange(answers).1 <= app.state.max_conversation_turns,
{
    law_exchange_counts_its_continuations(app.send_message().0, answers);
}

/// A turn continues the conversation exactly if the answer asked for a tool and the count
/// of automatic continuations is below the limit; it then counts one more, and otherwise
/// leaves the count alone. At the limit the answer is still recorded.
pub proof fn law_turn_counts_its_continuation(app: AppView, index: int, response: GenResponseView)
    requires
        app.state.active() == Some(index),
    ensures
        ({
            let (next, effect) = app.conclude(index, response);
            let continued = continues(
                response.msg.tool_calls.len(),
                app.state.conversation_turns,
                app.state.max_conversation_turns,
            );
            &&& effect is Dispatch <==> continued
            &&& !continued ==> effect is Idle
            &&& next.state.conversation_turns == if continued {
                app.state.conversation_turns + 1
            } else {
                app.state.conversation_turns
            }
            &&& next.state.projects[index].history == app.state.projects[index].history.push(
                MessageView::Assistant(response.msg),
            )
        }),
{
}

/// Whether the core knows what a click on `control` means.
pub open spec fn known_click(control: u32) -> bool {
    ||| control == SELECT_PROJECT_LINK
    ||| control == SEND_MESSAGE_BUTTON
    ||| control == TOOL_CHECKBOX
    ||| control == SELECT_PROJECT_FOLDER
    ||| control == NEW_PROJECT_BUTTON
    ||| control == SAVE_PROJECT_BUTTON
    ||| control == NEW_FORBIDDEN_FILE_BUTTON
    ||| control == DELETE_FORBIDDEN_FILE_BUTTON
}

/// Whether the core knows what a change of the text of `control` means.
pub open spec fn known_text(control: u32) -> bool {
    ||| control == MESSAGE_INPUT
    ||| control == PROJECT_NAME_INPUT
    ||| control == INSTRUCTIONS_TEXT_INPUT
    ||| control == NEW_FORBIDDEN_FILE_NAME
    ||| control == MAX_CONVERSATION_TURNS
    ||| control == MAX_CONTEXT_SIZE
}

/// Whether the event acts on the active project and on nothing else.
pub open spec fn acts_on_project(event: UiEventView) -> bool {
    match event {
        UiEventView::Click { control, .. } => {
            ||| control == TOOL_CHECKBOX
            ||| control == SAVE_PROJECT_BUTTON
            ||| control == NEW_FORBIDDEN_FILE_BUTTON
            ||| control == DELETE_FORBIDDEN_FILE_BUTTON
        },
        UiEventView::TextChanged { control, .. } => {
            control == PROJECT_NAME_INPUT || control == INSTRUCTIONS_TEXT_INPUT
        },
        UiEventView::Select { control, .. } => control == MODEL_SELECT,
        _ => false,
    }
}

/// Whether the event changes nothing in `app`: it is of a kind or from a control that the
/// core does not know, or it acts on the active project while no project is active, or it
/// sets a limit to a text that writes no number.
pub open spec fn changes_nothing(app: AppView, event: UiEventView) -> bool {
    ||| event is Unrecognized
    ||| event matches UiEventView::Click { control, .. } && !known_click(control)
    ||| event matches UiEventView::TextChanged { control, .. } && !known_text(control)
    ||| event matches UiEventView::Select { control, .. } && control != MODEL_SELECT
    ||| acts_on_project(event) && app.state.active() is None
    ||| event matches UiEventView::TextChanged { control, text } && (control
        == MAX_CONVERSATION_TURNS || control == MAX_CONTEXT_SIZE) && parsed_u32(text) is None
}

/// An event that changes nothing is no fault: it can be handled, it leaves the application
/// exactly as it was, it leaves nothing for the caller to do, and the step that handles it
/// still asks for a render, which therefore shows the unchanged state.
pub proof fn law_idle_events_change_nothing(app: AppView, event: UiEventView)
    requires
        changes_nothing(app, event),
    ensures
        app.accepts(event),
        app.handle_event(event) == (app, EffectView::Idle),
        app.step(InputView::Ui(Some(event))).0 == app,
        app.step(InputView::Ui(Some(event))).1.render,
        app.step(InputView::Ui(Some(event))).1.effect is Idle,
{
}

/// A failed generation changes nothing and leaves nothing to do, and neither does an answer
/// that arrives while no project is active.
pub proof fn law_failures_change_nothing(app: AppView, result: GenResultView)
    requires
        result is Error || app.state.active() is None,
    ensures
        app.handle_result(result) == (app, EffectView::Idle),
{
}

/// Every step asks for a render after it has handled an event or a result, and for none
/// when a source has closed. The loop runs on until both sources have closed, and a source
/// that has closed stays closed.
pub proof fn law_loop_renders_and_ends(app: AppView, input: InputView)
    ensures
        app.step(input).1.render == (input matches InputView::Ui(Some(_)) || input
            matches InputView::Generation(Some(_))),
        app.step(input).0.sources.subset_of(app.sources),
        input == InputView::Ui(None) ==> !app.step(input).0.sources.contains(Source::Ui),
        input == InputView::Generation(None) ==> !app.step(input).0.sources.contains(
            Source::Generation,
        ),
        !app.running() ==> !app.step(input).0.running(),
{
}

/// Whether every history of `before` is the beginning of the history of the same project
/// in `after`, no project having gone.
pub open spec fn histories_only_grow(before: AppView, after: AppView) -> bool {
    &&& before.state.projects.len() <= after.state.projects.len()
    &&& forall|i: int|
        0 <= i < before.state.projects.len() ==> (
        #[trigger] before.state.projects[i]).history.is_prefix_of(
            after.state.projects[i].history,
        )
}

/// A history is never changed but by adding to its end: whatever event is handled, the
/// entries that a project's history held are still there, in their places.
pub proof fn law_events_only_add_to_histories(app: AppView, event: UiEventView)
    ensures
        histories_only_grow(app, app.handle_event(event).0),
{
}

/// A history is never changed but by adding to its end: whatever result is handled, and
/// whatever a tool came to, the entries that a project's history held are still there, in
/// their places.
pub proof fn law_turns_only_add_to_histories(
    app: AppView,
    result: GenResultView,
    turn: PendingTurnView,
    content: Seq<char>,
)
    ensures
        histories_only_grow(app, app.handle_result(result).0),
        histories_only_grow(app, app.tool_finished(turn, content).0),
{
}

/// The count of automatic continuations goes back to zero when the user sends, and at no
/// other time: every other event leaves it as it was, and a result or the end of a tool
/// call leaves it as it was or counts one more.
pub proof fn law_turn_count_only_rises_between_sends(
    app: AppView,
    event: UiEventView,
    result: GenResultView,
    turn: PendingTurnView,
    content: Seq<char>,
)
    ensures
        event matches UiEventView::Click { control, .. } && control == SEND_MESSAGE_BUTTON
            ==> app.handle_event(event).0.state.conversation_turns == 0,
        !(event matches UiEventView::Click { control, .. } && control == SEND_MESSAGE_BUTTON)
            ==> app.handle_event(event).0.state.conversation_turns
            == app.state.conversation_turns,
        app.state.conversation_turns <= app.handle_result(result).0.state.conversation_turns
            <= app.state.conversation_turns + 1,
        app.state.conversation_turns <= app.tool_finished(turn, content).0.state.conversation_turns
            <= app.state.conversation_turns + 1,
{
}

/// The decisions of the tool gate depend on the kind of tool and on the policy table, and on
/// nothing else: two gates with the same table decide alike on every kind, and mark the
/// calls of an answer alike. A call waits for permission exactly if the table gates its
/// kind.
pub proof fn law_gate_is_deterministic(first: ToolGate, second: ToolGate, calls: Seq<ToolCallView>)
    requires
        first@ == second@,
    ensures
        forall|kind: ToolKind| first@.contains(kind) == second@.contains(kind),
        resolve_calls(calls, first@) == resolve_calls(calls, second@),
        resolve_calls(calls, first@).len() == calls.len(),
        forall|i: int|
            0 <= i < calls.len() ==> (#[trigger] resolve_calls(calls, first@)[i]).waiting_permission
                == first@.contains(calls[i].kind),
{
}

} // verus!
