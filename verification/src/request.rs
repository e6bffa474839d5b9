//! Generation requests and results, and how a request is put together from a project.

use crate::history::History;
use crate::message::{AssistantMsg, AssistantMsgView, Message, MessageView};
use crate::project::{Project, ProjectView};
use crate::tools::{catalog, tool_catalog, ToolKind};
use vstd::prelude::*;
use vstd::string::StringExecFns;

verus! {

/// What is sent to the model: which model, the messages in order, and the tools on offer.
#[derive(PartialEq, Eq, Debug)]
pub struct GenRequest {
    pub model: String,
    pub messages: Vec<Message>,
    pub tools: Vec<ToolKind>,
}

/// The mathematical value of a [`GenRequest`].
#[verifier::ext_equal]
pub struct GenRequestView {
    pub model: Seq<char>,
    pub messages: Seq<MessageView>,
    pub tools: Seq<ToolKind>,
}

impl View for GenRequest {
    type V = GenRequestView;

    open spec fn view(&self) -> GenRequestView {
        GenRequestView {
            model: self.model@,
            messages: self.messages.deep_view(),
            tools: self.tools@,
        }
    }
}

impl DeepView for GenRequest {
    type V = GenRequestView;

    open spec fn deep_view(&self) -> GenRequestView {
        self@
    }
}

/// What the model answered: the assistant's message, and what the answer used up. Token
/// counts and costs are in the units of [`Project`].
#[derive(PartialEq, Eq, Debug)]
pub struct GenResponse {
    pub msg: AssistantMsg,
    pub prompt_tokens: u64,
    pub completion_tokens: u64,
    pub prompt_cost: u64,
    pub completion_cost: u64,
}

/// The mathematical value of a [`GenResponse`].
pub struct GenResponseView {
    pub msg: AssistantMsgView,
    pub prompt_tokens: nat,
    pub completion_tokens: nat,
    pub prompt_cost: nat,
    pub completion_cost: nat,
}

impl View for GenResponse {
    type V = GenResponseView;

    open spec fn view(&self) -> GenResponseView {
        GenResponseView {
            msg: self.msg@,
            prompt_tokens: self.prompt_tokens as nat,
            completion_tokens: self.completion_tokens as nat,
            prompt_cost: self.prompt_cost as nat,
            completion_cost: self.completion_cost as nat,
        }
    }
}

impl DeepView for GenResponse {
    type V = GenResponseView;

    open spec fn deep_view(&self) -> GenResponseView {
        self@
    }
}

/// How a generation ended: with the model's answer, or with the details of a failure.
#[derive(PartialEq, Eq, Debug)]
pub enum GenResult {
    Response(GenResponse),
    Error(String),
}

/// The mathematical value of a [`GenResult`].
pub enum GenResultView {
    Response(GenResponseView),
    Error(Seq<char>),
}

impl View for GenResult {
    type V = GenResultView;

    open spec fn view(&self) -> GenResultView {
        match self {
            GenResult::Response(response) => GenResultView::Response(response@),
            GenResult::Error(details) => GenResultView::Error(details@),
        }
    }
}

impl DeepView for GenResult {
    type V = GenResultView;

    open spec fn deep_view(&self) -> GenResultView {
        self@
    }
}

/// The opening of the system preamble: the assistant's role and what it can do.
pub const ROLE: &'static str =
    "You are puppycoder assistant.\nYou are good at programming and will help users complete their programming tasks.\nYou can use tools provided to you to read and write files.\n";

/// The label in front of the project's instructions in the preamble.
pub const INSTRUCTIONS_LABEL: &'static str = "Instructions: ";

/// The label in front of the project's name in the preamble.
pub const NAME_LABEL: &'static str = "Project name: ";

/// The end of a line of the preamble.
pub const LINE_END: &'static str = "\n";

/// One line of the preamble: the label and the text, or nothing where the text is empty.
pub open spec fn preamble_line(label: Seq<char>, text: Seq<char>) -> Seq<char> {
    if text.len() > 0 {
        label + text + LINE_END@
    } else {
        Seq::empty()
    }
}

/// The system preamble: the role, then the instructions if there are any, then the project's
/// name if it has one.
pub open spec fn preamble_text(instructions: Seq<char>, name: Seq<char>) -> Seq<char> {
    ROLE@ + preamble_line(INSTRUCTIONS_LABEL@, instructions) + preamble_line(NAME_LABEL@, name)
}

/// Builds the system preamble for a project with these instructions and this name.
pub fn preamble(instructions: &str, name: &str) -> (text: String)
    ensures
        text@ == preamble_text(instructions@, name@),
{
    let mut text = String::from_str(ROLE);
    if !instructions.is_empty() {
        text.append(INSTRUCTIONS_LABEL);
        text.append(instructions);
        text.append(LINE_END);
    }
    if !name.is_empty() {
        text.append(NAME_LABEL);
        text.append(name);
        text.append(LINE_END);
    }
    text
}

/// The context window over `history`: its newest `limit` entries, or all of it where it has
/// no more than `limit`, in the order of the history.
pub open spec fn window_of(history: Seq<MessageView>, limit: nat) -> Seq<MessageView> {
    if history.len() <= limit {
        history
    } else {
        history.subrange(history.len() - limit, history.len() as int)
    }
}

/// Copies the context window out of `history`.
pub fn context_window(history: &History, limit: u32) -> (window: Vec<Message>)
    ensures
        window.deep_view() == window_of(history@, limit as nat),
{
    let items = history.items();
    let len = items.len();
    let start: usize = if len <= limit as usize {
        0
    } else {
        len - limit as usize
    };
    let mut window: Vec<Message> = Vec::new();
    let mut i: usize = start;
    while i < len
        invariant
            start <= i <= len,
            len == items.len(),
            window.len() == i - start,
            forall|j: int| 0 <= j < i - start ==> window[j]@ == items[start + j]@,
        decreases len - i,
    {
        window.push(items[i].clone());
        i += 1;
    }
    window
}

/// The messages of a request for `project`: the system preamble, the instructions as a system
/// message of their own if there are any, and the context window.
pub open spec fn request_messages(project: ProjectView, limit: nat) -> Seq<MessageView> {
    let preamble = seq![
        MessageView::System(preamble_text(project.instructions, project.name)),
    ];
    let instructions = if project.instructions.len() > 0 {
        seq![MessageView::System(project.instructions)]
    } else {
        Seq::empty()
    };
    preamble + instructions + window_of(project.history, limit)
}

/// The request that continues the conversation of `project` with a context window of at most
/// `limit` entries: the project's model, [`request_messages`], and the tools of the catalog
/// that the project has activated, in the catalog's order.
pub open spec fn request_for(project: ProjectView, limit: nat) -> GenRequestView {
    GenRequestView {
        model: project.model,
        messages: request_messages(project, limit),
        tools: tool_catalog().filter(|kind: ToolKind| project.activated_tools.contains(kind)),
    }
}

/// Builds the request that continues the conversation of `project`.
pub fn build_request(project: &Project, limit: u32) -> (request: GenRequest)
    ensures
        request@ == request_for(project@, limit as nat),
{
    let mut messages: Vec<Message> = Vec::new();
    messages.push(Message::System(preamble(project.instructions.as_str(), project.name.as_str())));
    if !project.instructions.as_str().is_empty() {
        messages.push(Message::System(project.instructions.clone()));
    }
    let mut window = context_window(&project.history, limit);
    messages.append(&mut window);
    let tools = project.activated_tools.select(&catalog());
    GenRequest { model: project.model.clone(), messages, tools }
}

} // verus!
