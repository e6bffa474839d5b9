//! The entries of a conversation: messages, tool calls and tool responses.

use crate::tools::ToolKind;
use vstd::prelude::*;

verus! {

/// A request of the assistant to run one tool: the kind of tool, the argument payload as the
/// model wrote it, and whether the call is waiting for a human's approval.
#[derive(PartialEq, Eq, Debug)]
pub struct ToolCall {
    pub id: String,
    pub kind: ToolKind,
    pub arguments: String,
    pub waiting_permission: bool,
}

/// The mathematical value of a [`ToolCall`].
pub struct ToolCallView {
    pub id: Seq<char>,
    pub kind: ToolKind,
    pub arguments: Seq<char>,
    pub waiting_permission: bool,
}

impl View for ToolCall {
    type V = ToolCallView;

    open spec fn view(&self) -> ToolCallView {
        ToolCallView {
            id: self.id@,
            kind: self.kind,
            arguments: self.arguments@,
            waiting_permission: self.waiting_permission,
        }
    }
}

impl DeepView for ToolCall {
    type V = ToolCallView;

    open spec fn deep_view(&self) -> ToolCallView {
        self@
    }
}

impl Clone for ToolCall {
    fn clone(&self) -> (copy: ToolCall)
        ensures
            copy@ == self@,
    {
        ToolCall {
            id: self.id.clone(),
            kind: self.kind,
            arguments: self.arguments.clone(),
            waiting_permission: self.waiting_permission,
        }
    }
}

/// Copies a list of tool calls.
pub fn clone_tool_calls(calls: &Vec<ToolCall>) -> (copy: Vec<ToolCall>)
    ensures
        copy.deep_view() == calls.deep_view(),
{
    let mut copy: Vec<ToolCall> = Vec::new();
    let mut i: usize = 0;
    while i < calls.len()
        invariant
            i <= calls.len(),
            copy.len() == i,
            forall|j: int| 0 <= j < i ==> copy[j]@ == calls[j]@,
        decreases calls.len() - i,
    {
        copy.push(calls[i].clone());
        i += 1;
    }
    copy
}

/// What a tool gave back for the call with this id: its output, or the text of its error.
#[derive(PartialEq, Eq, Debug)]
pub struct ToolResponse {
    pub id: String,
    pub content: String,
}

/// The mathematical value of a [`ToolResponse`].
pub struct ToolResponseView {
    pub id: Seq<char>,
    pub content: Seq<char>,
}

impl View for ToolResponse {
    type V = ToolResponseView;

    open spec fn view(&self) -> ToolResponseView {
        ToolResponseView { id: self.id@, content: self.content@ }
    }
}

impl DeepView for ToolResponse {
    type V = ToolResponseView;

    open spec fn deep_view(&self) -> ToolResponseView {
        self@
    }
}

impl Clone for ToolResponse {
    fn clone(&self) -> (copy: ToolResponse)
        ensures
            copy@ == self@,
    {
        ToolResponse { id: self.id.clone(), content: self.content.clone() }
    }
}

/// What the assistant said in one turn, with the tool calls it asked for.
#[derive(PartialEq, Eq, Debug)]
pub struct AssistantMsg {
    pub content: String,
    pub tool_calls: Vec<ToolCall>,
}

/// The mathematical value of an [`AssistantMsg`].
pub struct AssistantMsgView {
    pub content: Seq<char>,
    pub tool_calls: Seq<ToolCallView>,
}

impl View for AssistantMsg {
    type V = AssistantMsgView;

    open spec fn view(&self) -> AssistantMsgView {
        AssistantMsgView { content: self.content@, tool_calls: self.tool_calls.deep_view() }
    }
}

impl DeepView for AssistantMsg {
    type V = AssistantMsgView;

    open spec fn deep_view(&self) -> AssistantMsgView {
        self@
    }
}

impl Clone for AssistantMsg {
    fn clone(&self) -> (copy: AssistantMsg)
        ensures
            copy@ == self@,
    {
        AssistantMsg {
            content: self.content.clone(),
            tool_calls: clone_tool_calls(&self.tool_calls),
        }
    }
}

/// One entry of a conversation.
#[derive(PartialEq, Eq, Debug)]
pub enum Message {
    User(String),
    System(String),
    Assistant(AssistantMsg),
    ToolResponse(ToolResponse),
}

/// The mathematical value of a [`Message`].
pub enum MessageView {
    User(Seq<char>),
    System(Seq<char>),
    Assistant(AssistantMsgView),
    ToolResponse(ToolResponseView),
}

impl View for Message {
    type V = MessageView;

    open spec fn view(&self) -> MessageView {
        match self {
            Message::User(text) => MessageView::User(text@),
            Message::System(text) => MessageView::System(text@),
            Message::Assistant(msg) => MessageView::Assistant(msg@),
            Message::ToolResponse(response) => MessageView::ToolResponse(response@),
        }
    }
}

impl DeepView for Message {
    type V = MessageView;

    open spec fn deep_view(&self) -> MessageView {
        self@
    }
}

impl Clone for Message {
    fn clone(&self) -> (copy: Message)
        ensures
            copy@ == self@,
    {
        match self {
            Message::User(text) => Message::User(text.clone()),
            Message::System(text) => Message::System(text.clone()),
            Message::Assistant(msg) => Message::Assistant(msg.clone()),
            Message::ToolResponse(response) => Message::ToolResponse(response.clone()),
        }
    }
}

} // verus!
