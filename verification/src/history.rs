//! The conversation history of a project: an ordered list of messages that only grows.

use crate::message::{Message, MessageView};
use vstd::prelude::*;

verus! {

/// The messages of a conversation, oldest first. An entry's position is its place in time;
/// entries are added at the end and never changed, moved or removed.
#[derive(PartialEq, Eq, Debug)]
pub struct History {
    items: Vec<Message>,
}

impl View for History {
    type V = Seq<MessageView>;

    closed spec fn view(&self) -> Seq<MessageView> {
        self.items.deep_view()
    }
}

impl DeepView for History {
    type V = Seq<MessageView>;

    open spec fn deep_view(&self) -> Seq<MessageView> {
        self@
    }
}

impl History {
    /// The empty history.
    pub fn new() -> (history: History)
        ensures
            history@ == Seq::<MessageView>::empty(),
    {
        let history = History { items: Vec::new() };
        history
    }

    /// The history that holds `items`, oldest first.
    pub fn from_messages(items: Vec<Message>) -> (history: History)
        ensures
            history@ == items.deep_view(),
    {
        History { items }
    }

    /// Adds `message` as the newest entry.
    pub fn add_message(&mut self, message: Message)
        ensures
            final(self)@ == old(self)@.push(message@),
    {
        self.items.push(message);
    }

    /// The number of entries.
    pub fn len(&self) -> (n: usize)
        ensures
            n == self@.len(),
    {
        self.items.len()
    }

    /// The entries, oldest first.
    pub fn items(&self) -> (items: &Vec<Message>)
        ensures
            items.deep_view() == self@,
    {
        &self.items
    }
}

impl Clone for History {
    fn clone(&self) -> (copy: History)
        ensures
            copy@ == self@,
    {
        let mut items: Vec<Message> = Vec::new();
        let mut i: usize = 0;
        while i < self.items.len()
            invariant
                i <= self.items.len(),
                items.len() == i,
                forall|j: int| 0 <= j < i ==> items[j]@ == self.items[j]@,
            decreases self.items.len() - i,
        {
            items.push(self.items[i].clone());
            i += 1;
        }
        History { items }
    }
}

} // verus!
