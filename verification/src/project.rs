//! A project: its settings, its conversation and its running totals.

use crate::history::History;
use crate::message::MessageView;
use crate::tools::{ToolKind, ToolSet};
use vstd::prelude::*;

verus! {

/// One project. Token counts are whole tokens; costs are whole millionths of the currency
/// unit in which the model's provider bills.
#[derive(PartialEq, Eq, Debug)]
pub struct Project {
    pub name: String,
    pub instructions: String,
    pub model: String,
    pub history: History,
    pub activated_tools: ToolSet,
    pub forbidden_files: Vec<String>,
    pub folder_path: String,
    pub input_token_count: u64,
    pub output_token_count: u64,
    pub input_token_cost: u64,
    pub output_token_cost: u64,
    pub modified: bool,
}

/// The mathematical value of a [`Project`].
#[verifier::ext_equal]
pub struct ProjectView {
    pub name: Seq<char>,
    pub instructions: Seq<char>,
    pub model: Seq<char>,
    pub history: Seq<MessageView>,
    pub activated_tools: Set<ToolKind>,
    pub forbidden_files: Seq<Seq<char>>,
    pub folder_path: Seq<char>,
    pub input_token_count: nat,
    pub output_token_count: nat,
    pub input_token_cost: nat,
    pub output_token_cost: nat,
    pub modified: bool,
}

impl View for Project {
    type V = ProjectView;

    open spec fn view(&self) -> ProjectView {
        ProjectView {
            name: self.name@,
            instructions: self.instructions@,
            model: self.model@,
            history: self.history@,
            activated_tools: self.activated_tools@,
            forbidden_files: self.forbidden_files.deep_view(),
            folder_path: self.folder_path@,
            input_token_count: self.input_token_count as nat,
            output_token_count: self.output_token_count as nat,
            input_token_cost: self.input_token_cost as nat,
            output_token_cost: self.output_token_cost as nat,
            modified: self.modified,
        }
    }
}

impl DeepView for Project {
    type V = ProjectView;

    open spec fn deep_view(&self) -> ProjectView {
        self@
    }
}

/// The project that a "new project" action starts from: nothing set, nothing said, nothing
/// spent, and no unsaved change.
pub open spec fn empty_project() -> ProjectView {
    ProjectView {
        name: Seq::empty(),
        instructions: Seq::empty(),
        model: Seq::empty(),
        history: Seq::empty(),
        activated_tools: Set::empty(),
        forbidden_files: Seq::empty(),
        folder_path: Seq::empty(),
        input_token_count: 0,
        output_token_count: 0,
        input_token_cost: 0,
        output_token_cost: 0,
        modified: false,
    }
}

impl Project {
    /// A project with nothing set.
    pub fn new() -> (project: Project)
        ensures
            project@ == empty_project(),
    {
        let project = Project {
            name: String::new(),
            instructions: String::new(),
            model: String::new(),
            history: History::new(),
            activated_tools: ToolSet::new(),
            forbidden_files: Vec::new(),
            folder_path: String::new(),
            input_token_count: 0,
            output_token_count: 0,
            input_token_cost: 0,
            output_token_cost: 0,
            modified: false,
        };
        project
    }
}

impl Default for Project {
    fn default() -> (project: Project)
        ensures
            project@ == empty_project(),
    {
        Project::new()
    }
}

/// Copies a list of strings.
pub fn clone_strings(strings: &Vec<String>) -> (copy: Vec<String>)
    ensures
        copy.deep_view() == strings.deep_view(),
{
    let mut copy: Vec<String> = Vec::new();
    let mut i: usize = 0;
    while i < strings.len()
        invariant
            i <= strings.len(),
            copy.len() == i,
            forall|j: int| 0 <= j < i ==> copy[j]@ == strings[j]@,
        decreases strings.len() - i,
    {
        copy.push(strings[i].clone());
        i += 1;
    }
    copy
}

impl Clone for Project {
    fn clone(&self) -> (copy: Project)
        ensures
            copy@ == self@,
    {
        Project {
            name: self.name.clone(),
            instructions: self.instructions.clone(),
            model: self.model.clone(),
            history: self.history.clone(),
            activated_tools: self.activated_tools,
            forbidden_files: clone_strings(&self.forbidden_files),
            folder_path: self.folder_path.clone(),
            input_token_count: self.input_token_count,
            output_token_count: self.output_token_count,
            input_token_cost: self.input_token_cost,
            output_token_cost: self.output_token_cost,
            modified: self.modified,
        }
    }
}

} // verus!
