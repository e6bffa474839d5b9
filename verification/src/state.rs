//! The state of the whole application: the projects, which of them is active, the settings of
//! the conversation, what the user is typing, the tool gate and the connected clients.

use crate::event_loop::{all_sources, Source, Sources};
use crate::project::{Project, ProjectView};
use crate::tools::{default_policy, ToolGate, ToolKind};
use std::collections::HashSet;
use vstd::prelude::*;

verus! {

broadcast use vstd::std_specs::hash::group_hash_axioms;

/// The number of automatic continuations allowed per exchange until it is configured.
pub const DEFAULT_MAX_CONVERSATION_TURNS: u32 = 5;

/// The size of the context window until it is configured.
pub const DEFAULT_MAX_CONTEXT_SIZE: u32 = 20;

/// The projects and the state of the conversation.
#[derive(PartialEq, Eq, Debug)]
pub struct State {
    pub projects: Vec<Project>,
    pub active_project: Option<usize>,
    pub conversation_turns: u32,
    pub max_conversation_turns: u32,
    pub max_context_size: u32,
    pub current_msg: String,
    pub new_forbidden_file_name: String,
}

/// The mathematical value of a [`State`].
#[verifier::ext_equal]
pub struct StateView {
    pub projects: Seq<ProjectView>,
    pub active_project: Option<nat>,
    pub conversation_turns: nat,
    pub max_conversation_turns: nat,
    pub max_context_size: nat,
    pub current_msg: Seq<char>,
    pub new_forbidden_file_name: Seq<char>,
}

impl View for State {
    type V = StateView;

    open spec fn view(&self) -> StateView {
        StateView {
            projects: self.projects.deep_view(),
            active_project: match self.active_project {
                Some(index) => Some(index as nat),
                None => None,
            },
            conversation_turns: self.conversation_turns as nat,
            max_conversation_turns: self.max_conversation_turns as nat,
            max_context_size: self.max_context_size as nat,
            current_msg: self.current_msg@,
            new_forbidden_file_name: self.new_forbidden_file_name@,
        }
    }
}

impl DeepView for State {
    type V = StateView;

    open spec fn deep_view(&self) -> StateView {
        self@
    }
}

impl StateView {
    /// The position of the active project: the selected index where it names a project, and
    /// nothing where no index is selected or the selected one names none.
    pub open spec fn active(self) -> Option<int> {
        match self.active_project {
            Some(index) => if index < self.projects.len() {
                Some(index as int)
            } else {
                None
            },
            None => None,
        }
    }

    /// This state with the project at `index` replaced.
    pub open spec fn with_project(self, index: int, project: ProjectView) -> StateView {
        StateView { projects: self.projects.update(index, project), ..self }
    }
}

/// The state at startup: the given projects, none of them active, default limits, and
/// nothing typed.
pub open spec fn initial_state(projects: Seq<ProjectView>) -> StateView {
    StateView {
        projects,
        active_project: None,
        conversation_turns: 0,
        max_conversation_turns: DEFAULT_MAX_CONVERSATION_TURNS as nat,
        max_context_size: DEFAULT_MAX_CONTEXT_SIZE as nat,
        current_msg: Seq::empty(),
        new_forbidden_file_name: Seq::empty(),
    }
}

impl State {
    /// The state at startup.
    pub fn new(projects: Vec<Project>) -> (state: State)
        ensures
            state@ == initial_state(projects.deep_view()),
    {
        State {
            projects,
            active_project: None,
            conversation_turns: 0,
            max_conversation_turns: DEFAULT_MAX_CONVERSATION_TURNS,
            max_context_size: DEFAULT_MAX_CONTEXT_SIZE,
            current_msg: String::new(),
            new_forbidden_file_name: String::new(),
        }
    }

    /// The position of the active project, if there is one.
    pub fn active_index(&self) -> (active: Option<usize>)
        ensures
            match active {
                Some(index) => self@.active() == Some(index as int),
                None => self@.active() is None,
            },
    {
        match self.active_project {
            Some(index) => if index < self.projects.len() {
                Some(index)
            } else {
                None
            },
            None => None,
        }
    }
}

/// The application: the state, the tool gate, the clients that are connected, the port on
/// which they are served, and the sources that the event loop still listens to.
pub struct App {
    pub clients: HashSet<usize>,
    pub state: State,
    pub gate: ToolGate,
    pub port: u16,
    pub sources: Sources,
}

/// The mathematical value of an [`App`].
#[verifier::ext_equal]
pub struct AppView {
    pub clients: Set<usize>,
    pub state: StateView,
    pub gate: Set<ToolKind>,
    pub port: u16,
    pub sources: Set<Source>,
}

impl View for App {
    type V = AppView;

    open spec fn view(&self) -> AppView {
        AppView {
            clients: self.clients@,
            state: self.state@,
            gate: self.gate@,
            port: self.port,
            sources: self.sources@,
        }
    }
}

impl AppView {
    /// This application with its state replaced.
    pub open spec fn with_state(self, state: StateView) -> AppView {
        AppView { state, ..self }
    }
}

/// The application at startup.
pub open spec fn initial_app(projects: Seq<ProjectView>, port: u16) -> AppView {
    AppView {
        clients: Set::empty(),
        state: initial_state(projects),
        gate: default_policy(),
        port,
        sources: all_sources(),
    }
}

impl App {
    /// The application at startup: the given projects, no client connected, the default tool
    /// policy, `port` as the port to serve on, and both sources of the event loop open.
    pub fn new(projects: Vec<Project>, port: u16) -> (app: App)
        ensures
            app@ == initial_app(projects.deep_view(), port),
    {
        App {
            clients: HashSet::new(),
            state: State::new(projects),
            gate: ToolGate::with_default_policy(),
            port,
            sources: Sources::new(),
        }
    }

    /// The active project, for reading and changing, or nothing where no project is active.
    /// Whatever the caller does to the project is done to the project at the active index,
    /// and to nothing else.
    pub fn get_active_project(&mut self) -> (active: Option<&mut Project>)
        ensures
            match old(self)@.state.active() {
                Some(index) => {
                    &&& active matches Some(project)
                    &&& *project == old(self).state.projects[index]
                    &&& final(self)@ == old(self)@.with_state(
                        old(self)@.state.with_project(index, final(project)@),
                    )
                },
                None => active is None && *final(self) == *old(self),
            },
    {
        match self.state.active_project {
            Some(index) => {
                if index < self.state.projects.len() {
                    let project = &mut self.state.projects[index];
                    Some(project)
                } else {
                    None
                }
            },
            None => None,
        }
    }
}

} // verus!
