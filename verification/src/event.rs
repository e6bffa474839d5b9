//! The events of the user interface and what each of them does.

use crate::effect::{Effect, EffectView};
use crate::numeric::{parse_u32, parsed_u32};
use crate::project::{empty_project, Project, ProjectView};
use crate::state::{App, AppView, StateView};
use crate::tools::{catalog, tool_catalog};
use vstd::prelude::*;

verus! {

broadcast use vstd::std_specs::hash::group_hash_axioms;

/// The link that makes a project the active one; the click carries the project's position.
pub const SELECT_PROJECT_LINK: u32 = 1;

/// The button that sends the draft.
pub const SEND_MESSAGE_BUTTON: u32 = 2;

/// The box that activates a tool or deactivates it; the click carries the tool's position in
/// the catalog.
pub const TOOL_CHECKBOX: u32 = 3;

/// The button that opens the folder picker.
pub const SELECT_PROJECT_FOLDER: u32 = 4;

/// The button that starts a new project.
pub const NEW_PROJECT_BUTTON: u32 = 5;

/// The button that saves the active project.
pub const SAVE_PROJECT_BUTTON: u32 = 6;

/// The button that forbids the file whose name has been typed.
pub const NEW_FORBIDDEN_FILE_BUTTON: u32 = 7;

/// The button that allows a forbidden file again; the click carries the file's position.
pub const DELETE_FORBIDDEN_FILE_BUTTON: u32 = 8;

/// The field in which the draft is typed.
pub const MESSAGE_INPUT: u32 = 9;

/// The field that holds the project's name.
pub const PROJECT_NAME_INPUT: u32 = 10;

/// The field that holds the project's instructions.
pub const INSTRUCTIONS_TEXT_INPUT: u32 = 11;

/// The field in which the name of a file to forbid is typed.
pub const NEW_FORBIDDEN_FILE_NAME: u32 = 12;

/// The field that holds the limit on automatic continuations.
pub const MAX_CONVERSATION_TURNS: u32 = 13;

/// The field that holds the size of the context window.
pub const MAX_CONTEXT_SIZE: u32 = 14;

/// The list from which the project's model is chosen.
pub const MODEL_SELECT: u32 = 15;

/// An event of the user interface.
#[derive(PartialEq, Eq, Debug)]
pub enum UiEvent {
    /// A client has connected.
    Connected { id: usize },
    /// A client has gone.
    Disconnected { id: usize },
    /// A control was clicked; controls that stand in a list say which of them it was.
    Click { control: u32, index: Option<u32> },
    /// The text of a field has changed.
    TextChanged { control: u32, text: String },
    /// An entry of a list was chosen.
    Select { control: u32, value: String },
    /// An event of a kind that the core does not know.
    Unrecognized,
}

/// The mathematical value of a [`UiEvent`].
pub enum UiEventView {
    Connected { id: usize },
    Disconnected { id: usize },
    Click { control: u32, index: Option<u32> },
    TextChanged { control: u32, text: Seq<char> },
    Select { control: u32, value: Seq<char> },
    Unrecognized,
}

impl View for UiEvent {
    type V = UiEventView;

    open spec fn view(&self) -> UiEventView {
        match self {
            UiEvent::Connected { id } => UiEventView::Connected { id: *id },
            UiEvent::Disconnected { id } => UiEventView::Disconnected { id: *id },
            UiEvent::Click { control, index } => UiEventView::Click {
                control: *control,
                index: *index,
            },
            UiEvent::TextChanged { control, text } => UiEventView::TextChanged {
                control: *control,
                text: text@,
            },
            UiEvent::Select { control, value } => UiEventView::Select {
                control: *control,
                value: value@,
            },
            UiEvent::Unrecognized => UiEventView::Unrecognized,
        }
    }
}

impl DeepView for UiEvent {
    type V = UiEventView;

    open spec fn deep_view(&self) -> UiEventView {
        self@
    }
}

impl StateView {
    /// This state after `change` was applied to the active project, and this state itself
    /// where no project is active.
    pub open spec fn map_active(self, change: spec_fn(ProjectView) -> ProjectView) -> StateView {
        match self.active() {
            Some(index) => self.with_project(index, change(self.projects[index])),
            None => self,
        }
    }

    /// What a click does to the state.
    pub open spec fn click(self, control: u32, index: Option<u32>) -> StateView {
        if control == SELECT_PROJECT_LINK {
            StateView { active_project: Some(index->0 as nat), ..self }
        } else if control == TOOL_CHECKBOX {
            let kind = tool_catalog()[index->0 as int];
            self.map_active(
                |project: ProjectView|
                    ProjectView {
                        activated_tools: if project.activated_tools.contains(kind) {
                            project.activated_tools.remove(kind)
                        } else {
                            project.activated_tools.insert(kind)
                        },
                        ..project
                    },
            )
        } else if control == NEW_PROJECT_BUTTON {
            StateView {
                projects: self.projects.push(ProjectView { modified: true, ..empty_project() }),
                ..self
            }
        } else if control == SAVE_PROJECT_BUTTON {
            self.map_active(|project: ProjectView| ProjectView { modified: false, ..project })
        } else if control == NEW_FORBIDDEN_FILE_BUTTON {
            self.map_active(
                |project: ProjectView|
                    ProjectView {
                        forbidden_files: project.forbidden_files.push(
                            self.new_forbidden_file_name,
                        ),
                        modified: true,
                        ..project
                    },
            )
        } else if control == DELETE_FORBIDDEN_FILE_BUTTON {
            self.map_active(
                |project: ProjectView|
                    ProjectView {
                        forbidden_files: project.forbidden_files.remove(index->0 as int),
                        modified: true,
                        ..project
                    },
            )
        } else {
            self
        }
    }

    /// What a change of text does to the state. A limit changes only where the text writes
    /// a number.
    pub open spec fn text_changed(self, control: u32, text: Seq<char>) -> StateView {
        if control == MESSAGE_INPUT {
            StateView { current_msg: text, ..self }
        } else if control == PROJECT_NAME_INPUT {
            self.map_active(
                |project: ProjectView| ProjectView { name: text, modified: true, ..project },
            )
        } else if control == INSTRUCTIONS_TEXT_INPUT {
            self.map_active(
                |project: ProjectView|
                    ProjectView { instructions: text, modified: true, ..project },
            )
        } else if control == NEW_FORBIDDEN_FILE_NAME {
            StateView { new_forbidden_file_name: text, ..self }
        } else if control == MAX_CONVERSATION_TURNS {
            match parsed_u32(text) {
                Some(limit) => StateView { max_conversation_turns: limit as nat, ..self },
                None => self,
            }
        } else if control == MAX_CONTEXT_SIZE {
            match parsed_u32(text) {
                Some(limit) => StateView { max_context_size: limit as nat, ..self },
                None => self,
            }
        } else {
            self
        }
    }

    /// What a choice from a list does to the state.
    pub open spec fn select(self, control: u32, value: Seq<char>) -> StateView {
        if control == MODEL_SELECT {
            self.map_active(
                |project: ProjectView| ProjectView { model: value, modified: true, ..project },
            )
        } else {
            self
        }
    }

    /// The state after the user picked `folder`, or closed the picker without a choice.
    pub open spec fn folder_picked(self, folder: Option<Seq<char>>) -> StateView {
        match folder {
            Some(path) => self.map_active(
                |project: ProjectView|
                    ProjectView { folder_path: path, modified: true, ..project },
            ),
            None => self,
        }
    }
}

impl AppView {
    /// Whether the event can be handled: a click that has to say which entry of a list it
    /// means does say so, and that entry exists.
    pub open spec fn accepts(self, event: UiEventView) -> bool {
        match event {
            UiEventView::Click { control, index } => {
                if control == SELECT_PROJECT_LINK {
                    index is Some
                } else if control == TOOL_CHECKBOX {
                    self.state.active() is Some ==> index is Some && index->0
                        < tool_catalog().len()
                } else if control == DELETE_FORBIDDEN_FILE_BUTTON {
                    self.state.active() matches Some(active) ==> index is Some && index->0
                        < self.state.projects[active].forbidden_files.len()
                } else {
                    true
                }
            },
            _ => true,
        }
    }

    /// What is left to the caller after a click.
    pub open spec fn click_effect(self, control: u32) -> EffectView {
        if control == SELECT_PROJECT_FOLDER {
            EffectView::PickFolder
        } else if control == SAVE_PROJECT_BUTTON {
            match self.state.active() {
                Some(index) => EffectView::SaveProject(
                    ProjectView { modified: false, ..self.state.projects[index] },
                ),
                None => EffectView::Idle,
            }
        } else {
            EffectView::Idle
        }
    }

    /// What handling an event of the user interface does. Each event changes the one thing
    /// that its control stands for. What concerns the active project changes nothing where
    /// no project is active, and an event or a control that the core does not know changes
    /// nothing at all.
    pub open spec fn handle_event(self, event: UiEventView) -> (AppView, EffectView) {
        match event {
            UiEventView::Connected { id } => (
                AppView { clients: self.clients.insert(id), ..self },
                EffectView::Idle,
            ),
            UiEventView::Disconnected { id } => (
                AppView { clients: self.clients.remove(id), ..self },
                EffectView::Idle,
            ),
            UiEventView::Click { control, index } => {
                if control == SEND_MESSAGE_BUTTON {
                    self.send_message()
                } else {
                    (self.with_state(self.state.click(control, index)), self.click_effect(control))
                }
            },
            UiEventView::TextChanged { control, text } => (
                self.with_state(self.state.text_changed(control, text)),
                EffectView::Idle,
            ),
            UiEventView::Select { control, value } => (
                self.with_state(self.state.select(control, value)),
                EffectView::Idle,
            ),
            UiEventView::Unrecognized => (self, EffectView::Idle),
        }
    }
}

impl App {
    /// Whether the event can be handled, as [`AppView::accepts`] says.
    pub fn accepts(&self, event: &UiEvent) -> (accepted: bool)
        ensures
            accepted == self@.accepts(event@),
    {
        match event {
            UiEvent::Click { control, index } => {
                if *control == SELECT_PROJECT_LINK {
                    index.is_some()
                } else if *control == TOOL_CHECKBOX {
                    match self.state.active_index() {
                        Some(_) => match index {
                            Some(position) => (*position as usize) < catalog().len(),
                            None => false,
                        },
                        None => true,
                    }
                } else if *control == DELETE_FORBIDDEN_FILE_BUTTON {
                    match self.state.active_index() {
                        Some(active) => match index {
                            Some(position) => (*position as usize)
                                < self.state.projects[active].forbidden_files.len(),
                            None => false,
                        },
                        None => true,
                    }
                } else {
                    true
                }
            },
            _ => true,
        }
    }

    /// Handles a click on a control other than the send button.
    fn click(&mut self, control: u32, index: Option<u32>) -> (effect: Effect)
        requires
            control != SEND_MESSAGE_BUTTON,
            old(self)@.accepts(UiEventView::Click { control, index }),
        ensures
            final(self)@ == old(self)@.with_state(old(self)@.state.click(control, index)),
            effect@ == old(self)@.click_effect(control),
    {
        if control == SELECT_PROJECT_LINK {
            self.state.active_project = Some(index.unwrap() as usize);
            Effect::Idle
        } else if control == TOOL_CHECKBOX {
            match self.state.active_index() {
                Some(active) => {
                    let tools = catalog();
                    let kind = tools[index.unwrap() as usize];
                    self.state.projects[active].activated_tools.toggle(kind);
                },
                None => {},
            }
            Effect::Idle
        } else if control == SELECT_PROJECT_FOLDER {
            Effect::PickFolder
        } else if control == NEW_PROJECT_BUTTON {
            let mut project = Project::new();
            project.modified = true;
            self.state.projects.push(project);
            Effect::Idle
        } else if control == SAVE_PROJECT_BUTTON {
            match self.state.active_index() {
                Some(active) => {
                    self.state.projects[active].modified = false;
                    Effect::SaveProject(self.state.projects[active].clone())
                },
                None => Effect::Idle,
            }
        } else if control == NEW_FORBIDDEN_FILE_BUTTON {
            match self.state.active_index() {
                Some(active) => {
                    let name = self.state.new_forbidden_file_name.clone();
                    self.state.projects[active].forbidden_files.push(name);
                    self.state.projects[active].modified = true;
                    assert(self@.state.projects[active as int].forbidden_files =~= old(
                        self,
                    )@.state.projects[active as int].forbidden_files.push(name@));
                },
                None => {},
            }
            Effect::Idle
        } else if control == DELETE_FORBIDDEN_FILE_BUTTON {
            match self.state.active_index() {
                Some(active) => {
                    let position = index.unwrap() as usize;
                    self.state.projects[active].forbidden_files.remove(position);
                    self.state.projects[active].modified = true;
                    assert(self@.state.projects[active as int].forbidden_files =~= old(
                        self,
                    )@.state.projects[active as int].forbidden_files.remove(position as int));
                },
                None => {},
            }
            Effect::Idle
        } else {
            Effect::Idle
        }
    }

    /// Handles a change of text.
    fn text_changed(&mut self, control: u32, text: String)
        ensures
            final(self)@ == old(self)@.with_state(old(self)@.state.text_changed(control, text@)),
    {
        if control == MESSAGE_INPUT {
            self.state.current_msg = text;
        } else if control == PROJECT_NAME_INPUT {
            match self.state.active_index() {
                Some(active) => {
                    self.state.projects[active].name = text;
                    self.state.projects[active].modified = true;
                },
                None => {},
            }
        } else if control == INSTRUCTIONS_TEXT_INPUT {
            match self.state.active_index() {
                Some(active) => {
                    self.state.projects[active].instructions = text;
                    self.state.projects[active].modified = true;
                },
                None => {},
            }
        } else if control == NEW_FORBIDDEN_FILE_NAME {
            self.state.new_forbidden_file_name = text;
        } else if control == MAX_CONVERSATION_TURNS {
            match parse_u32(text.as_str()) {
                Some(limit) => {
                    self.state.max_conversation_turns = limit;
                },
                None => {},
            }
        } else if control == MAX_CONTEXT_SIZE {
            match parse_u32(text.as_str()) {
                Some(limit) => {
                    self.state.max_context_size = limit;
                },
                None => {},
            }
        }
    }

    /// Handles a choice from a list.
    fn select(&mut self, control: u32, value: String)
        ensures
            final(self)@ == old(self)@.with_state(old(self)@.state.select(control, value@)),
    {
        if control == MODEL_SELECT {
            match self.state.active_index() {
                Some(active) => {
                    self.state.projects[active].model = value;
                    self.state.projects[active].modified = true;
                },
                None => {},
            }
        }
    }

    /// Handles an event of the user interface, as [`AppView::handle_event`] says. The effect
    /// tells the caller what is left to do before the next render.
    pub fn handle_event(&mut self, event: UiEvent) -> (effect: Effect)
        requires
            old(self)@.accepts(event@),
        ensures
            (final(self)@, effect@) == old(self)@.handle_event(event@),
            !(effect is RunTool),
    {
        match event {
            UiEvent::Connected { id } => {
                self.clients.insert(id);
                Effect::Idle
            },
            UiEvent::Disconnected { id } => {
                self.clients.remove(&id);
                Effect::Idle
            },
            UiEvent::Click { control, index } => {
                if control == SEND_MESSAGE_BUTTON {
                    self.send_message()
                } else {
                    self.click(control, index)
                }
            },
            UiEvent::TextChanged { control, text } => {
                self.text_changed(control, text);
                Effect::Idle
            },
            UiEvent::Select { control, value } => {
                self.select(control, value);
                Effect::Idle
            },
            UiEvent::Unrecognized => Effect::Idle,
        }
    }

    /// Takes the user's choice of a folder: the folder becomes the working folder of the
    /// active project, which gives it an unsaved change. Nothing changes where the picker was
    /// closed without a choice, or where no project is active.
    pub fn folder_picked(&mut self, folder: Option<String>)
        ensures
            final(self)@ == old(self)@.with_state(
                old(self)@.state.folder_picked(folder.deep_view()),
            ),
    {
        match folder {
            Some(path) => match self.state.active_index() {
                Some(active) => {
                    self.state.projects[active].folder_path = path;
                    self.state.projects[active].modified = true;
                },
                None => {},
            },
            None => {},
        }
    }
}

} // verus!
