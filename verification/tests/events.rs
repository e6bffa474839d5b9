use puppycoder::effect::Effect;
use puppycoder::event::{
    UiEvent, DELETE_FORBIDDEN_FILE_BUTTON, INSTRUCTIONS_TEXT_INPUT, MAX_CONTEXT_SIZE,
    MAX_CONVERSATION_TURNS, MESSAGE_INPUT, MODEL_SELECT, NEW_FORBIDDEN_FILE_BUTTON,
    NEW_FORBIDDEN_FILE_NAME, NEW_PROJECT_BUTTON, PROJECT_NAME_INPUT, SAVE_PROJECT_BUTTON,
    SELECT_PROJECT_FOLDER, SELECT_PROJECT_LINK, SEND_MESSAGE_BUTTON, TOOL_CHECKBOX,
};
use puppycoder::message::Message;
use puppycoder::project::Project;
use puppycoder::state::{App, State};
use puppycoder::tools::ToolKind;

fn named(name: &str) -> Project {
    let mut project = Project::new();
    project.name = name.to_string();
    project
}

fn app() -> App {
    let mut app = App::new(vec![named("first"), named("second")], 7760);
    app.state.active_project = Some(1);
    app
}

fn idle_app() -> App {
    App::new(vec![named("first"), named("second")], 7760)
}

fn click(control: u32, index: Option<u32>) -> UiEvent {
    UiEvent::Click { control, index }
}

fn text(control: u32, text: &str) -> UiEvent {
    UiEvent::TextChanged { control, text: text.to_string() }
}

fn snapshot(app: &App) -> (State, Vec<usize>) {
    let state = State {
        projects: app.state.projects.clone(),
        active_project: app.state.active_project,
        conversation_turns: app.state.conversation_turns,
        max_conversation_turns: app.state.max_conversation_turns,
        max_context_size: app.state.max_context_size,
        current_msg: app.state.current_msg.clone(),
        new_forbidden_file_name: app.state.new_forbidden_file_name.clone(),
    };
    let mut clients: Vec<usize> = app.clients.iter().copied().collect();
    clients.sort();
    (state, clients)
}

fn handle(app: &mut App, event: UiEvent) -> Effect {
    assert!(app.accepts(&event));
    app.handle_event(event)
}

#[test]
fn clients_connect_and_disconnect() {
    let mut app = app();
    assert_eq!(handle(&mut app, UiEvent::Connected { id: 7 }), Effect::Idle);
    assert_eq!(handle(&mut app, UiEvent::Connected { id: 9 }), Effect::Idle);
    assert_eq!(handle(&mut app, UiEvent::Connected { id: 7 }), Effect::Idle);
    assert_eq!(snapshot(&app).1, vec![7, 9]);
    assert_eq!(handle(&mut app, UiEvent::Disconnected { id: 7 }), Effect::Idle);
    assert_eq!(handle(&mut app, UiEvent::Disconnected { id: 3 }), Effect::Idle);
    assert_eq!(snapshot(&app).1, vec![9]);
}

#[test]
fn project_link_selects_the_project() {
    let mut app = idle_app();
    assert_eq!(handle(&mut app, click(SELECT_PROJECT_LINK, Some(1))), Effect::Idle);
    assert_eq!(app.state.active_project, Some(1));
    assert_eq!(app.get_active_project().map(|p| p.name.clone()), Some("second".to_string()));
    assert_eq!(handle(&mut app, click(SELECT_PROJECT_LINK, Some(5))), Effect::Idle);
    assert_eq!(app.state.active_project, Some(5));
    assert!(app.get_active_project().is_none());
    assert!(!app.state.projects[0].modified && !app.state.projects[1].modified);
}

#[test]
fn project_link_needs_an_index() {
    let app = app();
    assert!(!app.accepts(&click(SELECT_PROJECT_LINK, None)));
    assert!(app.accepts(&click(SELECT_PROJECT_LINK, Some(0))));
}

#[test]
fn send_button_sends_the_draft() {
    let mut app = app();
    handle(&mut app, text(MESSAGE_INPUT, "hello"));
    assert_eq!(app.state.current_msg, "hello");
    app.state.conversation_turns = 4;
    let effect = handle(&mut app, click(SEND_MESSAGE_BUTTON, None));
    match effect {
        Effect::Dispatch(request) => {
            assert_eq!(request.messages.last(), Some(&Message::User("hello".to_string())));
        }
        other => panic!("no request was dispatched: {:?}", other),
    }
    assert_eq!(app.state.current_msg, "");
    assert_eq!(app.state.conversation_turns, 0);
    assert_eq!(app.state.projects[1].history.len(), 1);
    assert_eq!(app.state.projects[0].history.len(), 0);
}

#[test]
fn tool_checkbox_toggles_the_tool_and_nothing_else() {
    let mut app = app();
    assert_eq!(handle(&mut app, click(TOOL_CHECKBOX, Some(2))), Effect::Idle);
    assert!(app.state.projects[1].activated_tools.contains(ToolKind::WriteFile));
    assert!(!app.state.projects[1].activated_tools.contains(ToolKind::ReadFile));
    assert!(!app.state.projects[1].modified);
    assert_eq!(app.state.projects[0], named("first"));
    handle(&mut app, click(TOOL_CHECKBOX, Some(0)));
    handle(&mut app, click(TOOL_CHECKBOX, Some(2)));
    assert!(!app.state.projects[1].activated_tools.contains(ToolKind::WriteFile));
    assert!(app.state.projects[1].activated_tools.contains(ToolKind::ExecuteBashCmd));
}

#[test]
fn tool_checkbox_needs_an_index_within_the_catalog() {
    let app = app();
    assert!(app.accepts(&click(TOOL_CHECKBOX, Some(3))));
    assert!(!app.accepts(&click(TOOL_CHECKBOX, Some(4))));
    assert!(!app.accepts(&click(TOOL_CHECKBOX, None)));
    let idle = idle_app();
    assert!(idle.accepts(&click(TOOL_CHECKBOX, Some(4))));
    assert!(idle.accepts(&click(TOOL_CHECKBOX, None)));
}

#[test]
fn folder_button_asks_for_a_folder() {
    let mut app = app();
    let before = snapshot(&app);
    assert_eq!(handle(&mut app, click(SELECT_PROJECT_FOLDER, None)), Effect::PickFolder);
    assert_eq!(snapshot(&app), before);
    app.folder_picked(Some("/home/me/code".to_string()));
    assert_eq!(app.state.projects[1].folder_path, "/home/me/code");
    assert!(app.state.projects[1].modified);
    assert_eq!(app.state.projects[0], named("first"));
}

#[test]
fn closing_the_folder_picker_changes_nothing() {
    let mut app = app();
    let before = snapshot(&app);
    app.folder_picked(None);
    assert_eq!(snapshot(&app), before);
    let mut idle = idle_app();
    let before = snapshot(&idle);
    assert_eq!(handle(&mut idle, click(SELECT_PROJECT_FOLDER, None)), Effect::PickFolder);
    idle.folder_picked(Some("/home/me/code".to_string()));
    assert_eq!(snapshot(&idle), before);
}

#[test]
fn new_project_button_adds_an_unsaved_empty_project() {
    let mut app = idle_app();
    assert_eq!(handle(&mut app, click(NEW_PROJECT_BUTTON, None)), Effect::Idle);
    assert_eq!(app.state.projects.len(), 3);
    let mut expected = Project::new();
    expected.modified = true;
    assert_eq!(app.state.projects[2], expected);
    assert_eq!(app.state.projects[0], named("first"));
    assert_eq!(app.state.active_project, None);
}

#[test]
fn save_button_clears_the_unsaved_flag_and_hands_over_the_record() {
    let mut app = app();
    handle(&mut app, text(PROJECT_NAME_INPUT, "renamed"));
    assert!(app.state.projects[1].modified);
    let effect = handle(&mut app, click(SAVE_PROJECT_BUTTON, None));
    assert!(!app.state.projects[1].modified);
    assert_eq!(effect, Effect::SaveProject(named("renamed")));
}

#[test]
fn forbidden_file_is_added_from_the_typed_name() {
    let mut app = app();
    handle(&mut app, text(NEW_FORBIDDEN_FILE_NAME, ".env"));
    assert_eq!(app.state.new_forbidden_file_name, ".env");
    assert_eq!(app.state.projects[1], named("second"));
    assert_eq!(handle(&mut app, click(NEW_FORBIDDEN_FILE_BUTTON, None)), Effect::Idle);
    handle(&mut app, text(NEW_FORBIDDEN_FILE_NAME, "secrets.toml"));
    handle(&mut app, click(NEW_FORBIDDEN_FILE_BUTTON, None));
    assert_eq!(app.state.projects[1].forbidden_files, vec![".env", "secrets.toml"]);
    assert!(app.state.projects[1].modified);
    assert_eq!(app.state.new_forbidden_file_name, "secrets.toml");
    assert_eq!(app.state.projects[0], named("first"));
}

#[test]
fn forbidden_file_is_removed_by_position() {
    let mut app = app();
    app.state.projects[1].forbidden_files =
        vec!["a".to_string(), "b".to_string(), "c".to_string()];
    assert!(!app.accepts(&click(DELETE_FORBIDDEN_FILE_BUTTON, Some(3))));
    assert!(!app.accepts(&click(DELETE_FORBIDDEN_FILE_BUTTON, None)));
    assert_eq!(handle(&mut app, click(DELETE_FORBIDDEN_FILE_BUTTON, Some(1))), Effect::Idle);
    assert_eq!(app.state.projects[1].forbidden_files, vec!["a", "c"]);
    assert!(app.state.projects[1].modified);
}

#[test]
fn name_instructions_and_model_are_set_on_the_active_project() {
    let mut app = app();
    handle(&mut app, text(PROJECT_NAME_INPUT, "snake"));
    assert_eq!(app.state.projects[1].name, "snake");
    assert!(app.state.projects[1].modified);
    app.state.projects[1].modified = false;
    handle(&mut app, text(INSTRUCTIONS_TEXT_INPUT, "Write Python"));
    assert_eq!(app.state.projects[1].instructions, "Write Python");
    assert!(app.state.projects[1].modified);
    app.state.projects[1].modified = false;
    let select = UiEvent::Select { control: MODEL_SELECT, value: "gpt-4o".to_string() };
    assert_eq!(handle(&mut app, select), Effect::Idle);
    assert_eq!(app.state.projects[1].model, "gpt-4o");
    assert!(app.state.projects[1].modified);
    assert_eq!(app.state.projects[0], named("first"));
    assert_eq!(app.state.current_msg, "");
}

#[test]
fn limits_are_set_from_numbers() {
    let mut app = app();
    handle(&mut app, text(MAX_CONVERSATION_TURNS, "12"));
    assert_eq!(app.state.max_conversation_turns, 12);
    assert_eq!(app.state.max_context_size, 20);
    handle(&mut app, text(MAX_CONTEXT_SIZE, "3"));
    assert_eq!(app.state.max_context_size, 3);
    handle(&mut app, text(MAX_CONTEXT_SIZE, "0"));
    assert_eq!(app.state.max_context_size, 0);
    assert_eq!(app.state.max_conversation_turns, 12);
    assert!(!app.state.projects[1].modified);
}

#[test]
fn malformed_limits_are_ignored() {
    for bad in ["", "abc", "-1", "1.5", "4294967296", " 7", "7 turns"] {
        let mut app = app();
        let before = snapshot(&app);
        assert_eq!(handle(&mut app, text(MAX_CONVERSATION_TURNS, bad)), Effect::Idle);
        assert_eq!(handle(&mut app, text(MAX_CONTEXT_SIZE, bad)), Effect::Idle);
        assert_eq!(snapshot(&app), before);
    }
}

#[test]
fn project_actions_without_an_active_project_change_nothing() {
    let events = || {
        vec![
            click(TOOL_CHECKBOX, Some(0)),
            click(SAVE_PROJECT_BUTTON, None),
            click(NEW_FORBIDDEN_FILE_BUTTON, None),
            click(DELETE_FORBIDDEN_FILE_BUTTON, Some(0)),
            text(PROJECT_NAME_INPUT, "x"),
            text(INSTRUCTIONS_TEXT_INPUT, "x"),
            UiEvent::Select { control: MODEL_SELECT, value: "x".to_string() },
        ]
    };
    for active in [None, Some(2), Some(usize::MAX)] {
        for event in events() {
            let mut app = idle_app();
            app.state.active_project = active;
            let before = snapshot(&app);
            assert_eq!(handle(&mut app, event), Effect::Idle);
            assert_eq!(snapshot(&app), before);
        }
    }
}

#[test]
fn unknown_events_and_controls_change_nothing() {
    let events = vec![
        UiEvent::Unrecognized,
        click(0, None),
        click(99, Some(1)),
        click(MESSAGE_INPUT, Some(0)),
        text(0, "x"),
        text(SEND_MESSAGE_BUTTON, "x"),
        text(MODEL_SELECT, "x"),
        UiEvent::Select { control: 0, value: "x".to_string() },
        UiEvent::Select { control: PROJECT_NAME_INPUT, value: "x".to_string() },
    ];
    for event in events {
        let mut app = app();
        let before = snapshot(&app);
        assert_eq!(handle(&mut app, event), Effect::Idle);
        assert_eq!(snapshot(&app), before);
    }
}

#[test]
fn control_identifiers_are_distinct() {
    let mut ids = vec![
        SELECT_PROJECT_LINK,
        SEND_MESSAGE_BUTTON,
        TOOL_CHECKBOX,
        SELECT_PROJECT_FOLDER,
        NEW_PROJECT_BUTTON,
        SAVE_PROJECT_BUTTON,
        NEW_FORBIDDEN_FILE_BUTTON,
        DELETE_FORBIDDEN_FILE_BUTTON,
        MESSAGE_INPUT,
        PROJECT_NAME_INPUT,
        INSTRUCTIONS_TEXT_INPUT,
        NEW_FORBIDDEN_FILE_NAME,
        MAX_CONVERSATION_TURNS,
        MAX_CONTEXT_SIZE,
        MODEL_SELECT,
    ];
    ids.sort();
    ids.dedup();
    assert_eq!(ids.len(), 15);
}
