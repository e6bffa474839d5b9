use puppycoder::effect::Effect;
use puppycoder::history::History;
use puppycoder::message::{AssistantMsg, Message};
use puppycoder::project::Project;
use puppycoder::request::{build_request, context_window, preamble, GenRequest, ROLE};
use puppycoder::state::App;
use puppycoder::tools::ToolKind;

fn user(text: &str) -> Message {
    Message::User(text.to_string())
}

fn numbered(count: usize) -> History {
    History::from_messages((0..count).map(|i| user(&format!("message {}", i))).collect())
}

fn project(name: &str, instructions: &str) -> Project {
    let mut project = Project::new();
    project.name = name.to_string();
    project.instructions = instructions.to_string();
    project.model = "gpt-4o".to_string();
    project
}

fn app_with(project: Project) -> App {
    let mut app = App::new(vec![project], 7760);
    app.state.active_project = Some(0);
    app
}

fn dispatched(effect: Effect) -> GenRequest {
    match effect {
        Effect::Dispatch(request) => request,
        other => panic!("no request was dispatched: {:?}", other),
    }
}

#[test]
fn new_app_starts_with_the_default_limits() {
    let app = App::new(vec![project("a", ""), project("b", "")], 7777);
    assert_eq!(app.state.projects.len(), 2);
    assert_eq!(app.state.active_project, None);
    assert_eq!(app.state.conversation_turns, 0);
    assert_eq!(app.state.max_conversation_turns, 5);
    assert_eq!(app.state.max_context_size, 20);
    assert_eq!(app.state.current_msg, "");
    assert_eq!(app.state.new_forbidden_file_name, "");
    assert!(app.clients.is_empty());
    assert_eq!(app.port, 7777);
    assert!(app.running());
}

#[test]
fn preamble_holds_role_instructions_and_name() {
    assert_eq!(preamble("", ""), ROLE);
    assert_eq!(
        preamble("Write Python", "snake"),
        format!("{}Instructions: Write Python\nProject name: snake\n", ROLE)
    );
    assert_eq!(preamble("", "snake"), format!("{}Project name: snake\n", ROLE));
    assert_eq!(preamble("Be brief", ""), format!("{}Instructions: Be brief\n", ROLE));
}

#[test]
fn window_holds_the_whole_of_a_short_history() {
    let history = numbered(3);
    let all = vec![user("message 0"), user("message 1"), user("message 2")];
    assert_eq!(context_window(&history, 20), all);
    assert_eq!(context_window(&history, 3), all);
    assert_eq!(context_window(&history, u32::MAX), all);
}

#[test]
fn window_holds_the_newest_entries_of_a_long_history_oldest_first() {
    let history = numbered(25);
    let window = context_window(&history, 20);
    assert_eq!(window.len(), 20);
    for (i, message) in window.iter().enumerate() {
        assert_eq!(*message, user(&format!("message {}", i + 5)));
    }
    assert_eq!(context_window(&history, 2), vec![user("message 23"), user("message 24")]);
    assert_eq!(context_window(&history, 1), vec![user("message 24")]);
}

#[test]
fn window_of_size_zero_or_of_an_empty_history_is_empty() {
    assert_eq!(context_window(&numbered(4), 0), Vec::<Message>::new());
    assert_eq!(context_window(&numbered(0), 20), Vec::<Message>::new());
    assert_eq!(context_window(&numbered(0), 0), Vec::<Message>::new());
}

#[test]
fn window_keeps_equal_messages_apart() {
    let history = History::from_messages(vec![user("a"), user("same"), user("same"), user("b")]);
    assert_eq!(context_window(&history, 3), vec![user("same"), user("same"), user("b")]);
}

#[test]
fn window_does_not_change_the_history() {
    let history = numbered(6);
    let before = history.clone();
    let _ = context_window(&history, 2);
    assert_eq!(history, before);
    assert_eq!(history.len(), 6);
}

#[test]
fn request_for_an_empty_project_carries_the_preamble_alone() {
    let request = build_request(&Project::new(), 20);
    assert_eq!(request.messages, vec![Message::System(ROLE.to_string())]);
    assert_eq!(request.model, "");
    assert_eq!(request.tools, Vec::<ToolKind>::new());
}

#[test]
fn request_offers_the_activated_tools_in_catalog_order() {
    let mut project = project("snake", "");
    project.activated_tools.toggle(ToolKind::WriteFile);
    project.activated_tools.toggle(ToolKind::ExecuteBashCmd);
    let request = build_request(&project, 20);
    assert_eq!(request.tools, vec![ToolKind::ExecuteBashCmd, ToolKind::WriteFile]);
    assert_eq!(request.model, "gpt-4o");
}

#[test]
fn request_holds_preamble_instructions_and_window() {
    let mut project = project("snake", "Write Python");
    project.history = numbered(30);
    let request = build_request(&project, 2);
    assert_eq!(
        request.messages,
        vec![
            Message::System(preamble("Write Python", "snake")),
            Message::System("Write Python".to_string()),
            user("message 28"),
            user("message 29"),
        ]
    );
}

#[test]
fn sending_hello_in_a_project_with_instructions() {
    let mut app = app_with(project("snake", "Write Python"));
    app.state.current_msg = "hello".to_string();
    app.state.conversation_turns = 3;
    let request = dispatched(app.send_message());
    match &request.messages[0] {
        Message::System(text) => {
            assert!(text.contains("Write Python"));
            assert!(text.contains("snake"));
            assert!(text.starts_with(ROLE));
        }
        other => panic!("the first message is no system message: {:?}", other),
    }
    assert_eq!(request.messages.last(), Some(&user("hello")));
    assert_eq!(
        request.messages,
        vec![
            Message::System(format!("{}Instructions: Write Python\nProject name: snake\n", ROLE)),
            Message::System("Write Python".to_string()),
            user("hello"),
        ]
    );
    assert_eq!(app.state.current_msg, "");
    assert_eq!(app.state.conversation_turns, 0);
    assert_eq!(*app.state.projects[0].history.items(), vec![user("hello")]);
    assert!(app.state.projects[0].modified);
}

#[test]
fn sending_hello_in_a_project_without_instructions() {
    let mut app = app_with(project("snake", ""));
    app.state.current_msg = "hello".to_string();
    let request = dispatched(app.send_message());
    assert_eq!(
        request.messages,
        vec![Message::System(format!("{}Project name: snake\n", ROLE)), user("hello")]
    );
    assert_eq!(app.state.current_msg, "");
}

#[test]
fn sending_an_empty_draft_continues_without_a_new_message() {
    let mut first = project("snake", "");
    first.history = numbered(2);
    let mut app = app_with(first);
    app.state.conversation_turns = 4;
    let request = dispatched(app.send_message());
    assert_eq!(app.state.conversation_turns, 0);
    assert_eq!(app.state.projects[0].history.len(), 2);
    assert!(!app.state.projects[0].modified);
    assert_eq!(request.messages.len(), 3);
    assert_eq!(request.messages[1], user("message 0"));
    assert_eq!(request.messages[2], user("message 1"));
}

#[test]
fn sending_without_an_active_project_only_resets_the_turns() {
    let mut app = App::new(vec![project("snake", "")], 7760);
    app.state.current_msg = "hello".to_string();
    app.state.conversation_turns = 5;
    assert_eq!(app.send_message(), Effect::Idle);
    assert_eq!(app.state.conversation_turns, 0);
    assert_eq!(app.state.current_msg, "hello");
    assert_eq!(app.state.projects[0].history.len(), 0);
    assert!(!app.state.projects[0].modified);
    assert_eq!(app.continue_conversation(), None);
}

#[test]
fn sending_resets_the_turns_whatever_they_were() {
    for turns in [0, 1, 5, 6, u32::MAX] {
        let mut app = app_with(project("snake", ""));
        app.state.conversation_turns = turns;
        let _ = app.send_message();
        assert_eq!(app.state.conversation_turns, 0);
    }
}

#[test]
fn an_index_that_names_no_project_means_no_active_project() {
    let mut app = App::new(vec![project("snake", "")], 7760);
    app.state.active_project = Some(1);
    assert!(app.get_active_project().is_none());
    assert_eq!(app.continue_conversation(), None);
    app.state.active_project = Some(0);
    assert_eq!(app.get_active_project().map(|p| p.name.clone()), Some("snake".to_string()));
}

#[test]
fn the_active_project_can_be_changed_through_its_handle() {
    let mut app = App::new(vec![project("a", ""), project("b", "")], 7760);
    app.state.active_project = Some(1);
    if let Some(active) = app.get_active_project() {
        active.folder_path = "/tmp/b".to_string();
    }
    assert_eq!(app.state.projects[1].folder_path, "/tmp/b");
    assert_eq!(app.state.projects[0].folder_path, "");
}

#[test]
fn continuing_uses_the_configured_window_size() {
    let mut first = project("", "");
    first.history = History::from_messages(vec![
        user("one"),
        Message::Assistant(AssistantMsg { content: "two".to_string(), tool_calls: vec![] }),
        user("three"),
    ]);
    let mut app = app_with(first);
    app.state.max_context_size = 1;
    let request = app.continue_conversation().unwrap();
    assert_eq!(request.messages, vec![Message::System(ROLE.to_string()), user("three")]);
}
