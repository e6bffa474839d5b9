use puppycoder::effect::Effect;
use puppycoder::event::{UiEvent, MESSAGE_INPUT, SELECT_PROJECT_LINK, TOOL_CHECKBOX};
use puppycoder::event_loop::{Input, Source, Sources, Step};
use puppycoder::message::AssistantMsg;
use puppycoder::project::Project;
use puppycoder::request::{GenResponse, GenResult};
use puppycoder::state::App;

fn app() -> App {
    let mut app = App::new(vec![Project::new()], 7760);
    app.state.active_project = Some(0);
    app
}

fn answer() -> GenResult {
    GenResult::Response(GenResponse {
        msg: AssistantMsg { content: "hi".to_string(), tool_calls: vec![] },
        prompt_tokens: 1,
        completion_tokens: 1,
        prompt_cost: 1,
        completion_cost: 1,
    })
}

#[test]
fn both_sources_are_open_at_the_start() {
    let sources = Sources::new();
    assert!(sources.is_open(Source::Ui));
    assert!(sources.is_open(Source::Generation));
    assert!(sources.running());
}

#[test]
fn loop_runs_until_both_sources_have_closed() {
    let mut sources = Sources::new();
    sources.close(Source::Generation);
    assert!(sources.is_open(Source::Ui));
    assert!(!sources.is_open(Source::Generation));
    assert!(sources.running());
    sources.close(Source::Generation);
    assert!(sources.running());
    sources.close(Source::Ui);
    assert!(!sources.is_open(Source::Ui));
    assert!(!sources.running());
}

#[test]
fn step_handles_an_event_and_asks_for_a_render() {
    let mut app = app();
    let input = Input::Ui(Some(UiEvent::TextChanged {
        control: MESSAGE_INPUT,
        text: "draft".to_string(),
    }));
    assert!(app.admits(&input));
    assert_eq!(app.step(input), Step { effect: Effect::Idle, render: true });
    assert_eq!(app.state.current_msg, "draft");
    assert!(app.running());
}

#[test]
fn step_handles_a_result_and_asks_for_a_render() {
    let mut app = app();
    let input = Input::Generation(Some(answer()));
    assert!(app.admits(&input));
    assert_eq!(app.step(input), Step { effect: Effect::Idle, render: true });
    assert_eq!(app.state.projects[0].history.len(), 1);
    let failed = Input::Generation(Some(GenResult::Error("down".to_string())));
    assert!(app.admits(&failed));
    assert_eq!(app.step(failed), Step { effect: Effect::Idle, render: true });
    assert_eq!(app.state.projects[0].history.len(), 1);
}

#[test]
fn step_renders_after_an_event_that_changes_nothing() {
    let mut app = App::new(vec![Project::new()], 7760);
    let step = app.step(Input::Ui(Some(UiEvent::Unrecognized)));
    assert_eq!(step, Step { effect: Effect::Idle, render: true });
    let step = app.step(Input::Ui(Some(UiEvent::Click { control: TOOL_CHECKBOX, index: None })));
    assert_eq!(step, Step { effect: Effect::Idle, render: true });
    assert_eq!(app.state.projects, vec![Project::new()]);
    assert_eq!(app.state.active_project, None);
}

#[test]
fn step_closes_a_source_without_a_render() {
    let mut app = app();
    assert_eq!(app.step(Input::Ui(None)), Step { effect: Effect::Idle, render: false });
    assert!(app.running());
    assert!(!app.sources.is_open(Source::Ui));
    assert!(app.sources.is_open(Source::Generation));
    assert_eq!(app.step(Input::Generation(None)), Step { effect: Effect::Idle, render: false });
    assert!(!app.running());
    assert_eq!(app.state.projects, vec![Project::new()]);
}

#[test]
fn step_admits_only_what_can_be_handled() {
    let mut app = app();
    assert!(!app.admits(&Input::Ui(Some(UiEvent::Click {
        control: SELECT_PROJECT_LINK,
        index: None,
    }))));
    assert!(app.admits(&Input::Ui(None)));
    assert!(app.admits(&Input::Generation(None)));
    app.state.projects[0].input_token_count = u64::MAX;
    assert!(!app.admits(&Input::Generation(Some(answer()))));
    assert!(app.admits(&Input::Generation(Some(GenResult::Error("x".to_string())))));
}
