use std::sync::Arc;
use tuisample_code::config::{
    Config, FreeTierConfig, LlmConfig, QuotaConfig, ToolsConfig, UiConfig,
};
use tuisample_code::event_loop::{
    Action, Ending, EventLoop, Reply, Stage, CHANNEL_CAPACITY, POLL_MILLIS,
};
use tuisample_code::freetier::enrolment_config;
use tuisample_code::input::{InputEvent, KeyCode, KeyInput, KeyKind};
use tuisample_code::session::{AppCall, AppState, Session, StreamEvent, Turn, TOOLS_NOT_ENABLED};
use tuisample_code::workspace::Workspace;

type Does = Action<char, &'static str, &'static str, u64, &'static str>;
type Says = Reply<char, &'static str, &'static str, u64>;

fn config() -> Config<&'static str> {
    Config {
        ui: UiConfig { theme: "light".to_string() },
        llm: LlmConfig {
            endpoint: "https://llm".to_string(),
            model: "large".to_string(),
            api_key: "key".to_string(),
            max_tokens: 2048,
        },
        tools: ToolsConfig {
            enabled: true,
            workspace: "/w".to_string(),
            require_approval: true,
            max_steps: 3,
            rest: Arc::new("other tool settings"),
        },
        quota: QuotaConfig { enabled: true, include_usage: true },
        free_tier: FreeTierConfig {
            enabled: true,
            device_token: "token".to_string(),
            fallback_id: "id".to_string(),
        },
        rest: Arc::new("other settings"),
    }
}

fn workspace() -> Option<Workspace> {
    Some(Workspace { root: "/w".to_string(), broad: false })
}

fn session() -> Session<&'static str, &'static str> {
    Session::new(config(), String::new(), false, &workspace(), String::new())
}

fn at(stage: Stage) -> EventLoop {
    EventLoop { stage, workspace: workspace() }
}

fn typed(c: char, modifiers: u8) -> Says {
    Reply::Input(Some(InputEvent::Key(KeyInput {
        kind: KeyKind::Press,
        modifiers,
        code: KeyCode::Char(c),
        key: c,
    })))
}

#[test]
fn the_loop_waits_and_queues_as_documented() {
    assert_eq!(POLL_MILLIS, 16);
    assert_eq!(CHANNEL_CAPACITY, 256);
}

#[test]
fn an_idle_frame_draws_polls_and_receives() {
    let mut event_loop = EventLoop::new(None);
    let mut s = session();
    for _ in 0..3 {
        let draw: Does = event_loop.step(&mut s, Reply::Received(None));
        assert_eq!(draw, Action::Draw);
        let poll: Does = event_loop.step(&mut s, Reply::Done);
        assert_eq!(poll, Action::Poll(16));
        let receive: Does = event_loop.step(&mut s, Reply::Input(None));
        assert_eq!(receive, Action::Receive);
    }
    assert_eq!(s, session());
}

#[test]
fn keys_and_pastes_go_to_the_application() {
    let mut s = session();
    let mut event_loop = at(Stage::Polling);
    assert_eq!(event_loop.step(&mut s, typed('a', 0)), Does::HandleKey('a'));
    assert_eq!(event_loop.step(&mut s, Says::Done), Does::Receive);
    let mut event_loop = at(Stage::Polling);
    let paste = Says::Input(Some(InputEvent::Paste("text".to_string())));
    assert_eq!(event_loop.step(&mut s, paste), Does::HandlePaste("text".to_string()));
    let mut event_loop = at(Stage::Polling);
    assert_eq!(event_loop.step(&mut s, Says::Input(Some(InputEvent::Other))), Does::Receive);
}

#[test]
fn control_c_leaves_at_once() {
    let mut s = session();
    s.quota_dirty = true;
    s.pending_usage.push(Turn { tokens: 1, model: "m".to_string() });
    let mut event_loop = at(Stage::Polling);
    assert_eq!(event_loop.step(&mut s, typed('c', 2)), Does::Stop(Ending::Quit));
    assert!(s.quota_dirty);
    assert_eq!(s.pending_usage.len(), 1);
    assert_eq!(event_loop.step(&mut s, Says::Done), Does::Stop(Ending::Quit));
}

#[test]
fn a_failing_terminal_ends_the_loop() {
    for stage in [Stage::Drawing, Stage::Polling] {
        let mut event_loop = at(stage);
        assert_eq!(event_loop.step(&mut session(), Says::Failed), Does::Stop(Ending::Failed));
    }
}

#[test]
fn every_waiting_event_is_taken_in() {
    let mut s = session();
    s.request_id = 2;
    let mut event_loop = at(Stage::Draining);
    let queue: Vec<(u64, StreamEvent<&'static str, &'static str, u64>)> = vec![
        (2, StreamEvent::Token("a".to_string())),
        (1, StreamEvent::Token("stale".to_string())),
        (0, StreamEvent::FreeTierBudget("$1 left".to_string())),
        (2, StreamEvent::Token("b".to_string())),
        (0, StreamEvent::FreeTierFailed("no".to_string())),
        (1, StreamEvent::Done),
        (2, StreamEvent::Done),
    ];
    let mut calls = Vec::new();
    for item in queue {
        let mut action = event_loop.step(&mut s, Says::Received(Some(item)));
        if let Action::Call(call) = action {
            calls.push(call);
            action = event_loop.step(&mut s, Says::Done);
        }
        assert_eq!(action, Does::Receive);
    }
    assert_eq!(
        calls,
        vec![
            AppCall::AppendToken("a".to_string()),
            AppCall::AppendToken("b".to_string()),
            AppCall::FreeTierFailed("no".to_string()),
            AppCall::FinishStream,
        ]
    );
    assert_eq!(s.free_tier_status, "$1 left");
}

#[test]
fn duties_are_seen_to_in_order() {
    let mut s = session();
    s.pending_usage.push(Turn { tokens: 5, model: "m".to_string() });
    s.quota_dirty = true;
    s.enrol_requested = true;
    s.refresh_budget = true;
    s.state = AppState::Sending;
    s.approved_tools = vec!["ls"];
    s.should_exit = true;
    let mut event_loop = at(Stage::Draining);
    assert_eq!(
        event_loop.step(&mut s, Says::Received(None)),
        Does::RecordTurns(vec![Turn { tokens: 5, model: "m".to_string() }])
    );
    assert_eq!(event_loop.step(&mut s, Says::Done), Does::SaveQuota);
    assert_eq!(event_loop.step(&mut s, Says::Done), Does::Enrol(enrolment_config(&config())));
    assert_eq!(event_loop.step(&mut s, Says::Done), Does::CheckFreeTier);
    assert_eq!(event_loop.step(&mut s, Says::FreeTier(true)), Does::FetchBudget(0, config()));
    match event_loop.step(&mut s, Says::Done) {
        Action::StartRequest(request) => assert_eq!(request.id, 1),
        other => panic!("unexpected {other:?}"),
    }
    assert_eq!(s.approved_tools, vec!["ls"]);
    assert_eq!(event_loop.step(&mut s, Says::Done), Does::Stop(Ending::Exit));
    assert_eq!(s.state, AppState::Streaming);
}

#[test]
fn the_budget_is_fetched_on_the_free_tier_only() {
    let mut s = session();
    s.refresh_budget = true;
    let mut event_loop = at(Stage::Draining);
    assert_eq!(event_loop.step(&mut s, Says::Received(None)), Does::CheckFreeTier);
    assert!(!s.refresh_budget);
    assert_eq!(event_loop.step(&mut s, Says::FreeTier(false)), Does::Draw);
}

#[test]
fn tools_are_run_or_refused_before_the_frame_ends() {
    let mut s = session();
    s.request_id = 3;
    s.state = AppState::ExecutingTools;
    s.approved_tools = vec!["ls"];
    let mut event_loop = at(Stage::Draining);
    match event_loop.step(&mut s, Says::Received(None)) {
        Action::RunTools(run) => {
            assert_eq!(run.id, 3);
            assert_eq!(run.calls, vec!["ls"]);
        }
        other => panic!("unexpected {other:?}"),
    }
    assert_eq!(event_loop.step(&mut s, Says::Done), Does::Draw);

    s.approved_tools = vec!["ls"];
    let mut bare = EventLoop { stage: Stage::Draining, workspace: None };
    assert_eq!(
        bare.step(&mut s, Says::Received(None)),
        Does::Call(AppCall::FailStream(TOOLS_NOT_ENABLED.to_string()))
    );
    assert!(s.approved_tools.is_empty());
    s.should_exit = true;
    assert_eq!(bare.step(&mut s, Says::Done), Does::Stop(Ending::Exit));
}

#[test]
fn replies_that_bring_nothing_count_as_nothing() {
    let mut s = session();
    assert_eq!(at(Stage::Polling).step(&mut s, Says::Done), Does::Receive);
    assert_eq!(at(Stage::Draining).step(&mut s, Says::Done), Does::Draw);
    assert_eq!(at(Stage::Checking).step(&mut s, Says::Done), Does::Draw);
    assert_eq!(at(Stage::Recording).step(&mut s, Says::Failed), Does::Draw);
}

/// Runs the loop from the moment that no background event is left to the end of the frame.
fn rest_of_frame(
    event_loop: &mut EventLoop,
    s: &mut Session<&'static str, &'static str>,
    on_free_tier: bool,
) -> Vec<Does> {
    let mut actions = Vec::new();
    let mut reply = Says::Received(None);
    while event_loop.stage == Stage::Draining
        || !matches!(actions.last(), Some(Action::Draw | Action::Stop(_)))
    {
        let action = event_loop.step(s, reply);
        reply = match action {
            Action::CheckFreeTier => Says::FreeTier(on_free_tier),
            _ => Says::Done,
        };
        actions.push(action);
    }
    actions
}

#[test]
fn turns_and_quota_go_out_once() {
    let turns = || {
        vec![
            Turn { tokens: 5, model: "a".to_string() },
            Turn { tokens: 6, model: "b".to_string() },
        ]
    };
    let mut s = session();
    s.pending_usage = turns();
    s.quota_dirty = true;
    let mut event_loop = at(Stage::Draining);
    assert_eq!(
        rest_of_frame(&mut event_loop, &mut s, false),
        vec![Does::RecordTurns(turns()), Does::SaveQuota, Does::Draw]
    );
    assert_eq!(s, session());
    assert_eq!(rest_of_frame(&mut at(Stage::Draining), &mut s, false), vec![Does::Draw]);

    s.pending_usage = turns();
    assert_eq!(
        rest_of_frame(&mut at(Stage::Draining), &mut s, false),
        vec![Does::RecordTurns(turns()), Does::Draw]
    );
    s.quota_dirty = true;
    s.should_exit = true;
    assert_eq!(
        rest_of_frame(&mut at(Stage::Draining), &mut s, false),
        vec![Does::SaveQuota, Does::Stop(Ending::Exit)]
    );
}

#[test]
fn a_frame_leaves_nothing_due() {
    let mut s = session();
    s.pending_usage.push(Turn { tokens: 5, model: "m".to_string() });
    s.quota_dirty = true;
    s.enrol_requested = true;
    s.refresh_budget = true;
    s.state = AppState::ExecutingTools;
    s.approved_tools = vec!["ls"];
    let actions = rest_of_frame(&mut at(Stage::Draining), &mut s, true);
    assert_eq!(actions.len(), 7);
    assert_eq!(actions[1], Does::SaveQuota);
    assert_eq!(actions[2], Does::Enrol(enrolment_config(&config())));
    assert_eq!(actions[3], Does::CheckFreeTier);
    assert_eq!(actions[4], Does::FetchBudget(0, config()));
    match &actions[5] {
        Action::RunTools(run) => assert_eq!(run.tools, config().tools),
        other => panic!("unexpected {other:?}"),
    }
    assert_eq!(actions[6], Does::Draw);
    assert_eq!(s.state, AppState::ExecutingTools);
    s.state = AppState::Idle;
    assert_eq!(s, session());
}

#[test]
fn staleness_is_judged_when_an_event_is_taken_in() {
    let mut s = session();
    s.request_id = 1;
    let mut event_loop = at(Stage::Draining);
    let token = |id: u64| Says::Received(Some((id, StreamEvent::Token(id.to_string()))));
    assert_eq!(
        event_loop.step(&mut s, token(1)),
        Does::Call(AppCall::AppendToken("1".to_string()))
    );
    s.request_id = 2;
    assert_eq!(event_loop.step(&mut s, Says::Done), Does::Receive);
    assert_eq!(event_loop.step(&mut s, token(1)), Does::Receive);
    assert_eq!(
        event_loop.step(&mut s, token(2)),
        Does::Call(AppCall::AppendToken("2".to_string()))
    );
}

#[test]
fn settings_that_are_only_passed_on_reach_the_tasks() {
    let mut s = session();
    s.state = AppState::Sending;
    match at(Stage::Draining).step(&mut s, Says::Received(None)) {
        Action::StartRequest(request) => {
            let system = request.system.unwrap();
            assert_eq!(system.tools.rest, Arc::new("other tool settings"));
        }
        other => panic!("unexpected {other:?}"),
    }
    s.enrol_requested = true;
    match at(Stage::Draining).step(&mut s, Says::Received(None)) {
        Does::Enrol(config) => assert_eq!(config.rest, Arc::new("other settings")),
        other => panic!("unexpected {other:?}"),
    }
}

#[test]
fn a_spent_counter_shuts_out_nothing_but_a_request() {
    let mut s = session();
    s.state = AppState::Sending;
    s.request_id = u64::MAX;
    let mut event_loop = at(Stage::Drawing);
    assert!(!event_loop.starts_request(&s, &Says::Done));
    assert_eq!(event_loop.step(&mut s, Says::Done), Does::Poll(16));
    assert!(!event_loop.starts_request(&s, &typed('c', 2)));
    assert_eq!(event_loop.step(&mut s, typed('c', 2)), Does::Stop(Ending::Quit));
    s.quota_dirty = true;
    let mut event_loop = at(Stage::Draining);
    assert!(!event_loop.starts_request(&s, &Says::Received(None)));
    assert_eq!(event_loop.step(&mut s, Says::Received(None)), Does::SaveQuota);
    assert!(event_loop.starts_request(&s, &Says::Done));
}

#[test]
fn a_request_is_foreseen_exactly_where_it_starts() {
    for stage in [
        Stage::Drawing,
        Stage::Polling,
        Stage::Delivering,
        Stage::Draining,
        Stage::Recording,
        Stage::Saving,
        Stage::Enrolling,
        Stage::Checking,
        Stage::Fetching,
        Stage::Requesting,
        Stage::Running,
    ] {
        for flag in 0..6 {
            let mut s = session();
            s.state = if flag == 5 { AppState::Idle } else { AppState::Sending };
            if flag == 1 {
                s.pending_usage.push(Turn { tokens: 1, model: "m".to_string() });
            }
            s.quota_dirty = flag == 2;
            s.enrol_requested = flag == 3;
            s.refresh_budget = flag == 4;
            let mut event_loop = at(stage);
            let foreseen = event_loop.starts_request(&s, &Says::Done);
            let action = event_loop.step(&mut s, Says::Done);
            assert_eq!(foreseen, matches!(action, Action::StartRequest(_)));
        }
    }
    let s = {
        let mut s = session();
        s.state = AppState::Sending;
        s
    };
    assert!(!at(Stage::Checking).starts_request(&s, &Says::FreeTier(true)));
    let waiting = Says::Received(Some((0, StreamEvent::Done)));
    assert!(!at(Stage::Draining).starts_request(&s, &waiting));
}
