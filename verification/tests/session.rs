use std::sync::Arc;
use tuisample_code::config::{
    Config, FreeTierConfig, LlmConfig, QuotaConfig, ToolsConfig, UiConfig,
};
use tuisample_code::freetier::{enrolment_config, Enrolled};
use tuisample_code::session::{
    AppCall, AppState, ChatRequest, Session, StreamEvent, SystemPrompt, ToolRun, Turn,
    TOOLS_NOT_ENABLED,
};
use tuisample_code::workspace::Workspace;

type Event = StreamEvent<&'static str, &'static str, u64>;
type Call = AppCall<&'static str, &'static str, u64>;

fn config() -> Config<&'static str> {
    Config {
        ui: UiConfig { theme: "light".to_string() },
        llm: LlmConfig {
            endpoint: "https://llm".to_string(),
            model: "large".to_string(),
            api_key: "key".to_string(),
            max_tokens: 2048,
        },
        tools: ToolsConfig {
            enabled: true,
            workspace: "/w".to_string(),
            require_approval: true,
            max_steps: 3,
            rest: Arc::new("other tool settings"),
        },
        quota: QuotaConfig { enabled: true, include_usage: true },
        free_tier: FreeTierConfig {
            enabled: true,
            device_token: "token".to_string(),
            fallback_id: "id".to_string(),
        },
        rest: Arc::new("other settings"),
    }
}

fn workspace() -> Option<Workspace> {
    Some(Workspace { root: "/w".to_string(), broad: false })
}

fn session() -> Session<&'static str, &'static str> {
    Session::new(config(), "free".to_string(), true, &workspace(), "commands run in /w".to_string())
}

fn enrolled() -> Enrolled {
    Enrolled {
        endpoint: "e".to_string(),
        device_token: "t".to_string(),
        model: "m".to_string(),
        fallback_id: "f".to_string(),
        daily_limit: 1,
    }
}

#[test]
fn a_new_session_is_idle() {
    let s = session();
    assert_eq!(s.state, AppState::Idle);
    assert_eq!(s.request_id, 0);
    assert_eq!(s.free_tier_status, "free");
    assert!(s.refresh_budget);
    assert_eq!(s.workspace_status, "commands run in /w");
    assert_eq!(s.workspace_root, "/w");
    assert!(s.approved_tools.is_empty() && s.pending_usage.is_empty());
    assert!(!s.quota_dirty && !s.enrol_requested && !s.should_exit);
    let bare: Session<u8, &'static str> =
        Session::new(config(), String::new(), false, &None, "off — why".to_string());
    assert_eq!(bare.workspace_root, "");
    assert!(!bare.refresh_budget);
}

#[test]
fn events_of_the_current_request_are_delivered() {
    let pairs: Vec<(Event, Call)> = vec![
        (StreamEvent::Token("t".to_string()), AppCall::AppendToken("t".to_string())),
        (StreamEvent::ToolCalls(vec!["a", "b"]), AppCall::RequestTools(vec!["a", "b"])),
        (StreamEvent::ToolsFinished(vec!["x"]), AppCall::FinishTools(vec!["x"])),
        (StreamEvent::Usage(9), AppCall::RecordExactUsage(9)),
        (StreamEvent::Done, AppCall::FinishStream),
        (StreamEvent::Notice("n".to_string()), AppCall::Note("n".to_string())),
        (StreamEvent::Error("e".to_string()), AppCall::FailStream("e".to_string())),
    ];
    for (event, call) in pairs {
        let mut s = session();
        s.request_id = 5;
        assert_eq!(s.receive(5, event), Some(call));
        let mut untouched = session();
        untouched.request_id = 5;
        assert_eq!(s, untouched);
    }
}

#[test]
fn stale_events_are_dropped() {
    let events: Vec<Event> = vec![
        StreamEvent::Token("t".to_string()),
        StreamEvent::ToolCalls(vec!["a"]),
        StreamEvent::ToolsFinished(vec!["x"]),
        StreamEvent::Usage(9),
        StreamEvent::Done,
        StreamEvent::Notice("n".to_string()),
        StreamEvent::Error("e".to_string()),
    ];
    for event in events {
        let mut s = session();
        s.request_id = 5;
        assert_eq!(s.receive(4, event), None);
        assert_eq!(s.free_tier_status, "free");
    }
}

#[test]
fn free_tier_events_count_under_any_id() {
    for id in [0, 4, 5, 6] {
        let mut s = session();
        s.request_id = 5;
        let budget: Event = StreamEvent::FreeTierBudget("$0.10 left".to_string());
        assert_eq!(s.receive(id, budget), None);
        assert_eq!(s.free_tier_status, "$0.10 left");
        let success: Event = StreamEvent::FreeTierEnrolled(enrolled());
        assert_eq!(s.receive(id, success), Some(AppCall::FreeTierEnrolled(enrolled())));
        let failure: Event = StreamEvent::FreeTierFailed("no".to_string());
        assert_eq!(s.receive(id, failure), Some(AppCall::FreeTierFailed("no".to_string())));
    }
}

#[test]
fn usage_is_taken_once_and_in_order() {
    let mut s = session();
    s.pending_usage.push(Turn { tokens: 3, model: "a".to_string() });
    s.pending_usage.push(Turn { tokens: 4, model: "b".to_string() });
    assert_eq!(
        s.take_usage(),
        vec![
            Turn { tokens: 3, model: "a".to_string() },
            Turn { tokens: 4, model: "b".to_string() },
        ]
    );
    assert_eq!(s.take_usage(), Vec::new());
}

#[test]
fn flags_are_taken_once() {
    let mut s = session();
    s.quota_dirty = true;
    assert!(s.take_quota_save());
    assert!(!s.take_quota_save());
    assert!(s.take_budget_refresh());
    assert!(!s.take_budget_refresh());
    assert_eq!(s.take_enrolment(), None);
    s.enrol_requested = true;
    assert_eq!(s.take_enrolment(), Some(enrolment_config(&config())));
    assert_eq!(s.config, config());
    assert_eq!(s.take_enrolment(), None);
}

#[test]
fn a_request_carries_the_settings_and_the_next_id() {
    let mut s = session();
    s.request_id = 41;
    s.state = AppState::Sending;
    s.tool_steps = 2;
    let request = s.start_request(&workspace());
    assert_eq!(
        request,
        Some(ChatRequest {
            id: 42,
            endpoint: "https://llm".to_string(),
            model: "large".to_string(),
            api_key: "key".to_string(),
            max_tokens: 2048,
            include_usage: true,
            offer_tools: true,
            system: Some(SystemPrompt {
                workspace: Workspace { root: "/w".to_string(), broad: false },
                tools: config().tools,
                budget_left: true,
            }),
        })
    );
    assert_eq!(s.request_id, 42);
    assert_eq!(s.state, AppState::Streaming);
    assert_eq!(s.start_request(&workspace()), None);
    assert_eq!(s.request_id, 42);
    let late: Event = StreamEvent::Token("late".to_string());
    assert_eq!(s.receive(41, late), None);
}

#[test]
fn a_spent_budget_withholds_the_tools() {
    for steps in [3, 4] {
        let mut s = session();
        s.state = AppState::Sending;
        s.tool_steps = steps;
        let request = s.start_request(&workspace()).unwrap();
        assert!(!request.offer_tools);
        assert!(!request.system.unwrap().budget_left);
    }
}

#[test]
fn without_a_workspace_there_are_neither_tools_nor_a_system_prompt() {
    let mut s = session();
    s.state = AppState::Sending;
    let request = s.start_request(&None).unwrap();
    assert!(!request.offer_tools);
    assert_eq!(request.system, None);
}

#[test]
fn usage_is_asked_for_only_where_it_counts() {
    for (enabled, include_usage) in [(false, true), (true, false), (false, false)] {
        let mut s = session();
        s.config.quota = QuotaConfig { enabled, include_usage };
        s.state = AppState::Sending;
        assert!(!s.start_request(&None).unwrap().include_usage);
    }
}

#[test]
fn approved_tools_run_in_the_workspace() {
    let mut s = session();
    s.request_id = 6;
    s.state = AppState::ExecutingTools;
    assert_eq!(s.start_tools(&workspace()), None);
    s.approved_tools = vec!["ls", "pwd"];
    assert_eq!(
        s.start_tools(&workspace()),
        Some(Ok(ToolRun {
            id: 6,
            calls: vec!["ls", "pwd"],
            tools: config().tools,
            workspace: Workspace { root: "/w".to_string(), broad: false },
        }))
    );
    assert!(s.approved_tools.is_empty());
    assert_eq!(s.state, AppState::ExecutingTools);
    assert_eq!(s.start_tools(&workspace()), None);
}

#[test]
fn tools_without_a_workspace_are_refused() {
    let mut s = session();
    s.state = AppState::ExecutingTools;
    s.approved_tools = vec!["ls"];
    assert_eq!(
        s.start_tools(&None),
        Some(Err(
            "The model asked to run a command, but the command tool is not enabled.".to_string()
        ))
    );
    assert_eq!(
        TOOLS_NOT_ENABLED,
        "The model asked to run a command, but the command tool is not enabled."
    );
    assert!(s.approved_tools.is_empty());
}

#[test]
fn approved_tools_wait_for_their_state() {
    for state in [AppState::Idle, AppState::Sending, AppState::Streaming] {
        let mut s = session();
        s.state = state;
        s.approved_tools = vec!["ls"];
        assert_eq!(s.start_tools(&workspace()), None);
        assert_eq!(s.approved_tools, vec!["ls"]);
    }
}

fn tool_run() -> ToolRun<&'static str, &'static str> {
    let mut s = session();
    s.request_id = 6;
    s.state = AppState::ExecutingTools;
    s.approved_tools = vec!["ls", "pwd", "ls"];
    s.start_tools(&workspace()).unwrap().unwrap()
}

#[test]
fn each_call_is_run_once_and_has_one_outcome() {
    let run = tool_run();
    let mut calls = Vec::new();
    let mut outcomes = Vec::new();
    while let Some(call) = run.next_call(outcomes.len()) {
        let unfinished: Option<(u64, Event)> = run.finish(outcomes.clone());
        assert_eq!(unfinished, None);
        calls.push(*call);
        outcomes.push(if calls.len() == 3 { "again" } else { "once" });
    }
    assert_eq!(calls, vec!["ls", "pwd", "ls"]);
    let item: Option<(u64, Event)> = run.finish(outcomes);
    assert_eq!(item, Some((6, StreamEvent::ToolsFinished(vec!["once", "once", "again"]))));
    assert_eq!(run.next_call(3), None);
    assert_eq!(run.next_call(usize::MAX), None);
    let too_many: Option<(u64, Event)> = run.finish(vec!["a", "b", "c", "d"]);
    assert_eq!(too_many, None);
}

#[test]
fn tool_outcomes_count_for_the_request_they_were_run_under() {
    let outcomes = || vec!["a", "b", "c"];
    let mut s = session();
    s.request_id = 6;
    let item: Option<(u64, Event)> = tool_run().finish(outcomes());
    let (id, event) = item.unwrap();
    assert_eq!(s.receive(id, event), Some(AppCall::FinishTools(outcomes())));
    let item: Option<(u64, Event)> = tool_run().finish(outcomes());
    let (id, event) = item.unwrap();
    s.state = AppState::Sending;
    s.start_request(&None);
    assert_eq!(s.receive(id, event), None);
}
