use std::sync::Arc;
use tuisample_code::config::{
    Config, FreeTierConfig, LlmConfig, QuotaConfig, ToolsConfig, UiConfig,
};
use tuisample_code::workspace::{open_workspace, workspace_to_open, Workspace};

fn config(enabled: bool, require_approval: bool) -> Config<&'static str> {
    Config {
        ui: UiConfig { theme: "auto".to_string() },
        llm: LlmConfig {
            endpoint: "https://llm.internal:8443".to_string(),
            model: "small".to_string(),
            api_key: "key".to_string(),
            max_tokens: 1024,
        },
        tools: ToolsConfig {
            enabled,
            workspace: "/srv/project".to_string(),
            require_approval,
            max_steps: 8,
            rest: Arc::new("other tool settings"),
        },
        quota: QuotaConfig { enabled: false, include_usage: true },
        free_tier: FreeTierConfig {
            enabled: false,
            device_token: String::new(),
            fallback_id: String::new(),
        },
        rest: Arc::new("other settings"),
    }
}

fn opened(broad: bool) -> Option<Result<Workspace, String>> {
    Some(Ok(Workspace { root: "/srv/project".to_string(), broad }))
}

#[test]
fn only_enabled_tools_open_a_workspace() {
    assert_eq!(workspace_to_open(&config(true, true)), Some("/srv/project".to_string()));
    assert_eq!(workspace_to_open(&config(false, true)), None);
}

#[test]
fn disabled_tools_say_so() {
    let (workspace, status) = open_workspace(&config(false, true), None);
    assert_eq!(workspace, None);
    assert_eq!(status, "off (enabled = false in config.toml)");
}

#[test]
fn an_ordinary_workspace_is_described_plainly() {
    let (workspace, status) = open_workspace(&config(true, true), opened(false));
    assert_eq!(workspace, Some(Workspace { root: "/srv/project".to_string(), broad: false }));
    assert_eq!(status, "commands run in /srv/project");
}

#[test]
fn warnings_follow_in_order() {
    assert_eq!(
        open_workspace(&config(true, false), opened(false)).1,
        "commands run in /srv/project — UNATTENDED, no approval prompt"
    );
    assert_eq!(
        open_workspace(&config(true, true), opened(true)).1,
        "commands run in /srv/project — this is a very broad directory"
    );
    assert_eq!(
        open_workspace(&config(true, false), opened(true)).1,
        "commands run in /srv/project — UNATTENDED, no approval prompt — this is a very broad directory"
    );
}

#[test]
fn a_workspace_that_cannot_be_opened_is_off() {
    let (workspace, status) =
        open_workspace(&config(true, true), Some(Err("no such directory".to_string())));
    assert_eq!(workspace, None);
    assert_eq!(status, "off — no such directory");
}

#[test]
fn off_stands_first_exactly_without_a_workspace() {
    let outcomes = vec![
        open_workspace(&config(false, true), None),
        open_workspace(&config(true, true), Some(Err(String::new()))),
        open_workspace(&config(true, true), opened(false)),
        open_workspace(&config(true, false), opened(true)),
    ];
    for (workspace, status) in outcomes {
        assert_eq!(workspace.is_none(), status.starts_with("off"));
    }
}
