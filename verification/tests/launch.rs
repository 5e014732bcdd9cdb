use std::sync::Arc;
use tuisample_code::cli::{help_text, Exit, Report};
use tuisample_code::config::{
    Config, FreeTierConfig, LlmConfig, QuotaConfig, ToolsConfig, UiConfig,
};
use tuisample_code::event_loop::{EventLoop, Stage};
use tuisample_code::freetier::Enrolment;
use tuisample_code::launch::{advance, begin, LaunchReply, LaunchStage, Move, Preparation, Task};
use tuisample_code::session::Session;
use tuisample_code::workspace::Workspace;

type Next = Move<u8, &'static str>;

fn config(tools: bool, quota: bool) -> Config<&'static str> {
    Config {
        ui: UiConfig { theme: "dark".to_string() },
        llm: LlmConfig {
            endpoint: "https://llm".to_string(),
            model: "large".to_string(),
            api_key: String::new(),
            max_tokens: 2048,
        },
        tools: ToolsConfig {
            enabled: tools,
            workspace: "/w".to_string(),
            require_approval: true,
            max_steps: 3,
            rest: Arc::new("other tool settings"),
        },
        quota: QuotaConfig { enabled: quota, include_usage: true },
        free_tier: FreeTierConfig {
            enabled: true,
            device_token: String::new(),
            fallback_id: String::new(),
        },
        rest: Arc::new("other settings"),
    }
}

fn start(args: &[&str]) -> Next {
    begin(&args.iter().map(|arg| arg.to_string()).collect::<Vec<String>>(), "0.1.0")
}

fn go(next: Next) -> (LaunchStage<&'static str>, Task<u8, &'static str>) {
    match next {
        Move::Go(stage, task) => (stage, task),
        Move::End(report) => panic!("ended with {report:?}"),
    }
}

fn after(stage: LaunchStage<&'static str>, reply: LaunchReply<&'static str>) -> Next {
    advance(stage, reply)
}

fn failure() -> Next {
    Move::End(Report { stderr: None, stdout: None, exit: Exit::Error })
}

fn prepared(tools: bool, quota: bool) -> Preparation<&'static str> {
    Preparation {
        config: config(tools, quota),
        free_tier_status: String::new(),
        refresh_budget: false,
        workspace: None,
        workspace_status: String::new(),
    }
}

#[test]
fn command_lines_end_or_begin() {
    assert_eq!(
        start(&["--version"]),
        Move::End(Report {
            stderr: None,
            stdout: Some("tuisample-code 0.1.0".to_string()),
            exit: Exit::Success,
        })
    );
    assert_eq!(
        start(&["-f"]),
        Move::End(Report {
            stderr: Some("--force only means something alongside --upgrade.\n".to_string()),
            stdout: Some(help_text("0.1.0")),
            exit: Exit::Status(2),
        })
    );
    assert_eq!(start(&["-u", "-f"]), Move::Go(LaunchStage::Upgrading, Task::Upgrade(true)));
    assert_eq!(start(&[]), Move::Go(LaunchStage::Loading, Task::LoadConfig));
}

#[test]
fn an_upgrade_ends_the_program() {
    assert_eq!(
        after(LaunchStage::Upgrading, LaunchReply::Upgraded(Ok(()))),
        Move::End(Report { stderr: None, stdout: None, exit: Exit::Success })
    );
    assert_eq!(
        after(LaunchStage::Upgrading, LaunchReply::Upgraded(Err("offline".to_string()))),
        Move::End(Report {
            stderr: Some("❌ Upgrade failed: offline".to_string()),
            stdout: None,
            exit: Exit::Status(1),
        })
    );
}

#[test]
fn a_session_goes_from_settings_to_goodbye() {
    let (stage, _) = go(start(&[]));
    let (stage, task) = go(advance(stage, LaunchReply::Loaded(config(true, true))));
    assert_eq!(task, Task::InitTheme("dark".to_string()));
    let (stage, task) = go(advance(stage, LaunchReply::Done));
    assert_eq!(task, Task::AskFreeTier(config(true, true)));
    let (stage, task) = go(advance(stage, LaunchReply::FreeTier(true)));
    assert_eq!(task, Task::OpenWorkspace("/w".to_string()));
    let workspace = Workspace { root: "/real/w".to_string(), broad: true };
    let (stage, task) = go(advance(stage, LaunchReply::Opened(Ok(workspace.clone()))));
    assert_eq!(task, Task::PingTelemetry);
    let (stage, task) = go(advance(stage, LaunchReply::Done));
    assert_eq!(task, Task::SetUpTerminal);
    let (stage, task) = go(advance(stage, LaunchReply::SetUp { enhanced: true }));
    assert_eq!(task, Task::InstallPanicHook(true));
    let (stage, task) = go(advance(stage, LaunchReply::Done));
    assert_eq!(task, Task::DiscardInput);
    let (stage, task) = go(advance(stage, LaunchReply::Done));
    assert_eq!(task, Task::OpenScreen);
    let (stage, task) = go(advance(stage, LaunchReply::Done));
    assert_eq!(task, Task::LoadQuota);
    let (stage, task) = go(advance(stage, LaunchReply::Done));
    let session: Session<u8, &'static str> = Session::new(
        config(true, true),
        "Free tier — large".to_string(),
        true,
        &Some(workspace.clone()),
        "commands run in /real/w — this is a very broad directory".to_string(),
    );
    assert_eq!(
        task,
        Task::RunLoop(session, EventLoop { stage: Stage::Start, workspace: Some(workspace) })
    );
    let (stage, task) = go(advance(stage, LaunchReply::Ran(None)));
    assert_eq!(task, Task::RestoreTerminal(true));
    assert_eq!(
        after(stage, LaunchReply::Done),
        Move::End(Report {
            stderr: None,
            stdout: Some("Goodbye!".to_string()),
            exit: Exit::Success,
        })
    );
}

#[test]
fn a_new_device_registers_and_is_saved() {
    let asking = LaunchStage::Asking(prepared(false, false));
    let (stage, task) = go(advance(asking, LaunchReply::FreeTier(false)));
    assert_eq!(task, Task::AskShouldRegister(config(false, false)));
    let (stage, task) = go(advance(stage, LaunchReply::ShouldRegister(true)));
    assert_eq!(
        task,
        Task::Register(
            "Setting up the free tier (no sign-in needed)…".to_string(),
            config(false, false)
        )
    );
    let mut registered = config(false, false);
    registered.free_tier.device_token = "token".to_string();
    let enrolment = Enrolment {
        model: "small".to_string(),
        daily_limit: 0.5f64.to_bits(),
        daily_limit_text: "0.50".to_string(),
    };
    let (stage, task) =
        go(advance(stage, LaunchReply::Registered(registered.clone(), Ok(enrolment))));
    assert_eq!(task, Task::SaveConfig(registered.clone()));
    let (stage, task) =
        go(advance(stage, LaunchReply::Saved(Err("disk full".to_string()))));
    assert_eq!(
        task,
        Task::Complain(
            "Warning: could not save the device token (disk full). It will enrol again next launch."
                .to_string()
        )
    );
    let (stage, task) = go(advance(stage, LaunchReply::Done));
    assert_eq!(task, Task::PingTelemetry);
    assert_eq!(
        stage,
        LaunchStage::Pinging(Preparation {
            config: registered,
            free_tier_status: "Free tier — small · $0.50/day, resets at UTC midnight".to_string(),
            refresh_budget: false,
            workspace: None,
            workspace_status: "off (enabled = false in config.toml)".to_string(),
        })
    );
}

#[test]
fn a_failed_registration_is_only_complained_about() {
    let (stage, task) = go(advance(
        LaunchStage::Registering(prepared(true, false)),
        LaunchReply::Registered(config(true, false), Err("blocked".to_string())),
    ));
    assert_eq!(task, Task::Complain("Free tier unavailable: blocked".to_string()));
    let (stage, task) = go(advance(stage, LaunchReply::Done));
    assert_eq!(task, Task::OpenWorkspace("/w".to_string()));
    let (stage, task) = go(advance(stage, LaunchReply::Opened(Err("gone".to_string()))));
    assert_eq!(task, Task::PingTelemetry);
    assert_eq!(
        stage,
        LaunchStage::Pinging(Preparation {
            config: config(true, false),
            free_tier_status: "unavailable — blocked".to_string(),
            refresh_budget: false,
            workspace: None,
            workspace_status: "off — gone".to_string(),
        })
    );
}

#[test]
fn saved_settings_need_no_word() {
    let (_, task) =
        go(advance(LaunchStage::Saving(prepared(false, false)), LaunchReply::Saved(Ok(()))));
    assert_eq!(task, Task::PingTelemetry);
}

#[test]
fn uncounted_quotas_are_not_loaded() {
    let (stage, task) =
        go(advance(LaunchStage::Screening(prepared(false, false), false), LaunchReply::Done));
    assert_eq!(stage, LaunchStage::Running(false));
    match task {
        Task::RunLoop(session, event_loop) => {
            assert_eq!(session.config, config(false, false));
            assert_eq!(event_loop.workspace, None);
        }
        other => panic!("unexpected {other:?}"),
    }
}

#[test]
fn failures_that_end_the_program() {
    let p = || prepared(true, true);
    assert_eq!(after(LaunchStage::Loading, LaunchReply::Failed), failure());
    assert_eq!(after(LaunchStage::SettingUp(p()), LaunchReply::Failed), failure());
    assert_eq!(after(LaunchStage::Discarding(p(), true), LaunchReply::Failed), failure());
    assert_eq!(after(LaunchStage::Screening(p(), true), LaunchReply::Failed), failure());
    assert_eq!(after(LaunchStage::Restoring(None), LaunchReply::Failed), failure());
    assert_eq!(after(LaunchStage::Asking(p()), LaunchReply::Done), failure());
    assert_eq!(after(LaunchStage::Considering(p()), LaunchReply::FreeTier(true)), failure());
    assert_eq!(after(LaunchStage::Saving(p()), LaunchReply::Failed), failure());
    assert_eq!(after(LaunchStage::Saving(p()), LaunchReply::Done), failure());
}

#[test]
fn a_device_with_its_own_key_goes_on_without_a_word() {
    let considering = LaunchStage::Considering(prepared(false, false));
    let (stage, task) = go(advance(considering, LaunchReply::ShouldRegister(false)));
    assert_eq!(task, Task::PingTelemetry);
    match stage {
        LaunchStage::Pinging(p) => {
            assert_eq!(p.free_tier_status, "");
            assert!(!p.refresh_budget);
        }
        other => panic!("unexpected {other:?}"),
    }
}

#[test]
fn a_loop_that_gives_no_answer_ends_in_an_error_after_restoring() {
    for reply in [LaunchReply::Failed, LaunchReply::Done] {
        let (stage, task) = go(advance(LaunchStage::Running(true), reply));
        assert_eq!(task, Task::RestoreTerminal(true));
        assert_eq!(stage, LaunchStage::Abandoning);
        assert_eq!(after(stage, LaunchReply::Done), failure());
    }
}

#[test]
fn tasks_that_cannot_fail_are_over_with_any_reply() {
    let stages = || {
        vec![
            LaunchStage::Theming(prepared(true, true)),
            LaunchStage::Complaining(prepared(true, true)),
            LaunchStage::Pinging(prepared(true, true)),
            LaunchStage::Hooking(prepared(true, true), true),
            LaunchStage::Counting(prepared(true, true), true),
        ]
    };
    for (one, other) in stages().into_iter().zip(stages()) {
        assert_eq!(after(one, LaunchReply::Failed), after(other, LaunchReply::Done));
    }
}

#[test]
fn a_loop_that_failed_is_still_followed_by_restoring() {
    let (stage, task) =
        go(advance(LaunchStage::Running(false), LaunchReply::Ran(Some("broken".to_string()))));
    assert_eq!(task, Task::RestoreTerminal(false));
    assert_eq!(
        after(stage, LaunchReply::Done),
        Move::End(Report {
            stderr: Some("Error: broken".to_string()),
            stdout: Some("Goodbye!".to_string()),
            exit: Exit::Error,
        })
    );
}
