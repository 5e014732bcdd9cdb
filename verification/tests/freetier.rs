use std::sync::Arc;
use tuisample_code::config::{
    Config, FreeTierConfig, LlmConfig, QuotaConfig, ToolsConfig, UiConfig,
};
use tuisample_code::freetier::{
    after_registration, budget_event, enrol_free_tier, enrolment_config, enrolment_event,
    save_warning, EnrolStart, Enrolled, Enrolment, Registered,
};
use tuisample_code::session::StreamEvent;

type Event = StreamEvent<u8, u8, u8>;

fn config() -> Config<&'static str> {
    Config {
        ui: UiConfig { theme: "dark".to_string() },
        llm: LlmConfig {
            endpoint: "https://gateway".to_string(),
            model: "small".to_string(),
            api_key: "own key".to_string(),
            max_tokens: 1024,
        },
        tools: ToolsConfig {
            enabled: true,
            workspace: ".".to_string(),
            require_approval: true,
            max_steps: 8,
            rest: Arc::new("other tool settings"),
        },
        quota: QuotaConfig { enabled: true, include_usage: false },
        free_tier: FreeTierConfig {
            enabled: false,
            device_token: "token".to_string(),
            fallback_id: "fallback".to_string(),
        },
        rest: Arc::new("other settings"),
    }
}

fn enrolment() -> Enrolment {
    let limit: f64 = 0.25;
    Enrolment {
        model: "small".to_string(),
        daily_limit: limit.to_bits(),
        daily_limit_text: format!("{limit:.2}"),
    }
}

#[test]
fn an_enrolled_device_is_settled_at_once() {
    for should_register in [false, true] {
        assert_eq!(
            enrol_free_tier("small", true, should_register),
            EnrolStart::Settled {
                status: "Free tier — small".to_string(),
                refresh_budget: true,
            }
        );
    }
}

#[test]
fn a_device_with_its_own_key_has_nothing_said_about_it() {
    assert_eq!(
        enrol_free_tier("small", false, false),
        EnrolStart::Settled { status: String::new(), refresh_budget: false }
    );
}

#[test]
fn a_new_device_registers() {
    assert_eq!(
        enrol_free_tier("small", false, true),
        EnrolStart::Register {
            announcement: "Setting up the free tier (no sign-in needed)…".to_string(),
        }
    );
}

#[test]
fn registrations_are_described() {
    assert_eq!(
        after_registration(&Ok(enrolment())),
        Registered {
            status: "Free tier — small · $0.25/day, resets at UTC midnight".to_string(),
            complaint: None,
        }
    );
    assert_eq!(
        after_registration(&Err("offline".to_string())),
        Registered {
            status: "unavailable — offline".to_string(),
            complaint: Some("Free tier unavailable: offline".to_string()),
        }
    );
}

#[test]
fn a_token_that_cannot_be_saved_is_warned_about() {
    assert_eq!(
        save_warning("disk full"),
        "Warning: could not save the device token (disk full). It will enrol again next launch."
    );
}

#[test]
fn enrolling_starts_without_key_and_token() {
    let mut expected = config();
    expected.free_tier.enabled = true;
    expected.llm.api_key = String::new();
    expected.free_tier.device_token = String::new();
    assert_eq!(enrolment_config(&config()), expected);
    assert_eq!(enrolment_config(&expected), expected);
}

#[test]
fn an_enrolment_is_reported_under_no_request() {
    let (id, event): (u64, Event) = enrolment_event(&config(), Ok(enrolment()));
    assert_eq!(id, 0);
    assert_eq!(
        event,
        StreamEvent::FreeTierEnrolled(Enrolled {
            endpoint: "https://gateway".to_string(),
            device_token: "token".to_string(),
            model: "small".to_string(),
            fallback_id: "fallback".to_string(),
            daily_limit: 0.25f64.to_bits(),
        })
    );
    let failed: (u64, Event) = enrolment_event(&config(), Err("offline".to_string()));
    assert_eq!(failed, (0, StreamEvent::FreeTierFailed("offline".to_string())));
}

#[test]
fn only_budgets_that_were_found_are_reported() {
    let found: Option<(u64, Event)> = budget_event(4, Some("$0.10 left".to_string()));
    assert_eq!(found, Some((4, StreamEvent::FreeTierBudget("$0.10 left".to_string()))));
    let lost: Option<(u64, Event)> = budget_event(4, None);
    assert_eq!(lost, None);
}

#[test]
fn enrolling_does_not_depend_on_key_token_or_standing() {
    let mut other = config();
    other.llm.api_key = "another key".to_string();
    other.free_tier.device_token = "another token".to_string();
    other.free_tier.enabled = true;
    assert_ne!(other, config());
    assert_eq!(enrolment_config(&other), enrolment_config(&config()));
    assert_eq!(enrolment_config(&other).rest, Arc::new("other settings"));
    assert_eq!(enrolment_config(&other).tools.rest, Arc::new("other tool settings"));
}
