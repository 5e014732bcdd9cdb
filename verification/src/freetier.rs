//! The free tier: how a device is enrolled, and what is said about it.

use crate::config::{Config, ConfigView, FreeTierConfigView, LlmConfigView};
use crate::session::{delivered, AppCallView, SessionView, StreamEvent, StreamEventView};
use vstd::prelude::*;
use vstd::string::*;

verus! {

/// What an enrolment from within the session brings. `daily_limit` holds the bits of the
/// limit in dollars, a floating-point number that is only passed on.
#[derive(Debug, PartialEq, Eq)]
pub struct Enrolled {
    pub endpoint: String,
    pub device_token: String,
    pub model: String,
    pub fallback_id: String,
    pub daily_limit: u64,
}

/// The view of `Enrolled`.
pub struct EnrolledView {
    pub endpoint: Seq<char>,
    pub device_token: Seq<char>,
    pub model: Seq<char>,
    pub fallback_id: Seq<char>,
    pub daily_limit: u64,
}

impl View for Enrolled {
    type V = EnrolledView;

    open spec fn view(&self) -> EnrolledView {
        EnrolledView {
            endpoint: self.endpoint@,
            device_token: self.device_token@,
            model: self.model@,
            fallback_id: self.fallback_id@,
            daily_limit: self.daily_limit,
        }
    }
}

/// The settings to enrol with: the free tier on, and neither a key nor a token of before.
pub open spec fn enrolment_settings<R>(config: ConfigView<R>) -> ConfigView<R> {
    ConfigView {
        llm: LlmConfigView { api_key: Seq::empty(), ..config.llm },
        free_tier: FreeTierConfigView {
            enabled: true,
            device_token: Seq::empty(),
            ..config.free_tier
        },
        ..config
    }
}

/// A copy of the settings to enrol with, whichever key is in use now.
pub fn enrolment_config<R>(config: &Config<R>) -> (settings: Config<R>)
    ensures
        settings@ == enrolment_settings(config@),
{
    let mut settings = config.clone();
    settings.free_tier.enabled = true;
    settings.llm.api_key = String::new();
    settings.free_tier.device_token = String::new();
    settings
}

/// A registration that the gateway accepted. `daily_limit` holds the bits of the limit in
/// dollars, and `daily_limit_text` that limit written with two decimals.
#[derive(Debug, PartialEq, Eq)]
pub struct Enrolment {
    pub model: String,
    pub daily_limit: u64,
    pub daily_limit_text: String,
}

/// How the enrolment at the start begins: it is settled at once, or this device registers,
/// after a line that says so.
#[derive(Debug, PartialEq, Eq)]
pub enum EnrolStart {
    Settled { status: String, refresh_budget: bool },
    Register { announcement: String },
}

/// The view of `EnrolStart`.
pub enum EnrolStartView {
    Settled { status: Seq<char>, refresh_budget: bool },
    Register { announcement: Seq<char> },
}

impl View for EnrolStart {
    type V = EnrolStartView;

    open spec fn view(&self) -> EnrolStartView {
        match *self {
            EnrolStart::Settled { status, refresh_budget } => EnrolStartView::Settled {
                status: status@,
                refresh_budget,
            },
            EnrolStart::Register { announcement } => EnrolStartView::Register {
                announcement: announcement@,
            },
        }
    }
}

/// What follows from a registration at the start: the line for the welcome screen, and a
/// complaint if it failed. The settings are saved if there is none.
#[derive(Debug, PartialEq, Eq)]
pub struct Registered {
    pub status: String,
    pub complaint: Option<String>,
}

/// How the enrolment at the start begins, given the model in use, whether the settings use
/// the free tier already, and whether this device should register.
pub open spec fn enrol_start(
    model: Seq<char>,
    on_free_tier: bool,
    should_register: bool,
) -> EnrolStartView {
    if on_free_tier {
        EnrolStartView::Settled { status: "Free tier — "@ + model, refresh_budget: true }
    } else if should_register {
        EnrolStartView::Register {
            announcement: "Setting up the free tier (no sign-in needed)…"@,
        }
    } else {
        EnrolStartView::Settled { status: Seq::empty(), refresh_budget: false }
    }
}

/// The line for the welcome screen after a registration.
pub open spec fn registration_status(result: Result<Enrolment, String>) -> Seq<char> {
    match result {
        Ok(enrolment) => "Free tier — "@ + enrolment.model@ + " · $"@
            + enrolment.daily_limit_text@ + "/day, resets at UTC midnight"@,
        Err(error) => "unavailable — "@ + error@,
    }
}

/// The complaint about a registration that failed.
pub open spec fn registration_complaint(result: Result<Enrolment, String>) -> Option<Seq<char>> {
    match result {
        Ok(_) => None,
        Err(error) => Some("Free tier unavailable: "@ + error@),
    }
}

/// The complaint about a device token that could not be saved.
pub open spec fn save_complaint(error: Seq<char>) -> Seq<char> {
    "Warning: could not save the device token ("@ + error
        + "). It will enrol again next launch."@
}

/// Begins the enrolment at the start. A device that is enrolled already waits for nothing:
/// its budget is looked up later, from the event loop.
pub fn enrol_free_tier(model: &str, on_free_tier: bool, should_register: bool) -> (start:
    EnrolStart)
    ensures
        start@ == enrol_start(model@, on_free_tier, should_register),
{
    if on_free_tier {
        let mut status = "Free tier — ".to_string();
        status.append(model);
        return EnrolStart::Settled { status, refresh_budget: true };
    }
    if !should_register {
        return EnrolStart::Settled { status: String::new(), refresh_budget: false };
    }
    EnrolStart::Register {
        announcement: "Setting up the free tier (no sign-in needed)…".to_string(),
    }
}

/// Settles what is said after a registration at the start.
pub fn after_registration(result: &Result<Enrolment, String>) -> (registered: Registered)
    ensures
        registered.status@ == registration_status(*result),
        match registered.complaint {
            Some(complaint) => Some(complaint@),
            None => None,
        } == registration_complaint(*result),
{
    match result {
        Ok(enrolment) => {
            let mut status = "Free tier — ".to_string();
            status.append(enrolment.model.as_str());
            status.append(" · $");
            status.append(enrolment.daily_limit_text.as_str());
            status.append("/day, resets at UTC midnight");
            Registered { status, complaint: None }
        },
        Err(error) => {
            let mut status = "unavailable — ".to_string();
            status.append(error.as_str());
            let mut complaint = "Free tier unavailable: ".to_string();
            complaint.append(error.as_str());
            Registered { status, complaint: Some(complaint) }
        },
    }
}

/// The warning that the device token could not be saved.
pub fn save_warning(error: &str) -> (warning: String)
    ensures
        warning@ == save_complaint(error@),
{
    let mut warning = "Warning: could not save the device token (".to_string();
    warning.append(error);
    warning.append("). It will enrol again next launch.");
    warning
}

/// The event that reports an enrolment from within the session, given the settings as the
/// registration left them. It belongs to no request and travels under the id zero.
pub open spec fn enrolment_report<C, O, U, R>(
    settings: ConfigView<R>,
    result: Result<Enrolment, String>,
) -> (u64, StreamEventView<C, O, U>) {
    (
        0,
        match result {
            Ok(enrolment) => StreamEventView::FreeTierEnrolled(
                EnrolledView {
                    endpoint: settings.llm.endpoint,
                    device_token: settings.free_tier.device_token,
                    model: settings.llm.model,
                    fallback_id: settings.free_tier.fallback_id,
                    daily_limit: enrolment.daily_limit,
                },
            ),
            Err(error) => StreamEventView::FreeTierFailed(error@),
        },
    )
}

/// Reports an enrolment from within the session.
pub fn enrolment_event<C, O, U, R>(
    settings: &Config<R>,
    result: Result<Enrolment, String>,
) -> (item: (u64, StreamEvent<C, O, U>))
    ensures
        (item.0, item.1@) == enrolment_report::<C, O, U, R>(settings@, result),
{
    match result {
        Ok(enrolment) => (
            0,
            StreamEvent::FreeTierEnrolled(
                Enrolled {
                    endpoint: settings.llm.endpoint.clone(),
                    device_token: settings.free_tier.device_token.clone(),
                    model: settings.llm.model.clone(),
                    fallback_id: settings.free_tier.fallback_id.clone(),
                    daily_limit: enrolment.daily_limit,
                },
            ),
        ),
        Err(error) => (0, StreamEvent::FreeTierFailed(error)),
    }
}

/// The event that reports the summary of a budget, which was looked up under an id; none if the
/// lookup failed.
pub open spec fn budget_report<C, O, U>(id: u64, summary: Option<Seq<char>>) -> Option<
    (u64, StreamEventView<C, O, U>),
> {
    match summary {
        Some(line) => Some((id, StreamEventView::FreeTierBudget(line))),
        None => None,
    }
}

/// Reports the summary of a budget that was looked up under an id. A lookup that failed is
/// not reported.
pub fn budget_event<C, O, U>(id: u64, summary: Option<String>) -> (item: Option<
    (u64, StreamEvent<C, O, U>),
>)
    ensures
        item is Some <==> summary is Some,
        item matches Some(item) ==> item.0 == id && item.1@ == StreamEventView::<
            C,
            O,
            U,
        >::FreeTierBudget(summary->0@),
        match item {
            Some(item) => Some((item.0, item.1@)),
            None => None,
        } == budget_report::<C, O, U>(
            id,
            match summary {
                Some(line) => Some(line@),
                None => None,
            },
        ),
{
    match summary {
        Some(line) => Some((id, StreamEvent::FreeTierBudget(line))),
        None => None,
    }
}

/// Only a device that neither is enrolled nor should register has nothing said about it, only
/// one that should register and is not enrolled waits for the gateway, and only one that is
/// enrolled has its budget looked up.
pub proof fn law_start_waits_for_new_devices_only(
    model: Seq<char>,
    on_free_tier: bool,
    should_register: bool,
    result: Result<Enrolment, String>,
)
    ensures
        enrol_start(model, on_free_tier, should_register) is Register <==> !on_free_tier
            && should_register,
        enrol_start(model, on_free_tier, should_register) matches EnrolStartView::Settled {
            status,
            refresh_budget,
        } ==> {
            &&& refresh_budget <==> on_free_tier
            &&& status.len() == 0 <==> !on_free_tier
        },
        registration_status(result).len() > 0,
{
    reveal_strlit("Free tier — ");
    reveal_strlit("unavailable — ");
}

/// The result of an enrolment reaches the application whichever request is current by then.
pub proof fn law_enrolment_result_arrives<C, O, U, R>(
    settings: ConfigView<R>,
    result: Result<Enrolment, String>,
    current: u64,
)
    ensures
        ({
            let item = enrolment_report::<C, O, U, R>(settings, result);
            match result {
                Ok(enrolment) => delivered(current, item.0, item.1) == Some(
                    AppCallView::<C, O, U>::FreeTierEnrolled(
                        EnrolledView {
                            endpoint: settings.llm.endpoint,
                            device_token: settings.free_tier.device_token,
                            model: settings.llm.model,
                            fallback_id: settings.free_tier.fallback_id,
                            daily_limit: enrolment.daily_limit,
                        },
                    ),
                ),
                Err(error) => delivered(current, item.0, item.1) == Some(
                    AppCallView::<C, O, U>::FreeTierFailed(error@),
                ),
            }
        }),
{
}

/// Enrolling starts from the same settings, whatever key and token were in use and whether or
/// not the free tier was on: it is switched on, and key and token are gone.
pub proof fn law_enrolment_forgets_key_and_token<R>(
    config: ConfigView<R>,
    api_key: Seq<char>,
    device_token: Seq<char>,
    enabled: bool,
)
    ensures
        enrolment_settings(config).free_tier.enabled,
        enrolment_settings(config).llm.api_key.len() == 0,
        enrolment_settings(config).free_tier.device_token.len() == 0,
        enrolment_settings(
            ConfigView {
                llm: LlmConfigView { api_key, ..config.llm },
                free_tier: FreeTierConfigView { device_token, enabled, ..config.free_tier },
                ..config
            },
        ) == enrolment_settings(config),
        enrolment_settings(enrolment_settings(config)) == enrolment_settings(config),
{
}

/// A budget that was looked up is shown as it came, whichever request is current by then, and
/// changes nothing else; the application is not told of it. Of a lookup that failed nothing
/// comes.
pub proof fn law_budget_that_was_looked_up_is_shown<C, O, U, R>(
    session: SessionView<C, R>,
    id: u64,
    line: Seq<char>,
)
    ensures
        budget_report::<C, O, U>(id, None) is None,
        budget_report::<C, O, U>(id, Some(line)) matches Some((under, event)) && under == id
            && session.after_event(event) == (SessionView { free_tier_status: line, ..session })
            && delivered(session.request_id, under, event) is None,
{
}

/// What is said of a device at the start: one that is enrolled is told its model and has its
/// budget looked up, a new one is told that it registers, and one with a key of its own is told
/// nothing and has nothing looked up.
pub proof fn law_what_a_device_is_told_at_the_start(model: Seq<char>, should_register: bool)
    ensures
        enrol_start(model, true, should_register) == (EnrolStartView::Settled {
            status: "Free tier — "@ + model,
            refresh_budget: true,
        }),
        enrol_start(model, false, true) == (EnrolStartView::Register {
            announcement: "Setting up the free tier (no sign-in needed)…"@,
        }),
        enrol_start(model, false, false) == (EnrolStartView::Settled {
            status: Seq::empty(),
            refresh_budget: false,
        }),
{
}

/// What is said of a registration at the start: the model and the daily limit that the gateway
/// gave, or the reason why it failed, which is also complained about; and the reason why the
/// token could not be saved.
pub proof fn law_what_is_said_of_a_registration(
    result: Result<Enrolment, String>,
    error: Seq<char>,
)
    ensures
        result matches Ok(enrolment) ==> {
            &&& registration_status(result) == "Free tier — "@ + enrolment.model@ + " · $"@
                + enrolment.daily_limit_text@ + "/day, resets at UTC midnight"@
            &&& registration_complaint(result) is None
        },
        result matches Err(reason) ==> {
            &&& registration_status(result) == "unavailable — "@ + reason@
            &&& registration_complaint(result) == Some("Free tier unavailable: "@ + reason@)
        },
        save_complaint(error) == "Warning: could not save the device token ("@ + error
            + "). It will enrol again next launch."@,
{
}

/// What is reported of an enrolment from within the session is what the registration gave: the
/// settings as it left them and the daily limit, or the reason why it failed.
pub proof fn law_enrolment_is_reported_as_it_came<C, O, U, R>(
    settings: ConfigView<R>,
    result: Result<Enrolment, String>,
)
    ensures
        ({
            let (id, event) = enrolment_report::<C, O, U, R>(settings, result);
            &&& id == 0
            &&& event is FreeTierEnrolled <==> result is Ok
            &&& event is FreeTierFailed <==> result is Err
            &&& event matches StreamEventView::FreeTierEnrolled(enrolled) ==> {
                &&& enrolled.endpoint == settings.llm.endpoint
                &&& enrolled.device_token == settings.free_tier.device_token
                &&& enrolled.model == settings.llm.model
                &&& enrolled.fallback_id == settings.free_tier.fallback_id
                &&& enrolled.daily_limit == result->Ok_0.daily_limit
            }
            &&& event matches StreamEventView::FreeTierFailed(reason) ==> reason
                == result->Err_0@
        }),
{
}

/// The settings to enrol with are the session's own in everything but the key, the token and
/// whether the free tier is on.
pub proof fn law_enrolment_keeps_the_other_settings<R>(config: ConfigView<R>)
    ensures
        ({
            let settings = enrolment_settings(config);
            &&& settings.theme == config.theme
            &&& settings.llm.endpoint == config.llm.endpoint
            &&& settings.llm.model == config.llm.model
            &&& settings.llm.max_tokens == config.llm.max_tokens
            &&& settings.tools == config.tools
            &&& settings.quota == config.quota
            &&& settings.free_tier.fallback_id == config.free_tier.fallback_id
            &&& settings.rest == config.rest
            &&& settings.llm.api_key == Seq::<char>::empty()
            &&& settings.free_tier.device_token == Seq::<char>::empty()
            &&& settings.free_tier.enabled
        }),
{
}

} // verus!
