//! The program from its command line to its last words, one task at a time.
//!
//! The command line is settled first, so that `--version` and `--upgrade` need neither the
//! settings nor the terminal. A session then loads the settings, picks the colours, enrols
//! where it has to, opens the workspace, and only then takes over the terminal, runs the
//! event loop and gives the terminal back.

use crate::cli::{
    invocation, invocation_report, law_first_other_argument_decides, law_flags_alone, parse_args,
    report_invocation, report_session, report_upgrade, session_report, text_view, texts,
    upgrade_report, Exit, Invocation, InvocationView, Report, ReportView, HELP_BODY,
};
use crate::config::{Config, ConfigView};
use crate::event_loop::{EventLoop, Stage};
use crate::freetier::{
    after_registration, enrol_free_tier, enrol_start, registration_complaint, registration_status,
    save_complaint, save_warning, EnrolStart, EnrolStartView, Enrolment,
};
use crate::session::{AppState, Session, SessionView};
use crate::workspace::{
    law_warnings_are_given_where_they_are_due, open_workspace, workspace_kept, workspace_status,
    workspace_to_open, workspace_view, Workspace, WorkspaceView,
};
use vstd::prelude::*;

verus! {

/// What has been gathered for the session so far.
#[derive(Debug, PartialEq, Eq)]
pub struct Preparation<R> {
    pub config: Config<R>,
    pub free_tier_status: String,
    pub refresh_budget: bool,
    pub workspace: Option<Workspace>,
    pub workspace_status: String,
}

/// The task that the program has handed out last, and what it needs afterwards.
#[derive(Debug, PartialEq, Eq)]
pub enum LaunchStage<R> {
    /// Upgrading.
    Upgrading,
    /// Loading the settings.
    Loading,
    /// Picking the colours.
    Theming(Preparation<R>),
    /// Asking whether the settings use the free tier.
    Asking(Preparation<R>),
    /// Asking whether this device, which does not use the free tier, should register.
    Considering(Preparation<R>),
    /// Registering this device.
    Registering(Preparation<R>),
    /// Saving the settings after a registration.
    Saving(Preparation<R>),
    /// Complaining about the enrolment.
    Complaining(Preparation<R>),
    /// Opening the workspace.
    Opening(Preparation<R>),
    /// Sending the telemetry on its way.
    Pinging(Preparation<R>),
    /// Taking over the terminal.
    SettingUp(Preparation<R>),
    /// Installing the hook that restores the terminal after a panic.
    Hooking(Preparation<R>, bool),
    /// Discarding what was typed before.
    Discarding(Preparation<R>, bool),
    /// Opening the screen for drawing.
    Screening(Preparation<R>, bool),
    /// Loading the quota of the day.
    Counting(Preparation<R>, bool),
    /// Running the event loop.
    Running(bool),
    /// Restoring the terminal after the loop, which ended with this error if with one.
    Restoring(Option<String>),
    /// Restoring the terminal after a loop that nothing is known of.
    Abandoning,
}

/// What came of a task. At a task that can fail, `Failed` means an error that ends the
/// program, and so does a reply that does not answer a task which needs an answer; after the
/// event loop the terminal is restored first. Picking the colours, complaining, sending the
/// telemetry, installing the hook and loading the quota cannot fail: they are over with any
/// reply.
#[derive(Debug, PartialEq, Eq)]
pub enum LaunchReply<R> {
    Done,
    Failed,
    Upgraded(Result<(), String>),
    Loaded(Config<R>),
    FreeTier(bool),
    ShouldRegister(bool),
    Registered(Config<R>, Result<Enrolment, String>),
    Saved(Result<(), String>),
    Opened(Result<Workspace, String>),
    SetUp { enhanced: bool },
    Ran(Option<String>),
}

/// A task of the program.
#[derive(Debug, PartialEq, Eq)]
pub enum Task<C, R> {
    /// Upgrade, reinstalling what is up to date if told to, and reply with the result.
    Upgrade(bool),
    /// Load the settings, and reply with them.
    LoadConfig,
    /// Pick the colours for this theme.
    InitTheme(String),
    /// Reply whether these settings use the free tier.
    AskFreeTier(Config<R>),
    /// Reply whether this device should register with these settings.
    AskShouldRegister(Config<R>),
    /// Print this line, register this device with these settings, and reply with the settings
    /// as the registration leaves them and its result.
    Register(String, Config<R>),
    /// Save these settings, and reply with the result.
    SaveConfig(Config<R>),
    /// Print this line to the standard error.
    Complain(String),
    /// Open this directory as the workspace, and reply with the result.
    OpenWorkspace(String),
    /// Send the telemetry on its way without waiting for it.
    PingTelemetry,
    /// Take over the terminal, and reply whether the keyboard enhancement was pushed.
    SetUpTerminal,
    /// Install the hook that restores the terminal after a panic.
    InstallPanicHook(bool),
    /// Discard what was typed before the terminal was taken over.
    DiscardInput,
    /// Open the screen for drawing.
    OpenScreen,
    /// Load the quota of the day.
    LoadQuota,
    /// Run this event loop on this session, and reply with the error that ended it.
    RunLoop(Session<C, R>, EventLoop),
    /// Restore the terminal.
    RestoreTerminal(bool),
}

/// How the program goes on: with a task at a stage, or with its last words.
#[derive(Debug, PartialEq, Eq)]
pub enum Move<C, R> {
    Go(LaunchStage<R>, Task<C, R>),
    End(Report),
}

/// The view of `Preparation`.
pub struct PreparationView<R> {
    pub config: ConfigView<R>,
    pub free_tier_status: Seq<char>,
    pub refresh_budget: bool,
    pub workspace: Option<WorkspaceView>,
    pub workspace_status: Seq<char>,
}

/// The view of `LaunchStage`.
pub enum LaunchStageView<R> {
    Upgrading,
    Loading,
    Theming(PreparationView<R>),
    Asking(PreparationView<R>),
    Considering(PreparationView<R>),
    Registering(PreparationView<R>),
    Saving(PreparationView<R>),
    Complaining(PreparationView<R>),
    Opening(PreparationView<R>),
    Pinging(PreparationView<R>),
    SettingUp(PreparationView<R>),
    Hooking(PreparationView<R>, bool),
    Discarding(PreparationView<R>, bool),
    Screening(PreparationView<R>, bool),
    Counting(PreparationView<R>, bool),
    Running(bool),
    Restoring(Option<Seq<char>>),
    Abandoning,
}

/// The view of `Task`.
pub enum TaskView<C, R> {
    Upgrade(bool),
    LoadConfig,
    InitTheme(Seq<char>),
    AskFreeTier(ConfigView<R>),
    AskShouldRegister(ConfigView<R>),
    Register(Seq<char>, ConfigView<R>),
    SaveConfig(ConfigView<R>),
    Complain(Seq<char>),
    OpenWorkspace(Seq<char>),
    PingTelemetry,
    SetUpTerminal,
    InstallPanicHook(bool),
    DiscardInput,
    OpenScreen,
    LoadQuota,
    RunLoop(SessionView<C, R>, Stage, Option<WorkspaceView>),
    RestoreTerminal(bool),
}

/// The view of `Move`.
pub enum MoveView<C, R> {
    Go(LaunchStageView<R>, TaskView<C, R>),
    End(ReportView),
}

impl<R> View for Preparation<R> {
    type V = PreparationView<R>;

    open spec fn view(&self) -> PreparationView<R> {
        PreparationView {
            config: self.config@,
            free_tier_status: self.free_tier_status@,
            refresh_budget: self.refresh_budget,
            workspace: workspace_view(self.workspace),
            workspace_status: self.workspace_status@,
        }
    }
}

impl<R> View for LaunchStage<R> {
    type V = LaunchStageView<R>;

    open spec fn view(&self) -> LaunchStageView<R> {
        match *self {
            LaunchStage::Upgrading => LaunchStageView::Upgrading,
            LaunchStage::Loading => LaunchStageView::Loading,
            LaunchStage::Theming(p) => LaunchStageView::Theming(p@),
            LaunchStage::Asking(p) => LaunchStageView::Asking(p@),
            LaunchStage::Considering(p) => LaunchStageView::Considering(p@),
            LaunchStage::Registering(p) => LaunchStageView::Registering(p@),
            LaunchStage::Saving(p) => LaunchStageView::Saving(p@),
            LaunchStage::Complaining(p) => LaunchStageView::Complaining(p@),
            LaunchStage::Opening(p) => LaunchStageView::Opening(p@),
            LaunchStage::Pinging(p) => LaunchStageView::Pinging(p@),
            LaunchStage::SettingUp(p) => LaunchStageView::SettingUp(p@),
            LaunchStage::Hooking(p, enhanced) => LaunchStageView::Hooking(p@, enhanced),
            LaunchStage::Discarding(p, enhanced) => LaunchStageView::Discarding(p@, enhanced),
            LaunchStage::Screening(p, enhanced) => LaunchStageView::Screening(p@, enhanced),
            LaunchStage::Counting(p, enhanced) => LaunchStageView::Counting(p@, enhanced),
            LaunchStage::Running(enhanced) => LaunchStageView::Running(enhanced),
            LaunchStage::Restoring(error) => LaunchStageView::Restoring(text_view(error)),
            LaunchStage::Abandoning => LaunchStageView::Abandoning,
        }
    }
}

impl<C, R> View for Task<C, R> {
    type V = TaskView<C, R>;

    open spec fn view(&self) -> TaskView<C, R> {
        match *self {
            Task::Upgrade(force) => TaskView::Upgrade(force),
            Task::LoadConfig => TaskView::LoadConfig,
            Task::InitTheme(theme) => TaskView::InitTheme(theme@),
            Task::AskFreeTier(config) => TaskView::AskFreeTier(config@),
            Task::AskShouldRegister(config) => TaskView::AskShouldRegister(config@),
            Task::Register(line, config) => TaskView::Register(line@, config@),
            Task::SaveConfig(config) => TaskView::SaveConfig(config@),
            Task::Complain(line) => TaskView::Complain(line@),
            Task::OpenWorkspace(path) => TaskView::OpenWorkspace(path@),
            Task::PingTelemetry => TaskView::PingTelemetry,
            Task::SetUpTerminal => TaskView::SetUpTerminal,
            Task::InstallPanicHook(enhanced) => TaskView::InstallPanicHook(enhanced),
            Task::DiscardInput => TaskView::DiscardInput,
            Task::OpenScreen => TaskView::OpenScreen,
            Task::LoadQuota => TaskView::LoadQuota,
            Task::RunLoop(session, event_loop) => TaskView::RunLoop(
                session@,
                event_loop.stage,
                workspace_view(event_loop.workspace),
            ),
            Task::RestoreTerminal(enhanced) => TaskView::RestoreTerminal(enhanced),
        }
    }
}

impl<C, R> View for Move<C, R> {
    type V = MoveView<C, R>;

    open spec fn view(&self) -> MoveView<C, R> {
        match *self {
            Move::Go(stage, task) => MoveView::Go(stage@, task@),
            Move::End(report) => MoveView::End(report@),
        }
    }
}

/// The end of the program by the error that it ran into, without a word of its own.
pub open spec fn failed<C, R>() -> MoveView<C, R> {
    MoveView::End(ReportView { stderr: None, stdout: None, exit: Exit::Error })
}

/// How the program begins with these arguments.
pub open spec fn beginning<C, R>(args: Seq<Seq<char>>, version: Seq<char>) -> MoveView<C, R> {
    let asked = invocation(args);
    match invocation_report(asked, version) {
        Some(report) => MoveView::End(report),
        None => match asked {
            InvocationView::Upgrade(force) => MoveView::Go(
                LaunchStageView::Upgrading,
                TaskView::Upgrade(force),
            ),
            _ => MoveView::Go(LaunchStageView::Loading, TaskView::LoadConfig),
        },
    }
}

impl<R> PreparationView<R> {
    /// What there is once the settings are loaded.
    pub open spec fn fresh(config: ConfigView<R>) -> Self {
        PreparationView {
            config,
            free_tier_status: Seq::empty(),
            refresh_budget: false,
            workspace: None,
            workspace_status: Seq::empty(),
        }
    }

    /// Going on to the workspace, which is opened only if the tools are switched on.
    pub open spec fn to_workspace<C>(self) -> MoveView<C, R> {
        if self.config.tools.enabled {
            MoveView::Go(
                LaunchStageView::Opening(self),
                TaskView::OpenWorkspace(self.config.tools.workspace),
            )
        } else {
            self.with_workspace(None).to_terminal()
        }
    }

    /// With what came of opening the workspace.
    pub open spec fn with_workspace(self, opened: Option<Result<Workspace, String>>) -> Self {
        PreparationView {
            workspace: workspace_view(workspace_kept(self.config, opened)),
            workspace_status: workspace_status(self.config, opened),
            ..self
        }
    }

    /// Going on to the terminal, after the telemetry.
    pub open spec fn to_terminal<C>(self) -> MoveView<C, R> {
        MoveView::Go(LaunchStageView::Pinging(self), TaskView::PingTelemetry)
    }

    /// The session that begins.
    pub open spec fn session<C>(self) -> SessionView<C, R> {
        SessionView::<C, R>::fresh(
            self.config,
            self.free_tier_status,
            self.refresh_budget,
            self.workspace,
            self.workspace_status,
        )
    }

    /// Going on to the event loop.
    pub open spec fn to_loop<C>(self, enhanced: bool) -> MoveView<C, R> {
        MoveView::Go(
            LaunchStageView::Running(enhanced),
            TaskView::RunLoop(self.session(), Stage::Start, self.workspace),
        )
    }
}

/// What the program does once it knows where this device stands with the free tier.
pub open spec fn after_standing<C, R>(
    p: PreparationView<R>,
    on_free_tier: bool,
    should_register: bool,
) -> MoveView<C, R> {
    match enrol_start(p.config.llm.model, on_free_tier, should_register) {
        EnrolStartView::Settled { status, refresh_budget } => PreparationView {
            free_tier_status: status,
            refresh_budget,
            ..p
        }.to_workspace(),
        EnrolStartView::Register { announcement } => MoveView::Go(
            LaunchStageView::Registering(p),
            TaskView::Register(announcement, p.config),
        ),
    }
}

/// What the program does after a registration. The settings that it leaves are saved, so that
/// the next launch finds this device enrolled; one that failed is only complained about.
pub open spec fn after_registering<C, R>(
    p: PreparationView<R>,
    config: ConfigView<R>,
    result: Result<Enrolment, String>,
) -> MoveView<C, R> {
    let next = PreparationView {
        config,
        free_tier_status: registration_status(result),
        refresh_budget: false,
        ..p
    };
    match registration_complaint(result) {
        None => MoveView::Go(LaunchStageView::Saving(next), TaskView::SaveConfig(config)),
        Some(complaint) => MoveView::Go(
            LaunchStageView::Complaining(next),
            TaskView::Complain(complaint),
        ),
    }
}

/// What the program does when it is told what came of its last task.
pub open spec fn advanced<C, R>(
    stage: LaunchStageView<R>,
    reply: LaunchReply<R>,
) -> MoveView<C, R> {
    match stage {
        LaunchStageView::Upgrading => match reply {
            LaunchReply::Upgraded(Ok(_)) => MoveView::End(upgrade_report(None)),
            LaunchReply::Upgraded(Err(error)) => MoveView::End(upgrade_report(Some(error@))),
            _ => failed(),
        },
        LaunchStageView::Loading => match reply {
            LaunchReply::Loaded(config) => MoveView::Go(
                LaunchStageView::Theming(PreparationView::fresh(config@)),
                TaskView::InitTheme(config.ui.theme@),
            ),
            _ => failed(),
        },
        LaunchStageView::Theming(p) => MoveView::Go(
            LaunchStageView::Asking(p),
            TaskView::AskFreeTier(p.config),
        ),
        LaunchStageView::Asking(p) => match reply {
            LaunchReply::FreeTier(on_free_tier) => if on_free_tier {
                after_standing(p, true, false)
            } else {
                MoveView::Go(
                    LaunchStageView::Considering(p),
                    TaskView::AskShouldRegister(p.config),
                )
            },
            _ => failed(),
        },
        LaunchStageView::Considering(p) => match reply {
            LaunchReply::ShouldRegister(should_register) => after_standing(
                p,
                false,
                should_register,
            ),
            _ => failed(),
        },
        LaunchStageView::Registering(p) => match reply {
            LaunchReply::Registered(config, result) => after_registering(p, config@, result),
            _ => failed(),
        },
        LaunchStageView::Saving(p) => match reply {
            LaunchReply::Saved(Err(error)) => MoveView::Go(
                LaunchStageView::Complaining(p),
                TaskView::Complain(save_complaint(error@)),
            ),
            LaunchReply::Saved(Ok(_)) => p.to_workspace(),
            _ => failed(),
        },
        LaunchStageView::Complaining(p) => p.to_workspace(),
        LaunchStageView::Opening(p) => match reply {
            LaunchReply::Opened(opened) => p.with_workspace(Some(opened)).to_terminal(),
            _ => failed(),
        },
        LaunchStageView::Pinging(p) => MoveView::Go(
            LaunchStageView::SettingUp(p),
            TaskView::SetUpTerminal,
        ),
        LaunchStageView::SettingUp(p) => match reply {
            LaunchReply::SetUp { enhanced } => MoveView::Go(
                LaunchStageView::Hooking(p, enhanced),
                TaskView::InstallPanicHook(enhanced),
            ),
            _ => failed(),
        },
        LaunchStageView::Hooking(p, enhanced) => MoveView::Go(
            LaunchStageView::Discarding(p, enhanced),
            TaskView::DiscardInput,
        ),
        LaunchStageView::Discarding(p, enhanced) => match reply {
            LaunchReply::Failed => failed(),
            _ => MoveView::Go(LaunchStageView::Screening(p, enhanced), TaskView::OpenScreen),
        },
        LaunchStageView::Screening(p, enhanced) => match reply {
            LaunchReply::Failed => failed(),
            _ => if p.config.quota.enabled {
                MoveView::Go(LaunchStageView::Counting(p, enhanced), TaskView::LoadQuota)
            } else {
                p.to_loop(enhanced)
            },
        },
        LaunchStageView::Counting(p, enhanced) => p.to_loop(enhanced),
        LaunchStageView::Running(enhanced) => MoveView::Go(
            match reply {
                LaunchReply::Ran(error) => LaunchStageView::Restoring(text_view(error)),
                _ => LaunchStageView::Abandoning,
            },
            TaskView::RestoreTerminal(enhanced),
        ),
        LaunchStageView::Restoring(error) => match reply {
            LaunchReply::Failed => failed(),
            _ => MoveView::End(session_report(error)),
        },
        LaunchStageView::Abandoning => failed(),
    }
}

/// Begins with the arguments that follow the program's name.
pub fn begin<C, R>(args: &Vec<String>, version: &str) -> (next: Move<C, R>)
    ensures
        next@ == beginning::<C, R>(texts(args@), version@),
{
    let asked = parse_args(args);
    if let Some(report) = report_invocation(&asked, version) {
        return Move::End(report);
    }
    match asked {
        Invocation::Upgrade(force) => Move::Go(LaunchStage::Upgrading, Task::Upgrade(force)),
        _ => Move::Go(LaunchStage::Loading, Task::LoadConfig),
    }
}

/// Goes on after the last task: takes in what came of it, and gives the next one.
pub fn advance<C, R>(stage: LaunchStage<R>, reply: LaunchReply<R>) -> (next: Move<C, R>)
    ensures
        next@ == advanced::<C, R>(stage@, reply),
{
    match stage {
        LaunchStage::Upgrading => match reply {
            LaunchReply::Upgraded(result) => Move::End(report_upgrade(&result)),
            _ => give_up(),
        },
        LaunchStage::Loading => match reply {
            LaunchReply::Loaded(config) => {
                let theme = config.ui.theme.clone();
                let p = Preparation {
                    config,
                    free_tier_status: String::new(),
                    refresh_budget: false,
                    workspace: None,
                    workspace_status: String::new(),
                };
                Move::Go(LaunchStage::Theming(p), Task::InitTheme(theme))
            },
            _ => give_up(),
        },
        LaunchStage::Theming(p) => {
            let config = p.config.clone();
            Move::Go(LaunchStage::Asking(p), Task::AskFreeTier(config))
        },
        LaunchStage::Asking(p) => match reply {
            LaunchReply::FreeTier(true) => enrol(p, true, false),
            LaunchReply::FreeTier(false) => {
                let config = p.config.clone();
                Move::Go(LaunchStage::Considering(p), Task::AskShouldRegister(config))
            },
            _ => give_up(),
        },
        LaunchStage::Considering(p) => match reply {
            LaunchReply::ShouldRegister(should_register) => enrol(p, false, should_register),
            _ => give_up(),
        },
        LaunchStage::Registering(p) => match reply {
            LaunchReply::Registered(config, result) => settle_registration(p, config, result),
            _ => give_up(),
        },
        LaunchStage::Saving(p) => match reply {
            LaunchReply::Saved(Err(error)) => Move::Go(
                LaunchStage::Complaining(p),
                Task::Complain(save_warning(error.as_str())),
            ),
            LaunchReply::Saved(Ok(_)) => go_to_workspace(p),
            _ => give_up(),
        },
        LaunchStage::Complaining(p) => go_to_workspace(p),
        LaunchStage::Opening(p) => match reply {
            LaunchReply::Opened(opened) => go_to_terminal(p, Some(opened)),
            _ => give_up(),
        },
        LaunchStage::Pinging(p) => Move::Go(LaunchStage::SettingUp(p), Task::SetUpTerminal),
        LaunchStage::SettingUp(p) => match reply {
            LaunchReply::SetUp { enhanced } => Move::Go(
                LaunchStage::Hooking(p, enhanced),
                Task::InstallPanicHook(enhanced),
            ),
            _ => give_up(),
        },
        LaunchStage::Hooking(p, enhanced) => Move::Go(
            LaunchStage::Discarding(p, enhanced),
            Task::DiscardInput,
        ),
        LaunchStage::Discarding(p, enhanced) => match reply {
            LaunchReply::Failed => give_up(),
            _ => Move::Go(LaunchStage::Screening(p, enhanced), Task::OpenScreen),
        },
        LaunchStage::Screening(p, enhanced) => match reply {
            LaunchReply::Failed => give_up(),
            _ => {
                if p.config.quota.enabled {
                    Move::Go(LaunchStage::Counting(p, enhanced), Task::LoadQuota)
                } else {
                    go_to_loop(p, enhanced)
                }
            },
        },
        LaunchStage::Counting(p, enhanced) => go_to_loop(p, enhanced),
        LaunchStage::Running(enhanced) => {
            let stage = match reply {
                LaunchReply::Ran(error) => LaunchStage::Restoring(error),
                _ => LaunchStage::Abandoning,
            };
            Move::Go(stage, Task::RestoreTerminal(enhanced))
        },
        LaunchStage::Restoring(error) => match reply {
            LaunchReply::Failed => give_up(),
            _ => Move::End(report_session(&error)),
        },
        LaunchStage::Abandoning => give_up(),
    }
}

/// Ends the program by the error that it ran into.
fn give_up<C, R>() -> (next: Move<C, R>)
    ensures
        next@ == failed::<C, R>(),
{
    Move::End(Report { stderr: None, stdout: None, exit: Exit::Error })
}

/// Enrols this device where it has to, or goes on.
fn enrol<C, R>(p: Preparation<R>, on_free_tier: bool, should_register: bool) -> (next: Move<C, R>)
    ensures
        next@ == after_standing::<C, R>(p@, on_free_tier, should_register),
{
    match enrol_free_tier(p.config.llm.model.as_str(), on_free_tier, should_register) {
        EnrolStart::Settled { status, refresh_budget } => go_to_workspace(
            Preparation {
                config: p.config,
                free_tier_status: status,
                refresh_budget,
                workspace: p.workspace,
                workspace_status: p.workspace_status,
            },
        ),
        EnrolStart::Register { announcement } => {
            let config = p.config.clone();
            Move::Go(LaunchStage::Registering(p), Task::Register(announcement, config))
        },
    }
}

/// Goes on after a registration.
fn settle_registration<C, R>(
    p: Preparation<R>,
    config: Config<R>,
    result: Result<Enrolment, String>,
) -> (next: Move<C, R>)
    ensures
        next@ == after_registering::<C, R>(p@, config@, result),
{
    let registered = after_registration(&result);
    let settings = config.clone();
    let prepared = Preparation {
        config,
        free_tier_status: registered.status,
        refresh_budget: false,
        workspace: p.workspace,
        workspace_status: p.workspace_status,
    };
    match registered.complaint {
        None => Move::Go(LaunchStage::Saving(prepared), Task::SaveConfig(settings)),
        Some(complaint) => Move::Go(
            LaunchStage::Complaining(prepared),
            Task::Complain(complaint),
        ),
    }
}

/// Goes on to the workspace.
fn go_to_workspace<C, R>(p: Preparation<R>) -> (next: Move<C, R>)
    ensures
        next@ == p@.to_workspace::<C>(),
{
    match workspace_to_open(&p.config) {
        Some(path) => Move::Go(LaunchStage::Opening(p), Task::OpenWorkspace(path)),
        None => go_to_terminal(p, None),
    }
}

/// Settles the workspace and goes on to the terminal.
fn go_to_terminal<C, R>(
    p: Preparation<R>,
    opened: Option<Result<Workspace, String>>,
) -> (next: Move<C, R>)
    requires
        p.config.tools.enabled ==> opened is Some,
    ensures
        next@ == p@.with_workspace(opened).to_terminal::<C>(),
{
    let (workspace, workspace_status) = open_workspace(&p.config, opened);
    Move::Go(
        LaunchStage::Pinging(
            Preparation {
                config: p.config,
                free_tier_status: p.free_tier_status,
                refresh_budget: p.refresh_budget,
                workspace,
                workspace_status,
            },
        ),
        Task::PingTelemetry,
    )
}

/// Goes on to the event loop.
fn go_to_loop<C, R>(p: Preparation<R>, enhanced: bool) -> (next: Move<C, R>)
    ensures
        next@ == p@.to_loop::<C>(enhanced),
{
    let session = Session::new(
        p.config,
        p.free_tier_status,
        p.refresh_budget,
        &p.workspace,
        p.workspace_status,
    );
    Move::Go(LaunchStage::Running(enhanced), Task::RunLoop(session, EventLoop::new(p.workspace)))
}

/// How far a launch has come.
pub open spec fn launch_progress<R>(stage: LaunchStageView<R>) -> int {
    match stage {
        LaunchStageView::Upgrading => 0,
        LaunchStageView::Loading => 0,
        LaunchStageView::Theming(_) => 1,
        LaunchStageView::Asking(_) => 2,
        LaunchStageView::Considering(_) => 3,
        LaunchStageView::Registering(_) => 4,
        LaunchStageView::Saving(_) => 5,
        LaunchStageView::Complaining(_) => 6,
        LaunchStageView::Opening(_) => 7,
        LaunchStageView::Pinging(_) => 8,
        LaunchStageView::SettingUp(_) => 9,
        LaunchStageView::Hooking(_, _) => 10,
        LaunchStageView::Discarding(_, _) => 11,
        LaunchStageView::Screening(_, _) => 12,
        LaunchStageView::Counting(_, _) => 13,
        LaunchStageView::Running(_) => 14,
        LaunchStageView::Restoring(_) => 15,
        LaunchStageView::Abandoning => 15,
    }
}

/// Whether a task touches the terminal.
pub open spec fn touches_terminal<C, R>(task: TaskView<C, R>) -> bool {
    match task {
        TaskView::SetUpTerminal => true,
        TaskView::InstallPanicHook(_) => true,
        TaskView::DiscardInput => true,
        TaskView::OpenScreen => true,
        TaskView::RunLoop(_, _, _) => true,
        TaskView::RestoreTerminal(_) => true,
        _ => false,
    }
}

/// Whether the program has come to the terminal.
pub open spec fn at_terminal<R>(stage: LaunchStageView<R>) -> bool {
    match stage {
        LaunchStageView::SettingUp(_) => true,
        LaunchStageView::Hooking(_, _) => true,
        LaunchStageView::Discarding(_, _) => true,
        LaunchStageView::Screening(_, _) => true,
        LaunchStageView::Counting(_, _) => true,
        LaunchStageView::Running(_) => true,
        LaunchStageView::Restoring(_) => true,
        LaunchStageView::Abandoning => true,
        _ => false,
    }
}

/// The program goes forward with every task. The terminal is left alone until the telemetry
/// is on its way, and so until the settings are loaded, the enrolment is over, and the
/// workspace is settled.
pub proof fn law_launch_goes_forward<C, R>(stage: LaunchStageView<R>, reply: LaunchReply<R>)
    ensures
        advanced::<C, R>(stage, reply) matches MoveView::Go(next, task) ==> {
            &&& launch_progress(next) > launch_progress(stage)
            &&& touches_terminal(task) ==> at_terminal(next)
            &&& at_terminal(next) <==> at_terminal(stage) || stage is Pinging
        },
{
}

/// No part of the start is skipped: each task comes only after the one it builds on.
pub proof fn law_no_part_of_the_start_is_skipped<C, R>(
    stage: LaunchStageView<R>,
    reply: LaunchReply<R>,
)
    ensures
        advanced::<C, R>(stage, reply) matches MoveView::Go(next, task) ==> {
            &&& task is InitTheme ==> stage is Loading
            &&& task is AskFreeTier ==> stage is Theming
            &&& task is AskShouldRegister ==> stage is Asking
            &&& task is Register ==> stage is Considering
            &&& task is OpenWorkspace ==> stage is Asking || stage is Considering || stage
                is Saving || stage is Complaining
            &&& task is PingTelemetry ==> stage is Asking || stage is Considering || stage
                is Saving || stage is Complaining || stage is Opening
            &&& task is SetUpTerminal ==> stage is Pinging
            &&& task is InstallPanicHook ==> stage is SettingUp
            &&& task is DiscardInput ==> stage is Hooking
            &&& task is OpenScreen ==> stage is Discarding
            &&& task is RunLoop ==> stage is Screening || stage is Counting
            &&& task is RestoreTerminal ==> stage is Running
        },
{
}

/// What has been gathered for the session at a stage, once the workspace is settled.
pub open spec fn gathered<R>(stage: LaunchStageView<R>) -> Option<PreparationView<R>> {
    match stage {
        LaunchStageView::Pinging(p) => Some(p),
        LaunchStageView::SettingUp(p) => Some(p),
        LaunchStageView::Hooking(p, _) => Some(p),
        LaunchStageView::Discarding(p, _) => Some(p),
        LaunchStageView::Screening(p, _) => Some(p),
        LaunchStageView::Counting(p, _) => Some(p),
        _ => None,
    }
}

/// The event loop begins with exactly what was gathered by the time the workspace was
/// settled, and the quota of the day is loaded before it exactly if quotas are counted.
pub proof fn law_loop_begins_with_what_was_gathered<C, R>(
    stage: LaunchStageView<R>,
    reply: LaunchReply<R>,
)
    requires
        gathered(stage) is Some,
    ensures
        advanced::<C, R>(stage, reply) matches MoveView::Go(next, task) ==> {
            &&& gathered(next) == gathered(stage) || task == TaskView::<C, R>::RunLoop(
                gathered(stage)->0.session(),
                Stage::Start,
                gathered(stage)->0.workspace,
            )
            &&& task is LoadQuota ==> stage is Screening
            &&& stage is Screening ==> (task is LoadQuota
                <==> gathered(stage)->0.config.quota.enabled)
        },
{
}

/// A command line that asks for anything but a session is settled without the settings and
/// without the terminal: it ends at once, or it ends after the upgrade.
pub proof fn law_flags_need_neither_settings_nor_terminal<C, R>(
    args: Seq<Seq<char>>,
    version: Seq<char>,
    reply: LaunchReply<R>,
)
    requires
        !(invocation(args) is Launch),
    ensures
        match beginning::<C, R>(args, version) {
            MoveView::End(_) => true,
            MoveView::Go(stage, task) => {
                &&& invocation(args) is Upgrade
                &&& task is Upgrade
                &&& advanced::<C, R>(stage, reply) is End
            },
        },
{
}

/// What is kept of the setup's word on the keyboard enhancement, from the setup to the end of
/// the event loop.
pub open spec fn enhancement<R>(stage: LaunchStageView<R>) -> Option<bool> {
    match stage {
        LaunchStageView::Hooking(_, enhanced) => Some(enhanced),
        LaunchStageView::Discarding(_, enhanced) => Some(enhanced),
        LaunchStageView::Screening(_, enhanced) => Some(enhanced),
        LaunchStageView::Counting(_, enhanced) => Some(enhanced),
        LaunchStageView::Running(enhanced) => Some(enhanced),
        _ => None,
    }
}

/// However the event loop ends, the terminal is restored next, with the keyboard enhancement
/// popped exactly if the setup pushed it.
pub proof fn law_terminal_is_restored_after_the_loop<C, R>(
    stage: LaunchStageView<R>,
    reply: LaunchReply<R>,
)
    ensures
        stage matches LaunchStageView::Running(enhanced) ==> (advanced::<C, R>(stage, reply) matches
            MoveView::Go(_, task) && task == TaskView::<C, R>::RestoreTerminal(enhanced)),
        reply matches LaunchReply::SetUp { enhanced } ==> (stage is SettingUp ==> (advanced::<C, R>(
            stage,
            reply,
        ) matches MoveView::Go(next, task) && enhancement(next) == Some(enhanced) && task
            == TaskView::<C, R>::InstallPanicHook(enhanced))),
        enhancement(stage) is Some && !(stage is Running) ==> (advanced::<C, R>(
            stage,
            reply,
        ) matches MoveView::Go(next, _) ==> enhancement(next) == enhancement(stage)),
{
}

/// Neither a registration that fails, nor settings that cannot be saved after one, nor a
/// workspace that cannot be opened stops the program. Settings are saved exactly after a
/// registration that succeeded.
pub proof fn law_failures_at_the_start_degrade<C, R>(
    p: PreparationView<R>,
    config: Config<R>,
    result: Result<Enrolment, String>,
    saved: Result<(), String>,
    opened: Result<Workspace, String>,
)
    ensures
        advanced::<C, R>(
            LaunchStageView::Registering(p),
            LaunchReply::Registered(config, result),
        ) matches MoveView::Go(_, task) && (task is SaveConfig <==> result is Ok) && (task
            is Complain <==> result is Err),
        advanced::<C, R>(LaunchStageView::Saving(p), LaunchReply::Saved(saved)) is Go,
        advanced::<C, R>(LaunchStageView::Complaining(p), LaunchReply::Done) is Go,
        advanced::<C, R>(LaunchStageView::Opening(p), LaunchReply::Opened(opened)) is Go,
{
}

/// A device that is enrolled already is not kept waiting: neither the question whether it
/// should register nor a registration comes before its event loop, which looks up the budget
/// instead.
pub proof fn law_enrolled_devices_start_at_once<C, R>(p: PreparationView<R>)
    ensures
        advanced::<C, R>(
            LaunchStageView::Asking(p),
            LaunchReply::FreeTier(true),
        ) matches MoveView::Go(next, task) && match next {
            LaunchStageView::Opening(p) => p.refresh_budget && task is OpenWorkspace,
            LaunchStageView::Pinging(p) => p.refresh_budget && task is PingTelemetry,
            _ => false,
        },
{
}

/// Whether the task of a stage can fail.
pub open spec fn can_fail<R>(stage: LaunchStageView<R>) -> bool {
    match stage {
        LaunchStageView::Theming(_) => false,
        LaunchStageView::Complaining(_) => false,
        LaunchStageView::Pinging(_) => false,
        LaunchStageView::Hooking(_, _) => false,
        LaunchStageView::Counting(_, _) => false,
        _ => true,
    }
}

/// A task that fails ends the program by its error, at once or, where it is the event loop,
/// once the terminal has been restored. A task that cannot fail is over with any reply.
pub proof fn law_failures_end_the_program<C, R>(
    stage: LaunchStageView<R>,
    reply: LaunchReply<R>,
    other: LaunchReply<R>,
)
    ensures
        can_fail(stage) && !(stage is Running) ==> advanced::<C, R>(stage, LaunchReply::Failed)
            == failed::<C, R>(),
        stage matches LaunchStageView::Running(enhanced) ==> {
            &&& advanced::<C, R>(stage, LaunchReply::Failed) == MoveView::<C, R>::Go(
                LaunchStageView::Abandoning,
                TaskView::RestoreTerminal(enhanced),
            )
            &&& advanced::<C, R>(LaunchStageView::Abandoning, reply) == failed::<C, R>()
        },
        !can_fail(stage) ==> {
            &&& advanced::<C, R>(stage, reply) is Go
            &&& advanced::<C, R>(stage, reply) == advanced::<C, R>(stage, other)
        },
{
}

/// What the program does when the enrolment is over: it opens the directory that the settings
/// name where the tools are switched on, and goes on without a workspace where they are off.
pub proof fn law_workspace_follows_the_enrolment<C, R>(
    stage: LaunchStageView<R>,
    reply: LaunchReply<R>,
)
    ensures
        advanced::<C, R>(stage, reply) matches MoveView::Go(next, task) ==> {
            &&& task matches TaskView::OpenWorkspace(path) ==> (next matches
                LaunchStageView::Opening(p) && p.config.tools.enabled && path
                == p.config.tools.workspace)
            &&& task is PingTelemetry ==> (next matches LaunchStageView::Pinging(p) && (stage
                is Opening || !p.config.tools.enabled))
            &&& next is Opening ==> task is OpenWorkspace
            &&& next is Pinging ==> task is PingTelemetry
        },
        enrolment_over(stage, reply) ==> (advanced::<C, R>(stage, reply) matches MoveView::Go(
            next,
            task,
        ) && (task is OpenWorkspace || task is PingTelemetry)),
{
}

/// Whether this reply at this stage ends the enrolment: the device is on the free tier, or need
/// not register, or has registered and been saved, or has been complained about.
pub open spec fn enrolment_over<R>(stage: LaunchStageView<R>, reply: LaunchReply<R>) -> bool {
    match stage {
        LaunchStageView::Asking(_) => reply == LaunchReply::<R>::FreeTier(true),
        LaunchStageView::Considering(_) => reply == LaunchReply::<R>::ShouldRegister(false),
        LaunchStageView::Saving(_) => reply matches LaunchReply::Saved(Ok(_)),
        LaunchStageView::Complaining(_) => true,
        _ => false,
    }
}

/// A device that need not register goes on to its workspace just as any other does: it is told
/// nothing of the free tier, has no budget looked up, and keeps its settings.
pub proof fn law_own_key_goes_straight_to_the_workspace<C, R>(p: PreparationView<R>)
    ensures
        ({
            let next = PreparationView {
                free_tier_status: Seq::empty(),
                refresh_budget: false,
                ..p
            };
            let off = PreparationView {
                workspace: None,
                workspace_status: "off (enabled = false in config.toml)"@,
                ..next
            };
            advanced::<C, R>(LaunchStageView::Considering(p), LaunchReply::ShouldRegister(false))
                == if p.config.tools.enabled {
                MoveView::<C, R>::Go(
                    LaunchStageView::Opening(next),
                    TaskView::OpenWorkspace(p.config.tools.workspace),
                )
            } else {
                MoveView::<C, R>::Go(LaunchStageView::Pinging(off), TaskView::PingTelemetry)
            }
        }),
{
}

/// A device on the free tier goes on to its workspace with its model for the status and its
/// budget to be looked up, and keeps its settings.
pub proof fn law_enrolled_goes_straight_to_the_workspace<C, R>(p: PreparationView<R>)
    ensures
        ({
            let next = PreparationView {
                free_tier_status: "Free tier — "@ + p.config.llm.model,
                refresh_budget: true,
                ..p
            };
            let off = PreparationView {
                workspace: None,
                workspace_status: "off (enabled = false in config.toml)"@,
                ..next
            };
            advanced::<C, R>(LaunchStageView::Asking(p), LaunchReply::FreeTier(true))
                == if p.config.tools.enabled {
                MoveView::<C, R>::Go(
                    LaunchStageView::Opening(next),
                    TaskView::OpenWorkspace(p.config.tools.workspace),
                )
            } else {
                MoveView::<C, R>::Go(LaunchStageView::Pinging(off), TaskView::PingTelemetry)
            }
        }),
{
}

/// A new device registers with its settings, after the line that says so. What the registration
/// leaves of the settings is what is saved and what the session has; the status says how it
/// went, and no budget is looked up.
pub proof fn law_new_device_registers<C, R>(
    p: PreparationView<R>,
    config: Config<R>,
    result: Result<Enrolment, String>,
)
    ensures
        advanced::<C, R>(LaunchStageView::Asking(p), LaunchReply::FreeTier(false)) == MoveView::<
            C,
            R,
        >::Go(LaunchStageView::Considering(p), TaskView::AskShouldRegister(p.config)),
        advanced::<C, R>(LaunchStageView::Considering(p), LaunchReply::ShouldRegister(true))
            == MoveView::<C, R>::Go(
            LaunchStageView::Registering(p),
            TaskView::Register("Setting up the free tier (no sign-in needed)…"@, p.config),
        ),
        ({
            let next = PreparationView {
                config: config@,
                free_tier_status: match result {
                    Ok(enrolment) => "Free tier — "@ + enrolment.model@ + " · $"@
                        + enrolment.daily_limit_text@ + "/day, resets at UTC midnight"@,
                    Err(error) => "unavailable — "@ + error@,
                },
                refresh_budget: false,
                ..p
            };
            advanced::<C, R>(
                LaunchStageView::Registering(p),
                LaunchReply::Registered(config, result),
            ) == match result {
                Ok(_) => MoveView::<C, R>::Go(
                    LaunchStageView::Saving(next),
                    TaskView::SaveConfig(config@),
                ),
                Err(error) => MoveView::<C, R>::Go(
                    LaunchStageView::Complaining(next),
                    TaskView::Complain("Free tier unavailable: "@ + error@),
                ),
            }
        }),
{
}

/// Settings that cannot be saved are warned about, with the reason, and nothing else changes;
/// once they are saved, or the complaint is made, the workspace comes next.
pub proof fn law_saving_and_complaining_lead_to_the_workspace<C, R>(
    p: PreparationView<R>,
    error: String,
    reply: LaunchReply<R>,
)
    ensures
        ({
            let off = PreparationView {
                workspace: None,
                workspace_status: "off (enabled = false in config.toml)"@,
                ..p
            };
            let on = if p.config.tools.enabled {
                MoveView::<C, R>::Go(
                    LaunchStageView::Opening(p),
                    TaskView::OpenWorkspace(p.config.tools.workspace),
                )
            } else {
                MoveView::<C, R>::Go(LaunchStageView::Pinging(off), TaskView::PingTelemetry)
            };
            &&& advanced::<C, R>(LaunchStageView::Saving(p), LaunchReply::Saved(Ok(()))) == on
            &&& advanced::<C, R>(LaunchStageView::Complaining(p), reply) == on
            &&& advanced::<C, R>(LaunchStageView::Saving(p), LaunchReply::Saved(Err(error)))
                == MoveView::<C, R>::Go(
                LaunchStageView::Complaining(p),
                TaskView::Complain(
                    "Warning: could not save the device token ("@ + error@
                        + "). It will enrol again next launch."@,
                ),
            )
        }),
{
}

/// What came of opening the workspace is what the session gets: the workspace itself with the
/// line about it, or none with the reason. The settings, the status and the budget stay.
pub proof fn law_session_gets_the_opened_workspace<C, R>(
    p: PreparationView<R>,
    opened: Result<Workspace, String>,
)
    requires
        p.config.tools.enabled,
    ensures
        advanced::<C, R>(LaunchStageView::Opening(p), LaunchReply::Opened(opened)) matches
            MoveView::Go(LaunchStageView::Pinging(next), task) && task is PingTelemetry && next
            == (PreparationView {
            workspace: match opened {
                Ok(workspace) => Some(workspace@),
                Err(_) => None,
            },
            workspace_status: match opened {
                Ok(workspace) => "commands run in "@ + workspace.root@ + (
                if p.config.tools.require_approval {
                    Seq::<char>::empty()
                } else {
                    " — UNATTENDED, no approval prompt"@
                }) + (if workspace.broad {
                    " — this is a very broad directory"@
                } else {
                    Seq::<char>::empty()
                }),
                Err(error) => "off — "@ + error@,
            },
            ..p
        }),
{
    if let Ok(workspace) = opened {
        law_warnings_are_given_where_they_are_due(p.config, workspace);
    }
}

/// The start of a session: the settings that were loaded give the colours and go on as they are,
/// and the first question is whether they use the free tier.
pub proof fn law_start_goes_by_the_settings<C, R>(
    config: Config<R>,
    p: PreparationView<R>,
    reply: LaunchReply<R>,
)
    ensures
        advanced::<C, R>(LaunchStageView::Loading, LaunchReply::Loaded(config)) == MoveView::<
            C,
            R,
        >::Go(
            LaunchStageView::Theming(
                PreparationView {
                    config: config@,
                    free_tier_status: Seq::empty(),
                    refresh_budget: false,
                    workspace: None,
                    workspace_status: Seq::empty(),
                },
            ),
            TaskView::InitTheme(config.ui.theme@),
        ),
        advanced::<C, R>(LaunchStageView::Theming(p), reply) == MoveView::<C, R>::Go(
            LaunchStageView::Asking(p),
            TaskView::AskFreeTier(p.config),
        ),
{
}

/// From the workspace to the event loop: the terminal is taken over, the hook installed, what
/// was typed discarded, the screen opened and, where quotas are counted, the quota loaded, in
/// this order. What was gathered and the word on the enhancement are carried along.
pub proof fn law_way_to_the_loop<C, R>(
    p: PreparationView<R>,
    enhanced: bool,
    reply: LaunchReply<R>,
)
    ensures
        advanced::<C, R>(LaunchStageView::Pinging(p), reply) == MoveView::<C, R>::Go(
            LaunchStageView::SettingUp(p),
            TaskView::SetUpTerminal,
        ),
        advanced::<C, R>(LaunchStageView::SettingUp(p), LaunchReply::SetUp { enhanced })
            == MoveView::<C, R>::Go(
            LaunchStageView::Hooking(p, enhanced),
            TaskView::InstallPanicHook(enhanced),
        ),
        advanced::<C, R>(LaunchStageView::Hooking(p, enhanced), reply) == MoveView::<C, R>::Go(
            LaunchStageView::Discarding(p, enhanced),
            TaskView::DiscardInput,
        ),
        !(reply is Failed) ==> advanced::<C, R>(LaunchStageView::Discarding(p, enhanced), reply)
            == MoveView::<C, R>::Go(
            LaunchStageView::Screening(p, enhanced),
            TaskView::OpenScreen,
        ),
        !(reply is Failed) && p.config.quota.enabled ==> advanced::<C, R>(
            LaunchStageView::Screening(p, enhanced),
            reply,
        ) == MoveView::<C, R>::Go(LaunchStageView::Counting(p, enhanced), TaskView::LoadQuota),
{
}

/// The event loop begins at its start, in the workspace that was settled, on an idle session
/// that has the settings and the lines that were gathered.
pub proof fn law_loop_begins_idle<C, R>(
    p: PreparationView<R>,
    enhanced: bool,
    reply: LaunchReply<R>,
    stage: LaunchStageView<R>,
)
    requires
        stage == LaunchStageView::Counting(p, enhanced) || (stage == LaunchStageView::Screening(
            p,
            enhanced,
        ) && !p.config.quota.enabled && !(reply is Failed)),
    ensures
        advanced::<C, R>(stage, reply) matches MoveView::Go(
            next,
            TaskView::RunLoop(session, at, workspace),
        ) && {
            &&& next == LaunchStageView::<R>::Running(enhanced)
            &&& at == Stage::Start
            &&& workspace == p.workspace
            &&& session.config == p.config
            &&& session.state == AppState::Idle
            &&& session.request_id == 0
            &&& session.tool_steps == 0
            &&& session.approved_tools.len() == 0
            &&& session.pending_usage.len() == 0
            &&& !session.quota_dirty
            &&& !session.enrol_requested
            &&& !session.should_exit
            &&& session.refresh_budget == p.refresh_budget
            &&& session.free_tier_status == p.free_tier_status
            &&& session.workspace_status == p.workspace_status
            &&& session.workspace_root == match p.workspace {
                Some(workspace) => workspace.root,
                None => Seq::<char>::empty(),
            }
        },
{
}

/// The end of a session: the terminal is restored as it was set up, the error that ended the
/// loop is kept meanwhile, and the last words follow: a goodbye, with the error named before it
/// and the program ended by it if there was one.
pub proof fn law_end_of_a_session<C, R>(
    enhanced: bool,
    error: Option<String>,
    reply: LaunchReply<R>,
)
    ensures
        advanced::<C, R>(LaunchStageView::Running(enhanced), LaunchReply::Ran(error))
            == MoveView::<C, R>::Go(
            LaunchStageView::Restoring(
                match error {
                    Some(error) => Some(error@),
                    None => None,
                },
            ),
            TaskView::RestoreTerminal(enhanced),
        ),
        !(reply is Failed) ==> {
            &&& advanced::<C, R>(LaunchStageView::Restoring(None), reply) == MoveView::<
                C,
                R,
            >::End(
                ReportView { stderr: None, stdout: Some("Goodbye!"@), exit: Exit::Success },
            )
            &&& error matches Some(error) ==> advanced::<C, R>(
                LaunchStageView::Restoring(Some(error@)),
                reply,
            ) == MoveView::<C, R>::End(
                ReportView {
                    stderr: Some("Error: "@ + error@),
                    stdout: Some("Goodbye!"@),
                    exit: Exit::Error,
                },
            )
        },
{
}

/// Where a task needs an answer, only its own answer takes the program further: any other reply
/// ends it by an error, without a word.
pub proof fn law_wrong_answers_end_the_program<C, R>(
    stage: LaunchStageView<R>,
    reply: LaunchReply<R>,
)
    requires
        match stage {
            LaunchStageView::Upgrading => !(reply is Upgraded),
            LaunchStageView::Loading => !(reply is Loaded),
            LaunchStageView::Asking(_) => !(reply is FreeTier),
            LaunchStageView::Considering(_) => !(reply is ShouldRegister),
            LaunchStageView::Registering(_) => !(reply is Registered),
            LaunchStageView::Saving(_) => !(reply is Saved),
            LaunchStageView::Opening(_) => !(reply is Opened),
            LaunchStageView::SettingUp(_) => !(reply is SetUp),
            LaunchStageView::Discarding(_, _) => reply is Failed,
            LaunchStageView::Screening(_, _) => reply is Failed,
            LaunchStageView::Restoring(_) => reply is Failed,
            LaunchStageView::Abandoning => true,
            _ => false,
        },
    ensures
        advanced::<C, R>(stage, reply) == MoveView::<C, R>::End(
            ReportView { stderr: None, stdout: None, exit: Exit::Error },
        ),
{
}

/// Whatever is replied of the event loop but how it ended, the terminal is restored all the same,
/// and then the program ends by an error, without a word.
pub proof fn law_unknown_end_of_the_loop<C, R>(
    enhanced: bool,
    reply: LaunchReply<R>,
    last: LaunchReply<R>,
)
    requires
        !(reply is Ran),
    ensures
        advanced::<C, R>(LaunchStageView::Running(enhanced), reply) matches MoveView::Go(
            next,
            task,
        ) && task == TaskView::<C, R>::RestoreTerminal(enhanced) && advanced::<C, R>(next, last)
            == MoveView::<C, R>::End(
            ReportView { stderr: None, stdout: None, exit: Exit::Error },
        ),
{
}

/// An upgrade ends the program: silently where it succeeds, and otherwise with the reason on the
/// standard error and the status one.
pub proof fn law_upgrade_ends_the_program<C, R>(result: Result<(), String>)
    ensures
        advanced::<C, R>(LaunchStageView::Upgrading, LaunchReply::Upgraded(result)) == MoveView::<
            C,
            R,
        >::End(
            match result {
                Ok(_) => ReportView { stderr: None, stdout: None, exit: Exit::Success },
                Err(error) => ReportView {
                    stderr: Some("❌ Upgrade failed: "@ + error@),
                    stdout: None,
                    exit: Exit::Status(1),
                },
            },
        ),
{
}

/// How the program begins: the first argument that is neither an upgrade nor a force flag ends
/// it with the version, the help, or the complaint that the argument is unknown.
pub proof fn law_first_other_argument_ends_the_program<C, R>(
    flags: Seq<Seq<char>>,
    arg: Seq<char>,
    rest: Seq<Seq<char>>,
    version: Seq<char>,
)
    requires
        forall|i: int|
            0 <= i < flags.len() ==> (#[trigger] flags[i] == "-u"@ || flags[i] == "--upgrade"@
                || flags[i] == "-f"@ || flags[i] == "--force"@),
        arg != "-u"@,
        arg != "--upgrade"@,
        arg != "-f"@,
        arg != "--force"@,
    ensures
        beginning::<C, R>(flags.push(arg) + rest, version) == MoveView::<C, R>::End(
            if arg == "-V"@ || arg == "--version"@ {
                ReportView {
                    stderr: None,
                    stdout: Some("tuisample-code "@ + version),
                    exit: Exit::Success,
                }
            } else if arg == "-h"@ || arg == "--help"@ {
                ReportView {
                    stderr: None,
                    stdout: Some("tuisample-code "@ + version + HELP_BODY@),
                    exit: Exit::Success,
                }
            } else {
                ReportView {
                    stderr: Some("Unknown argument: "@ + arg + "\n"@),
                    stdout: Some("tuisample-code "@ + version + HELP_BODY@),
                    exit: Exit::Status(2),
                }
            },
        ),
{
    law_first_other_argument_decides(flags, arg, rest);
}

/// With upgrade and force flags alone the program upgrades, forced exactly if it is told to, or
/// refuses force without an upgrade; with no argument it loads the settings.
pub proof fn law_flags_alone_begin_the_program<C, R>(
    flags: Seq<Seq<char>>,
    version: Seq<char>,
)
    requires
        forall|i: int|
            0 <= i < flags.len() ==> (#[trigger] flags[i] == "-u"@ || flags[i] == "--upgrade"@
                || flags[i] == "-f"@ || flags[i] == "--force"@),
    ensures
        ({
            let upgrade = flags.contains("-u"@) || flags.contains("--upgrade"@);
            let force = flags.contains("-f"@) || flags.contains("--force"@);
            beginning::<C, R>(flags, version) == if upgrade {
                MoveView::<C, R>::Go(LaunchStageView::Upgrading, TaskView::Upgrade(force))
            } else if force {
                MoveView::<C, R>::End(
                    ReportView {
                        stderr: Some("--force only means something alongside --upgrade.\n"@),
                        stdout: Some("tuisample-code "@ + version + HELP_BODY@),
                        exit: Exit::Status(2),
                    },
                )
            } else {
                MoveView::<C, R>::Go(LaunchStageView::Loading, TaskView::LoadConfig)
            }
        }),
{
    law_flags_alone(flags);
}

} // verus!
