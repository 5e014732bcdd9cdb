//! The state that the event loop reads and writes, and what becomes of the events that
//! background tasks send to it.

use crate::config::{Config, ConfigView, ToolsConfig, ToolsConfigView};
use crate::freetier::{enrolment_config, enrolment_settings, Enrolled, EnrolledView};
use crate::workspace::{workspace_view, Workspace, WorkspaceView};
use vstd::prelude::*;

verus! {

/// What the application is busy with, as far as the event loop acts on it. `Idle` stands for
/// everything that the loop starts nothing for, such as typing or waiting for an approval.
#[derive(Clone, Copy, Debug, PartialEq, Eq, Structural)]
pub enum AppState {
    Idle,
    Sending,
    Streaming,
    ExecutingTools,
}

/// The tokens of a finished turn and the model that produced them.
#[derive(Debug, PartialEq, Eq)]
pub struct Turn {
    pub tokens: u64,
    pub model: String,
}

/// An event from a background task. Each travels with the id of the request that it belongs
/// to; the `FreeTier` events belong to none. `C` is a tool call, `O` the outcome of one and
/// `U` a count of exact usage.
#[derive(Debug, PartialEq, Eq)]
pub enum StreamEvent<C, O, U> {
    Token(String),
    ToolCalls(Vec<C>),
    ToolsFinished(Vec<O>),
    Usage(U),
    FreeTierBudget(String),
    FreeTierEnrolled(Enrolled),
    FreeTierFailed(String),
    Done,
    Notice(String),
    Error(String),
}

/// What the application is told about a background event.
#[derive(Debug, PartialEq, Eq)]
pub enum AppCall<C, O, U> {
    FreeTierEnrolled(Enrolled),
    FreeTierFailed(String),
    AppendToken(String),
    RequestTools(Vec<C>),
    FinishTools(Vec<O>),
    RecordExactUsage(U),
    FinishStream,
    Note(String),
    FailStream(String),
}

/// A chat request to start. `offer_tools` says whether the tool schemas go with it, and
/// `system` what the system prompt is made from; without one there is no such prompt.
#[derive(Debug, PartialEq, Eq)]
pub struct ChatRequest<R> {
    pub id: u64,
    pub endpoint: String,
    pub model: String,
    pub api_key: String,
    pub max_tokens: u32,
    pub include_usage: bool,
    pub offer_tools: bool,
    pub system: Option<SystemPrompt<R>>,
}

/// What the system prompt is made from.
#[derive(Debug, PartialEq, Eq)]
pub struct SystemPrompt<R> {
    pub workspace: Workspace,
    pub tools: ToolsConfig<R>,
    pub budget_left: bool,
}

/// Approved tool calls to run, in order, in the workspace.
#[derive(Debug, PartialEq, Eq)]
pub struct ToolRun<C, R> {
    pub id: u64,
    pub calls: Vec<C>,
    pub tools: ToolsConfig<R>,
    pub workspace: Workspace,
}

/// The state of the application that the event loop shares with it. `R` is what the settings
/// hold beside what the loop reads.
#[derive(Debug, PartialEq, Eq)]
pub struct Session<C, R> {
    pub config: Config<R>,
    pub state: AppState,
    pub request_id: u64,
    pub tool_steps: u32,
    pub approved_tools: Vec<C>,
    pub pending_usage: Vec<Turn>,
    pub quota_dirty: bool,
    pub enrol_requested: bool,
    pub refresh_budget: bool,
    pub should_exit: bool,
    pub free_tier_status: String,
    pub workspace_status: String,
    pub workspace_root: String,
}

/// The view of `StreamEvent`.
pub enum StreamEventView<C, O, U> {
    Token(Seq<char>),
    ToolCalls(Seq<C>),
    ToolsFinished(Seq<O>),
    Usage(U),
    FreeTierBudget(Seq<char>),
    FreeTierEnrolled(EnrolledView),
    FreeTierFailed(Seq<char>),
    Done,
    Notice(Seq<char>),
    Error(Seq<char>),
}

/// The view of `AppCall`.
pub enum AppCallView<C, O, U> {
    FreeTierEnrolled(EnrolledView),
    FreeTierFailed(Seq<char>),
    AppendToken(Seq<char>),
    RequestTools(Seq<C>),
    FinishTools(Seq<O>),
    RecordExactUsage(U),
    FinishStream,
    Note(Seq<char>),
    FailStream(Seq<char>),
}

/// The view of `ChatRequest`.
pub struct ChatRequestView<R> {
    pub id: u64,
    pub endpoint: Seq<char>,
    pub model: Seq<char>,
    pub api_key: Seq<char>,
    pub max_tokens: u32,
    pub include_usage: bool,
    pub offer_tools: bool,
    pub system: Option<SystemPromptView<R>>,
}

/// The view of `SystemPrompt`.
pub struct SystemPromptView<R> {
    pub workspace: WorkspaceView,
    pub tools: ToolsConfigView<R>,
    pub budget_left: bool,
}

/// The view of `ToolRun`.
pub struct ToolRunView<C, R> {
    pub id: u64,
    pub calls: Seq<C>,
    pub tools: ToolsConfigView<R>,
    pub workspace: WorkspaceView,
}

/// The view of `Session`.
pub struct SessionView<C, R> {
    pub config: ConfigView<R>,
    pub state: AppState,
    pub request_id: u64,
    pub tool_steps: u32,
    pub approved_tools: Seq<C>,
    pub pending_usage: Seq<Turn>,
    pub quota_dirty: bool,
    pub enrol_requested: bool,
    pub refresh_budget: bool,
    pub should_exit: bool,
    pub free_tier_status: Seq<char>,
    pub workspace_status: Seq<char>,
    pub workspace_root: Seq<char>,
}

impl<C, O, U> View for StreamEvent<C, O, U> {
    type V = StreamEventView<C, O, U>;

    open spec fn view(&self) -> StreamEventView<C, O, U> {
        match *self {
            StreamEvent::Token(token) => StreamEventView::Token(token@),
            StreamEvent::ToolCalls(calls) => StreamEventView::ToolCalls(calls@),
            StreamEvent::ToolsFinished(outcomes) => StreamEventView::ToolsFinished(outcomes@),
            StreamEvent::Usage(usage) => StreamEventView::Usage(usage),
            StreamEvent::FreeTierBudget(line) => StreamEventView::FreeTierBudget(line@),
            StreamEvent::FreeTierEnrolled(e) => StreamEventView::FreeTierEnrolled(e@),
            StreamEvent::FreeTierFailed(reason) => StreamEventView::FreeTierFailed(reason@),
            StreamEvent::Done => StreamEventView::Done,
            StreamEvent::Notice(note) => StreamEventView::Notice(note@),
            StreamEvent::Error(error) => StreamEventView::Error(error@),
        }
    }
}

impl<C, O, U> View for AppCall<C, O, U> {
    type V = AppCallView<C, O, U>;

    open spec fn view(&self) -> AppCallView<C, O, U> {
        match *self {
            AppCall::FreeTierEnrolled(e) => AppCallView::FreeTierEnrolled(e@),
            AppCall::FreeTierFailed(reason) => AppCallView::FreeTierFailed(reason@),
            AppCall::AppendToken(token) => AppCallView::AppendToken(token@),
            AppCall::RequestTools(calls) => AppCallView::RequestTools(calls@),
            AppCall::FinishTools(outcomes) => AppCallView::FinishTools(outcomes@),
            AppCall::RecordExactUsage(usage) => AppCallView::RecordExactUsage(usage),
            AppCall::FinishStream => AppCallView::FinishStream,
            AppCall::Note(note) => AppCallView::Note(note@),
            AppCall::FailStream(error) => AppCallView::FailStream(error@),
        }
    }
}

impl<R> View for SystemPrompt<R> {
    type V = SystemPromptView<R>;

    open spec fn view(&self) -> SystemPromptView<R> {
        SystemPromptView {
            workspace: self.workspace@,
            tools: self.tools@,
            budget_left: self.budget_left,
        }
    }
}

impl<R> View for ChatRequest<R> {
    type V = ChatRequestView<R>;

    open spec fn view(&self) -> ChatRequestView<R> {
        ChatRequestView {
            id: self.id,
            endpoint: self.endpoint@,
            model: self.model@,
            api_key: self.api_key@,
            max_tokens: self.max_tokens,
            include_usage: self.include_usage,
            offer_tools: self.offer_tools,
            system: match self.system {
                Some(system) => Some(system@),
                None => None,
            },
        }
    }
}

impl<C, R> View for ToolRun<C, R> {
    type V = ToolRunView<C, R>;

    open spec fn view(&self) -> ToolRunView<C, R> {
        ToolRunView {
            id: self.id,
            calls: self.calls@,
            tools: self.tools@,
            workspace: self.workspace@,
        }
    }
}

impl<C, R> View for Session<C, R> {
    type V = SessionView<C, R>;

    open spec fn view(&self) -> SessionView<C, R> {
        SessionView {
            config: self.config@,
            state: self.state,
            request_id: self.request_id,
            tool_steps: self.tool_steps,
            approved_tools: self.approved_tools@,
            pending_usage: self.pending_usage@,
            quota_dirty: self.quota_dirty,
            enrol_requested: self.enrol_requested,
            refresh_budget: self.refresh_budget,
            should_exit: self.should_exit,
            free_tier_status: self.free_tier_status@,
            workspace_status: self.workspace_status@,
            workspace_root: self.workspace_root@,
        }
    }
}

/// Whether an event belongs to a request, so that the id it travels with counts.
pub open spec fn belongs_to_request<C, O, U>(event: StreamEventView<C, O, U>) -> bool {
    !(event is FreeTierBudget || event is FreeTierEnrolled || event is FreeTierFailed)
}

/// Whether an event is left over from a request that is no longer the current one.
pub open spec fn is_stale<C, O, U>(
    current: u64,
    id: u64,
    event: StreamEventView<C, O, U>,
) -> bool {
    belongs_to_request(event) && id != current
}

/// What the application is told about an event that is not stale. A budget line only
/// replaces the status.
pub open spec fn call_for<C, O, U>(event: StreamEventView<C, O, U>) -> Option<
    AppCallView<C, O, U>,
> {
    match event {
        StreamEventView::Token(token) => Some(AppCallView::AppendToken(token)),
        StreamEventView::ToolCalls(calls) => Some(AppCallView::RequestTools(calls)),
        StreamEventView::ToolsFinished(outcomes) => Some(AppCallView::FinishTools(outcomes)),
        StreamEventView::Usage(usage) => Some(AppCallView::RecordExactUsage(usage)),
        StreamEventView::FreeTierBudget(line) => None,
        StreamEventView::FreeTierEnrolled(e) => Some(AppCallView::FreeTierEnrolled(e)),
        StreamEventView::FreeTierFailed(reason) => Some(AppCallView::FreeTierFailed(reason)),
        StreamEventView::Done => Some(AppCallView::FinishStream),
        StreamEventView::Notice(note) => Some(AppCallView::Note(note)),
        StreamEventView::Error(error) => Some(AppCallView::FailStream(error)),
    }
}

/// What the application is told when an event arrives under an id.
pub open spec fn delivered<C, O, U>(
    current: u64,
    id: u64,
    event: StreamEventView<C, O, U>,
) -> Option<AppCallView<C, O, U>> {
    if is_stale(current, id, event) {
        None
    } else {
        call_for(event)
    }
}

/// The view of a call that may be missing.
pub open spec fn call_view<C, O, U>(call: Option<AppCall<C, O, U>>) -> Option<
    AppCallView<C, O, U>,
> {
    match call {
        Some(call) => Some(call@),
        None => None,
    }
}

/// The text that the application is failed with when the model calls tools in a session that
/// has no workspace.
pub const TOOLS_NOT_ENABLED: &'static str =
    "The model asked to run a command, but the command tool is not enabled.";

impl<C, R> ToolRunView<C, R> {
    /// The call to run once so many of them have been run.
    pub open spec fn call_after(self, done: nat) -> Option<C> {
        if done < self.calls.len() {
            Some(self.calls[done as int])
        } else {
            None
        }
    }

    /// The report of these outcomes, which is due when there is one for each call.
    pub open spec fn report<O, U>(self, outcomes: Seq<O>) -> Option<
        (u64, StreamEventView<C, O, U>),
    > {
        if outcomes.len() == self.calls.len() {
            Some((self.id, StreamEventView::ToolsFinished(outcomes)))
        } else {
            None
        }
    }
}

impl<C, R> ToolRun<C, R> {
    /// The call to run next when so many have been run, each once and in order; none once all
    /// have.
    pub fn next_call(&self, done: usize) -> (call: Option<&C>)
        ensures
            call is Some <==> done < self.calls@.len(),
            call matches Some(call) ==> *call == self.calls@[done as int],
            match call {
                Some(call) => Some(*call),
                None => None,
            } == self@.call_after(done as nat),
    {
        if done < self.calls.len() {
            Some(&self.calls[done])
        } else {
            None
        }
    }

    /// Reports the outcomes of the calls under the id that they were run under, so that they
    /// count only as long as it is the current request's. Nothing is reported of a list that
    /// does not hold one outcome for each call.
    pub fn finish<O, U>(&self, outcomes: Vec<O>) -> (item: Option<(u64, StreamEvent<C, O, U>)>)
        ensures
            item is Some <==> outcomes@.len() == self.calls@.len(),
            item matches Some(item) ==> item.0 == self.id && item.1@ == StreamEventView::<
                C,
                O,
                U,
            >::ToolsFinished(outcomes@),
            match item {
                Some(item) => Some((item.0, item.1@)),
                None => None,
            } == self@.report::<O, U>(outcomes@),
    {
        if outcomes.len() == self.calls.len() {
            Some((self.id, StreamEvent::ToolsFinished(outcomes)))
        } else {
            None
        }
    }
}

impl<C, R> SessionView<C, R> {
    /// The session of a program that has just started: idle, with nothing queued.
    pub open spec fn fresh(
        config: ConfigView<R>,
        free_tier_status: Seq<char>,
        refresh_budget: bool,
        workspace: Option<WorkspaceView>,
        workspace_status: Seq<char>,
    ) -> Self {
        SessionView {
            config,
            state: AppState::Idle,
            request_id: 0,
            tool_steps: 0,
            approved_tools: Seq::<C>::empty(),
            pending_usage: Seq::<Turn>::empty(),
            quota_dirty: false,
            enrol_requested: false,
            refresh_budget,
            should_exit: false,
            free_tier_status,
            workspace_status,
            workspace_root: match workspace {
                Some(workspace) => workspace.root,
                None => Seq::empty(),
            },
        }
    }

    /// The session after an event: only a budget line changes it.
    pub open spec fn after_event<O, U>(self, event: StreamEventView<C, O, U>) -> Self {
        match event {
            StreamEventView::FreeTierBudget(line) => SessionView {
                free_tier_status: line,
                ..self
            },
            _ => self,
        }
    }

    /// Whether the model may still take a tool step.
    pub open spec fn budget_left(self) -> bool {
        self.tool_steps < self.config.tools.max_steps
    }

    /// Whether there are approved tool calls to run.
    pub open spec fn tools_due(self) -> bool {
        self.state == AppState::ExecutingTools && self.approved_tools.len() > 0
    }

    /// The session once its request has been started under a fresh id.
    pub open spec fn requested(self) -> Self {
        SessionView {
            request_id: (self.request_id + 1) as u64,
            state: AppState::Streaming,
            ..self
        }
    }

    /// The request that a session in `Sending` starts. Tools are offered, and a system prompt
    /// is sent, only where there is a workspace, and tools only while the budget lasts.
    pub open spec fn chat_request(self, workspace: Option<WorkspaceView>) -> ChatRequestView<R> {
        ChatRequestView {
            id: (self.request_id + 1) as u64,
            endpoint: self.config.llm.endpoint,
            model: self.config.llm.model,
            api_key: self.config.llm.api_key,
            max_tokens: self.config.llm.max_tokens,
            include_usage: self.config.quota.enabled && self.config.quota.include_usage,
            offer_tools: workspace is Some && self.budget_left(),
            system: match workspace {
                Some(workspace) => Some(
                    SystemPromptView {
                        workspace,
                        tools: self.config.tools,
                        budget_left: self.budget_left(),
                    },
                ),
                None => None,
            },
        }
    }

    /// The run of the approved tool calls in a workspace.
    pub open spec fn tool_run(self, workspace: WorkspaceView) -> ToolRunView<C, R> {
        ToolRunView {
            id: self.request_id,
            calls: self.approved_tools,
            tools: self.config.tools,
            workspace,
        }
    }
}

impl<C, R> Session<C, R> {
    /// The session of a program that has just started: idle, with nothing queued.
    pub fn new(
        config: Config<R>,
        free_tier_status: String,
        refresh_budget: bool,
        workspace: &Option<Workspace>,
        workspace_status: String,
    ) -> (session: Self)
        ensures
            session@ == SessionView::<C, R>::fresh(
                config@,
                free_tier_status@,
                refresh_budget,
                workspace_view(*workspace),
                workspace_status@,
            ),
    {
        let workspace_root = match workspace {
            Some(workspace) => workspace.root.clone(),
            None => String::new(),
        };
        Session {
            config,
            state: AppState::Idle,
            request_id: 0,
            tool_steps: 0,
            approved_tools: Vec::new(),
            pending_usage: Vec::new(),
            quota_dirty: false,
            enrol_requested: false,
            refresh_budget,
            should_exit: false,
            free_tier_status,
            workspace_status,
            workspace_root,
        }
    }

    /// Takes in an event that arrived under `id`, and gives what to tell the application.
    /// Free-tier events belong to no request, so they count under any id; of the others only
    /// those of the current request do.
    pub fn receive<O, U>(&mut self, id: u64, event: StreamEvent<C, O, U>) -> (call: Option<
        AppCall<C, O, U>,
    >)
        ensures
            final(self)@ == old(self)@.after_event(event@),
            call_view(call) == delivered(old(self).request_id, id, event@),
            match event {
                StreamEvent::FreeTierBudget(line) => call is None && final(self).free_tier_status
                    == line,
                StreamEvent::FreeTierEnrolled(e) => call == Some(
                    AppCall::<C, O, U>::FreeTierEnrolled(e),
                ),
                StreamEvent::FreeTierFailed(reason) => call == Some(
                    AppCall::<C, O, U>::FreeTierFailed(reason),
                ),
                StreamEvent::Token(token) => call == if id == old(self).request_id {
                    Some(AppCall::<C, O, U>::AppendToken(token))
                } else {
                    None
                },
                StreamEvent::ToolCalls(calls) => call == if id == old(self).request_id {
                    Some(AppCall::<C, O, U>::RequestTools(calls))
                } else {
                    None
                },
                StreamEvent::ToolsFinished(outcomes) => call == if id == old(self).request_id {
                    Some(AppCall::<C, O, U>::FinishTools(outcomes))
                } else {
                    None
                },
                StreamEvent::Usage(usage) => call == if id == old(self).request_id {
                    Some(AppCall::<C, O, U>::RecordExactUsage(usage))
                } else {
                    None
                },
                StreamEvent::Done => call == if id == old(self).request_id {
                    Some(AppCall::<C, O, U>::FinishStream)
                } else {
                    None
                },
                StreamEvent::Notice(note) => call == if id == old(self).request_id {
                    Some(AppCall::<C, O, U>::Note(note))
                } else {
                    None
                },
                StreamEvent::Error(error) => call == if id == old(self).request_id {
                    Some(AppCall::<C, O, U>::FailStream(error))
                } else {
                    None
                },
            },
    {
        let current = id == self.request_id;
        match event {
            StreamEvent::FreeTierBudget(line) => {
                self.free_tier_status = line;
                None
            },
            StreamEvent::FreeTierEnrolled(e) => Some(AppCall::FreeTierEnrolled(e)),
            StreamEvent::FreeTierFailed(reason) => Some(AppCall::FreeTierFailed(reason)),
            event => {
                if !current {
                    return None;
                }
                match event {
                    StreamEvent::Token(token) => Some(AppCall::AppendToken(token)),
                    StreamEvent::ToolCalls(calls) => Some(AppCall::RequestTools(calls)),
                    StreamEvent::ToolsFinished(outcomes) => Some(
                        AppCall::FinishTools(outcomes),
                    ),
                    StreamEvent::Usage(usage) => Some(AppCall::RecordExactUsage(usage)),
                    StreamEvent::Done => Some(AppCall::FinishStream),
                    StreamEvent::Notice(note) => Some(AppCall::Note(note)),
                    StreamEvent::Error(error) => Some(AppCall::FailStream(error)),
                    _ => None,
                }
            },
        }
    }

    /// Takes the finished turns that are still to be recorded, oldest first.
    pub fn take_usage(&mut self) -> (turns: Vec<Turn>)
        ensures
            turns@ == old(self)@.pending_usage,
            final(self)@ == (SessionView { pending_usage: Seq::<Turn>::empty(), ..old(self)@ }),
    {
        let mut turns: Vec<Turn> = Vec::new();
        std::mem::swap(&mut turns, &mut self.pending_usage);
        turns
    }

    /// Whether the quota has to be saved; it then counts as saved.
    pub fn take_quota_save(&mut self) -> (due: bool)
        ensures
            due == old(self).quota_dirty,
            final(self)@ == (SessionView { quota_dirty: false, ..old(self)@ }),
    {
        let due = self.quota_dirty;
        self.quota_dirty = false;
        due
    }

    /// The settings to enrol with, if an enrolment was asked for. The session's own settings
    /// stay as they are: what the enrolment brings comes back as an event.
    pub fn take_enrolment(&mut self) -> (settings: Option<Config<R>>)
        ensures
            settings is Some <==> old(self).enrol_requested,
            settings matches Some(settings) ==> settings@ == enrolment_settings(
                old(self)@.config,
            ),
            final(self)@ == (SessionView { enrol_requested: false, ..old(self)@ }),
    {
        if !self.enrol_requested {
            return None;
        }
        self.enrol_requested = false;
        Some(enrolment_config(&self.config))
    }

    /// Whether the free-tier budget has to be looked up; it then counts as asked for.
    pub fn take_budget_refresh(&mut self) -> (due: bool)
        ensures
            due == old(self).refresh_budget,
            final(self)@ == (SessionView { refresh_budget: false, ..old(self)@ }),
    {
        let due = self.refresh_budget;
        self.refresh_budget = false;
        due
    }

    /// Starts the pending request, if there is one, under the next request id.
    pub fn start_request(&mut self, workspace: &Option<Workspace>) -> (request: Option<
        ChatRequest<R>,
    >)
        requires
            old(self).state == AppState::Sending ==> old(self).request_id < u64::MAX,
        ensures
            request is Some <==> old(self).state == AppState::Sending,
            request matches Some(request) ==> {
                &&& request.id == old(self).request_id + 1
                &&& request.endpoint == old(self).config.llm.endpoint
                &&& request.model == old(self).config.llm.model
                &&& request.api_key == old(self).config.llm.api_key
                &&& request.max_tokens == old(self).config.llm.max_tokens
                &&& request.include_usage <==> old(self).config.quota.enabled
                    && old(self).config.quota.include_usage
                &&& request.offer_tools <==> workspace is Some && old(self).tool_steps
                    < old(self).config.tools.max_steps
                &&& request.system is Some <==> workspace is Some
                &&& request.system matches Some(system) ==> {
                    &&& Some(system.workspace) == *workspace
                    &&& system.tools == old(self).config.tools
                    &&& system.budget_left == request.offer_tools
                }
                &&& request@ == old(self)@.chat_request(workspace_view(*workspace))
                &&& final(self)@ == old(self)@.requested()
            },
            request is None ==> final(self)@ == old(self)@,
    {
        if self.state != AppState::Sending {
            return None;
        }
        self.request_id = self.request_id + 1;
        let budget_left = self.tool_steps < self.config.tools.max_steps;
        let (offer_tools, system) = match workspace {
            Some(workspace) => (
                budget_left,
                Some(
                    SystemPrompt {
                        workspace: workspace.clone(),
                        tools: self.config.tools.clone(),
                        budget_left,
                    },
                ),
            ),
            None => (false, None),
        };
        let request = ChatRequest {
            id: self.request_id,
            endpoint: self.config.llm.endpoint.clone(),
            model: self.config.llm.model.clone(),
            api_key: self.config.llm.api_key.clone(),
            max_tokens: self.config.llm.max_tokens,
            include_usage: self.config.quota.enabled && self.config.quota.include_usage,
            offer_tools,
            system,
        };
        self.state = AppState::Streaming;
        Some(request)
    }

    /// Takes the approved tool calls, if it is time to run them. With a workspace they are to
    /// be run there; without one there is nothing to run them in, and the application is
    /// failed with `TOOLS_NOT_ENABLED` in their place.
    pub fn start_tools(&mut self, workspace: &Option<Workspace>) -> (run: Option<
        Result<ToolRun<C, R>, String>,
    >)
        ensures
            run is Some <==> old(self)@.tools_due(),
            run is Some <==> old(self).state == AppState::ExecutingTools
                && old(self).approved_tools@.len() > 0,
            run matches Some(Ok(run)) ==> {
                &&& run.id == old(self).request_id
                &&& run.calls@ == old(self).approved_tools@
                &&& run.tools == old(self).config.tools
                &&& Some(run.workspace) == *workspace
            },
            run is Some ==> {
                &&& final(self)@ == (SessionView {
                    approved_tools: Seq::<C>::empty(),
                    ..old(self)@
                })
                &&& match *workspace {
                    Some(workspace) => run->0 is Ok && run->0->Ok_0@ == old(self)@.tool_run(
                        workspace@,
                    ),
                    None => run->0 is Err && run->0->Err_0@ == TOOLS_NOT_ENABLED@,
                }
            },
            run is None ==> final(self)@ == old(self)@,
    {
        if self.state != AppState::ExecutingTools || self.approved_tools.len() == 0 {
            return None;
        }
        let mut calls: Vec<C> = Vec::new();
        std::mem::swap(&mut calls, &mut self.approved_tools);
        match workspace {
            Some(workspace) => Some(
                Ok(
                    ToolRun {
                        id: self.request_id,
                        calls,
                        tools: self.config.tools.clone(),
                        workspace: workspace.clone(),
                    },
                ),
            ),
            None => Some(Err(TOOLS_NOT_ENABLED.to_string())),
        }
    }
}

/// An event of the current request reaches the application as what it is, with what it carries
/// unchanged.
pub proof fn law_events_arrive_as_they_were_sent<C, O, U>(
    id: u64,
    text: Seq<char>,
    calls: Seq<C>,
    outcomes: Seq<O>,
    usage: U,
)
    ensures
        delivered(id, id, StreamEventView::<C, O, U>::Token(text)) == Some(
            AppCallView::<C, O, U>::AppendToken(text),
        ),
        delivered(id, id, StreamEventView::<C, O, U>::ToolCalls(calls)) == Some(
            AppCallView::<C, O, U>::RequestTools(calls),
        ),
        delivered(id, id, StreamEventView::<C, O, U>::ToolsFinished(outcomes)) == Some(
            AppCallView::<C, O, U>::FinishTools(outcomes),
        ),
        delivered(id, id, StreamEventView::<C, O, U>::Usage(usage)) == Some(
            AppCallView::<C, O, U>::RecordExactUsage(usage),
        ),
        delivered(id, id, StreamEventView::<C, O, U>::Done) == Some(
            AppCallView::<C, O, U>::FinishStream,
        ),
        delivered(id, id, StreamEventView::<C, O, U>::Notice(text)) == Some(
            AppCallView::<C, O, U>::Note(text),
        ),
        delivered(id, id, StreamEventView::<C, O, U>::Error(text)) == Some(
            AppCallView::<C, O, U>::FailStream(text),
        ),
{
}

/// Under any id but the current one, an event that belongs to a request reaches nobody; the
/// free-tier events have their effect under every id.
pub proof fn law_ids_count_for_requests_only<C, O, U>(
    current: u64,
    id: u64,
    event: StreamEventView<C, O, U>,
)
    ensures
        match event {
            StreamEventView::FreeTierBudget(_) => delivered(current, id, event) is None,
            StreamEventView::FreeTierEnrolled(e) => delivered(current, id, event) == Some(
                AppCallView::<C, O, U>::FreeTierEnrolled(e),
            ),
            StreamEventView::FreeTierFailed(reason) => delivered(current, id, event) == Some(
                AppCallView::<C, O, U>::FreeTierFailed(reason),
            ),
            _ => delivered(current, id, event) is Some <==> id == current,
        },
{
}

/// Two events tell the application the same only if they are the same, so nothing of what an
/// event carries is lost on the way.
pub proof fn law_different_events_are_told_apart<C, O, U>(
    current: u64,
    one: (u64, StreamEventView<C, O, U>),
    other: (u64, StreamEventView<C, O, U>),
)
    requires
        delivered(current, one.0, one.1) is Some,
        delivered(current, one.0, one.1) == delivered(current, other.0, other.1),
    ensures
        one.1 == other.1,
{
}

/// A budget line becomes the status, and nothing else of the session changes; no other event
/// changes anything of it.
pub proof fn law_budget_line_is_shown<C, O, U, R>(
    session: SessionView<C, R>,
    event: StreamEventView<C, O, U>,
)
    ensures
        event matches StreamEventView::FreeTierBudget(line) ==> session.after_event(event) == (
        SessionView { free_tier_status: line, ..session }),
        !(event is FreeTierBudget) ==> session.after_event(event) == session,
{
}

/// With a workspace, a request offers the tools, and its system prompt says that there is
/// budget left, exactly while fewer tool steps have been taken than the settings allow. The
/// prompt is made for that workspace with the settings of the tools.
pub proof fn law_tools_are_offered_while_the_budget_lasts<C, R>(
    session: SessionView<C, R>,
    workspace: WorkspaceView,
)
    ensures
        ({
            let request = session.chat_request(Some(workspace));
            let left = session.tool_steps < session.config.tools.max_steps;
            &&& request.offer_tools == left
            &&& request.system matches Some(system) && system.budget_left == left
                && system.workspace == workspace && system.tools == session.config.tools
        }),
{
}

/// Without a workspace a request offers no tools and has no system prompt, whatever the budget.
pub proof fn law_no_workspace_no_tools<C, R>(session: SessionView<C, R>)
    ensures
        !session.chat_request(None).offer_tools,
        session.chat_request(None).system is None,
{
}

/// A request goes where the settings say, with their model, key and limit, under the id after
/// the last; exact usage is asked for exactly where quotas are counted and the settings want
/// it. Its workspace has no part in that.
pub proof fn law_request_follows_the_settings<C, R>(
    session: SessionView<C, R>,
    workspace: Option<WorkspaceView>,
)
    requires
        session.request_id < u64::MAX,
    ensures
        ({
            let request = session.chat_request(workspace);
            &&& request.id == session.request_id + 1
            &&& request.endpoint == session.config.llm.endpoint
            &&& request.model == session.config.llm.model
            &&& request.api_key == session.config.llm.api_key
            &&& request.max_tokens == session.config.llm.max_tokens
            &&& request.include_usage <==> session.config.quota.enabled
                && session.config.quota.include_usage
        }),
{
}

/// Two sessions with the same settings, step count and request id start the same request,
/// whatever else they hold.
pub proof fn law_request_depends_on_nothing_else<C, R>(
    one: SessionView<C, R>,
    other: SessionView<C, R>,
    workspace: Option<WorkspaceView>,
)
    requires
        one.config == other.config,
        one.tool_steps == other.tool_steps,
        one.request_id == other.request_id,
    ensures
        one.chat_request(workspace) == other.chat_request(workspace),
{
}

/// Starting a request takes the next id and leaves the session streaming; nothing else of it
/// changes.
pub proof fn law_request_leaves_the_session_streaming<C, R>(session: SessionView<C, R>)
    requires
        session.request_id < u64::MAX,
    ensures
        session.requested().request_id == session.request_id + 1,
        session.requested().state == AppState::Streaming,
        (SessionView {
            request_id: session.request_id,
            state: session.state,
            ..session.requested()
        }) == session,
{
}

/// Approved calls are due exactly while the application is executing tools, whatever else the
/// session holds, and they are run as they were approved, in the workspace, with the settings
/// of the tools and under the current request.
pub proof fn law_approved_calls_are_due_and_run_as_approved<C, R>(
    session: SessionView<C, R>,
    workspace: WorkspaceView,
)
    ensures
        session.tools_due() <==> session.state == AppState::ExecutingTools
            && session.approved_tools.len() != 0,
        session.tool_run(workspace).calls == session.approved_tools,
        session.tool_run(workspace).id == session.request_id,
        session.tool_run(workspace).tools == session.config.tools,
        session.tool_run(workspace).workspace == workspace,
{
}

/// In a run of tools the calls come up in their order, each at its own place and none after the
/// last; the outcomes are reported under the id of the run, as they are, once there is one for
/// each call.
pub proof fn law_calls_come_up_in_order<C, O, U, R>(
    run: ToolRunView<C, R>,
    done: nat,
    outcomes: Seq<O>,
)
    ensures
        done < run.calls.len() ==> run.call_after(done) == Some(run.calls[done as int]),
        done >= run.calls.len() ==> run.call_after(done) is None,
        outcomes.len() == run.calls.len() ==> run.report::<O, U>(outcomes) == Some(
            (run.id, StreamEventView::<C, O, U>::ToolsFinished(outcomes)),
        ),
        outcomes.len() != run.calls.len() ==> run.report::<O, U>(outcomes) is None,
{
}

/// A session begins idle, before its first request and with nothing queued or asked for but,
/// where the start left it, the budget; it shows what the start found out.
pub proof fn law_session_begins_idle<C, R>(
    config: ConfigView<R>,
    free_tier_status: Seq<char>,
    refresh_budget: bool,
    workspace: Option<WorkspaceView>,
    workspace_status: Seq<char>,
)
    ensures
        ({
            let session = SessionView::<C, R>::fresh(
                config,
                free_tier_status,
                refresh_budget,
                workspace,
                workspace_status,
            );
            &&& session.config == config
            &&& session.state == AppState::Idle
            &&& session.request_id == 0
            &&& session.tool_steps == 0
            &&& session.approved_tools.len() == 0
            &&& session.pending_usage.len() == 0
            &&& !session.quota_dirty
            &&& !session.enrol_requested
            &&& session.refresh_budget == refresh_budget
            &&& !session.should_exit
            &&& session.free_tier_status == free_tier_status
            &&& session.workspace_status == workspace_status
            &&& workspace matches Some(workspace) ==> session.workspace_root == workspace.root
            &&& workspace is None ==> session.workspace_root.len() == 0
        }),
{
}

} // verus!
