//! The event loop, one action at a time.
//!
//! A frame draws the screen, waits briefly for input, takes in every background event that
//! has arrived, and then goes through its duties in a fixed order: record usage, save the
//! quota, enrol, refresh the budget, start the pending request, run the approved tools, and
//! either leave or draw the next frame. The loop hands out one action, is told what came of
//! it, and hands out the next.

use crate::config::{Config, ConfigView};
use crate::freetier::enrolment_settings;
use crate::input::{input_meaning, on_input, InputAction, InputEvent};
use crate::session::{
    delivered, AppCall, AppCallView, AppState, ChatRequest, ChatRequestView, Session,
    SessionView, StreamEvent, StreamEventView, ToolRun, ToolRunView, Turn, TOOLS_NOT_ENABLED,
};
use crate::workspace::{workspace_view, Workspace, WorkspaceView};
use vstd::prelude::*;

verus! {

/// How long a frame waits for input, in milliseconds.
pub const POLL_MILLIS: u64 = 16;

/// How many background events may wait for the loop.
pub const CHANNEL_CAPACITY: usize = 256;

/// Why the loop ended. `Failed` means that the terminal could not be drawn or read.
#[derive(Clone, Copy, Debug, PartialEq, Eq, Structural)]
pub enum Ending {
    Quit,
    Exit,
    Failed,
}

/// The action that the loop has handed out last.
#[derive(Clone, Copy, Debug, PartialEq, Eq, Structural)]
pub enum Stage {
    /// None yet.
    Start,
    /// Drawing a frame.
    Drawing,
    /// Waiting for input.
    Polling,
    /// Telling the application about an event.
    Delivering,
    /// Taking a background event off the channel.
    Draining,
    /// Recording finished turns.
    Recording,
    /// Saving the quota.
    Saving,
    /// Starting an enrolment.
    Enrolling,
    /// Asking whether the free tier is in use.
    Checking,
    /// Starting a budget lookup.
    Fetching,
    /// Starting a request.
    Requesting,
    /// Starting tools, or refusing to.
    Running,
    /// Stopping.
    Stopped(Ending),
}

/// What came of an action. `Failed` counts for drawing and polling only. A reply that brings
/// no input, no event and no yes counts as none.
#[derive(Debug, PartialEq, Eq)]
pub enum Reply<K, C, O, U> {
    Done,
    Failed,
    Input(Option<InputEvent<K>>),
    Received(Option<(u64, StreamEvent<C, O, U>)>),
    FreeTier(bool),
}

/// An action of the loop.
#[derive(Debug, PartialEq, Eq)]
pub enum Action<K, C, O, U, R> {
    /// Draw the screen.
    Draw,
    /// Wait this many milliseconds at most for a terminal event, and reply with it.
    Poll(u64),
    /// Hand a key to the application.
    HandleKey(K),
    /// Hand a paste to the application.
    HandlePaste(String),
    /// Take the next background event without waiting, and reply with it.
    Receive,
    /// Tell the application about a background event.
    Call(AppCall<C, O, U>),
    /// Add finished turns to the usage record, in order.
    RecordTurns(Vec<Turn>),
    /// Save the quota.
    SaveQuota,
    /// Start an enrolment with these settings; its result comes as an event.
    Enrol(Config<R>),
    /// Reply whether the settings use the free tier.
    CheckFreeTier,
    /// Start a lookup of the budget; its result comes as an event under this id.
    FetchBudget(u64, Config<R>),
    /// Start this request, and keep the means to abort it.
    StartRequest(ChatRequest<R>),
    /// Start these tools, and keep the means to abort them.
    RunTools(ToolRun<C, R>),
    /// Leave the loop.
    Stop(Ending),
}

/// The event loop: its place in the frame, and the workspace of the session.
#[derive(Debug, PartialEq, Eq)]
pub struct EventLoop {
    pub stage: Stage,
    pub workspace: Option<Workspace>,
}

/// The view of `Reply`.
pub enum ReplyView<K, C, O, U> {
    Done,
    Failed,
    Input(Option<InputEvent<K>>),
    Received(Option<(u64, StreamEventView<C, O, U>)>),
    FreeTier(bool),
}

/// The view of `Action`.
pub enum ActionView<K, C, O, U, R> {
    Draw,
    Poll(u64),
    HandleKey(K),
    HandlePaste(Seq<char>),
    Receive,
    Call(AppCallView<C, O, U>),
    RecordTurns(Seq<Turn>),
    SaveQuota,
    Enrol(ConfigView<R>),
    CheckFreeTier,
    FetchBudget(u64, ConfigView<R>),
    StartRequest(ChatRequestView<R>),
    RunTools(ToolRunView<C, R>),
    Stop(Ending),
}

impl<K, C, O, U> View for Reply<K, C, O, U> {
    type V = ReplyView<K, C, O, U>;

    open spec fn view(&self) -> ReplyView<K, C, O, U> {
        match *self {
            Reply::Done => ReplyView::Done,
            Reply::Failed => ReplyView::Failed,
            Reply::Input(input) => ReplyView::Input(input),
            Reply::Received(Some((id, event))) => ReplyView::Received(Some((id, event@))),
            Reply::Received(None) => ReplyView::Received(None),
            Reply::FreeTier(yes) => ReplyView::FreeTier(yes),
        }
    }
}

impl<K, C, O, U, R> View for Action<K, C, O, U, R> {
    type V = ActionView<K, C, O, U, R>;

    open spec fn view(&self) -> ActionView<K, C, O, U, R> {
        match *self {
            Action::Draw => ActionView::Draw,
            Action::Poll(millis) => ActionView::Poll(millis),
            Action::HandleKey(key) => ActionView::HandleKey(key),
            Action::HandlePaste(text) => ActionView::HandlePaste(text@),
            Action::Receive => ActionView::Receive,
            Action::Call(call) => ActionView::Call(call@),
            Action::RecordTurns(turns) => ActionView::RecordTurns(turns@),
            Action::SaveQuota => ActionView::SaveQuota,
            Action::Enrol(config) => ActionView::Enrol(config@),
            Action::CheckFreeTier => ActionView::CheckFreeTier,
            Action::FetchBudget(id, config) => ActionView::FetchBudget(id, config@),
            Action::StartRequest(request) => ActionView::StartRequest(request@),
            Action::RunTools(run) => ActionView::RunTools(run@),
            Action::Stop(ending) => ActionView::Stop(ending),
        }
    }
}

/// The place of the loop, the session and the action after a reply.
pub struct Outcome<K, C, O, U, R> {
    pub stage: Stage,
    pub session: SessionView<C, R>,
    pub action: ActionView<K, C, O, U, R>,
}

/// What a frame sees to once no background event is left, in this order. `Close` ends the
/// frame.
#[derive(Clone, Copy, Debug, PartialEq, Eq, Structural)]
pub enum Duty {
    Usage,
    Quota,
    Enrol,
    Budget,
    Request,
    Tools,
    Close,
}

/// The place of a duty in the frame.
pub open spec fn rank(duty: Duty) -> int {
    match duty {
        Duty::Usage => 0,
        Duty::Quota => 1,
        Duty::Enrol => 2,
        Duty::Budget => 3,
        Duty::Request => 4,
        Duty::Tools => 5,
        Duty::Close => 6,
    }
}

/// Whether there is something to do about a duty.
pub open spec fn due<C, R>(duty: Duty, session: SessionView<C, R>) -> bool {
    match duty {
        Duty::Usage => session.pending_usage.len() > 0,
        Duty::Quota => session.quota_dirty,
        Duty::Enrol => session.enrol_requested,
        Duty::Budget => session.refresh_budget,
        Duty::Request => session.state == AppState::Sending,
        Duty::Tools => session.tools_due(),
        Duty::Close => true,
    }
}

/// The first duty from a place in the frame on that there is something to do about.
pub open spec fn first_due<C, R>(session: SessionView<C, R>, from: int) -> Duty {
    if from <= 0 && due(Duty::Usage, session) {
        Duty::Usage
    } else if from <= 1 && due(Duty::Quota, session) {
        Duty::Quota
    } else if from <= 2 && due(Duty::Enrol, session) {
        Duty::Enrol
    } else if from <= 3 && due(Duty::Budget, session) {
        Duty::Budget
    } else if from <= 4 && due(Duty::Request, session) {
        Duty::Request
    } else if from <= 5 && due(Duty::Tools, session) {
        Duty::Tools
    } else {
        Duty::Close
    }
}

/// What is done about a duty that is due.
pub open spec fn discharge<K, C, O, U, R>(
    duty: Duty,
    workspace: Option<WorkspaceView>,
    session: SessionView<C, R>,
) -> Outcome<K, C, O, U, R> {
    match duty {
        Duty::Usage => Outcome {
            stage: Stage::Recording,
            session: SessionView { pending_usage: Seq::empty(), ..session },
            action: ActionView::RecordTurns(session.pending_usage),
        },
        Duty::Quota => Outcome {
            stage: Stage::Saving,
            session: SessionView { quota_dirty: false, ..session },
            action: ActionView::SaveQuota,
        },
        Duty::Enrol => Outcome {
            stage: Stage::Enrolling,
            session: SessionView { enrol_requested: false, ..session },
            action: ActionView::Enrol(enrolment_settings(session.config)),
        },
        Duty::Budget => Outcome {
            stage: Stage::Checking,
            session: SessionView { refresh_budget: false, ..session },
            action: ActionView::CheckFreeTier,
        },
        Duty::Request => Outcome {
            stage: Stage::Requesting,
            session: session.requested(),
            action: ActionView::StartRequest(session.chat_request(workspace)),
        },
        Duty::Tools => Outcome {
            stage: Stage::Running,
            session: SessionView { approved_tools: Seq::empty(), ..session },
            action: match workspace {
                Some(workspace) => ActionView::RunTools(session.tool_run(workspace)),
                None => ActionView::Call(AppCallView::FailStream(TOOLS_NOT_ENABLED@)),
            },
        },
        Duty::Close => if session.should_exit {
            Outcome {
                stage: Stage::Stopped(Ending::Exit),
                session,
                action: ActionView::Stop(Ending::Exit),
            }
        } else {
            Outcome { stage: Stage::Drawing, session, action: ActionView::Draw }
        },
    }
}

/// What the loop does about the duties from a place in the frame on.
pub open spec fn settle<K, C, O, U, R>(
    workspace: Option<WorkspaceView>,
    session: SessionView<C, R>,
    from: int,
) -> Outcome<K, C, O, U, R> {
    discharge(first_due(session, from), workspace, session)
}

/// The loop's ending, with the session as it is.
pub open spec fn stopped<K, C, O, U, R>(
    ending: Ending,
    session: SessionView<C, R>,
) -> Outcome<K, C, O, U, R> {
    Outcome { stage: Stage::Stopped(ending), session, action: ActionView::Stop(ending) }
}

/// Going on to take the next background event.
pub open spec fn draining<K, C, O, U, R>(session: SessionView<C, R>) -> Outcome<K, C, O, U, R> {
    Outcome { stage: Stage::Draining, session, action: ActionView::Receive }
}

/// What the loop does about the input of a frame.
pub open spec fn after_input<K, C, O, U, R>(
    session: SessionView<C, R>,
    input: Option<InputEvent<K>>,
) -> Outcome<K, C, O, U, R> {
    match input {
        None => draining(session),
        Some(event) => match input_meaning(event) {
            InputAction::Quit => stopped(Ending::Quit, session),
            InputAction::Key(key) => Outcome {
                stage: Stage::Delivering,
                session,
                action: ActionView::HandleKey(key),
            },
            InputAction::Paste(text) => Outcome {
                stage: Stage::Delivering,
                session,
                action: ActionView::HandlePaste(text@),
            },
            InputAction::Ignore => draining(session),
        },
    }
}

/// What the loop does about a background event.
pub open spec fn after_event<K, C, O, U, R>(
    session: SessionView<C, R>,
    id: u64,
    event: StreamEventView<C, O, U>,
) -> Outcome<K, C, O, U, R> {
    let next = session.after_event(event);
    match delivered(session.request_id, id, event) {
        Some(call) => Outcome {
            stage: Stage::Delivering,
            session: next,
            action: ActionView::Call(call),
        },
        None => draining(next),
    }
}

/// What the loop does when it is told what came of its last action.
pub open spec fn transition<K, C, O, U, R>(
    stage: Stage,
    workspace: Option<WorkspaceView>,
    session: SessionView<C, R>,
    reply: ReplyView<K, C, O, U>,
) -> Outcome<K, C, O, U, R> {
    match stage {
        Stage::Start => Outcome { stage: Stage::Drawing, session, action: ActionView::Draw },
        Stage::Drawing => match reply {
            ReplyView::Failed => stopped(Ending::Failed, session),
            _ => Outcome { stage: Stage::Polling, session, action: ActionView::Poll(POLL_MILLIS) },
        },
        Stage::Polling => match reply {
            ReplyView::Failed => stopped(Ending::Failed, session),
            ReplyView::Input(input) => after_input(session, input),
            _ => draining(session),
        },
        Stage::Delivering => draining(session),
        Stage::Draining => match reply {
            ReplyView::Received(Some((id, event))) => after_event(session, id, event),
            _ => settle(workspace, session, rank(Duty::Usage)),
        },
        Stage::Recording => settle(workspace, session, rank(Duty::Quota)),
        Stage::Saving => settle(workspace, session, rank(Duty::Enrol)),
        Stage::Enrolling => settle(workspace, session, rank(Duty::Budget)),
        Stage::Checking => match reply {
            ReplyView::FreeTier(true) => Outcome {
                stage: Stage::Fetching,
                session,
                action: ActionView::FetchBudget(session.request_id, session.config),
            },
            _ => settle(workspace, session, rank(Duty::Request)),
        },
        Stage::Fetching => settle(workspace, session, rank(Duty::Request)),
        Stage::Requesting => settle(workspace, session, rank(Duty::Tools)),
        Stage::Running => settle(workspace, session, rank(Duty::Close)),
        Stage::Stopped(ending) => stopped(ending, session),
    }
}

impl EventLoop {
    /// The loop of a session that has this workspace, before its first frame.
    pub fn new(workspace: Option<Workspace>) -> (event_loop: Self)
        ensures
            event_loop.stage == Stage::Start,
            event_loop.workspace == workspace,
    {
        EventLoop { stage: Stage::Start, workspace }
    }

    /// Whether the next step starts a request, and so takes a fresh id for it.
    pub fn starts_request<K, C, O, U, R>(
        &self,
        session: &Session<C, R>,
        reply: &Reply<K, C, O, U>,
    ) -> (starts: bool)
        ensures
            starts == (transition(
                self.stage,
                workspace_view(self.workspace),
                session@,
                reply@,
            ).action is StartRequest),
    {
        let from: u8 = match self.stage {
            Stage::Draining => match reply {
                Reply::Received(Some(_)) => return false,
                _ => 0,
            },
            Stage::Recording => 1,
            Stage::Saving => 2,
            Stage::Enrolling => 3,
            Stage::Checking => match reply {
                Reply::FreeTier(true) => return false,
                _ => 4,
            },
            Stage::Fetching => 4,
            _ => return false,
        };
        session.state == AppState::Sending
            && !(from == 0 && session.pending_usage.len() > 0)
            && !(from <= 1 && session.quota_dirty)
            && !(from <= 2 && session.enrol_requested)
            && !(from <= 3 && session.refresh_budget)
    }

    /// Goes on after the last action: takes in what came of it, and gives the next one.
    pub fn step<K, C, O, U, R>(
        &mut self,
        session: &mut Session<C, R>,
        reply: Reply<K, C, O, U>,
    ) -> (action: Action<K, C, O, U, R>)
        requires
            transition(
                old(self).stage,
                workspace_view(old(self).workspace),
                old(session)@,
                reply@,
            ).action is StartRequest ==> old(session).request_id < u64::MAX,
        ensures
            ({
                let outcome = transition(
                    old(self).stage,
                    workspace_view(old(self).workspace),
                    old(session)@,
                    reply@,
                );
                &&& final(self).stage == outcome.stage
                &&& final(session)@ == outcome.session
                &&& action@ == outcome.action
            }),
            final(self).workspace == old(self).workspace,
    {
        match self.stage {
            Stage::Start => {
                self.stage = Stage::Drawing;
                Action::Draw
            },
            Stage::Drawing => match reply {
                Reply::Failed => self.stop(Ending::Failed),
                _ => {
                    self.stage = Stage::Polling;
                    Action::Poll(POLL_MILLIS)
                },
            },
            Stage::Polling => match reply {
                Reply::Failed => self.stop(Ending::Failed),
                Reply::Input(Some(event)) => match on_input(event) {
                    InputAction::Quit => self.stop(Ending::Quit),
                    InputAction::Key(key) => {
                        self.stage = Stage::Delivering;
                        Action::HandleKey(key)
                    },
                    InputAction::Paste(text) => {
                        self.stage = Stage::Delivering;
                        Action::HandlePaste(text)
                    },
                    InputAction::Ignore => self.drain(),
                },
                _ => self.drain(),
            },
            Stage::Delivering => self.drain(),
            Stage::Draining => match reply {
                Reply::Received(Some((id, event))) => match session.receive(id, event) {
                    Some(call) => {
                        self.stage = Stage::Delivering;
                        Action::Call(call)
                    },
                    None => self.drain(),
                },
                _ => self.see_to(session, 0),
            },
            Stage::Recording => self.see_to(session, 1),
            Stage::Saving => self.see_to(session, 2),
            Stage::Enrolling => self.see_to(session, 3),
            Stage::Checking => match reply {
                Reply::FreeTier(true) => {
                    self.stage = Stage::Fetching;
                    Action::FetchBudget(session.request_id, session.config.clone())
                },
                _ => self.see_to(session, 4),
            },
            Stage::Fetching => self.see_to(session, 4),
            Stage::Requesting => self.see_to(session, 5),
            Stage::Running => self.see_to(session, 6),
            Stage::Stopped(ending) => self.stop(ending),
        }
    }

    /// Ends the loop.
    fn stop<K, C, O, U, R>(&mut self, ending: Ending) -> (action: Action<K, C, O, U, R>)
        ensures
            final(self).stage == Stage::Stopped(ending),
            final(self).workspace == old(self).workspace,
            action@ == ActionView::<K, C, O, U, R>::Stop(ending),
    {
        self.stage = Stage::Stopped(ending);
        Action::Stop(ending)
    }

    /// Goes on to the next background event.
    fn drain<K, C, O, U, R>(&mut self) -> (action: Action<K, C, O, U, R>)
        ensures
            final(self).stage == Stage::Draining,
            final(self).workspace == old(self).workspace,
            action@ == ActionView::<K, C, O, U, R>::Receive,
    {
        self.stage = Stage::Draining;
        Action::Receive
    }

    /// Sees to the first duty that is due from a place in the frame on.
    fn see_to<K, C, O, U, R>(&mut self, session: &mut Session<C, R>, from: u8) -> (action:
        Action<K, C, O, U, R>)
        requires
            first_due(old(session)@, from as int) == Duty::Request ==> old(session).request_id
                < u64::MAX,
        ensures
            ({
                let outcome = settle::<K, C, O, U, R>(
                    workspace_view(old(self).workspace),
                    old(session)@,
                    from as int,
                );
                &&& final(self).stage == outcome.stage
                &&& final(session)@ == outcome.session
                &&& action@ == outcome.action
            }),
            final(self).workspace == old(self).workspace,
    {
        if from == 0 {
            let turns = session.take_usage();
            if turns.len() > 0 {
                self.stage = Stage::Recording;
                return Action::RecordTurns(turns);
            }
            assert(session@.pending_usage =~= old(session)@.pending_usage);
        }
        if from <= 1 && session.take_quota_save() {
            self.stage = Stage::Saving;
            return Action::SaveQuota;
        }
        if from <= 2 {
            if let Some(settings) = session.take_enrolment() {
                self.stage = Stage::Enrolling;
                return Action::Enrol(settings);
            }
        }
        if from <= 3 && session.take_budget_refresh() {
            self.stage = Stage::Checking;
            return Action::CheckFreeTier;
        }
        if from <= 4 {
            if let Some(request) = session.start_request(&self.workspace) {
                self.stage = Stage::Requesting;
                return Action::StartRequest(request);
            }
        }
        if from <= 5 {
            match session.start_tools(&self.workspace) {
                Some(Ok(run)) => {
                    self.stage = Stage::Running;
                    return Action::RunTools(run);
                },
                Some(Err(refusal)) => {
                    self.stage = Stage::Running;
                    return Action::Call(AppCall::FailStream(refusal));
                },
                None => {},
            }
        }
        if session.should_exit {
            self.stop(Ending::Exit)
        } else {
            self.stage = Stage::Drawing;
            Action::Draw
        }
    }
}

} // verus!
