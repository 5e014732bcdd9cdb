//! What holds of the event loop as a whole.

use crate::config::{ConfigView, FreeTierConfigView, LlmConfigView};
use crate::event_loop::{
    due, first_due, rank, transition, ActionView, Duty, Ending, Outcome, ReplyView, Stage,
    POLL_MILLIS,
};
use crate::input::{
    is_quit_key, law_control_is_the_second_lowest_bit, InputEvent, KeyCode, KeyInput, KeyKind,
};
use crate::session::{
    belongs_to_request, call_for, delivered, is_stale, AppCallView, AppState, SessionView,
    StreamEventView, SystemPromptView, ToolRunView,
};
use crate::workspace::WorkspaceView;
use vstd::prelude::*;

verus! {

/// The stale-id guard does not touch free-tier events: whichever request is current and
/// whichever id such an event travels with, it has its effect.
pub proof fn law_free_tier_events_are_never_lost<C, O, U, R>(
    session: SessionView<C, R>,
    id: u64,
    event: StreamEventView<C, O, U>,
)
    requires
        !belongs_to_request(event),
    ensures
        delivered(session.request_id, id, event) == call_for(event),
        event matches StreamEventView::FreeTierBudget(line) ==> session.after_event(
            event,
        ).free_tier_status == line,
        event is FreeTierEnrolled || event is FreeTierFailed ==> call_for(event) is Some,
{
}

/// An event of a request that is no longer current changes nothing and reaches nobody.
pub proof fn law_stale_events_are_dropped<C, O, U, R>(
    session: SessionView<C, R>,
    id: u64,
    event: StreamEventView<C, O, U>,
)
    requires
        belongs_to_request(event),
        id != session.request_id,
    ensures
        delivered(session.request_id, id, event) is None,
        session.after_event(event) == session,
{
}

/// An event of the current request always reaches the application.
pub proof fn law_current_events_are_delivered<C, O, U, R>(
    session: SessionView<C, R>,
    event: StreamEventView<C, O, U>,
)
    requires
        belongs_to_request(event),
    ensures
        delivered(session.request_id, session.request_id, event) is Some,
        delivered(session.request_id, session.request_id, event) == call_for(event),
{
}

/// Starting a request makes every event of every earlier request stale, tool results
/// included.
pub proof fn law_new_request_outdates_the_old<C, O, U, R>(
    session: SessionView<C, R>,
    workspace: Option<WorkspaceView>,
    id: u64,
    event: StreamEventView<C, O, U>,
)
    requires
        session.request_id < u64::MAX,
        id <= session.request_id,
        belongs_to_request(event),
    ensures
        session.requested().request_id == session.chat_request(workspace).id,
        session.requested().request_id > session.request_id,
        is_stale(session.requested().request_id, id, event),
{
}

/// A pending request is started once: afterwards there is neither a request nor a tool run
/// due until the application asks again.
pub proof fn law_request_starts_once<C, R>(session: SessionView<C, R>)
    ensures
        !due(Duty::Request, session.requested()),
        !due(Duty::Tools, session.requested()),
{
}

/// Once the tool steps are spent, no request offers tools, so the model has nothing left to
/// call. Without a workspace none ever does.
pub proof fn law_spent_budget_withholds_tools<C, R>(
    session: SessionView<C, R>,
    workspace: Option<WorkspaceView>,
)
    requires
        session.tool_steps >= session.config.tools.max_steps || workspace is None,
    ensures
        !session.chat_request(workspace).offer_tools,
        session.chat_request(workspace).system matches Some(system) ==> !system.budget_left,
{
}

/// The duty that the loop sees to next is the first that is due: it is due itself, and none
/// between the place in the frame and it is.
pub proof fn law_duties_go_in_order<C, R>(session: SessionView<C, R>, from: int, duty: Duty)
    requires
        from <= rank(Duty::Close),
    ensures
        due(first_due(session, from), session),
        from <= rank(first_due(session, from)),
        from <= rank(duty) < rank(first_due(session, from)) ==> !due(duty, session),
{
}

/// How far a frame has come.
pub open spec fn progress(stage: Stage) -> int {
    match stage {
        Stage::Start => 0,
        Stage::Drawing => 1,
        Stage::Polling => 2,
        Stage::Delivering => 3,
        Stage::Draining => 3,
        Stage::Recording => 4,
        Stage::Saving => 5,
        Stage::Enrolling => 6,
        Stage::Checking => 7,
        Stage::Fetching => 8,
        Stage::Requesting => 9,
        Stage::Running => 10,
        Stage::Stopped(_) => 11,
    }
}

/// A frame only goes forward: each step comes further in it, or draws the next frame from its
/// end, or takes part in taking in the background events. So once no event is left, the next
/// frame is drawn, or the loop left, after a bounded number of steps.
pub proof fn law_frames_go_forward<K, C, O, U, R>(
    stage: Stage,
    workspace: Option<WorkspaceView>,
    session: SessionView<C, R>,
    reply: ReplyView<K, C, O, U>,
)
    requires
        !(stage is Stopped),
    ensures
        ({
            let next = transition(stage, workspace, session, reply).stage;
            ||| progress(next) > progress(stage)
            ||| next == Stage::Drawing && progress(stage) >= progress(Stage::Draining)
            ||| next == Stage::Draining && stage == Stage::Delivering
            ||| stage == Stage::Draining && (reply matches ReplyView::Received(Some(_))) && (next
                == Stage::Draining || next == Stage::Delivering)
        }),
{
}

/// The loop is left exactly by Ctrl-C or Ctrl-D, by a failing terminal, or at the end of a
/// frame in which the application has asked to exit; and it stays left.
pub proof fn law_only_these_end_the_loop<K, C, O, U, R>(
    stage: Stage,
    workspace: Option<WorkspaceView>,
    session: SessionView<C, R>,
    reply: ReplyView<K, C, O, U>,
)
    ensures
        ({
            let outcome = transition(stage, workspace, session, reply);
            &&& outcome.action is Stop <==> outcome.stage is Stopped
            &&& outcome.action == ActionView::<K, C, O, U, R>::Stop(Ending::Failed) <==> {
                ||| stage == Stage::Stopped(Ending::Failed)
                ||| (stage == Stage::Drawing || stage == Stage::Polling) && reply is Failed
            }
            &&& outcome.action == ActionView::<K, C, O, U, R>::Stop(Ending::Quit) <==> {
                ||| stage == Stage::Stopped(Ending::Quit)
                ||| stage == Stage::Polling && (reply matches ReplyView::Input(
                    Some(InputEvent::Key(key)),
                ) && is_quit_key(key))
            }
            &&& outcome.action == ActionView::<K, C, O, U, R>::Stop(Ending::Exit) <==> {
                ||| stage == Stage::Stopped(Ending::Exit)
                ||| session.should_exit && closes_frame(stage, session, reply)
            }
        }),
{
}

/// Whether a reply finds the frame with no duty left.
pub open spec fn closes_frame<K, C, O, U, R>(
    stage: Stage,
    session: SessionView<C, R>,
    reply: ReplyView<K, C, O, U>,
) -> bool {
    match stage {
        Stage::Draining => !(reply matches ReplyView::Received(Some(_))) && first_due(session, 0)
            == Duty::Close,
        Stage::Recording => first_due(session, 1) == Duty::Close,
        Stage::Saving => first_due(session, 2) == Duty::Close,
        Stage::Enrolling => first_due(session, 3) == Duty::Close,
        Stage::Checking => reply != ReplyView::<K, C, O, U>::FreeTier(true) && first_due(
            session,
            4,
        ) == Duty::Close,
        Stage::Fetching => first_due(session, 4) == Duty::Close,
        Stage::Requesting => first_due(session, 5) == Duty::Close,
        Stage::Running => true,
        _ => false,
    }
}

/// Ctrl-C and Ctrl-D leave at once, with whatever is queued left where it is.
pub proof fn law_quitting_is_immediate<K, C, O, U, R>(
    workspace: Option<WorkspaceView>,
    session: SessionView<C, R>,
    key: KeyInput<K>,
)
    requires
        is_quit_key(key),
    ensures
        transition::<K, C, O, U, R>(
            Stage::Polling,
            workspace,
            session,
            ReplyView::Input(Some(InputEvent::Key(key))),
        ) == (Outcome::<K, C, O, U, R> {
            stage: Stage::Stopped(Ending::Quit),
            session,
            action: ActionView::Stop(Ending::Quit),
        }),
{
}

/// The loop itself never touches the settings, the step count, the exit flag or what is said
/// of the workspace; it never lowers the request id; it changes the application's state only
/// by starting a request, and the free-tier line only for a budget line.
pub proof fn law_loop_leaves_the_rest_alone<K, C, O, U, R>(
    stage: Stage,
    workspace: Option<WorkspaceView>,
    session: SessionView<C, R>,
    reply: ReplyView<K, C, O, U>,
)
    requires
        transition(stage, workspace, session, reply).action is StartRequest
            ==> session.request_id < u64::MAX,
    ensures
        ({
            let outcome = transition(stage, workspace, session, reply);
            let next = outcome.session;
            &&& next.config == session.config
            &&& next.tool_steps == session.tool_steps
            &&& next.should_exit == session.should_exit
            &&& next.workspace_status == session.workspace_status
            &&& next.workspace_root == session.workspace_root
            &&& next.request_id >= session.request_id
            &&& outcome.action is StartRequest <==> next.request_id != session.request_id
            &&& next.state != session.state ==> outcome.action is StartRequest
            &&& next.free_tier_status != session.free_tier_status ==> (reply matches
                ReplyView::Received(Some((_, event))) && event is FreeTierBudget)
        }),
{
}

/// Nothing queued is lost or handled twice: what leaves the queues of the session is exactly
/// what the action hands out, except that tool calls are refused, with a word to the
/// application, where there is no workspace to run them in.
pub proof fn law_queues_are_handed_out_whole<K, C, O, U, R>(
    stage: Stage,
    workspace: Option<WorkspaceView>,
    session: SessionView<C, R>,
    reply: ReplyView<K, C, O, U>,
)
    ensures
        ({
            let outcome = transition(stage, workspace, session, reply);
            let next = outcome.session;
            &&& match outcome.action {
                ActionView::RecordTurns(turns) => turns == session.pending_usage
                    && next.pending_usage.len() == 0,
                _ => next.pending_usage == session.pending_usage,
            }
            &&& match outcome.action {
                ActionView::RunTools(run) => {
                    &&& run.calls == session.approved_tools
                    &&& run.id == session.request_id
                    &&& next.approved_tools.len() == 0
                },
                _ => next.approved_tools != session.approved_tools ==> {
                    &&& workspace is None
                    &&& outcome.action is Call
                    &&& outcome.action->Call_0 is FailStream
                    &&& next.approved_tools.len() == 0
                },
            }
            &&& outcome.action is SaveQuota <==> session.quota_dirty && !next.quota_dirty
            &&& outcome.action is Enrol <==> session.enrol_requested && !next.enrol_requested
            &&& outcome.action is CheckFreeTier <==> session.refresh_budget
                && !next.refresh_budget
        }),
{
}

/// The budget is looked up only for a device that uses the free tier.
pub proof fn law_budget_is_fetched_on_the_free_tier_only<K, C, O, U, R>(
    stage: Stage,
    workspace: Option<WorkspaceView>,
    session: SessionView<C, R>,
    reply: ReplyView<K, C, O, U>,
)
    ensures
        transition(stage, workspace, session, reply).action is FetchBudget <==> stage
            == Stage::Checking && reply == ReplyView::<K, C, O, U>::FreeTier(true),
{
}

/// A frame in which nothing happens draws, waits, finds no event and draws again.
pub proof fn law_idle_frame<K, C, O, U, R>(
    workspace: Option<WorkspaceView>,
    session: SessionView<C, R>,
)
    requires
        first_due(session, 0) == Duty::Close,
        !session.should_exit,
    ensures
        transition::<K, C, O, U, R>(Stage::Drawing, workspace, session, ReplyView::Done)
            == (Outcome::<K, C, O, U, R> {
            stage: Stage::Polling,
            session,
            action: ActionView::Poll(POLL_MILLIS),
        }),
        transition::<K, C, O, U, R>(Stage::Polling, workspace, session, ReplyView::Input(None))
            == (Outcome::<K, C, O, U, R> {
            stage: Stage::Draining,
            session,
            action: ActionView::Receive,
        }),
        transition::<K, C, O, U, R>(Stage::Draining, workspace, session, ReplyView::Received(None))
            == (Outcome::<K, C, O, U, R> {
            stage: Stage::Drawing,
            session,
            action: ActionView::Draw,
        }),
{
}

/// The calls that the loop makes while it takes in a queue of background events, where
/// `sessions[i]` is the session at the time of the event `i`.
pub open spec fn calls_made<K, C, O, U, R>(
    workspace: Option<WorkspaceView>,
    sessions: Seq<SessionView<C, R>>,
    queue: Seq<(u64, StreamEventView<C, O, U>)>,
) -> Seq<AppCallView<C, O, U>>
    decreases queue.len(),
{
    if queue.len() == 0 {
        Seq::empty()
    } else {
        let before = calls_made::<K, C, O, U, R>(workspace, sessions, queue.drop_last());
        let outcome = transition::<K, C, O, U, R>(
            Stage::Draining,
            workspace,
            sessions[queue.len() - 1],
            ReplyView::Received(Some(queue.last())),
        );
        match outcome.action {
            ActionView::Call(call) => before.push(call),
            _ => before,
        }
    }
}

/// Whether the loop, having taken in an event and told the application about it where it had
/// to, asks for the next.
pub open spec fn keeps_draining<K, C, O, U, R>(
    workspace: Option<WorkspaceView>,
    session: SessionView<C, R>,
    item: (u64, StreamEventView<C, O, U>),
    session_after: SessionView<C, R>,
) -> bool {
    let outcome = transition::<K, C, O, U, R>(
        Stage::Draining,
        workspace,
        session,
        ReplyView::Received(Some(item)),
    );
    if outcome.action is Call {
        let next = transition::<K, C, O, U, R>(
            outcome.stage,
            workspace,
            session_after,
            ReplyView::Done,
        );
        next.stage == Stage::Draining && next.action is Receive
    } else {
        outcome.stage == Stage::Draining && outcome.action is Receive
    }
}

/// What the application is to be told about each event of a queue, judged by the request that
/// is current when the event is taken in.
pub open spec fn answers<C, O, U, R>(
    sessions: Seq<SessionView<C, R>>,
    queue: Seq<(u64, StreamEventView<C, O, U>)>,
) -> Seq<Option<AppCallView<C, O, U>>> {
    Seq::new(
        queue.len(),
        |i: int| delivered(sessions[i].request_id, queue[i].0, queue[i].1),
    )
}

/// Every background event that has arrived is taken in within the frame. The application is
/// told about exactly those of them that are not stale at the time, each once and in the order
/// of their arrival, whatever it makes of the session in between.
pub proof fn law_drain_takes_in_everything<K, C, O, U, R>(
    workspace: Option<WorkspaceView>,
    sessions: Seq<SessionView<C, R>>,
    queue: Seq<(u64, StreamEventView<C, O, U>)>,
)
    requires
        sessions.len() >= queue.len(),
    ensures
        calls_made::<K, C, O, U, R>(workspace, sessions, queue) == answers(
            sessions,
            queue,
        ).filter(|answer: Option<AppCallView<C, O, U>>| answer is Some).map_values(
            |answer: Option<AppCallView<C, O, U>>| answer->0,
        ),
        forall|i: int, session_after: SessionView<C, R>|
            0 <= i < queue.len() ==> #[trigger] keeps_draining::<K, C, O, U, R>(
                workspace,
                sessions[i],
                queue[i],
                session_after,
            ),
    decreases queue.len(),
{
    let kept = |answer: Option<AppCallView<C, O, U>>| answer is Some;
    let told = |answer: Option<AppCallView<C, O, U>>| answer->0;
    let all = answers(sessions, queue);
    reveal(Seq::filter);
    if queue.len() > 0 {
        let earlier = queue.drop_last();
        law_drain_takes_in_everything::<K, C, O, U, R>(workspace, sessions, earlier);
        assert(all.drop_last() =~= answers(sessions, earlier));
        if kept(all.last()) {
            assert(all.filter(kept) == all.drop_last().filter(kept).push(all.last()));
            assert(all.filter(kept).map_values(told)
                =~= all.drop_last().filter(kept).map_values(told).push(told(all.last())));
        } else {
            assert(all.filter(kept) == all.drop_last().filter(kept));
        }
    } else {
        assert(all.filter(kept).map_values(told) =~= Seq::empty());
    }
}

/// While the current request stays the same, the application is told about exactly the events
/// that are not stale for it, each once and in the order of their arrival.
pub proof fn law_drain_under_one_request<K, C, O, U, R>(
    workspace: Option<WorkspaceView>,
    current: u64,
    sessions: Seq<SessionView<C, R>>,
    queue: Seq<(u64, StreamEventView<C, O, U>)>,
)
    requires
        sessions.len() >= queue.len(),
        forall|i: int| 0 <= i < queue.len() ==> (#[trigger] sessions[i]).request_id == current,
    ensures
        calls_made::<K, C, O, U, R>(workspace, sessions, queue) == queue.filter(
            |item: (u64, StreamEventView<C, O, U>)| delivered(current, item.0, item.1) is Some,
        ).map_values(
            |item: (u64, StreamEventView<C, O, U>)| delivered(current, item.0, item.1)->0,
        ),
    decreases queue.len(),
{
    let kept = |item: (u64, StreamEventView<C, O, U>)| delivered(current, item.0, item.1) is Some;
    let told = |item: (u64, StreamEventView<C, O, U>)| delivered(current, item.0, item.1)->0;
    reveal(Seq::filter);
    if queue.len() > 0 {
        let earlier = queue.drop_last();
        law_drain_under_one_request::<K, C, O, U, R>(workspace, current, sessions, earlier);
        assert(sessions[queue.len() - 1].request_id == current);
        if kept(queue.last()) {
            assert(queue.filter(kept) == earlier.filter(kept).push(queue.last()));
            assert(earlier.filter(kept).push(queue.last()).map_values(told)
                =~= earlier.filter(kept).map_values(told).push(told(queue.last())));
        } else {
            assert(queue.filter(kept) == earlier.filter(kept));
        }
    } else {
        assert(queue.filter(kept).map_values(told) =~= Seq::empty());
    }
}

/// The calls that are run, in order, and the outcomes that there are at the end, when tools are
/// run from where they have these outcomes. `outcome` gives what comes of the call at a place
/// in the run.
pub open spec fn run_to_the_end<C, O, R>(
    run: ToolRunView<C, R>,
    outcome: spec_fn(int, C) -> O,
    outcomes: Seq<O>,
) -> (Seq<C>, Seq<O>)
    decreases run.calls.len() - outcomes.len(),
{
    match run.call_after(outcomes.len()) {
        Some(call) => {
            let next = outcomes.push(outcome(outcomes.len() as int, call));
            let (calls, all) = run_to_the_end(run, outcome, next);
            (seq![call] + calls, all)
        },
        None => (Seq::empty(), outcomes),
    }
}

/// From any place in a run, what is left of the calls is run in order.
proof fn lemma_rest_of_run<C, O, R>(
    run: ToolRunView<C, R>,
    outcome: spec_fn(int, C) -> O,
    outcomes: Seq<O>,
)
    requires
        outcomes.len() <= run.calls.len(),
    ensures
        ({
            let (calls, all) = run_to_the_end(run, outcome, outcomes);
            let done = outcomes.len() as int;
            &&& calls == run.calls.skip(done)
            &&& all == outcomes + Seq::new(
                (run.calls.len() - done) as nat,
                |i: int| outcome(done + i, run.calls[done + i]),
            )
        }),
    decreases run.calls.len() - outcomes.len(),
{
    let done = outcomes.len() as int;
    let (calls, all) = run_to_the_end(run, outcome, outcomes);
    if done < run.calls.len() {
        let next = outcomes.push(outcome(done, run.calls[done]));
        lemma_rest_of_run(run, outcome, next);
        assert(calls =~= run.calls.skip(done));
    } else {
        assert(calls =~= run.calls.skip(done));
    }
    assert(all =~= outcomes + Seq::new(
        (run.calls.len() - done) as nat,
        |i: int| outcome(done + i, run.calls[done + i]),
    ));
}

/// When the loop starts tools, each approved call is run once, in order, and no other is. Then
/// one report is due, under the request that was current when the tools were started: the
/// outcomes of the calls, one for each and in their order.
pub proof fn law_each_approved_call_has_one_outcome<K, C, O, U, R>(
    stage: Stage,
    workspace: Option<WorkspaceView>,
    session: SessionView<C, R>,
    reply: ReplyView<K, C, O, U>,
    outcome: spec_fn(int, C) -> O,
)
    requires
        transition(stage, workspace, session, reply).action is RunTools,
    ensures
        ({
            let started = transition(stage, workspace, session, reply);
            let run = started.action->RunTools_0;
            let (calls, outcomes) = run_to_the_end(run, outcome, Seq::empty());
            &&& started.session.approved_tools.len() == 0
            &&& started.session.state == AppState::ExecutingTools
            &&& calls == session.approved_tools
            &&& outcomes.len() == session.approved_tools.len()
            &&& forall|i: int|
                0 <= i < outcomes.len() ==> #[trigger] outcomes[i] == outcome(
                    i,
                    session.approved_tools[i],
                )
            &&& run.report::<O, U>(outcomes) == Some(
                (session.request_id, StreamEventView::<C, O, U>::ToolsFinished(outcomes)),
            )
        }),
{
    let run = session.tool_run(workspace->0);
    assert(transition(stage, workspace, session, reply).action == ActionView::<
        K,
        C,
        O,
        U,
        R,
    >::RunTools(run));
    lemma_rest_of_run::<C, O, R>(run, outcome, Seq::empty());
    let (calls, outcomes) = run_to_the_end(run, outcome, Seq::<O>::empty());
    assert(calls =~= session.approved_tools);
}

/// At any time in a run of tools, either another call is to be run or the report is due, and
/// never both.
pub proof fn law_report_comes_after_the_last_call<C, O, U, R>(
    run: ToolRunView<C, R>,
    outcomes: Seq<O>,
)
    requires
        outcomes.len() <= run.calls.len(),
    ensures
        run.report::<O, U>(outcomes) is Some <==> run.call_after(outcomes.len()) is None,
{
}

/// Where the loop sees to its duties, what comes next is the first of them that there is
/// something to do about: turns queued, a quota that has changed, an enrolment asked for, a
/// budget to look up, a request to send, calls approved while tools are executed. When there is
/// nothing left, the loop is left if the application asked for it, and the next frame is drawn
/// if not. `place` counts the duties that the frame has passed.
#[verifier::rlimit(40)]
pub proof fn law_first_thing_to_do_comes_next<K, C, O, U, R>(
    stage: Stage,
    workspace: Option<WorkspaceView>,
    session: SessionView<C, R>,
    reply: ReplyView<K, C, O, U>,
    place: int,
)
    requires
        match stage {
            Stage::Draining => place == 0 && !(reply matches ReplyView::Received(Some(_))),
            Stage::Recording => place == 1,
            Stage::Saving => place == 2,
            Stage::Enrolling => place == 3,
            Stage::Checking => place == 4 && reply != ReplyView::<K, C, O, U>::FreeTier(true),
            Stage::Fetching => place == 4,
            Stage::Requesting => place == 5,
            Stage::Running => place == 6,
            _ => false,
        },
    ensures
        ({
            let next = transition(stage, workspace, session, reply);
            let turns = place <= 0 && session.pending_usage.len() > 0;
            let quota = !turns && place <= 1 && session.quota_dirty;
            let enrol = !turns && !quota && place <= 2 && session.enrol_requested;
            let budget = !turns && !quota && !enrol && place <= 3 && session.refresh_budget;
            let before = turns || quota || enrol || budget;
            let request = !before && place <= 4 && session.state == AppState::Sending;
            let tools = !before && !request && place <= 5 && session.state
                == AppState::ExecutingTools && session.approved_tools.len() > 0;
            &&& next.action is RecordTurns <==> turns
            &&& next.action is SaveQuota <==> quota
            &&& next.action is Enrol <==> enrol
            &&& next.action is CheckFreeTier <==> budget
            &&& next.action is StartRequest <==> request
            &&& next.action is RunTools <==> tools && workspace is Some
            &&& next.action is Call <==> tools && workspace is None
            &&& next.action is Call ==> next.stage == Stage::Running
            &&& next.action is Stop <==> !before && !request && !tools && session.should_exit
            &&& next.action is Draw <==> !before && !request && !tools && !session.should_exit
        }),
{
}

/// What the loop does before it sees to its duties: it draws, waits for input for sixteen
/// milliseconds, hands the input on, and asks for background events; a terminal that fails, and
/// Ctrl-C or Ctrl-D, end it. Nothing of the session changes.
pub proof fn law_frame_begins_with_drawing_and_input<K, C, O, U, R>(
    workspace: Option<WorkspaceView>,
    session: SessionView<C, R>,
    reply: ReplyView<K, C, O, U>,
)
    ensures
        transition(Stage::Start, workspace, session, reply) == (Outcome::<K, C, O, U, R> {
            stage: Stage::Drawing,
            session,
            action: ActionView::Draw,
        }),
        transition(Stage::Drawing, workspace, session, reply) == if reply is Failed {
            Outcome::<K, C, O, U, R> {
                stage: Stage::Stopped(Ending::Failed),
                session,
                action: ActionView::Stop(Ending::Failed),
            }
        } else {
            Outcome { stage: Stage::Polling, session, action: ActionView::Poll(16) }
        },
        transition(Stage::Delivering, workspace, session, reply) == (Outcome::<K, C, O, U, R> {
            stage: Stage::Draining,
            session,
            action: ActionView::Receive,
        }),
{
}

/// What the loop does about input: a key that is pressed or held down goes to the application,
/// unless it is C or D with Control, which ends the loop; a paste goes to it whole; a released
/// key, any other event and no event at all change nothing. Without an end, background events
/// come next.
pub proof fn law_input_goes_to_the_application<K, C, O, U, R>(
    workspace: Option<WorkspaceView>,
    session: SessionView<C, R>,
    reply: ReplyView<K, C, O, U>,
)
    ensures
        ({
            let next = transition(Stage::Polling, workspace, session, reply);
            let passes = Outcome::<K, C, O, U, R> {
                stage: Stage::Draining,
                session,
                action: ActionView::Receive,
            };
            match reply {
                ReplyView::Failed => next == (Outcome::<K, C, O, U, R> {
                    stage: Stage::Stopped(Ending::Failed),
                    session,
                    action: ActionView::Stop(Ending::Failed),
                }),
                ReplyView::Input(Some(InputEvent::Paste(text))) => next == (Outcome::<
                    K,
                    C,
                    O,
                    U,
                    R,
                > { stage: Stage::Delivering, session, action: ActionView::HandlePaste(text@) }),
                ReplyView::Input(Some(InputEvent::Key(key))) => {
                    let control = (key.modifiers / 2) % 2 == 1;
                    let quits = control && (key.code == KeyCode::Char('c') || key.code
                        == KeyCode::Char('d'));
                    if key.kind == KeyKind::Release {
                        next == passes
                    } else if quits {
                        next == (Outcome::<K, C, O, U, R> {
                            stage: Stage::Stopped(Ending::Quit),
                            session,
                            action: ActionView::Stop(Ending::Quit),
                        })
                    } else {
                        next == (Outcome::<K, C, O, U, R> {
                            stage: Stage::Delivering,
                            session,
                            action: ActionView::HandleKey(key.key),
                        })
                    }
                },
                _ => next == passes,
            }
        }),
{
    if let ReplyView::Input(Some(InputEvent::Key(key))) = reply {
        law_control_is_the_second_lowest_bit(key.modifiers);
    }
}

/// What the loop does about a background event: a budget line becomes the status at once; the
/// application is told of every other free-tier event, whatever its id, and of an event of the
/// current request, with what it carries unchanged; and an event of another request is passed
/// over. Nothing else of the session changes.
pub proof fn law_background_events_reach_the_application<K, C, O, U, R>(
    workspace: Option<WorkspaceView>,
    session: SessionView<C, R>,
    id: u64,
    event: StreamEventView<C, O, U>,
)
    ensures
        ({
            let next = transition::<K, C, O, U, R>(
                Stage::Draining,
                workspace,
                session,
                ReplyView::Received(Some((id, event))),
            );
            let told = match event {
                StreamEventView::FreeTierBudget(_) => None,
                StreamEventView::FreeTierEnrolled(e) => Some(AppCallView::FreeTierEnrolled(e)),
                StreamEventView::FreeTierFailed(reason) => Some(
                    AppCallView::FreeTierFailed(reason),
                ),
                _ => if id != session.request_id {
                    None
                } else {
                    Some(
                        match event {
                            StreamEventView::Token(token) => AppCallView::AppendToken(token),
                            StreamEventView::ToolCalls(calls) => AppCallView::RequestTools(calls),
                            StreamEventView::ToolsFinished(all) => AppCallView::FinishTools(all),
                            StreamEventView::Usage(u) => AppCallView::RecordExactUsage(u),
                            StreamEventView::Notice(note) => AppCallView::Note(note),
                            StreamEventView::Error(error) => AppCallView::FailStream(error),
                            _ => AppCallView::FinishStream,
                        },
                    )
                },
            };
            &&& next.session == match event {
                StreamEventView::FreeTierBudget(line) => SessionView {
                    free_tier_status: line,
                    ..session
                },
                _ => session,
            }
            &&& told matches Some(call) ==> next.stage == Stage::Delivering && next.action
                == ActionView::<K, C, O, U, R>::Call(call)
            &&& told is None ==> next.stage == Stage::Draining && next.action
                == ActionView::<K, C, O, U, R>::Receive
        }),
{
}

/// What drawing, leaving, recording and saving hand out and change: the turns that were queued go
/// out and are queued no more, and the quota counts as saved. Nothing else changes, and the
/// stage tells which action is under way.
#[verifier::rlimit(40)]
pub proof fn law_recording_and_saving_in_full<K, C, O, U, R>(
    stage: Stage,
    workspace: Option<WorkspaceView>,
    session: SessionView<C, R>,
    reply: ReplyView<K, C, O, U>,
)
    ensures
        ({
            let next = transition(stage, workspace, session, reply);
            match next.action {
                ActionView::Draw => next.stage == Stage::Drawing && next.session == session,
                ActionView::Stop(ending) => next.stage == Stage::Stopped(ending) && next.session
                    == session,
                ActionView::RecordTurns(turns) => {
                    &&& turns == session.pending_usage
                    &&& next.stage == Stage::Recording
                    &&& next.session == SessionView { pending_usage: Seq::empty(), ..session }
                },
                ActionView::SaveQuota => {
                    &&& next.stage == Stage::Saving
                    &&& next.session == SessionView { quota_dirty: false, ..session }
                },
                _ => true,
            }
        }),
{
}

/// What enrolling and looking up the budget hand out and change: an enrolment goes out with the
/// settings, but for the key and the token, and the free tier switched on; a lookup with the
/// settings and under the current request. They count as asked for, and nothing else changes.
#[verifier::rlimit(40)]
pub proof fn law_enrolling_and_looking_up_in_full<K, C, O, U, R>(
    stage: Stage,
    workspace: Option<WorkspaceView>,
    session: SessionView<C, R>,
    reply: ReplyView<K, C, O, U>,
)
    ensures
        ({
            let next = transition(stage, workspace, session, reply);
            match next.action {
                ActionView::Enrol(settings) => {
                    &&& settings == ConfigView {
                        llm: LlmConfigView { api_key: Seq::empty(), ..session.config.llm },
                        free_tier: FreeTierConfigView {
                            enabled: true,
                            device_token: Seq::empty(),
                            ..session.config.free_tier
                        },
                        ..session.config
                    }
                    &&& next.stage == Stage::Enrolling
                    &&& next.session == SessionView { enrol_requested: false, ..session }
                },
                ActionView::CheckFreeTier => {
                    &&& next.stage == Stage::Checking
                    &&& next.session == SessionView { refresh_budget: false, ..session }
                },
                ActionView::FetchBudget(id, config) => {
                    &&& stage == Stage::Checking
                    &&& reply == ReplyView::<K, C, O, U>::FreeTier(true)
                    &&& id == session.request_id
                    &&& config == session.config
                    &&& next.stage == Stage::Fetching
                    &&& next.session == session
                },
                _ => true,
            }
        }),
{
}

/// What starting a request hands out and changes: the request goes by the settings, offers tools
/// where there is a workspace and fewer tool steps have been taken than allowed, and takes the
/// next id; the session is left streaming, and nothing else of it changes.
#[verifier::rlimit(40)]
pub proof fn law_requesting_in_full<K, C, O, U, R>(
    stage: Stage,
    workspace: Option<WorkspaceView>,
    session: SessionView<C, R>,
    reply: ReplyView<K, C, O, U>,
)
    requires
        session.request_id < u64::MAX,
    ensures
        ({
            let next = transition(stage, workspace, session, reply);
            match next.action {
                ActionView::StartRequest(request) => {
                    let left = session.tool_steps < session.config.tools.max_steps;
                    &&& request.id == session.request_id + 1
                    &&& request.endpoint == session.config.llm.endpoint
                    &&& request.model == session.config.llm.model
                    &&& request.api_key == session.config.llm.api_key
                    &&& request.max_tokens == session.config.llm.max_tokens
                    &&& request.include_usage <==> session.config.quota.enabled
                        && session.config.quota.include_usage
                    &&& request.offer_tools <==> workspace is Some && left
                    &&& request.system == match workspace {
                        Some(workspace) => Some(
                            SystemPromptView {
                                workspace,
                                tools: session.config.tools,
                                budget_left: left,
                            },
                        ),
                        None => None,
                    }
                    &&& next.stage == Stage::Requesting
                    &&& next.session == SessionView {
                        request_id: (session.request_id + 1) as u64,
                        state: AppState::Streaming,
                        ..session
                    }
                },
                _ => true,
            }
        }),
{
}

/// What running tools hands out and changes: the calls that were approved go out under the
/// current request, for the workspace and with the settings of the tools, or are refused; they
/// are queued no more, and nothing else changes.
#[verifier::rlimit(40)]
pub proof fn law_running_tools_in_full<K, C, O, U, R>(
    stage: Stage,
    workspace: Option<WorkspaceView>,
    session: SessionView<C, R>,
    reply: ReplyView<K, C, O, U>,
)
    ensures
        ({
            let next = transition(stage, workspace, session, reply);
            match next.action {
                ActionView::RunTools(run) => {
                    &&& run.id == session.request_id
                    &&& run.calls == session.approved_tools
                    &&& run.tools == session.config.tools
                    &&& Some(run.workspace) == workspace
                    &&& next.stage == Stage::Running
                    &&& next.session == SessionView { approved_tools: Seq::empty(), ..session }
                },
                ActionView::Call(call) => next.stage == Stage::Running ==> {
                    &&& call == AppCallView::<C, O, U>::FailStream(
                        "The model asked to run a command, but the command tool is not enabled."@,
                    )
                    &&& next.session == SessionView { approved_tools: Seq::empty(), ..session }
                },
                _ => true,
            }
        }),
{
}

/// A free tier in use has its budget looked up as soon as the loop knows of it, and a loop that
/// has been left stays left.
pub proof fn law_lookup_and_ending<K, C, O, U, R>(
    workspace: Option<WorkspaceView>,
    session: SessionView<C, R>,
    reply: ReplyView<K, C, O, U>,
    ending: Ending,
)
    ensures
        transition::<K, C, O, U, R>(
            Stage::Checking,
            workspace,
            session,
            ReplyView::FreeTier(true),
        ) == (Outcome::<K, C, O, U, R> {
            stage: Stage::Fetching,
            session,
            action: ActionView::FetchBudget(session.request_id, session.config),
        }),
        transition(Stage::Stopped(ending), workspace, session, reply) == (Outcome::<
            K,
            C,
            O,
            U,
            R,
        > { stage: Stage::Stopped(ending), session, action: ActionView::Stop(ending) }),
{
}

} // verus!
