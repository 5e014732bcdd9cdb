//! What a whole frame of the event loop does, once no background event is left.

use crate::event_loop::{
    discharge, due, first_due, rank, settle, transition, ActionView, Duty, Ending, Outcome,
    ReplyView, Stage,
};
use crate::freetier::enrolment_settings;
use crate::laws::progress;
use crate::session::{AppCallView, AppState, SessionView, ToolRunView};
use crate::workspace::WorkspaceView;
use vstd::prelude::*;

verus! {

/// A run of the loop to the end of its frame: the actions in order, the last of which draws
/// the next frame or leaves the loop, and the session at the end.
pub struct RestOfFrame<K, C, O, U, R> {
    pub actions: Seq<ActionView<K, C, O, U, R>>,
    pub session: SessionView<C, R>,
}

/// What follows an outcome once its action has been performed. `on_free_tier` answers whether
/// the settings use the free tier, and `refused` is what the application makes of the session
/// when it is told that its tools cannot run; the other actions leave the session alone.
#[verifier::opaque]
pub open spec fn follow<K, C, O, U, R>(
    outcome: Outcome<K, C, O, U, R>,
    workspace: Option<WorkspaceView>,
    on_free_tier: bool,
    refused: spec_fn(SessionView<C, R>) -> SessionView<C, R>,
) -> Outcome<K, C, O, U, R> {
    let session = if outcome.action is Call {
        refused(outcome.session)
    } else {
        outcome.session
    };
    let reply = if outcome.action is CheckFreeTier {
        ReplyView::FreeTier(on_free_tier)
    } else {
        ReplyView::Done
    };
    transition(outcome.stage, workspace, session, reply)
}

/// Whether a stage ends its frame.
pub open spec fn ends_frame(stage: Stage) -> bool {
    stage == Stage::Drawing || stage is Stopped
}

/// How much of a frame is left after its background events.
pub open spec fn left_of_frame(stage: Stage) -> int {
    if ends_frame(stage) {
        0
    } else {
        progress(Stage::Stopped(Ending::Exit)) - progress(stage)
    }
}

/// The run of the loop from one outcome to the end of the frame, with every action performed,
/// for an outcome that comes when all background events have been taken in.
pub open spec fn rest_of_frame<K, C, O, U, R>(
    outcome: Outcome<K, C, O, U, R>,
    workspace: Option<WorkspaceView>,
    on_free_tier: bool,
    refused: spec_fn(SessionView<C, R>) -> SessionView<C, R>,
) -> RestOfFrame<K, C, O, U, R>
    decreases left_of_frame(outcome.stage),
    when ends_frame(outcome.stage) || progress(Stage::Draining) < progress(outcome.stage)
{
    if ends_frame(outcome.stage) {
        RestOfFrame { actions: seq![outcome.action], session: outcome.session }
    } else {
        proof {
            reveal(follow);
        }
        let rest = rest_of_frame(
            follow(outcome, workspace, on_free_tier, refused),
            workspace,
            on_free_tier,
            refused,
        );
        RestOfFrame { actions: seq![outcome.action] + rest.actions, session: rest.session }
    }
}

/// The run of the loop to the end of the frame from where it is told that no background event
/// is left.
#[verifier::opaque]
pub open spec fn frame_end<K, C, O, U, R>(
    workspace: Option<WorkspaceView>,
    session: SessionView<C, R>,
    on_free_tier: bool,
    refused: spec_fn(SessionView<C, R>) -> SessionView<C, R>,
) -> RestOfFrame<K, C, O, U, R> {
    let outcome = transition(Stage::Draining, workspace, session, ReplyView::Received(None));
    rest_of_frame(outcome, workspace, on_free_tier, refused)
}

/// The duty at a place in the frame.
pub open spec fn duty_at(place: int) -> Duty {
    if place <= 0 {
        Duty::Usage
    } else if place == 1 {
        Duty::Quota
    } else if place == 2 {
        Duty::Enrol
    } else if place == 3 {
        Duty::Budget
    } else if place == 4 {
        Duty::Request
    } else if place == 5 {
        Duty::Tools
    } else {
        Duty::Close
    }
}

/// The actions that a session owes about a duty; none if it is not due.
pub open spec fn owed<K, C, O, U, R>(
    duty: Duty,
    workspace: Option<WorkspaceView>,
    session: SessionView<C, R>,
    on_free_tier: bool,
) -> Seq<ActionView<K, C, O, U, R>> {
    if !due(duty, session) {
        Seq::empty()
    } else if duty == Duty::Budget && on_free_tier {
        seq![
            ActionView::CheckFreeTier,
            ActionView::FetchBudget(session.request_id, session.config),
        ]
    } else {
        seq![discharge::<K, C, O, U, R>(duty, workspace, session).action]
    }
}

/// The session once a duty has been seen to, if it was due.
pub open spec fn seen_to<K, C, O, U, R>(
    duty: Duty,
    workspace: Option<WorkspaceView>,
    session: SessionView<C, R>,
    refused: spec_fn(SessionView<C, R>) -> SessionView<C, R>,
) -> SessionView<C, R> {
    if !due(duty, session) {
        session
    } else {
        let next = discharge::<K, C, O, U, R>(duty, workspace, session).session;
        if duty == Duty::Tools && workspace is None {
            refused(next)
        } else {
            next
        }
    }
}

/// The duties from a place in the frame on, each seen to in turn.
pub open spec fn all_duties<K, C, O, U, R>(
    place: int,
    workspace: Option<WorkspaceView>,
    session: SessionView<C, R>,
    on_free_tier: bool,
    refused: spec_fn(SessionView<C, R>) -> SessionView<C, R>,
) -> RestOfFrame<K, C, O, U, R>
    decreases rank(Duty::Close) - place,
{
    let duty = duty_at(place);
    let actions = owed::<K, C, O, U, R>(duty, workspace, session, on_free_tier);
    if place >= rank(Duty::Close) {
        RestOfFrame { actions, session }
    } else {
        let next = seen_to::<K, C, O, U, R>(duty, workspace, session, refused);
        let rest = all_duties::<K, C, O, U, R>(
            place + 1,
            workspace,
            next,
            on_free_tier,
            refused,
        );
        RestOfFrame { actions: actions + rest.actions, session: rest.session }
    }
}

/// After a duty has been seen to, the loop turns to those that come after it; a device on the
/// free tier has its budget fetched first.
proof fn lemma_next_duty_follows<K, C, O, U, R>(
    duty: Duty,
    workspace: Option<WorkspaceView>,
    session: SessionView<C, R>,
    on_free_tier: bool,
    refused: spec_fn(SessionView<C, R>) -> SessionView<C, R>,
)
    requires
        duty != Duty::Close,
        due(duty, session),
    ensures
        ({
            let outcome = discharge::<K, C, O, U, R>(duty, workspace, session);
            let fetching = Outcome::<K, C, O, U, R> {
                stage: Stage::Fetching,
                session: SessionView { refresh_budget: false, ..session },
                action: ActionView::FetchBudget(session.request_id, session.config),
            };
            let next = settle::<K, C, O, U, R>(
                workspace,
                seen_to::<K, C, O, U, R>(duty, workspace, session, refused),
                rank(duty) + 1,
            );
            let then = follow(outcome, workspace, on_free_tier, refused);
            &&& !ends_frame(outcome.stage)
            &&& progress(Stage::Draining) < progress(outcome.stage)
            &&& if duty == Duty::Budget && on_free_tier {
                then == fetching && follow(fetching, workspace, on_free_tier, refused) == next
            } else {
                then == next
            }
        }),
{
    reveal(follow);
}

/// A place whose duty is not due is passed over.
proof fn lemma_nothing_owed<K, C, O, U, R>(
    place: int,
    workspace: Option<WorkspaceView>,
    session: SessionView<C, R>,
)
    requires
        0 <= place < rank(Duty::Close),
        !due(duty_at(place), session),
    ensures
        settle::<K, C, O, U, R>(workspace, session, place) == settle::<K, C, O, U, R>(
            workspace,
            session,
            place + 1,
        ),
{
    assert(first_due(session, place) == first_due(session, place + 1));
}

/// A place whose duty is due is settled by discharging it.
proof fn lemma_something_owed<C, R>(place: int, session: SessionView<C, R>)
    requires
        0 <= place < rank(Duty::Close),
        due(duty_at(place), session),
    ensures
        first_due(session, place) == duty_at(place),
        rank(duty_at(place)) == place,
        duty_at(place) != Duty::Close,
{
}

/// The run of the loop from an outcome is its action and the run from what follows.
proof fn lemma_run_goes_on<K, C, O, U, R>(
    outcome: Outcome<K, C, O, U, R>,
    workspace: Option<WorkspaceView>,
    on_free_tier: bool,
    refused: spec_fn(SessionView<C, R>) -> SessionView<C, R>,
)
    requires
        !ends_frame(outcome.stage),
        progress(Stage::Draining) < progress(outcome.stage),
    ensures
        ({
            let run = rest_of_frame(outcome, workspace, on_free_tier, refused);
            let then = follow(outcome, workspace, on_free_tier, refused);
            let rest = rest_of_frame(then, workspace, on_free_tier, refused);
            run.actions == seq![outcome.action] + rest.actions && run.session == rest.session
        }),
{
    let then = follow(outcome, workspace, on_free_tier, refused);
    assert(ends_frame(then.stage) || progress(Stage::Draining) < progress(then.stage)) by {
        reveal(follow);
    }
}

/// The run of the loop from a duty that is due takes its actions and goes on to the duties
/// that come after it.
proof fn lemma_run_from_duty<K, C, O, U, R>(
    duty: Duty,
    workspace: Option<WorkspaceView>,
    session: SessionView<C, R>,
    on_free_tier: bool,
    refused: spec_fn(SessionView<C, R>) -> SessionView<C, R>,
)
    requires
        duty != Duty::Close,
        due(duty, session),
    ensures
        ({
            let outcome = discharge::<K, C, O, U, R>(duty, workspace, session);
            let next = settle::<K, C, O, U, R>(
                workspace,
                seen_to::<K, C, O, U, R>(duty, workspace, session, refused),
                rank(duty) + 1,
            );
            let run = rest_of_frame(outcome, workspace, on_free_tier, refused);
            let rest = rest_of_frame(next, workspace, on_free_tier, refused);
            &&& run.actions == owed::<K, C, O, U, R>(duty, workspace, session, on_free_tier)
                + rest.actions
            &&& run.session == rest.session
        }),
{
    let outcome = discharge::<K, C, O, U, R>(duty, workspace, session);
    let then = follow(outcome, workspace, on_free_tier, refused);
    let actions = owed::<K, C, O, U, R>(duty, workspace, session, on_free_tier);
    lemma_next_duty_follows::<K, C, O, U, R>(
        duty,
        workspace,
        session,
        on_free_tier,
        refused,
    );
    lemma_run_goes_on(outcome, workspace, on_free_tier, refused);
    if duty == Duty::Budget && on_free_tier {
        lemma_run_goes_on(then, workspace, on_free_tier, refused);
        assert(actions =~= seq![outcome.action] + seq![then.action]);
    } else {
        assert(actions =~= seq![outcome.action]);
    }
}

/// From any place on, the loop sees to all the duties that are left.
proof fn lemma_loop_sees_to_all_duties<K, C, O, U, R>(
    place: int,
    workspace: Option<WorkspaceView>,
    session: SessionView<C, R>,
    on_free_tier: bool,
    refused: spec_fn(SessionView<C, R>) -> SessionView<C, R>,
)
    requires
        0 <= place <= rank(Duty::Close),
    ensures
        rest_of_frame(
            settle::<K, C, O, U, R>(workspace, session, place),
            workspace,
            on_free_tier,
            refused,
        ) == all_duties::<K, C, O, U, R>(place, workspace, session, on_free_tier, refused),
    decreases rank(Duty::Close) - place,
{
    let duty = duty_at(place);
    let run = rest_of_frame(
        settle::<K, C, O, U, R>(workspace, session, place),
        workspace,
        on_free_tier,
        refused,
    );
    let all = all_duties::<K, C, O, U, R>(place, workspace, session, on_free_tier, refused);
    if place < rank(Duty::Close) {
        let next = seen_to::<K, C, O, U, R>(duty, workspace, session, refused);
        lemma_loop_sees_to_all_duties::<K, C, O, U, R>(
            place + 1,
            workspace,
            next,
            on_free_tier,
            refused,
        );
        if due(duty, session) {
            lemma_something_owed(place, session);
            lemma_run_from_duty::<K, C, O, U, R>(
                duty,
                workspace,
                session,
                on_free_tier,
                refused,
            );
            assert(run.actions == all.actions);
        } else {
            lemma_nothing_owed::<K, C, O, U, R>(place, workspace, session);
            assert(run.actions =~= all.actions);
        }
    } else {
        assert(run.actions == all.actions);
    }
}

/// Once no background event is left, a frame sees to every duty in order, each judged by the
/// session as the earlier ones leave it, and ends.
pub proof fn law_frame_sees_to_every_duty<K, C, O, U, R>(
    workspace: Option<WorkspaceView>,
    session: SessionView<C, R>,
    on_free_tier: bool,
    refused: spec_fn(SessionView<C, R>) -> SessionView<C, R>,
)
    ensures
        frame_end::<K, C, O, U, R>(workspace, session, on_free_tier, refused)
            == all_duties::<K, C, O, U, R>(0, workspace, session, on_free_tier, refused),
{
    reveal(frame_end);
    lemma_loop_sees_to_all_duties::<K, C, O, U, R>(
        0,
        workspace,
        session,
        on_free_tier,
        refused,
    );
}

/// The duty that an action is about, once the background events have been taken in.
pub open spec fn duty_of<K, C, O, U, R>(action: ActionView<K, C, O, U, R>) -> Option<Duty> {
    if action is RecordTurns {
        Some(Duty::Usage)
    } else if action is SaveQuota {
        Some(Duty::Quota)
    } else if action is Enrol {
        Some(Duty::Enrol)
    } else if action is CheckFreeTier || action is FetchBudget {
        Some(Duty::Budget)
    } else if action is StartRequest {
        Some(Duty::Request)
    } else if action is RunTools || action is Call {
        Some(Duty::Tools)
    } else if action is Draw || action is Stop {
        Some(Duty::Close)
    } else {
        None
    }
}

/// The actions about one duty, in their order.
pub open spec fn actions_about<K, C, O, U, R>(
    actions: Seq<ActionView<K, C, O, U, R>>,
    duty: Duty,
) -> Seq<ActionView<K, C, O, U, R>> {
    actions.filter(|action: ActionView<K, C, O, U, R>| duty_of(action) == Some(duty))
}

/// The session once everything that was due has been seen to.
pub open spec fn settled<C, R>(session: SessionView<C, R>) -> SessionView<C, R> {
    let cleared = SessionView {
        pending_usage: Seq::empty(),
        quota_dirty: false,
        enrol_requested: false,
        refresh_budget: false,
        ..session
    };
    if session.state == AppState::Sending {
        cleared.requested()
    } else if session.tools_due() {
        SessionView { approved_tools: Seq::empty(), ..cleared }
    } else {
        cleared
    }
}

/// Filtering keeps a sequence all of whose items pass, and empties one none of whose do.
proof fn lemma_filter_all_or_none<A>(items: Seq<A>, passes: spec_fn(A) -> bool)
    ensures
        (forall|i: int| 0 <= i < items.len() ==> passes(#[trigger] items[i])) ==> items.filter(
            passes,
        ) == items,
        (forall|i: int| 0 <= i < items.len() ==> !passes(#[trigger] items[i])) ==> items.filter(
            passes,
        ) == Seq::<A>::empty(),
    decreases items.len(),
{
    reveal(Seq::filter);
    if items.len() > 0 {
        let earlier = items.drop_last();
        lemma_filter_all_or_none(earlier, passes);
        assert(forall|i: int| 0 <= i < earlier.len() ==> earlier[i] == items[i]);
        assert(items =~= earlier.push(items.last()));
    } else {
        assert(items =~= Seq::<A>::empty());
    }
}

/// Two filters that agree on a sequence keep the same items of it.
proof fn lemma_filters_agree<A>(
    items: Seq<A>,
    one: spec_fn(A) -> bool,
    other: spec_fn(A) -> bool,
)
    requires
        forall|i: int| 0 <= i < items.len() ==> one(#[trigger] items[i]) == other(items[i]),
    ensures
        items.filter(one) == items.filter(other),
    decreases items.len(),
{
    reveal(Seq::filter);
    if items.len() > 0 {
        let earlier = items.drop_last();
        assert(forall|i: int| 0 <= i < earlier.len() ==> earlier[i] == items[i]);
        lemma_filters_agree(earlier, one, other);
    }
}

/// What is owed about a duty is about that duty.
proof fn lemma_owed_is_about_its_duty<K, C, O, U, R>(
    duty: Duty,
    about: Duty,
    workspace: Option<WorkspaceView>,
    session: SessionView<C, R>,
    on_free_tier: bool,
)
    ensures
        ({
            let actions = owed::<K, C, O, U, R>(duty, workspace, session, on_free_tier);
            actions_about(actions, about) == if about == duty {
                actions
            } else {
                Seq::empty()
            }
        }),
{
    let actions = owed::<K, C, O, U, R>(duty, workspace, session, on_free_tier);
    let passes = |action: ActionView<K, C, O, U, R>| duty_of(action) == Some(about);
    assert forall|i: int| 0 <= i < actions.len() implies duty_of(#[trigger] actions[i]) == Some(
        duty,
    ) by {}
    lemma_filter_all_or_none(actions, passes);
}

/// Seeing to a duty leaves what is owed about those that come after it.
proof fn lemma_later_duties_are_kept<K, C, O, U, R>(
    duty: Duty,
    later: Duty,
    workspace: Option<WorkspaceView>,
    session: SessionView<C, R>,
    on_free_tier: bool,
    refused: spec_fn(SessionView<C, R>) -> SessionView<C, R>,
)
    requires
        rank(duty) < rank(later) < rank(Duty::Close),
    ensures
        ({
            let next = seen_to::<K, C, O, U, R>(duty, workspace, session, refused);
            owed::<K, C, O, U, R>(later, workspace, next, on_free_tier) == owed::<K, C, O, U, R>(
                later,
                workspace,
                session,
                on_free_tier,
            )
        }),
{
}

/// The actions about a duty among all those from a place on.
proof fn lemma_actions_about_a_duty<K, C, O, U, R>(
    about: Duty,
    place: int,
    workspace: Option<WorkspaceView>,
    session: SessionView<C, R>,
    on_free_tier: bool,
    refused: spec_fn(SessionView<C, R>) -> SessionView<C, R>,
)
    requires
        0 <= place <= rank(Duty::Close),
        about != Duty::Close,
    ensures
        actions_about(
            all_duties::<K, C, O, U, R>(
                place,
                workspace,
                session,
                on_free_tier,
                refused,
            ).actions,
            about,
        ) == if place <= rank(about) {
            owed::<K, C, O, U, R>(about, workspace, session, on_free_tier)
        } else {
            Seq::empty()
        },
    decreases rank(Duty::Close) - place,
{
    let duty = duty_at(place);
    let actions = owed::<K, C, O, U, R>(duty, workspace, session, on_free_tier);
    lemma_owed_is_about_its_duty::<K, C, O, U, R>(
        duty,
        about,
        workspace,
        session,
        on_free_tier,
    );
    if place < rank(Duty::Close) {
        let next = seen_to::<K, C, O, U, R>(duty, workspace, session, refused);
        let later = all_duties::<K, C, O, U, R>(
            place + 1,
            workspace,
            next,
            on_free_tier,
            refused,
        ).actions;
        let passes = |action: ActionView<K, C, O, U, R>| duty_of(action) == Some(about);
        lemma_actions_about_a_duty::<K, C, O, U, R>(
            about,
            place + 1,
            workspace,
            next,
            on_free_tier,
            refused,
        );
        Seq::filter_distributes_over_add(actions, later, passes);
        if place < rank(about) {
            lemma_later_duties_are_kept::<K, C, O, U, R>(
                duty,
                about,
                workspace,
                session,
                on_free_tier,
                refused,
            );
        }
        assert(actions_about(actions + later, about) =~= actions_about(actions, about)
            + actions_about(later, about));
    }
}

/// All the duties of a frame together leave the session settled.
proof fn lemma_all_duties_settle<K, C, O, U, R>(
    workspace: Option<WorkspaceView>,
    session: SessionView<C, R>,
    on_free_tier: bool,
    refused: spec_fn(SessionView<C, R>) -> SessionView<C, R>,
)
    ensures
        all_duties::<K, C, O, U, R>(0, workspace, session, on_free_tier, refused).session
            == if workspace is None && session.tools_due() {
            refused(settled(session))
        } else {
            settled(session)
        },
{
    reveal_with_fuel(all_duties, 7);
    let usage = seen_to::<K, C, O, U, R>(Duty::Usage, workspace, session, refused);
    let quota = seen_to::<K, C, O, U, R>(Duty::Quota, workspace, usage, refused);
    let enrol = seen_to::<K, C, O, U, R>(Duty::Enrol, workspace, quota, refused);
    let budget = seen_to::<K, C, O, U, R>(Duty::Budget, workspace, enrol, refused);
    let request = seen_to::<K, C, O, U, R>(Duty::Request, workspace, budget, refused);
    assert(usage.pending_usage =~= Seq::empty());
    assert(budget == SessionView {
        pending_usage: Seq::empty(),
        quota_dirty: false,
        enrol_requested: false,
        refresh_budget: false,
        ..session
    });
}

/// The frame ends by drawing the next one, or by leaving the loop if the session is to exit.
proof fn lemma_all_duties_close<K, C, O, U, R>(
    place: int,
    workspace: Option<WorkspaceView>,
    session: SessionView<C, R>,
    on_free_tier: bool,
    refused: spec_fn(SessionView<C, R>) -> SessionView<C, R>,
)
    requires
        0 <= place <= rank(Duty::Close),
    ensures
        ({
            let all = all_duties::<K, C, O, U, R>(
                place,
                workspace,
                session,
                on_free_tier,
                refused,
            );
            &&& all.actions.len() > 0
            &&& all.actions.last() == if all.session.should_exit {
                ActionView::<K, C, O, U, R>::Stop(Ending::Exit)
            } else {
                ActionView::Draw
            }
        }),
    decreases rank(Duty::Close) - place,
{
    if place < rank(Duty::Close) {
        lemma_all_duties_close::<K, C, O, U, R>(
            place + 1,
            workspace,
            seen_to::<K, C, O, U, R>(duty_at(place), workspace, session, refused),
            on_free_tier,
            refused,
        );
    }
}

/// Once no background event is left, a frame does about each duty what the session owes at
/// that time, once and in order, and no more, and then draws the next frame or leaves the loop.
/// It leaves everything seen to, but for what the application does when it is told that there
/// is no workspace to run its tools in.
pub proof fn law_frame_does_what_is_owed<K, C, O, U, R>(
    workspace: Option<WorkspaceView>,
    session: SessionView<C, R>,
    on_free_tier: bool,
    refused: spec_fn(SessionView<C, R>) -> SessionView<C, R>,
)
    ensures
        ({
            let frame = frame_end::<K, C, O, U, R>(workspace, session, on_free_tier, refused);
            &&& forall|duty: Duty|
                duty != Duty::Close ==> #[trigger] actions_about(frame.actions, duty)
                    == owed::<K, C, O, U, R>(duty, workspace, session, on_free_tier)
            &&& frame.session == if workspace is None && session.tools_due() {
                refused(settled(session))
            } else {
                settled(session)
            }
            &&& forall|duty: Duty|
                duty != Duty::Close ==> !#[trigger] due(duty, settled(session))
            &&& frame.actions.last() == if frame.session.should_exit {
                ActionView::<K, C, O, U, R>::Stop(Ending::Exit)
            } else {
                ActionView::Draw
            }
        }),
{
    law_frame_sees_to_every_duty::<K, C, O, U, R>(
        workspace,
        session,
        on_free_tier,
        refused,
    );
    assert forall|duty: Duty| duty != Duty::Close implies #[trigger] actions_about(
        all_duties::<K, C, O, U, R>(0, workspace, session, on_free_tier, refused).actions,
        duty,
    ) == owed::<K, C, O, U, R>(duty, workspace, session, on_free_tier) by {
        lemma_actions_about_a_duty::<K, C, O, U, R>(
            duty,
            0,
            workspace,
            session,
            on_free_tier,
            refused,
        );
    }
    lemma_all_duties_settle::<K, C, O, U, R>(workspace, session, on_free_tier, refused);
    lemma_all_duties_close::<K, C, O, U, R>(0, workspace, session, on_free_tier, refused);
}

/// Recording turns and saving the quota are each the only action about a duty.
proof fn lemma_turns_and_quota_are_duties<K, C, O, U, R>(
    actions: Seq<ActionView<K, C, O, U, R>>,
)
    ensures
        actions_about(actions, Duty::Usage) == actions.filter(
            |action: ActionView<K, C, O, U, R>| action is RecordTurns,
        ),
        actions_about(actions, Duty::Quota) == actions.filter(
            |action: ActionView<K, C, O, U, R>| action is SaveQuota,
        ),
{
    lemma_filters_agree(
        actions,
        |action: ActionView<K, C, O, U, R>| duty_of(action) == Some(Duty::Usage),
        |action: ActionView<K, C, O, U, R>| action is RecordTurns,
    );
    lemma_filters_agree(
        actions,
        |action: ActionView<K, C, O, U, R>| duty_of(action) == Some(Duty::Quota),
        |action: ActionView<K, C, O, U, R>| action is SaveQuota,
    );
}

/// Once no background event is left, the turns that are queued are handed over to be recorded
/// once, together and in order, and the quota is saved once if and only if it had changed. At
/// the end of the frame no turn is queued and the quota is saved, unless the application adds
/// to them when it is told that there is no workspace to run its tools in.
pub proof fn law_turns_and_quota_go_out_once<K, C, O, U, R>(
    workspace: Option<WorkspaceView>,
    session: SessionView<C, R>,
    on_free_tier: bool,
    refused: spec_fn(SessionView<C, R>) -> SessionView<C, R>,
)
    ensures
        ({
            let frame = frame_end::<K, C, O, U, R>(workspace, session, on_free_tier, refused);
            &&& frame.actions.filter(|action: ActionView<K, C, O, U, R>| action is RecordTurns)
                == if session.pending_usage.len() > 0 {
                seq![ActionView::<K, C, O, U, R>::RecordTurns(session.pending_usage)]
            } else {
                Seq::empty()
            }
            &&& frame.actions.filter(|action: ActionView<K, C, O, U, R>| action is SaveQuota)
                == if session.quota_dirty {
                seq![ActionView::<K, C, O, U, R>::SaveQuota]
            } else {
                Seq::empty()
            }
            &&& !(workspace is None && session.tools_due()) ==> {
                &&& frame.session.pending_usage.len() == 0
                &&& !frame.session.quota_dirty
            }
            &&& workspace is None && session.tools_due() ==> {
                &&& frame.session == refused(settled(session))
                &&& settled(session).pending_usage.len() == 0
                &&& !settled(session).quota_dirty
            }
        }),
{
    let frame = frame_end::<K, C, O, U, R>(workspace, session, on_free_tier, refused);
    law_frame_does_what_is_owed::<K, C, O, U, R>(
        workspace,
        session,
        on_free_tier,
        refused,
    );
    lemma_turns_and_quota_are_duties(frame.actions);
}

/// What is owed about all the duties from a place on, each judged by the session as it is.
spec fn owed_from<K, C, O, U, R>(
    place: int,
    workspace: Option<WorkspaceView>,
    session: SessionView<C, R>,
    on_free_tier: bool,
) -> Seq<ActionView<K, C, O, U, R>>
    decreases rank(Duty::Close) - place,
{
    if place >= rank(Duty::Close) {
        Seq::empty()
    } else {
        owed::<K, C, O, U, R>(duty_at(place), workspace, session, on_free_tier) + owed_from(
            place + 1,
            workspace,
            session,
            on_free_tier,
        )
    }
}

/// Seeing to a duty leaves what is owed from a later place on.
proof fn lemma_owed_from_is_kept<K, C, O, U, R>(
    duty: Duty,
    place: int,
    workspace: Option<WorkspaceView>,
    session: SessionView<C, R>,
    on_free_tier: bool,
    refused: spec_fn(SessionView<C, R>) -> SessionView<C, R>,
)
    requires
        rank(duty) < place,
    ensures
        owed_from::<K, C, O, U, R>(
            place,
            workspace,
            seen_to::<K, C, O, U, R>(duty, workspace, session, refused),
            on_free_tier,
        ) == owed_from::<K, C, O, U, R>(place, workspace, session, on_free_tier),
    decreases rank(Duty::Close) - place,
{
    if place < rank(Duty::Close) {
        lemma_owed_from_is_kept::<K, C, O, U, R>(
            duty,
            place + 1,
            workspace,
            session,
            on_free_tier,
            refused,
        );
        lemma_later_duties_are_kept::<K, C, O, U, R>(
            duty,
            duty_at(place),
            workspace,
            session,
            on_free_tier,
            refused,
        );
    }
}

/// All the actions from a place on are what is owed from there, and the end of the frame.
proof fn lemma_all_duties_are_owed<K, C, O, U, R>(
    place: int,
    workspace: Option<WorkspaceView>,
    session: SessionView<C, R>,
    on_free_tier: bool,
    refused: spec_fn(SessionView<C, R>) -> SessionView<C, R>,
)
    requires
        0 <= place <= rank(Duty::Close),
    ensures
        ({
            let all = all_duties::<K, C, O, U, R>(
                place,
                workspace,
                session,
                on_free_tier,
                refused,
            );
            all.actions == owed_from::<K, C, O, U, R>(place, workspace, session, on_free_tier)
                + owed::<K, C, O, U, R>(Duty::Close, workspace, all.session, on_free_tier)
        }),
    decreases rank(Duty::Close) - place,
{
    let all = all_duties::<K, C, O, U, R>(place, workspace, session, on_free_tier, refused);
    let close = owed::<K, C, O, U, R>(Duty::Close, workspace, all.session, on_free_tier);
    if place < rank(Duty::Close) {
        let duty = duty_at(place);
        let next = seen_to::<K, C, O, U, R>(duty, workspace, session, refused);
        lemma_all_duties_are_owed::<K, C, O, U, R>(
            place + 1,
            workspace,
            next,
            on_free_tier,
            refused,
        );
        lemma_owed_from_is_kept::<K, C, O, U, R>(
            duty,
            place + 1,
            workspace,
            session,
            on_free_tier,
            refused,
        );
        assert(all.actions =~= owed_from::<K, C, O, U, R>(
            place,
            workspace,
            session,
            on_free_tier,
        ) + close);
    } else {
        assert(all.actions =~= Seq::<ActionView<K, C, O, U, R>>::empty() + close);
    }
}

/// Everything that a frame does once no background event is left, from the fields of the
/// session: queued turns are recorded, a changed quota is saved, an enrolment that was asked for
/// is started, a budget is looked up where the free tier is in use, a prompt that is to be sent
/// is, and the calls approved while tools are executed are run, or refused without a workspace;
/// in this order, each once, and nothing else. Then the next frame is drawn, or the loop left.
#[verifier::spinoff_prover]
#[verifier::rlimit(60)]
pub proof fn law_frame_from_the_fields_of_the_session<K, C, O, U, R>(
    workspace: Option<WorkspaceView>,
    session: SessionView<C, R>,
    on_free_tier: bool,
    refused: spec_fn(SessionView<C, R>) -> SessionView<C, R>,
)
    ensures
        ({
            let frame = frame_end::<K, C, O, U, R>(workspace, session, on_free_tier, refused);
            let refusal =
                "The model asked to run a command, but the command tool is not enabled."@;
            let record = if session.pending_usage.len() > 0 {
                seq![ActionView::<K, C, O, U, R>::RecordTurns(session.pending_usage)]
            } else {
                Seq::empty()
            };
            let save = if session.quota_dirty {
                seq![ActionView::<K, C, O, U, R>::SaveQuota]
            } else {
                Seq::empty()
            };
            let enrol = if session.enrol_requested {
                seq![ActionView::<K, C, O, U, R>::Enrol(enrolment_settings(session.config))]
            } else {
                Seq::empty()
            };
            let budget = if !session.refresh_budget {
                Seq::empty()
            } else if on_free_tier {
                seq![
                    ActionView::<K, C, O, U, R>::CheckFreeTier,
                    ActionView::FetchBudget(session.request_id, session.config),
                ]
            } else {
                seq![ActionView::<K, C, O, U, R>::CheckFreeTier]
            };
            let request = if session.state == AppState::Sending {
                seq![
                    ActionView::<K, C, O, U, R>::StartRequest(session.chat_request(workspace)),
                ]
            } else {
                Seq::empty()
            };
            let tools = if session.state == AppState::ExecutingTools
                && session.approved_tools.len() > 0 {
                match workspace {
                    Some(workspace) => seq![
                        ActionView::<K, C, O, U, R>::RunTools(
                            ToolRunView {
                                id: session.request_id,
                                calls: session.approved_tools,
                                tools: session.config.tools,
                                workspace,
                            },
                        ),
                    ],
                    None => seq![
                        ActionView::<K, C, O, U, R>::Call(AppCallView::FailStream(refusal)),
                    ],
                }
            } else {
                Seq::empty()
            };
            let close = if frame.session.should_exit {
                seq![ActionView::<K, C, O, U, R>::Stop(Ending::Exit)]
            } else {
                seq![ActionView::<K, C, O, U, R>::Draw]
            };
            frame.actions == record + save + enrol + budget + request + tools + close
        }),
{
    law_frame_sees_to_every_duty::<K, C, O, U, R>(workspace, session, on_free_tier, refused);
    lemma_all_duties_are_owed::<K, C, O, U, R>(0, workspace, session, on_free_tier, refused);
    lemma_owed_in_a_row::<K, C, O, U, R>(workspace, session, on_free_tier);
    let frame = frame_end::<K, C, O, U, R>(workspace, session, on_free_tier, refused);
    let row = owed_from::<K, C, O, U, R>(0, workspace, session, on_free_tier);
    let close = owed::<K, C, O, U, R>(Duty::Close, workspace, frame.session, on_free_tier);
    assert(frame.actions == row + close);
}

/// What is owed about all the duties, in a row.
proof fn lemma_owed_in_a_row<K, C, O, U, R>(
    workspace: Option<WorkspaceView>,
    session: SessionView<C, R>,
    on_free_tier: bool,
)
    ensures
        owed_from::<K, C, O, U, R>(0, workspace, session, on_free_tier) == owed::<K, C, O, U, R>(
            Duty::Usage,
            workspace,
            session,
            on_free_tier,
        ) + owed(Duty::Quota, workspace, session, on_free_tier) + owed(
            Duty::Enrol,
            workspace,
            session,
            on_free_tier,
        ) + owed(Duty::Budget, workspace, session, on_free_tier) + owed(
            Duty::Request,
            workspace,
            session,
            on_free_tier,
        ) + owed(Duty::Tools, workspace, session, on_free_tier),
{
    reveal_with_fuel(owed_from, 7);
    let usage = owed::<K, C, O, U, R>(Duty::Usage, workspace, session, on_free_tier);
    let quota = owed::<K, C, O, U, R>(Duty::Quota, workspace, session, on_free_tier);
    let enrol = owed::<K, C, O, U, R>(Duty::Enrol, workspace, session, on_free_tier);
    let budget = owed::<K, C, O, U, R>(Duty::Budget, workspace, session, on_free_tier);
    let request = owed::<K, C, O, U, R>(Duty::Request, workspace, session, on_free_tier);
    let tools = owed::<K, C, O, U, R>(Duty::Tools, workspace, session, on_free_tier);
    lemma_regroup(usage, quota, enrol, budget, request, tools);
}

/// How six sequences are grouped makes no difference to their row.
proof fn lemma_regroup<A>(a: Seq<A>, b: Seq<A>, c: Seq<A>, d: Seq<A>, e: Seq<A>, f: Seq<A>)
    ensures
        a + (b + (c + (d + (e + (f + Seq::<A>::empty()))))) == a + b + c + d + e + f,
{
    assert(a + (b + (c + (d + (e + (f + Seq::<A>::empty()))))) =~= a + b + c + d + e + f);
}

/// Whenever calls are approved while tools are executed, whatever else the session holds, the
/// frame runs exactly those calls, once and under the current request, where there is a
/// workspace, and otherwise refuses them, once. Afterwards none is queued.
#[verifier::rlimit(40)]
pub proof fn law_approved_calls_are_run_in_the_frame<K, C, O, U, R>(
    workspace: Option<WorkspaceView>,
    session: SessionView<C, R>,
    on_free_tier: bool,
    refused: spec_fn(SessionView<C, R>) -> SessionView<C, R>,
)
    requires
        session.state == AppState::ExecutingTools,
        session.approved_tools.len() > 0,
    ensures
        ({
            let frame = frame_end::<K, C, O, U, R>(workspace, session, on_free_tier, refused);
            let refusal =
                "The model asked to run a command, but the command tool is not enabled."@;
            let handled = frame.actions.filter(
                |action: ActionView<K, C, O, U, R>| action is RunTools || action is Call,
            );
            let queue_gone = SessionView {
                pending_usage: Seq::empty(),
                quota_dirty: false,
                enrol_requested: false,
                refresh_budget: false,
                approved_tools: Seq::empty(),
                ..session
            };
            match workspace {
                Some(workspace) => {
                    &&& handled == seq![
                        ActionView::<K, C, O, U, R>::RunTools(
                            ToolRunView {
                                id: session.request_id,
                                calls: session.approved_tools,
                                tools: session.config.tools,
                                workspace,
                            },
                        ),
                    ]
                    &&& frame.session == queue_gone
                },
                None => {
                    &&& handled == seq![
                        ActionView::<K, C, O, U, R>::Call(AppCallView::FailStream(refusal)),
                    ]
                    &&& frame.session == refused(queue_gone)
                },
            }
        }),
{
    let frame = frame_end::<K, C, O, U, R>(workspace, session, on_free_tier, refused);
    law_frame_does_what_is_owed::<K, C, O, U, R>(workspace, session, on_free_tier, refused);
    lemma_tools_are_a_duty(frame.actions);
    assert(actions_about(frame.actions, Duty::Tools) == owed::<K, C, O, U, R>(
        Duty::Tools,
        workspace,
        session,
        on_free_tier,
    ));
}

/// Running tools and refusing to are the actions about a duty of their own.
proof fn lemma_tools_are_a_duty<K, C, O, U, R>(actions: Seq<ActionView<K, C, O, U, R>>)
    ensures
        actions_about(actions, Duty::Tools) == actions.filter(
            |action: ActionView<K, C, O, U, R>| action is RunTools || action is Call,
        ),
{
    lemma_filters_agree(
        actions,
        |action: ActionView<K, C, O, U, R>| duty_of(action) == Some(Duty::Tools),
        |action: ActionView<K, C, O, U, R>| action is RunTools || action is Call,
    );
}

/// What a frame leaves of the session: no turn queued, the quota saved, nothing asked for, a
/// prompt sent under the next id and streaming, and approved calls gone while tools are
/// executed; everything else is as it was. Only what the application does on a refusal comes on
/// top.
#[verifier::rlimit(40)]
pub proof fn law_frame_leaves_the_session_settled<K, C, O, U, R>(
    workspace: Option<WorkspaceView>,
    session: SessionView<C, R>,
    on_free_tier: bool,
    refused: spec_fn(SessionView<C, R>) -> SessionView<C, R>,
)
    requires
        session.request_id < u64::MAX,
    ensures
        ({
            let frame = frame_end::<K, C, O, U, R>(workspace, session, on_free_tier, refused);
            let sends = session.state == AppState::Sending;
            let tools = session.state == AppState::ExecutingTools;
            let left = SessionView {
                pending_usage: Seq::empty(),
                quota_dirty: false,
                enrol_requested: false,
                refresh_budget: false,
                request_id: if sends {
                    (session.request_id + 1) as u64
                } else {
                    session.request_id
                },
                state: if sends {
                    AppState::Streaming
                } else {
                    session.state
                },
                approved_tools: if tools {
                    Seq::empty()
                } else {
                    session.approved_tools
                },
                ..session
            };
            frame.session == if tools && session.approved_tools.len() > 0 && workspace is None {
                refused(left)
            } else {
                left
            }
        }),
{
    law_frame_does_what_is_owed::<K, C, O, U, R>(workspace, session, on_free_tier, refused);
    if session.state == AppState::ExecutingTools && session.approved_tools.len() == 0 {
        assert(session.approved_tools =~= Seq::empty());
    }
}

} // verus!
