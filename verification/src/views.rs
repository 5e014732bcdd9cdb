//! What the views show: each value's own fields, whole and in their places. So whatever is
//! promised of a view is promised of the value.

use crate::cli::{text_view, texts, Invocation, InvocationView, Report};
use crate::config::{Config, FreeTierConfig, LlmConfig, ToolsConfig};
use crate::event_loop::{Action, ActionView, Reply, ReplyView};
use crate::freetier::{EnrolStart, EnrolStartView, Enrolled};
use crate::launch::{
    LaunchStage, LaunchStageView, Move, MoveView, Preparation, Task, TaskView,
};
use crate::session::{
    call_view, AppCall, AppCallView, ChatRequest, Session, StreamEvent, StreamEventView,
    SystemPrompt, ToolRun,
};
use crate::workspace::{workspace_view, Workspace};
use vstd::prelude::*;

verus! {

/// The view of settings shows every one of them.
pub proof fn law_settings_are_shown_whole<R>(
    llm: LlmConfig,
    tools: ToolsConfig<R>,
    free_tier: FreeTierConfig,
    config: Config<R>,
)
    ensures
        llm@.endpoint == llm.endpoint@,
        llm@.model == llm.model@,
        llm@.api_key == llm.api_key@,
        llm@.max_tokens == llm.max_tokens,
        tools@.enabled == tools.enabled,
        tools@.workspace == tools.workspace@,
        tools@.require_approval == tools.require_approval,
        tools@.max_steps == tools.max_steps,
        tools@.rest == tools.rest,
        free_tier@.enabled == free_tier.enabled,
        free_tier@.device_token == free_tier.device_token@,
        free_tier@.fallback_id == free_tier.fallback_id@,
        config@.theme == config.ui.theme@,
        config@.llm == config.llm@,
        config@.tools == config.tools@,
        config@.quota == config.quota,
        config@.free_tier == config.free_tier@,
        config@.rest == config.rest,
{
}

/// The view of a session shows all its state.
pub proof fn law_session_is_shown_whole<C, R>(session: Session<C, R>)
    ensures
        session@.config == session.config@,
        session@.state == session.state,
        session@.request_id == session.request_id,
        session@.tool_steps == session.tool_steps,
        session@.approved_tools == session.approved_tools@,
        session@.pending_usage == session.pending_usage@,
        session@.quota_dirty == session.quota_dirty,
        session@.enrol_requested == session.enrol_requested,
        session@.refresh_budget == session.refresh_budget,
        session@.should_exit == session.should_exit,
        session@.free_tier_status == session.free_tier_status@,
        session@.workspace_status == session.workspace_status@,
        session@.workspace_root == session.workspace_root@,
{
}

/// The views of a workspace, an enrolment, a request, a system prompt and a run of tools show
/// all that they hold.
pub proof fn law_what_is_handed_out_is_shown_whole<C, R>(
    workspace: Workspace,
    enrolled: Enrolled,
    request: ChatRequest<R>,
    system: SystemPrompt<R>,
    run: ToolRun<C, R>,
)
    ensures
        workspace@.root == workspace.root@,
        workspace@.broad == workspace.broad,
        workspace_view(Some(workspace)) == Some(workspace@),
        workspace_view(None) is None,
        enrolled@.endpoint == enrolled.endpoint@,
        enrolled@.device_token == enrolled.device_token@,
        enrolled@.model == enrolled.model@,
        enrolled@.fallback_id == enrolled.fallback_id@,
        enrolled@.daily_limit == enrolled.daily_limit,
        request@.id == request.id,
        request@.endpoint == request.endpoint@,
        request@.model == request.model@,
        request@.api_key == request.api_key@,
        request@.max_tokens == request.max_tokens,
        request@.include_usage == request.include_usage,
        request@.offer_tools == request.offer_tools,
        request@.system is Some <==> request.system is Some,
        request.system matches Some(prompt) ==> request@.system == Some(prompt@),
        system@.workspace == system.workspace@,
        system@.tools == system.tools@,
        system@.budget_left == system.budget_left,
        run@.id == run.id,
        run@.calls == run.calls@,
        run@.tools == run.tools@,
        run@.workspace == run.workspace@,
{
}

/// The view of a background event shows what it is and all that it carries.
pub proof fn law_events_are_shown_whole<C, O, U>(event: StreamEvent<C, O, U>)
    ensures
        match event {
            StreamEvent::Token(token) => event@ == StreamEventView::<C, O, U>::Token(token@),
            StreamEvent::ToolCalls(calls) => event@ == StreamEventView::<C, O, U>::ToolCalls(
                calls@,
            ),
            StreamEvent::ToolsFinished(outcomes) => event@ == StreamEventView::<
                C,
                O,
                U,
            >::ToolsFinished(outcomes@),
            StreamEvent::Usage(usage) => event@ == StreamEventView::<C, O, U>::Usage(usage),
            StreamEvent::FreeTierBudget(line) => event@ == StreamEventView::<
                C,
                O,
                U,
            >::FreeTierBudget(line@),
            StreamEvent::FreeTierEnrolled(e) => event@ == StreamEventView::<
                C,
                O,
                U,
            >::FreeTierEnrolled(e@),
            StreamEvent::FreeTierFailed(reason) => event@ == StreamEventView::<
                C,
                O,
                U,
            >::FreeTierFailed(reason@),
            StreamEvent::Done => event@ == StreamEventView::<C, O, U>::Done,
            StreamEvent::Notice(note) => event@ == StreamEventView::<C, O, U>::Notice(note@),
            StreamEvent::Error(error) => event@ == StreamEventView::<C, O, U>::Error(error@),
        },
{
}

/// The view of a call to the application shows what it is and all that it carries.
pub proof fn law_calls_are_shown_whole<C, O, U>(call: AppCall<C, O, U>)
    ensures
        call_view(Some(call)) == Some(call@),
        call_view::<C, O, U>(None) is None,
        match call {
            AppCall::FreeTierEnrolled(e) => call@ == AppCallView::<C, O, U>::FreeTierEnrolled(e@),
            AppCall::FreeTierFailed(reason) => call@ == AppCallView::<C, O, U>::FreeTierFailed(
                reason@,
            ),
            AppCall::AppendToken(token) => call@ == AppCallView::<C, O, U>::AppendToken(token@),
            AppCall::RequestTools(calls) => call@ == AppCallView::<C, O, U>::RequestTools(calls@),
            AppCall::FinishTools(outcomes) => call@ == AppCallView::<C, O, U>::FinishTools(
                outcomes@,
            ),
            AppCall::RecordExactUsage(usage) => call@ == AppCallView::<
                C,
                O,
                U,
            >::RecordExactUsage(usage),
            AppCall::FinishStream => call@ == AppCallView::<C, O, U>::FinishStream,
            AppCall::Note(note) => call@ == AppCallView::<C, O, U>::Note(note@),
            AppCall::FailStream(error) => call@ == AppCallView::<C, O, U>::FailStream(error@),
        },
{
}

/// The view of a reply to the event loop shows what it is and all that it brings.
pub proof fn law_replies_are_shown_whole<K, C, O, U>(reply: Reply<K, C, O, U>)
    ensures
        match reply {
            Reply::Done => reply@ == ReplyView::<K, C, O, U>::Done,
            Reply::Failed => reply@ == ReplyView::<K, C, O, U>::Failed,
            Reply::Input(input) => reply@ == ReplyView::<K, C, O, U>::Input(input),
            Reply::Received(None) => reply@ == ReplyView::<K, C, O, U>::Received(None),
            Reply::Received(Some((id, event))) => reply@ == ReplyView::<K, C, O, U>::Received(
                Some((id, event@)),
            ),
            Reply::FreeTier(on) => reply@ == ReplyView::<K, C, O, U>::FreeTier(on),
        },
{
}

/// The view of an action of the event loop shows what it is and all that it hands out.
pub proof fn law_actions_are_shown_whole<K, C, O, U, R>(action: Action<K, C, O, U, R>)
    ensures
        match action {
            Action::Draw => action@ == ActionView::<K, C, O, U, R>::Draw,
            Action::Poll(millis) => action@ == ActionView::<K, C, O, U, R>::Poll(millis),
            Action::HandleKey(key) => action@ == ActionView::<K, C, O, U, R>::HandleKey(key),
            Action::HandlePaste(text) => action@ == ActionView::<K, C, O, U, R>::HandlePaste(
                text@,
            ),
            Action::Receive => action@ == ActionView::<K, C, O, U, R>::Receive,
            Action::Call(call) => action@ == ActionView::<K, C, O, U, R>::Call(call@),
            Action::RecordTurns(turns) => action@ == ActionView::<K, C, O, U, R>::RecordTurns(
                turns@,
            ),
            Action::SaveQuota => action@ == ActionView::<K, C, O, U, R>::SaveQuota,
            Action::Enrol(config) => action@ == ActionView::<K, C, O, U, R>::Enrol(config@),
            Action::CheckFreeTier => action@ == ActionView::<K, C, O, U, R>::CheckFreeTier,
            Action::FetchBudget(id, config) => action@ == ActionView::<
                K,
                C,
                O,
                U,
                R,
            >::FetchBudget(id, config@),
            Action::StartRequest(request) => action@ == ActionView::<
                K,
                C,
                O,
                U,
                R,
            >::StartRequest(request@),
            Action::RunTools(run) => action@ == ActionView::<K, C, O, U, R>::RunTools(run@),
            Action::Stop(ending) => action@ == ActionView::<K, C, O, U, R>::Stop(ending),
        },
{
}

/// The views of the command line and of the last words show all that was given and said.
pub proof fn law_command_line_is_shown_whole(
    args: Seq<String>,
    asked: Invocation,
    report: Report,
    text: String,
)
    ensures
        texts(args).len() == args.len(),
        forall|i: int| 0 <= i < args.len() ==> #[trigger] texts(args)[i] == args[i]@,
        text_view(Some(text)) == Some(text@),
        text_view(None) is None,
        report@.stderr is Some <==> report.stderr is Some,
        report.stderr matches Some(line) ==> report@.stderr == Some(line@),
        report@.stdout is Some <==> report.stdout is Some,
        report.stdout matches Some(line) ==> report@.stdout == Some(line@),
        report@.exit == report.exit,
        match asked {
            Invocation::Version => asked@ == InvocationView::Version,
            Invocation::Help => asked@ == InvocationView::Help,
            Invocation::UnknownArgument(arg) => asked@ == InvocationView::UnknownArgument(arg@),
            Invocation::Upgrade(force) => asked@ == InvocationView::Upgrade(force),
            Invocation::ForceAlone => asked@ == InvocationView::ForceAlone,
            Invocation::Launch => asked@ == InvocationView::Launch,
        },
{
}

/// The views of what is gathered at the start show all of it, and so does the view of how the
/// enrolment begins.
pub proof fn law_preparation_is_shown_whole<R>(p: Preparation<R>, start: EnrolStart)
    ensures
        p@.config == p.config@,
        p@.free_tier_status == p.free_tier_status@,
        p@.refresh_budget == p.refresh_budget,
        p@.workspace is Some <==> p.workspace is Some,
        p.workspace matches Some(workspace) ==> p@.workspace == Some(workspace@),
        p@.workspace_status == p.workspace_status@,
        match start {
            EnrolStart::Settled { status, refresh_budget } => start@ == (EnrolStartView::Settled {
                status: status@,
                refresh_budget,
            }),
            EnrolStart::Register { announcement } => start@ == (EnrolStartView::Register {
                announcement: announcement@,
            }),
        },
{
}

/// The view of a stage of the launch shows which it is and all that it keeps.
pub proof fn law_stages_are_shown_whole<R>(stage: LaunchStage<R>)
    ensures
        match stage {
            LaunchStage::Upgrading => stage@ == LaunchStageView::<R>::Upgrading,
            LaunchStage::Loading => stage@ == LaunchStageView::<R>::Loading,
            LaunchStage::Theming(p) => stage@ == LaunchStageView::Theming(p@),
            LaunchStage::Asking(p) => stage@ == LaunchStageView::Asking(p@),
            LaunchStage::Considering(p) => stage@ == LaunchStageView::Considering(p@),
            LaunchStage::Registering(p) => stage@ == LaunchStageView::Registering(p@),
            LaunchStage::Saving(p) => stage@ == LaunchStageView::Saving(p@),
            LaunchStage::Complaining(p) => stage@ == LaunchStageView::Complaining(p@),
            LaunchStage::Opening(p) => stage@ == LaunchStageView::Opening(p@),
            LaunchStage::Pinging(p) => stage@ == LaunchStageView::Pinging(p@),
            LaunchStage::SettingUp(p) => stage@ == LaunchStageView::SettingUp(p@),
            LaunchStage::Hooking(p, enhanced) => stage@ == LaunchStageView::Hooking(p@, enhanced),
            LaunchStage::Discarding(p, enhanced) => stage@ == LaunchStageView::Discarding(
                p@,
                enhanced,
            ),
            LaunchStage::Screening(p, enhanced) => stage@ == LaunchStageView::Screening(
                p@,
                enhanced,
            ),
            LaunchStage::Counting(p, enhanced) => stage@ == LaunchStageView::Counting(
                p@,
                enhanced,
            ),
            LaunchStage::Running(enhanced) => stage@ == LaunchStageView::<R>::Running(enhanced),
            LaunchStage::Restoring(None) => stage@ == LaunchStageView::<R>::Restoring(None),
            LaunchStage::Restoring(Some(error)) => stage@ == LaunchStageView::<R>::Restoring(
                Some(error@),
            ),
            LaunchStage::Abandoning => stage@ == LaunchStageView::<R>::Abandoning,
        },
{
}

/// The view of a task of the launch shows which it is and all that it is given, and the view of
/// how the program goes on shows both or the last words.
pub proof fn law_tasks_are_shown_whole<C, R>(
    task: Task<C, R>,
    stage: LaunchStage<R>,
    report: Report,
)
    ensures
        Move::Go(stage, task)@ == MoveView::Go(stage@, task@),
        Move::<C, R>::End(report)@ == MoveView::<C, R>::End(report@),
        match task {
            Task::Upgrade(force) => task@ == TaskView::<C, R>::Upgrade(force),
            Task::LoadConfig => task@ == TaskView::<C, R>::LoadConfig,
            Task::InitTheme(theme) => task@ == TaskView::<C, R>::InitTheme(theme@),
            Task::AskFreeTier(config) => task@ == TaskView::<C, R>::AskFreeTier(config@),
            Task::AskShouldRegister(config) => task@ == TaskView::<C, R>::AskShouldRegister(
                config@,
            ),
            Task::Register(line, config) => task@ == TaskView::<C, R>::Register(line@, config@),
            Task::SaveConfig(config) => task@ == TaskView::<C, R>::SaveConfig(config@),
            Task::Complain(line) => task@ == TaskView::<C, R>::Complain(line@),
            Task::OpenWorkspace(path) => task@ == TaskView::<C, R>::OpenWorkspace(path@),
            Task::PingTelemetry => task@ == TaskView::<C, R>::PingTelemetry,
            Task::SetUpTerminal => task@ == TaskView::<C, R>::SetUpTerminal,
            Task::InstallPanicHook(enhanced) => task@ == TaskView::<C, R>::InstallPanicHook(
                enhanced,
            ),
            Task::DiscardInput => task@ == TaskView::<C, R>::DiscardInput,
            Task::OpenScreen => task@ == TaskView::<C, R>::OpenScreen,
            Task::LoadQuota => task@ == TaskView::<C, R>::LoadQuota,
            Task::RunLoop(session, event_loop) => task@ == TaskView::<C, R>::RunLoop(
                session@,
                event_loop.stage,
                match event_loop.workspace {
                    Some(workspace) => Some(workspace@),
                    None => None,
                },
            ),
            Task::RestoreTerminal(enhanced) => task@ == TaskView::<C, R>::RestoreTerminal(
                enhanced,
            ),
        },
{
}

} // verus!
