//! Taking over the terminal and giving it back.

use vstd::prelude::*;

verus! {

/// One thing to do to the terminal.
#[derive(Clone, Copy, Debug, PartialEq, Eq, Structural)]
pub enum TerminalAction {
    /// Switch raw mode on.
    EnableRawMode,
    /// Enter the alternate screen, with bracketed paste.
    EnterScreen,
    /// Find out whether the terminal tells more keys apart on request.
    QueryEnhancement,
    /// Ask for that.
    PushEnhancement,
    /// Take that back.
    PopEnhancement,
    /// Switch bracketed paste off and leave the alternate screen.
    LeaveScreen,
    /// Switch raw mode off.
    DisableRawMode,
}

/// A command to the terminal.
#[derive(Clone, Copy, Debug, PartialEq, Eq, Structural)]
pub enum TerminalCommand {
    /// Enter the alternate screen.
    EnterAlternateScreen,
    /// Leave the alternate screen.
    LeaveAlternateScreen,
    /// Switch bracketed paste on.
    EnableBracketedPaste,
    /// Switch bracketed paste off.
    DisableBracketedPaste,
    /// Push keyboard enhancement flags, given by their bits.
    PushKeyboardFlags(u8),
    /// Pop the keyboard enhancement flags that were pushed last.
    PopKeyboardFlags,
}

/// The bit of the keyboard enhancement flag that keys which send ambiguous escape codes, such
/// as Shift-Enter, are told apart.
pub const DISAMBIGUATE_ESCAPE_CODES: u8 = 1;

/// What came of it.
#[derive(Clone, Copy, Debug, PartialEq, Eq, Structural)]
pub enum TerminalReply {
    Done,
    Failed,
    Supported(bool),
}

/// How far the setup has come: the action under way, or the result. `Ready` says whether the
/// keyboard enhancement was pushed, so that it can be popped later.
#[derive(Clone, Copy, Debug, PartialEq, Eq, Structural)]
pub enum SetupStage {
    RawMode,
    Screen,
    Query,
    Push,
    Ready(bool),
    Failed,
}

/// How far the restoring has come: the action under way, or the result.
#[derive(Clone, Copy, Debug, PartialEq, Eq, Structural)]
pub enum RestoreStage {
    Pop,
    Screen,
    RawMode,
    Restored,
    Failed,
}

/// The commands that an action consists of, in their order. Raw mode and the query are no
/// commands.
pub open spec fn commands_of(action: TerminalAction) -> Seq<TerminalCommand> {
    match action {
        TerminalAction::EnterScreen => seq![
            TerminalCommand::EnterAlternateScreen,
            TerminalCommand::EnableBracketedPaste,
        ],
        TerminalAction::PushEnhancement => seq![
            TerminalCommand::PushKeyboardFlags(DISAMBIGUATE_ESCAPE_CODES),
        ],
        TerminalAction::PopEnhancement => seq![TerminalCommand::PopKeyboardFlags],
        TerminalAction::LeaveScreen => seq![
            TerminalCommand::DisableBracketedPaste,
            TerminalCommand::LeaveAlternateScreen,
        ],
        TerminalAction::EnableRawMode => Seq::empty(),
        TerminalAction::QueryEnhancement => Seq::empty(),
        TerminalAction::DisableRawMode => Seq::empty(),
    }
}

/// The action under way at a stage of the setup.
pub open spec fn setup_doing(stage: SetupStage) -> Option<TerminalAction> {
    match stage {
        SetupStage::RawMode => Some(TerminalAction::EnableRawMode),
        SetupStage::Screen => Some(TerminalAction::EnterScreen),
        SetupStage::Query => Some(TerminalAction::QueryEnhancement),
        SetupStage::Push => Some(TerminalAction::PushEnhancement),
        SetupStage::Ready(_) => None,
        SetupStage::Failed => None,
    }
}

/// The stage at which the setup begins.
pub open spec fn setup_first() -> SetupStage {
    SetupStage::RawMode
}

/// The stage of the setup after the action under way. A failure ends it, except that a
/// terminal that cannot say what it supports supports nothing.
pub open spec fn setup_next(stage: SetupStage, reply: TerminalReply) -> SetupStage {
    match stage {
        SetupStage::RawMode => if reply == TerminalReply::Failed {
            SetupStage::Failed
        } else {
            SetupStage::Screen
        },
        SetupStage::Screen => if reply == TerminalReply::Failed {
            SetupStage::Failed
        } else {
            SetupStage::Query
        },
        SetupStage::Query => if reply == TerminalReply::Supported(true) {
            SetupStage::Push
        } else {
            SetupStage::Ready(false)
        },
        SetupStage::Push => if reply == TerminalReply::Failed {
            SetupStage::Failed
        } else {
            SetupStage::Ready(true)
        },
        SetupStage::Ready(enhanced) => SetupStage::Ready(enhanced),
        SetupStage::Failed => SetupStage::Failed,
    }
}

/// The action under way at a stage of the restoring.
pub open spec fn restore_doing(stage: RestoreStage) -> Option<TerminalAction> {
    match stage {
        RestoreStage::Pop => Some(TerminalAction::PopEnhancement),
        RestoreStage::Screen => Some(TerminalAction::LeaveScreen),
        RestoreStage::RawMode => Some(TerminalAction::DisableRawMode),
        RestoreStage::Restored => None,
        RestoreStage::Failed => None,
    }
}

/// The stage at which restoring begins.
pub open spec fn restore_first(enhanced: bool) -> RestoreStage {
    if enhanced {
        RestoreStage::Pop
    } else {
        RestoreStage::Screen
    }
}

/// The stage of the restoring after the action under way. A failure ends it, except that
/// popping may fail without consequence.
pub open spec fn restore_next(stage: RestoreStage, reply: TerminalReply) -> RestoreStage {
    match stage {
        RestoreStage::Pop => RestoreStage::Screen,
        RestoreStage::Screen => if reply == TerminalReply::Failed {
            RestoreStage::Failed
        } else {
            RestoreStage::RawMode
        },
        RestoreStage::RawMode => if reply == TerminalReply::Failed {
            RestoreStage::Failed
        } else {
            RestoreStage::Restored
        },
        RestoreStage::Restored => RestoreStage::Restored,
        RestoreStage::Failed => RestoreStage::Failed,
    }
}

impl TerminalAction {
    /// The commands to give to the terminal for this action, in their order; none for raw mode
    /// and the query, which are no commands.
    pub fn commands(self) -> (commands: Vec<TerminalCommand>)
        ensures
            commands@ == commands_of(self),
    {
        match self {
            TerminalAction::EnterScreen => vec![
                TerminalCommand::EnterAlternateScreen,
                TerminalCommand::EnableBracketedPaste,
            ],
            TerminalAction::PushEnhancement => vec![
                TerminalCommand::PushKeyboardFlags(DISAMBIGUATE_ESCAPE_CODES),
            ],
            TerminalAction::PopEnhancement => vec![TerminalCommand::PopKeyboardFlags],
            TerminalAction::LeaveScreen => vec![
                TerminalCommand::DisableBracketedPaste,
                TerminalCommand::LeaveAlternateScreen,
            ],
            TerminalAction::EnableRawMode => Vec::new(),
            TerminalAction::QueryEnhancement => Vec::new(),
            TerminalAction::DisableRawMode => Vec::new(),
        }
    }
}

impl SetupStage {
    /// The stage at which the setup begins.
    pub fn first() -> (stage: Self)
        ensures
            stage == SetupStage::RawMode,
            stage == setup_first(),
    {
        SetupStage::RawMode
    }

    /// The action to perform at this stage; none once the setup has come to its result.
    pub fn action(self) -> (action: Option<TerminalAction>)
        ensures
            action == setup_doing(self),
    {
        match self {
            SetupStage::RawMode => Some(TerminalAction::EnableRawMode),
            SetupStage::Screen => Some(TerminalAction::EnterScreen),
            SetupStage::Query => Some(TerminalAction::QueryEnhancement),
            SetupStage::Push => Some(TerminalAction::PushEnhancement),
            SetupStage::Ready(_) => None,
            SetupStage::Failed => None,
        }
    }
}

impl RestoreStage {
    /// The stage at which restoring begins, given whether the setup pushed the enhancement.
    pub fn first(enhanced: bool) -> (stage: Self)
        ensures
            stage == restore_first(enhanced),
    {
        if enhanced {
            RestoreStage::Pop
        } else {
            RestoreStage::Screen
        }
    }

    /// The action to perform at this stage; none once restoring has come to its result.
    pub fn action(self) -> (action: Option<TerminalAction>)
        ensures
            action == restore_doing(self),
    {
        match self {
            RestoreStage::Pop => Some(TerminalAction::PopEnhancement),
            RestoreStage::Screen => Some(TerminalAction::LeaveScreen),
            RestoreStage::RawMode => Some(TerminalAction::DisableRawMode),
            RestoreStage::Restored => None,
            RestoreStage::Failed => None,
        }
    }
}

/// Goes on with the setup, given what came of the action of this stage.
pub fn setup_terminal(stage: SetupStage, reply: TerminalReply) -> (next: SetupStage)
    ensures
        next == setup_next(stage, reply),
{
    match stage {
        SetupStage::RawMode => match reply {
            TerminalReply::Failed => SetupStage::Failed,
            _ => SetupStage::Screen,
        },
        SetupStage::Screen => match reply {
            TerminalReply::Failed => SetupStage::Failed,
            _ => SetupStage::Query,
        },
        SetupStage::Query => match reply {
            TerminalReply::Supported(true) => SetupStage::Push,
            _ => SetupStage::Ready(false),
        },
        SetupStage::Push => match reply {
            TerminalReply::Failed => SetupStage::Failed,
            _ => SetupStage::Ready(true),
        },
        SetupStage::Ready(enhanced) => SetupStage::Ready(enhanced),
        SetupStage::Failed => SetupStage::Failed,
    }
}

/// Goes on with the restoring, given what came of the action of this stage.
pub fn restore_terminal(stage: RestoreStage, reply: TerminalReply) -> (next: RestoreStage)
    ensures
        next == restore_next(stage, reply),
{
    match stage {
        RestoreStage::Pop => RestoreStage::Screen,
        RestoreStage::Screen => match reply {
            TerminalReply::Failed => RestoreStage::Failed,
            _ => RestoreStage::RawMode,
        },
        RestoreStage::RawMode => match reply {
            TerminalReply::Failed => RestoreStage::Failed,
            _ => RestoreStage::Restored,
        },
        RestoreStage::Restored => RestoreStage::Restored,
        RestoreStage::Failed => RestoreStage::Failed,
    }
}

/// The modes of a terminal that the actions change: raw mode, the alternate screen, bracketed
/// paste, and the keyboard enhancement flags that are pushed, the last ones in force.
pub struct TerminalModes {
    pub raw: bool,
    pub alternate_screen: bool,
    pub bracketed_paste: bool,
    pub keyboard_flags: Seq<u8>,
}

impl TerminalModes {
    /// The modes after a command.
    pub open spec fn after_command(self, command: TerminalCommand) -> Self {
        match command {
            TerminalCommand::EnterAlternateScreen => TerminalModes {
                alternate_screen: true,
                ..self
            },
            TerminalCommand::LeaveAlternateScreen => TerminalModes {
                alternate_screen: false,
                ..self
            },
            TerminalCommand::EnableBracketedPaste => TerminalModes {
                bracketed_paste: true,
                ..self
            },
            TerminalCommand::DisableBracketedPaste => TerminalModes {
                bracketed_paste: false,
                ..self
            },
            TerminalCommand::PushKeyboardFlags(flags) => TerminalModes {
                keyboard_flags: self.keyboard_flags.push(flags),
                ..self
            },
            TerminalCommand::PopKeyboardFlags => TerminalModes {
                keyboard_flags: if self.keyboard_flags.len() > 0 {
                    self.keyboard_flags.drop_last()
                } else {
                    self.keyboard_flags
                },
                ..self
            },
        }
    }

    /// The modes after an action that succeeded: after each of its commands in turn.
    pub open spec fn after(self, action: TerminalAction) -> Self {
        match action {
            TerminalAction::EnableRawMode => TerminalModes { raw: true, ..self },
            TerminalAction::DisableRawMode => TerminalModes { raw: false, ..self },
            _ => commands_of(action).fold_left(
                self,
                |modes: TerminalModes, command: TerminalCommand| modes.after_command(command),
            ),
        }
    }

    /// Whether the terminal is as a program finds it: not raw, on its main screen, and
    /// without bracketed paste.
    pub open spec fn ordinary(self) -> bool {
        !self.raw && !self.alternate_screen && !self.bracketed_paste
    }
}

/// What a setup, from a stage on, makes of the modes where everything succeeds, and the stage
/// that it ends at.
pub open spec fn run_setup(stage: SetupStage, modes: TerminalModes, supported: bool) -> (
    SetupStage,
    TerminalModes,
)
    decreases 5 - setup_progress(stage),
{
    match setup_doing(stage) {
        None => (stage, modes),
        Some(action) => run_setup(
            setup_next(stage, setup_reply(action, supported)),
            modes.after(action),
            supported,
        ),
    }
}

/// The answer to an action of the setup that succeeds.
pub open spec fn setup_reply(action: TerminalAction, supported: bool) -> TerminalReply {
    if action == TerminalAction::QueryEnhancement {
        TerminalReply::Supported(supported)
    } else {
        TerminalReply::Done
    }
}

/// How far a setup has come.
pub open spec fn setup_progress(stage: SetupStage) -> int {
    match stage {
        SetupStage::RawMode => 0,
        SetupStage::Screen => 1,
        SetupStage::Query => 2,
        SetupStage::Push => 3,
        SetupStage::Ready(_) => 4,
        SetupStage::Failed => 4,
    }
}

/// What restoring, from a stage on, makes of the modes where everything succeeds, and the
/// stage that it ends at.
pub open spec fn run_restore(stage: RestoreStage, modes: TerminalModes) -> (
    RestoreStage,
    TerminalModes,
)
    decreases 4 - restore_progress(stage),
{
    match restore_doing(stage) {
        None => (stage, modes),
        Some(action) => run_restore(
            restore_next(stage, TerminalReply::Done),
            modes.after(action),
        ),
    }
}

/// How far restoring has come.
pub open spec fn restore_progress(stage: RestoreStage) -> int {
    match stage {
        RestoreStage::Pop => 0,
        RestoreStage::Screen => 1,
        RestoreStage::RawMode => 2,
        RestoreStage::Restored => 3,
        RestoreStage::Failed => 3,
    }
}

/// A setup that succeeds leaves the terminal raw, on the alternate screen, with bracketed
/// paste and, where it is supported, the keyboard enhancement; and restoring gives back the
/// terminal as the setup found it.
pub proof fn law_restoring_undoes_the_setup(modes: TerminalModes, supported: bool)
    requires
        modes.ordinary(),
    ensures
        run_setup(SetupStage::RawMode, modes, supported) == (
            SetupStage::Ready(supported),
            TerminalModes {
                raw: true,
                alternate_screen: true,
                bracketed_paste: true,
                keyboard_flags: if supported {
                    modes.keyboard_flags.push(DISAMBIGUATE_ESCAPE_CODES)
                } else {
                    modes.keyboard_flags
                },
            },
        ),
        run_restore(
            restore_first(supported),
            run_setup(SetupStage::RawMode, modes, supported).1,
        ) == (RestoreStage::Restored, modes),
{
    reveal_with_fuel(run_setup, 6);
    reveal_with_fuel(run_restore, 5);
    reveal_with_fuel(Seq::fold_left, 3);
    assert(modes.keyboard_flags.push(DISAMBIGUATE_ESCAPE_CODES).drop_last()
        =~= modes.keyboard_flags);
}

/// The setup goes forward with each reply, and so does restoring, until they come to a result.
pub proof fn law_setup_and_restoring_go_forward(
    setup: SetupStage,
    restore: RestoreStage,
    reply: TerminalReply,
)
    ensures
        setup_doing(setup) is Some ==> setup_progress(setup_next(setup, reply)) > setup_progress(
            setup,
        ),
        restore_doing(restore) is Some ==> restore_progress(restore_next(restore, reply))
            > restore_progress(restore),
{
}

/// A failing query does not stop the setup and a failing pop does not stop the restoring; any
/// other failure of theirs does.
pub proof fn law_what_a_failure_stops(setup: SetupStage, restore: RestoreStage)
    ensures
        setup_next(setup, TerminalReply::Failed) == SetupStage::Failed <==> setup
            != SetupStage::Query && !(setup is Ready),
        restore_next(restore, TerminalReply::Failed) == RestoreStage::Failed <==> restore
            != RestoreStage::Pop && restore != RestoreStage::Restored,
{
}

/// Each action is made of these commands, in this order; raw mode and the query of none. Leaving
/// the screen takes back what entering it did, the last thing first.
pub proof fn law_commands_of_each_action()
    ensures
        commands_of(TerminalAction::EnterScreen) == seq![
            TerminalCommand::EnterAlternateScreen,
            TerminalCommand::EnableBracketedPaste,
        ],
        commands_of(TerminalAction::LeaveScreen) == seq![
            TerminalCommand::DisableBracketedPaste,
            TerminalCommand::LeaveAlternateScreen,
        ],
        commands_of(TerminalAction::PushEnhancement) == seq![
            TerminalCommand::PushKeyboardFlags(1),
        ],
        commands_of(TerminalAction::PopEnhancement) == seq![TerminalCommand::PopKeyboardFlags],
        commands_of(TerminalAction::EnableRawMode).len() == 0,
        commands_of(TerminalAction::DisableRawMode).len() == 0,
        commands_of(TerminalAction::QueryEnhancement).len() == 0,
{
}

/// The setup switches raw mode on, enters the screen and asks about the keyboard, in this order,
/// and asks for the enhancement exactly if the answer is that it is supported. It comes to its
/// result after that, and says whether it did.
pub proof fn law_order_of_the_setup(reply: TerminalReply)
    requires
        reply != TerminalReply::Failed,
    ensures
        setup_doing(setup_first()) == Some(TerminalAction::EnableRawMode),
        setup_doing(setup_next(setup_first(), reply)) == Some(TerminalAction::EnterScreen),
        setup_doing(setup_next(setup_next(setup_first(), reply), reply)) == Some(
            TerminalAction::QueryEnhancement,
        ),
        setup_next(setup_next(setup_first(), reply), reply) == SetupStage::Query,
        setup_doing(setup_next(SetupStage::Query, TerminalReply::Supported(true))) == Some(
            TerminalAction::PushEnhancement,
        ),
        setup_next(setup_next(SetupStage::Query, TerminalReply::Supported(true)), reply)
            == SetupStage::Ready(true),
        setup_next(SetupStage::Query, TerminalReply::Supported(false)) == SetupStage::Ready(false),
        setup_next(SetupStage::Query, TerminalReply::Failed) == SetupStage::Ready(false),
        setup_next(SetupStage::Query, TerminalReply::Done) == SetupStage::Ready(false),
{
}

/// Where the setup has come to its result there is nothing left to do, and a result stays.
pub proof fn law_results_of_the_setup_stay(enhanced: bool, reply: TerminalReply)
    ensures
        setup_doing(SetupStage::Ready(enhanced)) is None,
        setup_doing(SetupStage::Failed) is None,
        setup_next(SetupStage::Ready(enhanced), reply) == SetupStage::Ready(enhanced),
        setup_next(SetupStage::Failed, reply) == SetupStage::Failed,
        restore_doing(RestoreStage::Restored) is None,
        restore_doing(RestoreStage::Failed) is None,
        restore_next(RestoreStage::Restored, reply) == RestoreStage::Restored,
        restore_next(RestoreStage::Failed, reply) == RestoreStage::Failed,
{
}

/// Restoring takes the enhancement back first, exactly if it was pushed and whether or not that
/// succeeds, then leaves the screen, then switches raw mode off.
pub proof fn law_order_of_the_restoring(popped: TerminalReply, reply: TerminalReply)
    requires
        reply != TerminalReply::Failed,
    ensures
        restore_doing(restore_first(true)) == Some(TerminalAction::PopEnhancement),
        restore_next(restore_first(true), popped) == restore_first(false),
        restore_doing(restore_first(false)) == Some(TerminalAction::LeaveScreen),
        restore_doing(restore_next(restore_first(false), reply)) == Some(
            TerminalAction::DisableRawMode,
        ),
        restore_next(restore_next(restore_first(false), reply), reply) == RestoreStage::Restored,
        restore_next(restore_first(false), TerminalReply::Failed) == RestoreStage::Failed,
        restore_next(restore_next(restore_first(false), reply), TerminalReply::Failed)
            == RestoreStage::Failed,
{
}

} // verus!
