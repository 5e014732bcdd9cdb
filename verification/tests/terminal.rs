use crossterm::event::KeyboardEnhancementFlags;
use tuisample_code::terminal::{
    restore_terminal, setup_terminal, RestoreStage, SetupStage, TerminalAction, TerminalCommand,
    TerminalReply, DISAMBIGUATE_ESCAPE_CODES,
};

fn set_up(supported: TerminalReply) -> (Vec<TerminalAction>, SetupStage) {
    let mut actions = Vec::new();
    let mut stage = SetupStage::first();
    while let Some(action) = stage.action() {
        actions.push(action);
        let reply = if action == TerminalAction::QueryEnhancement {
            supported
        } else {
            TerminalReply::Done
        };
        stage = setup_terminal(stage, reply);
    }
    (actions, stage)
}

fn restore(enhanced: bool, reply: TerminalReply) -> (Vec<TerminalAction>, RestoreStage) {
    let mut actions = Vec::new();
    let mut stage = RestoreStage::first(enhanced);
    while let Some(action) = stage.action() {
        actions.push(action);
        stage = restore_terminal(stage, reply);
    }
    (actions, stage)
}

#[test]
fn setup_pushes_the_enhancement_where_it_is_supported() {
    let base = vec![
        TerminalAction::EnableRawMode,
        TerminalAction::EnterScreen,
        TerminalAction::QueryEnhancement,
    ];
    let mut pushed = base.clone();
    pushed.push(TerminalAction::PushEnhancement);
    assert_eq!(set_up(TerminalReply::Supported(true)), (pushed, SetupStage::Ready(true)));
    assert_eq!(
        set_up(TerminalReply::Supported(false)),
        (base.clone(), SetupStage::Ready(false))
    );
    assert_eq!(set_up(TerminalReply::Failed), (base, SetupStage::Ready(false)));
}

#[test]
fn setup_stops_at_a_failure() {
    for stage in [SetupStage::RawMode, SetupStage::Screen, SetupStage::Push] {
        assert_eq!(setup_terminal(stage, TerminalReply::Failed), SetupStage::Failed);
    }
    assert_eq!(SetupStage::Failed.action(), None);
}

#[test]
fn restoring_undoes_what_was_set_up() {
    assert_eq!(
        restore(true, TerminalReply::Done),
        (
            vec![
                TerminalAction::PopEnhancement,
                TerminalAction::LeaveScreen,
                TerminalAction::DisableRawMode,
            ],
            RestoreStage::Restored
        )
    );
    assert_eq!(
        restore(false, TerminalReply::Done),
        (
            vec![TerminalAction::LeaveScreen, TerminalAction::DisableRawMode],
            RestoreStage::Restored
        )
    );
}

#[test]
fn restoring_survives_a_failing_pop_only() {
    assert_eq!(
        restore_terminal(RestoreStage::Pop, TerminalReply::Failed),
        RestoreStage::Screen
    );
    assert_eq!(
        restore(true, TerminalReply::Failed),
        (
            vec![TerminalAction::PopEnhancement, TerminalAction::LeaveScreen],
            RestoreStage::Failed
        )
    );
    assert_eq!(
        restore_terminal(RestoreStage::RawMode, TerminalReply::Failed),
        RestoreStage::Failed
    );
}

#[test]
fn actions_are_made_of_commands() {
    assert_eq!(
        TerminalAction::EnterScreen.commands(),
        vec![TerminalCommand::EnterAlternateScreen, TerminalCommand::EnableBracketedPaste]
    );
    assert_eq!(
        TerminalAction::LeaveScreen.commands(),
        vec![TerminalCommand::DisableBracketedPaste, TerminalCommand::LeaveAlternateScreen]
    );
    assert_eq!(
        TerminalAction::PushEnhancement.commands(),
        vec![TerminalCommand::PushKeyboardFlags(1)]
    );
    assert_eq!(
        TerminalAction::PopEnhancement.commands(),
        vec![TerminalCommand::PopKeyboardFlags]
    );
    for action in [
        TerminalAction::EnableRawMode,
        TerminalAction::QueryEnhancement,
        TerminalAction::DisableRawMode,
    ] {
        assert_eq!(action.commands(), vec![]);
    }
}

#[test]
fn the_enhancement_tells_ambiguous_escape_codes_apart() {
    assert_eq!(
        KeyboardEnhancementFlags::from_bits_retain(DISAMBIGUATE_ESCAPE_CODES),
        KeyboardEnhancementFlags::DISAMBIGUATE_ESCAPE_CODES
    );
}
