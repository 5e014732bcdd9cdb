use tuisample_code::cli::{
    help_text, parse_args, report_invocation, report_session, report_upgrade, settles, version_line,
    Exit, Invocation, Report, HELP_BODY,
};

fn asked(args: &[&str]) -> Invocation {
    parse_args(&args.iter().map(|arg| arg.to_string()).collect::<Vec<String>>())
}

#[test]
fn each_flag_has_two_spellings() {
    assert_eq!(asked(&["-V"]), Invocation::Version);
    assert_eq!(asked(&["--version"]), Invocation::Version);
    assert_eq!(asked(&["-h"]), Invocation::Help);
    assert_eq!(asked(&["--help"]), Invocation::Help);
    assert_eq!(asked(&["-u"]), Invocation::Upgrade(false));
    assert_eq!(asked(&["--upgrade"]), Invocation::Upgrade(false));
    assert_eq!(asked(&["-f"]), Invocation::ForceAlone);
    assert_eq!(asked(&["--force"]), Invocation::ForceAlone);
}

#[test]
fn no_arguments_launch_a_session() {
    assert_eq!(asked(&[]), Invocation::Launch);
}

#[test]
fn force_counts_before_and_after_upgrade() {
    assert_eq!(asked(&["-f", "--upgrade"]), Invocation::Upgrade(true));
    assert_eq!(asked(&["--upgrade", "--force"]), Invocation::Upgrade(true));
    assert_eq!(asked(&["-u", "-f", "-u", "-f"]), Invocation::Upgrade(true));
}

#[test]
fn the_first_decisive_argument_settles_it() {
    assert_eq!(asked(&["-u", "-h", "-V"]), Invocation::Help);
    assert_eq!(asked(&["-V", "nonsense"]), Invocation::Version);
    assert_eq!(
        asked(&["-u", "nonsense", "-V"]),
        Invocation::UnknownArgument("nonsense".to_string())
    );
    assert_eq!(asked(&["-v"]), Invocation::UnknownArgument("-v".to_string()));
    assert_eq!(asked(&[""]), Invocation::UnknownArgument(String::new()));
}

#[test]
fn version_and_help_open_alike() {
    assert_eq!(version_line("1.2.3"), "tuisample-code 1.2.3");
    let help = help_text("1.2.3");
    assert!(help.starts_with("tuisample-code 1.2.3\nTerminal UI for an OpenAI-compatible"));
    assert!(help.contains("\n    -f, --force      With --upgrade: reinstall even if already"));
    assert!(help.ends_with("\n    Ctrl-C                Exit"));
    assert_eq!(help, format!("tuisample-code 1.2.3{HELP_BODY}"));
    assert_eq!(help.lines().count(), 65);
}

#[test]
fn command_lines_that_end_at_once_are_reported() {
    assert_eq!(
        report_invocation(&Invocation::Version, "0.1.0"),
        Some(Report {
            stderr: None,
            stdout: Some("tuisample-code 0.1.0".to_string()),
            exit: Exit::Success,
        })
    );
    assert_eq!(
        report_invocation(&Invocation::Help, "0.1.0"),
        Some(Report { stderr: None, stdout: Some(help_text("0.1.0")), exit: Exit::Success })
    );
    assert_eq!(
        report_invocation(&Invocation::UnknownArgument("--wat".to_string()), "0.1.0"),
        Some(Report {
            stderr: Some("Unknown argument: --wat\n".to_string()),
            stdout: Some(help_text("0.1.0")),
            exit: Exit::Status(2),
        })
    );
    assert_eq!(
        report_invocation(&Invocation::ForceAlone, "0.1.0"),
        Some(Report {
            stderr: Some("--force only means something alongside --upgrade.\n".to_string()),
            stdout: Some(help_text("0.1.0")),
            exit: Exit::Status(2),
        })
    );
    assert_eq!(report_invocation(&Invocation::Upgrade(true), "0.1.0"), None);
    assert_eq!(report_invocation(&Invocation::Launch, "0.1.0"), None);
}

#[test]
fn upgrades_are_reported() {
    assert_eq!(
        report_upgrade(&Ok(())),
        Report { stderr: None, stdout: None, exit: Exit::Success }
    );
    assert_eq!(
        report_upgrade(&Err("no connection".to_string())),
        Report {
            stderr: Some("❌ Upgrade failed: no connection".to_string()),
            stdout: None,
            exit: Exit::Status(1),
        }
    );
}

#[test]
fn sessions_are_reported() {
    assert_eq!(
        report_session(&None),
        Report { stderr: None, stdout: Some("Goodbye!".to_string()), exit: Exit::Success }
    );
    assert_eq!(
        report_session(&Some("broken pipe".to_string())),
        Report {
            stderr: Some("Error: broken pipe".to_string()),
            stdout: Some("Goodbye!".to_string()),
            exit: Exit::Error,
        }
    );
}

#[test]
fn a_decisive_argument_settles_what_is_asked() {
    for args in [vec!["-V"], vec!["-u", "--help"], vec!["-f", "-x"], vec!["-u", "-f", "-V"]] {
        assert!(settles(&asked(&args)));
        let mut longer = args.clone();
        longer.push("--upgrade");
        longer.push("whatever");
        assert_eq!(asked(&longer), asked(&args));
    }
    for args in [vec![], vec!["-u"], vec!["-f"], vec!["-u", "-f"]] {
        assert!(!settles(&asked(&args)));
    }
}
