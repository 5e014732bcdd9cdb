//! The command line, and what is said about it.

use vstd::prelude::*;
use vstd::string::*;

verus! {

/// What the command line asks for. `Upgrade` says whether to reinstall what is up to date.
#[derive(Debug, PartialEq, Eq)]
pub enum Invocation {
    Version,
    Help,
    UnknownArgument(String),
    Upgrade(bool),
    ForceAlone,
    Launch,
}

/// The view of `Invocation`.
pub enum InvocationView {
    Version,
    Help,
    UnknownArgument(Seq<char>),
    Upgrade(bool),
    ForceAlone,
    Launch,
}

impl View for Invocation {
    type V = InvocationView;

    open spec fn view(&self) -> InvocationView {
        match *self {
            Invocation::Version => InvocationView::Version,
            Invocation::Help => InvocationView::Help,
            Invocation::UnknownArgument(arg) => InvocationView::UnknownArgument(arg@),
            Invocation::Upgrade(force) => InvocationView::Upgrade(force),
            Invocation::ForceAlone => InvocationView::ForceAlone,
            Invocation::Launch => InvocationView::Launch,
        }
    }
}

/// How the program ends: successfully, with an exit status, or by returning the error that it
/// ran into.
#[derive(Clone, Copy, Debug, PartialEq, Eq, Structural)]
pub enum Exit {
    Success,
    Status(u8),
    Error,
}

/// The last words of the program: a line for the standard error, then one for the standard
/// output, each without its final line break, and how it ends.
#[derive(Debug, PartialEq, Eq)]
pub struct Report {
    pub stderr: Option<String>,
    pub stdout: Option<String>,
    pub exit: Exit,
}

/// The view of `Report`.
pub struct ReportView {
    pub stderr: Option<Seq<char>>,
    pub stdout: Option<Seq<char>>,
    pub exit: Exit,
}

/// The view of a text that may be missing.
pub open spec fn text_view(text: Option<String>) -> Option<Seq<char>> {
    match text {
        Some(text) => Some(text@),
        None => None,
    }
}

impl View for Report {
    type V = ReportView;

    open spec fn view(&self) -> ReportView {
        ReportView {
            stderr: text_view(self.stderr),
            stdout: text_view(self.stdout),
            exit: self.exit,
        }
    }
}

/// The texts of some arguments.
pub open spec fn texts(args: Seq<String>) -> Seq<Seq<char>> {
    args.map_values(|arg: String| arg@)
}

pub open spec fn is_version(arg: Seq<char>) -> bool {
    arg == "-V"@ || arg == "--version"@
}

pub open spec fn is_help(arg: Seq<char>) -> bool {
    arg == "-h"@ || arg == "--help"@
}

pub open spec fn is_upgrade(arg: Seq<char>) -> bool {
    arg == "-u"@ || arg == "--upgrade"@
}

pub open spec fn is_force(arg: Seq<char>) -> bool {
    arg == "-f"@ || arg == "--force"@
}

/// Whether an argument settles what the program does, whatever follows it.
pub open spec fn is_decisive(arg: Seq<char>) -> bool {
    !is_upgrade(arg) && !is_force(arg)
}

/// Whether the argument at `i` is the first decisive one.
pub open spec fn settles_at(args: Seq<Seq<char>>, i: int) -> bool {
    &&& 0 <= i < args.len()
    &&& is_decisive(args[i])
    &&& forall|j: int| 0 <= j < i ==> !is_decisive(#[trigger] args[j])
}

pub open spec fn asks_upgrade(args: Seq<Seq<char>>) -> bool {
    exists|i: int| 0 <= i < args.len() && is_upgrade(#[trigger] args[i])
}

pub open spec fn asks_force(args: Seq<Seq<char>>) -> bool {
    exists|i: int| 0 <= i < args.len() && is_force(#[trigger] args[i])
}

/// What some arguments ask for. The first decisive one settles it; without one, the upgrade
/// and force flags count wherever they stand.
pub open spec fn invocation(args: Seq<Seq<char>>) -> InvocationView {
    if exists|i: int| settles_at(args, i) {
        let arg = args[choose|i: int| settles_at(args, i)];
        if is_version(arg) {
            InvocationView::Version
        } else if is_help(arg) {
            InvocationView::Help
        } else {
            InvocationView::UnknownArgument(arg)
        }
    } else if asks_upgrade(args) {
        InvocationView::Upgrade(asks_force(args))
    } else if asks_force(args) {
        InvocationView::ForceAlone
    } else {
        InvocationView::Launch
    }
}

/// The help text after the line with the version.
pub const HELP_BODY: &'static str = "
Terminal UI for an OpenAI-compatible LLM endpoint.

USAGE:
    tuisample-code [FLAGS]

FLAGS:
    -V, --version    Print version and exit
    -h, --help       Print this help and exit
    -u, --upgrade    Update to the latest release
    -f, --force      With --upgrade: reinstall even if already up to date

CONFIG (environment overrides ~/.tuisample-code/config.toml):
    TUISAMPLE_ENDPOINT    Base URL, e.g. https://llm.internal:8443
    TUISAMPLE_MODEL       Model name
    TUISAMPLE_API_KEY     Bearer token

TOOLS (read_file, write_file, run_command; writes and commands need your
       approval each time -- see the [tools] table in config.toml):
    TUISAMPLE_WORKSPACE       Directory these operate in (default: cwd)
    TUISAMPLE_TOOLS_ENABLED   Set to 0 to send no tool schema at all
    TUISAMPLE_TOOLS_APPROVAL  Set to 0 to stop asking before each write/command.
                              For scripted testing only -- it hands the model
                              unattended file and shell access.
                              See the [tools] table in config.toml for
                              auto_approve_read_only, command_timeout_secs,
                              max_output_bytes, max_steps.

UPGRADE:
    TUISAMPLE_UPGRADE_URL_BASE
                          Fetch updates from a fork or internal mirror
                          instead of github.com

COMMANDS (type in the input box, press Enter):
    /provider             Pick a provider + model + API key, saved to config.toml
    /model                Pick a model for the currently configured provider
    /new                  Forget the conversation and start fresh
    /usage                Show this machine's local token history
    /quota                Show today's limits and what's been spent
    /quota set <what> <n> Set your own limit: requests, tokens or usd
    /quota clear          Remove your own limits
    /quota override       Keep working past today's limit
    /quota reset          Cancel an override

FREE TIER (a fresh install with no API key enrols anonymously and gets a small
           daily budget on one model -- no sign-in. Only a hash of a hardware
           id is sent; prompts are never logged. Configuring your own key opts
           out entirely and sends traffic straight to your provider):
    TUISAMPLE_FREE_TIER       Set to 0 to never contact the gateway
    TUISAMPLE_GATEWAY         Point at a different gateway (e.g. staging)

DAILY LIMITS (optional, off by default -- every limit is 0 = no limit, so this
              only counts until you set one. See [quota] in config.toml):
    TUISAMPLE_QUOTA_ENABLED         Set to 0 to disable counting entirely
    TUISAMPLE_MAX_REQUESTS_PER_DAY  Requests before prompts are refused
    TUISAMPLE_MAX_TOKENS_PER_DAY    Prompt + completion tokens per UTC day
    TUISAMPLE_MAX_USD_PER_DAY       Spend per UTC day; needs [quota.pricing]
                                    entries for the models you use, or cost
                                    cannot be computed and reads as unpriced

KEYS:
    Enter                 Send prompt
    Alt/Shift-Enter       New line
    Esc                   Cancel request
    Ctrl-C                Exit";

/// The line that `--version` prints, which also opens the help.
pub open spec fn version_text(version: Seq<char>) -> Seq<char> {
    "tuisample-code "@ + version
}

/// The help.
pub open spec fn help(version: Seq<char>) -> Seq<char> {
    version_text(version) + HELP_BODY@
}

/// The last words for a command line that settles everything by itself; none if there is an
/// upgrade or a session to run.
pub open spec fn invocation_report(invocation: InvocationView, version: Seq<char>) -> Option<
    ReportView,
> {
    match invocation {
        InvocationView::Version => Some(
            ReportView { stderr: None, stdout: Some(version_text(version)), exit: Exit::Success },
        ),
        InvocationView::Help => Some(
            ReportView { stderr: None, stdout: Some(help(version)), exit: Exit::Success },
        ),
        InvocationView::UnknownArgument(arg) => Some(
            ReportView {
                stderr: Some("Unknown argument: "@ + arg + "\n"@),
                stdout: Some(help(version)),
                exit: Exit::Status(2),
            },
        ),
        InvocationView::ForceAlone => Some(
            ReportView {
                stderr: Some("--force only means something alongside --upgrade.\n"@),
                stdout: Some(help(version)),
                exit: Exit::Status(2),
            },
        ),
        InvocationView::Upgrade(_) => None,
        InvocationView::Launch => None,
    }
}

/// The last words after an upgrade, given its error if it failed.
pub open spec fn upgrade_report(error: Option<Seq<char>>) -> ReportView {
    match error {
        None => ReportView { stderr: None, stdout: None, exit: Exit::Success },
        Some(error) => ReportView {
            stderr: Some("❌ Upgrade failed: "@ + error),
            stdout: None,
            exit: Exit::Status(1),
        },
    }
}

/// The last words after a session whose terminal has been restored, given the error that
/// ended it if one did.
pub open spec fn session_report(error: Option<Seq<char>>) -> ReportView {
    match error {
        None => ReportView { stderr: None, stdout: Some("Goodbye!"@), exit: Exit::Success },
        Some(error) => ReportView {
            stderr: Some("Error: "@ + error),
            stdout: Some("Goodbye!"@),
            exit: Exit::Error,
        },
    }
}

/// Whether an argument is one of the two spellings of a flag.
fn spells(arg: &String, short: &str, long: &str) -> (same: bool)
    ensures
        same == (arg@ == short@ || arg@ == long@),
{
    *arg == short.to_string() || *arg == long.to_string()
}

/// Reads the arguments that follow the program's name.
pub fn parse_args(args: &Vec<String>) -> (asked: Invocation)
    ensures
        asked@ == invocation(texts(args@)),
{
    let ghost all = texts(args@);
    let mut upgrade = false;
    let mut force = false;
    let mut i: usize = 0;
    while i < args.len()
        invariant
            i <= args.len(),
            all == texts(args@),
            all.len() == args.len(),
            forall|j: int| 0 <= j < i ==> !is_decisive(#[trigger] all[j]),
            upgrade <==> exists|j: int| 0 <= j < i && is_upgrade(#[trigger] all[j]),
            force <==> exists|j: int| 0 <= j < i && is_force(#[trigger] all[j]),
        decreases args.len() - i,
    {
        let arg = &args[i];
        assert(all[i as int] == arg@);
        proof {
            lemma_flags_differ();
        }
        if spells(arg, "-V", "--version") {
            assert(settles_at(all, i as int));
            return Invocation::Version;
        } else if spells(arg, "-h", "--help") {
            assert(settles_at(all, i as int));
            return Invocation::Help;
        } else if spells(arg, "-u", "--upgrade") {
            upgrade = true;
        } else if spells(arg, "-f", "--force") {
            force = true;
        } else {
            assert(settles_at(all, i as int));
            return Invocation::UnknownArgument(arg.clone());
        }
        i = i + 1;
    }
    if upgrade {
        Invocation::Upgrade(force)
    } else if force {
        Invocation::ForceAlone
    } else {
        Invocation::Launch
    }
}

/// No spelling of one flag spells another.
proof fn lemma_flags_differ()
    ensures
        forall|arg: Seq<char>| is_version(arg) ==> is_decisive(arg) && !is_help(arg),
        forall|arg: Seq<char>| is_help(arg) ==> is_decisive(arg) && !is_version(arg),
        forall|arg: Seq<char>| is_upgrade(arg) ==> !is_force(arg),
{
    reveal_strlit("-V");
    reveal_strlit("--version");
    reveal_strlit("-h");
    reveal_strlit("--help");
    reveal_strlit("-u");
    reveal_strlit("--upgrade");
    reveal_strlit("-f");
    reveal_strlit("--force");
    assert("-V"@[1] == 'V' && "-h"@[1] == 'h' && "-u"@[1] == 'u' && "-f"@[1] == 'f');
    assert("--version"@[2] == 'v' && "--help"@[2] == 'h' && "--upgrade"@[2] == 'u');
    assert("--force"@[2] == 'f');
    assert("-V"@.len() == 2 && "-h"@.len() == 2 && "-u"@.len() == 2 && "-f"@.len() == 2);
    assert("--version"@.len() == 9 && "--help"@.len() == 6 && "--upgrade"@.len() == 9);
    assert("--force"@.len() == 7);
}

/// Whether what was asked for is settled whatever arguments follow.
pub open spec fn is_settled(asked: InvocationView) -> bool {
    asked is Version || asked is Help || asked is UnknownArgument
}

/// Whether what the arguments so far ask for is settled, so that the rest need not be read.
pub fn settles(asked: &Invocation) -> (settled: bool)
    ensures
        settled == is_settled(asked@),
{
    match asked {
        Invocation::Version => true,
        Invocation::Help => true,
        Invocation::UnknownArgument(_) => true,
        _ => false,
    }
}

/// The line that `--version` prints.
pub fn version_line(version: &str) -> (line: String)
    ensures
        line@ == version_text(version@),
{
    let mut line = "tuisample-code ".to_string();
    line.append(version);
    line
}

/// The help that `--help` prints, and that follows a command line in error.
pub fn help_text(version: &str) -> (text: String)
    ensures
        text@ == help(version@),
{
    let mut text = version_line(version);
    text.append(HELP_BODY);
    text
}

/// The last words for a command line that settles everything by itself.
pub fn report_invocation(asked: &Invocation, version: &str) -> (report: Option<Report>)
    ensures
        match report {
            Some(report) => Some(report@),
            None => None,
        } == invocation_report(asked@, version@),
{
    match asked {
        Invocation::Version => Some(
            Report { stderr: None, stdout: Some(version_line(version)), exit: Exit::Success },
        ),
        Invocation::Help => Some(
            Report { stderr: None, stdout: Some(help_text(version)), exit: Exit::Success },
        ),
        Invocation::UnknownArgument(arg) => {
            let mut complaint = "Unknown argument: ".to_string();
            complaint.append(arg.as_str());
            complaint.append("\n");
            Some(
                Report {
                    stderr: Some(complaint),
                    stdout: Some(help_text(version)),
                    exit: Exit::Status(2),
                },
            )
        },
        Invocation::ForceAlone => Some(
            Report {
                stderr: Some("--force only means something alongside --upgrade.\n".to_string()),
                stdout: Some(help_text(version)),
                exit: Exit::Status(2),
            },
        ),
        Invocation::Upgrade(_) => None,
        Invocation::Launch => None,
    }
}

/// The last words after an upgrade.
pub fn report_upgrade(result: &Result<(), String>) -> (report: Report)
    ensures
        report@ == upgrade_report(
            match *result {
                Ok(_) => None,
                Err(error) => Some(error@),
            },
        ),
{
    match result {
        Ok(_) => Report { stderr: None, stdout: None, exit: Exit::Success },
        Err(error) => {
            let mut complaint = "❌ Upgrade failed: ".to_string();
            complaint.append(error.as_str());
            Report { stderr: Some(complaint), stdout: None, exit: Exit::Status(1) }
        },
    }
}

/// The last words after a session, once the terminal has been restored.
pub fn report_session(error: &Option<String>) -> (report: Report)
    ensures
        report@ == session_report(text_view(*error)),
{
    match error {
        None => Report {
            stderr: None,
            stdout: Some("Goodbye!".to_string()),
            exit: Exit::Success,
        },
        Some(error) => {
            let mut complaint = "Error: ".to_string();
            complaint.append(error.as_str());
            Report {
                stderr: Some(complaint),
                stdout: Some("Goodbye!".to_string()),
                exit: Exit::Error,
            }
        },
    }
}

/// What is asked for is settled exactly if there is a decisive argument, and what stands after
/// that does not matter.
pub proof fn law_decisive_argument_settles_it(args: Seq<Seq<char>>, rest: Seq<Seq<char>>)
    ensures
        is_settled(invocation(args)) <==> exists|i: int|
            0 <= i < args.len() && is_decisive(#[trigger] args[i]),
        is_settled(invocation(args)) ==> invocation(args + rest) == invocation(args),
{
    if exists|i: int| 0 <= i < args.len() && is_decisive(#[trigger] args[i]) {
        lemma_rest_does_not_matter(args, rest);
    }
}

/// What stands after a decisive argument does not matter.
proof fn lemma_rest_does_not_matter(args: Seq<Seq<char>>, rest: Seq<Seq<char>>)
    requires
        exists|i: int| 0 <= i < args.len() && is_decisive(#[trigger] args[i]),
    ensures
        is_settled(invocation(args)),
        invocation(args + rest) == invocation(args),
{
    let at = lemma_decisive_place(args);
    assert forall|i: int| 0 <= i < at implies !is_decisive(#[trigger] (args + rest)[i]) by {
        assert((args + rest)[i] == args[i]);
    }
    assert(settles_at(args + rest, at));
}

/// The place of the first decisive argument, where there is one.
proof fn lemma_decisive_place(args: Seq<Seq<char>>) -> (at: int)
    requires
        exists|i: int| 0 <= i < args.len() && is_decisive(#[trigger] args[i]),
    ensures
        settles_at(args, at),
    decreases args.len(),
{
    let earlier = args.drop_last();
    if exists|i: int| 0 <= i < earlier.len() && is_decisive(#[trigger] earlier[i]) {
        let at = lemma_decisive_place(earlier);
        assert forall|i: int| 0 <= i < at implies !is_decisive(#[trigger] args[i]) by {
            assert(earlier[i] == args[i]);
        }
        at
    } else {
        let at = args.len() - 1;
        assert forall|i: int| 0 <= i < at implies !is_decisive(#[trigger] args[i]) by {
            assert(earlier[i] == args[i]);
        }
        at
    }
}

/// A session is launched exactly when there are no arguments.
pub proof fn law_launch_takes_no_arguments(args: Seq<Seq<char>>)
    ensures
        invocation(args) is Launch <==> args.len() == 0,
{
    if args.len() > 0 {
        assert(is_decisive(args[0]) ==> settles_at(args, 0));
    }
}

/// Without a decisive argument, neither the order of the flags nor how often they are given
/// matters.
pub proof fn law_flags_count_wherever_they_stand(args: Seq<Seq<char>>, others: Seq<Seq<char>>)
    requires
        forall|i: int| 0 <= i < args.len() ==> !is_decisive(#[trigger] args[i]),
        forall|arg: Seq<char>|
            #![trigger args.contains(arg)]
            #![trigger others.contains(arg)]
            args.contains(arg) <==> others.contains(arg),
    ensures
        invocation(args) == invocation(others),
{
    assert forall|i: int| 0 <= i < others.len() implies !is_decisive(#[trigger] others[i]) by {
        assert(args.contains(others[i]));
        let j = choose|j: int| 0 <= j < args.len() && args[j] == others[i];
        assert(!is_decisive(args[j]));
    }
    lemma_same_flags(args, others);
    lemma_same_flags(others, args);
}

/// Flags that are given somewhere among some arguments are given among the others.
proof fn lemma_same_flags(args: Seq<Seq<char>>, others: Seq<Seq<char>>)
    requires
        forall|arg: Seq<char>| #[trigger] args.contains(arg) ==> others.contains(arg),
    ensures
        asks_upgrade(args) ==> asks_upgrade(others),
        asks_force(args) ==> asks_force(others),
{
    assert forall|i: int| 0 <= i < args.len() implies others.contains(#[trigger] args[i]) by {
        assert(args.contains(args[i]));
    }
}

/// The spellings of the upgrade and the force flag alone leave what is asked for open.
proof fn lemma_open_arguments(arg: Seq<char>)
    ensures
        is_decisive(arg) <==> arg != "-u"@ && arg != "--upgrade"@ && arg != "-f"@ && arg
            != "--force"@,
{
}

/// The first argument that is neither an upgrade nor a force flag decides: `-V` and `--version`
/// ask for the version, `-h` and `--help` for the help, and any other is unknown and named as
/// it was given. Neither the flags before it nor what follows matters.
pub proof fn law_first_other_argument_decides(
    flags: Seq<Seq<char>>,
    arg: Seq<char>,
    rest: Seq<Seq<char>>,
)
    requires
        forall|i: int|
            0 <= i < flags.len() ==> (#[trigger] flags[i] == "-u"@ || flags[i] == "--upgrade"@
                || flags[i] == "-f"@ || flags[i] == "--force"@),
        arg != "-u"@,
        arg != "--upgrade"@,
        arg != "-f"@,
        arg != "--force"@,
    ensures
        invocation(flags.push(arg) + rest) == if arg == "-V"@ || arg == "--version"@ {
            InvocationView::Version
        } else if arg == "-h"@ || arg == "--help"@ {
            InvocationView::Help
        } else {
            InvocationView::UnknownArgument(arg)
        },
{
    let args = flags.push(arg) + rest;
    let at = flags.len() as int;
    assert(args[at] == arg);
    assert forall|i: int| 0 <= i < at implies !is_decisive(#[trigger] args[i]) by {
        assert(args[i] == flags[i]);
    }
    assert(settles_at(args, at));
    let chosen = choose|i: int| settles_at(args, i);
    assert(settles_at(args, chosen));
    assert(chosen == at) by {
        if chosen < at {
            assert(!is_decisive(args[chosen]));
        } else if at < chosen {
            assert(!is_decisive(args[at]));
        }
    }
}

/// With no argument but upgrade and force flags, an upgrade is asked for exactly if one of its
/// spellings is among them, forced exactly if one of those of force is; force alone is an
/// error, and no argument at all launches a session.
pub proof fn law_flags_alone(flags: Seq<Seq<char>>)
    requires
        forall|i: int|
            0 <= i < flags.len() ==> (#[trigger] flags[i] == "-u"@ || flags[i] == "--upgrade"@
                || flags[i] == "-f"@ || flags[i] == "--force"@),
    ensures
        ({
            let upgrade = flags.contains("-u"@) || flags.contains("--upgrade"@);
            let force = flags.contains("-f"@) || flags.contains("--force"@);
            &&& upgrade ==> invocation(flags) == InvocationView::Upgrade(force)
            &&& !upgrade && force ==> invocation(flags) == InvocationView::ForceAlone
            &&& !upgrade && !force ==> invocation(flags) == InvocationView::Launch
        }),
{
    assert forall|i: int| !settles_at(flags, i) by {
        if 0 <= i < flags.len() {
            lemma_open_arguments(flags[i]);
        }
    }
    lemma_flags_are_contained(flags);
}

/// A flag is asked for exactly if one of its spellings is among the arguments.
proof fn lemma_flags_are_contained(args: Seq<Seq<char>>)
    ensures
        asks_upgrade(args) <==> args.contains("-u"@) || args.contains("--upgrade"@),
        asks_force(args) <==> args.contains("-f"@) || args.contains("--force"@),
{
    if asks_upgrade(args) {
        let i = choose|i: int| 0 <= i < args.len() && is_upgrade(#[trigger] args[i]);
        assert(args.contains(args[i]));
    }
    if asks_force(args) {
        let i = choose|i: int| 0 <= i < args.len() && is_force(#[trigger] args[i]);
        assert(args.contains(args[i]));
    }
    assert forall|arg: Seq<char>| #[trigger] args.contains(arg) implies (is_upgrade(arg)
        ==> asks_upgrade(args)) && (is_force(arg) ==> asks_force(args)) by {
        let i = choose|i: int| 0 <= i < args.len() && args[i] == arg;
        assert(args[i] == arg);
    }
}

/// The version and the help go to the standard output and end well. An error of the command
/// line is named on the standard error, is followed by the help, and ends with the status two.
/// An upgrade and a session have no last words yet.
pub proof fn law_last_words_of_a_command_line(arg: Seq<char>, force: bool, version: Seq<char>)
    ensures
        invocation_report(InvocationView::Version, version) == Some(
            ReportView {
                stderr: None,
                stdout: Some("tuisample-code "@ + version),
                exit: Exit::Success,
            },
        ),
        invocation_report(InvocationView::Help, version) == Some(
            ReportView {
                stderr: None,
                stdout: Some("tuisample-code "@ + version + HELP_BODY@),
                exit: Exit::Success,
            },
        ),
        invocation_report(InvocationView::UnknownArgument(arg), version) == Some(
            ReportView {
                stderr: Some("Unknown argument: "@ + arg + "\n"@),
                stdout: Some("tuisample-code "@ + version + HELP_BODY@),
                exit: Exit::Status(2),
            },
        ),
        invocation_report(InvocationView::ForceAlone, version) == Some(
            ReportView {
                stderr: Some("--force only means something alongside --upgrade.\n"@),
                stdout: Some("tuisample-code "@ + version + HELP_BODY@),
                exit: Exit::Status(2),
            },
        ),
        invocation_report(InvocationView::Upgrade(force), version) is None,
        invocation_report(InvocationView::Launch, version) is None,
{
}

/// An upgrade that succeeds has nothing more to say, and one that fails says why on the
/// standard error and ends with the status one.
pub proof fn law_last_words_of_an_upgrade(error: Seq<char>)
    ensures
        upgrade_report(None) == (ReportView { stderr: None, stdout: None, exit: Exit::Success }),
        upgrade_report(Some(error)) == (ReportView {
            stderr: Some("❌ Upgrade failed: "@ + error),
            stdout: None,
            exit: Exit::Status(1),
        }),
{
}

/// Every session says goodbye. One that an error ended names it on the standard error, and ends
/// by it.
pub proof fn law_last_words_of_a_session(error: Seq<char>)
    ensures
        session_report(None) == (ReportView {
            stderr: None,
            stdout: Some("Goodbye!"@),
            exit: Exit::Success,
        }),
        session_report(Some(error)) == (ReportView {
            stderr: Some("Error: "@ + error),
            stdout: Some("Goodbye!"@),
            exit: Exit::Error,
        }),
{
}

/// What is asked for is settled, before all arguments are read, exactly by the version, the
/// help and an unknown argument.
pub proof fn law_what_settles_the_command_line(arg: Seq<char>, force: bool)
    ensures
        is_settled(InvocationView::Version),
        is_settled(InvocationView::Help),
        is_settled(InvocationView::UnknownArgument(arg)),
        !is_settled(InvocationView::Upgrade(force)),
        !is_settled(InvocationView::ForceAlone),
        !is_settled(InvocationView::Launch),
{
}

} // verus!
