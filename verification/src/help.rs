//! What the help tells.

use crate::cli::{help, HELP_BODY};
use vstd::prelude::*;

verus! {

/// Whether a text holds another at a place.
pub open spec fn holds_at(text: Seq<char>, part: Seq<char>, at: int) -> bool {
    0 <= at <= text.len() - part.len() && text.subrange(at, at + part.len()) == part
}

/// Whether a text holds another somewhere.
pub open spec fn holds_text(text: Seq<char>, part: Seq<char>) -> bool {
    exists|at: int| holds_at(text, part, at)
}

/// The help tells of every flag in both its spellings, of every environment variable, of every
/// command and of the keys, and what each is for.
#[verifier::spinoff_prover]
#[verifier::rlimit(100)]
pub proof fn law_help_tells_of_everything()
    ensures
        holds_text(HELP_BODY@, "tuisample-code [FLAGS]"@),
        holds_text(HELP_BODY@, "-V, --version    Print version and exit"@),
        holds_text(HELP_BODY@, "-h, --help       Print this help and exit"@),
        holds_text(HELP_BODY@, "-u, --upgrade    Update to the latest release"@),
        holds_text(HELP_BODY@, "-f, --force      With --upgrade: reinstall even if already up to date"@),
        holds_text(HELP_BODY@, "TUISAMPLE_ENDPOINT    Base URL, e.g. https://llm.internal:8443"@),
        holds_text(HELP_BODY@, "TUISAMPLE_MODEL       Model name"@),
        holds_text(HELP_BODY@, "TUISAMPLE_API_KEY     Bearer token"@),
        holds_text(HELP_BODY@, "TUISAMPLE_WORKSPACE       Directory these operate in (default: cwd)"@),
        holds_text(HELP_BODY@, "TUISAMPLE_TOOLS_ENABLED   Set to 0 to send no tool schema at all"@),
        holds_text(HELP_BODY@, "TUISAMPLE_TOOLS_APPROVAL  Set to 0 to stop asking before each write/command."@),
        holds_text(HELP_BODY@, "TUISAMPLE_UPGRADE_URL_BASE"@),
        holds_text(HELP_BODY@, "/provider             Pick a provider + model + API key, saved to config.toml"@),
        holds_text(HELP_BODY@, "/model                Pick a model for the currently configured provider"@),
        holds_text(HELP_BODY@, "/new                  Forget the conversation and start fresh"@),
        holds_text(HELP_BODY@, "/usage                Show this machine's local token history"@),
        holds_text(HELP_BODY@, "/quota                Show today's limits and what's been spent"@),
        holds_text(HELP_BODY@, "/quota set <what> <n> Set your own limit: requests, tokens or usd"@),
        holds_text(HELP_BODY@, "/quota clear          Remove your own limits"@),
        holds_text(HELP_BODY@, "/quota override       Keep working past today's limit"@),
        holds_text(HELP_BODY@, "/quota reset          Cancel an override"@),
        holds_text(HELP_BODY@, "TUISAMPLE_FREE_TIER       Set to 0 to never contact the gateway"@),
        holds_text(HELP_BODY@, "TUISAMPLE_GATEWAY         Point at a different gateway (e.g. staging)"@),
        holds_text(HELP_BODY@, "TUISAMPLE_QUOTA_ENABLED         Set to 0 to disable counting entirely"@),
        holds_text(HELP_BODY@, "TUISAMPLE_MAX_REQUESTS_PER_DAY  Requests before prompts are refused"@),
        holds_text(HELP_BODY@, "TUISAMPLE_MAX_TOKENS_PER_DAY    Prompt + completion tokens per UTC day"@),
        holds_text(HELP_BODY@, "TUISAMPLE_MAX_USD_PER_DAY       Spend per UTC day; needs [quota.pricing]"@),
        holds_text(HELP_BODY@, "Enter                 Send prompt"@),
        holds_text(HELP_BODY@, "Alt/Shift-Enter       New line"@),
        holds_text(HELP_BODY@, "Esc                   Cancel request"@),
        holds_text(HELP_BODY@, "Ctrl-C                Exit"@),
{
    let text = HELP_BODY@;
    reveal_strlit("
Terminal UI for an OpenAI-compatible LLM endpoint.

USAGE:
    tuisample-code [FLAGS]

FLAGS:
    -V, --version    Print version and exit
    -h, --help       Print this help and exit
    -u, --upgrade    Update to the latest release
    -f, --force      With --upgrade: reinstall even if already up to date

CONFIG (environment overrides ~/.tuisample-code/config.toml):
    TUISAMPLE_ENDPOINT    Base URL, e.g. https://llm.internal:8443
    TUISAMPLE_MODEL       Model name
    TUISAMPLE_API_KEY     Bearer token

TOOLS (read_file, write_file, run_command; writes and commands need your
       approval each time -- see the [tools] table in config.toml):
    TUISAMPLE_WORKSPACE       Directory these operate in (default: cwd)
    TUISAMPLE_TOOLS_ENABLED   Set to 0 to send no tool schema at all
    TUISAMPLE_TOOLS_APPROVAL  Set to 0 to stop asking before each write/command.
                              For scripted testing only -- it hands the model
                              unattended file and shell access.
                              See the [tools] table in config.toml for
                              auto_approve_read_only, command_timeout_secs,
                              max_output_bytes, max_steps.

UPGRADE:
    TUISAMPLE_UPGRADE_URL_BASE
                          Fetch updates from a fork or internal mirror
                          instead of github.com

COMMANDS (type in the input box, press Enter):
    /provider             Pick a provider + model + API key, saved to config.toml
    /model                Pick a model for the currently configured provider
    /new                  Forget the conversation and start fresh
    /usage                Show this machine's local token history
    /quota                Show today's limits and what's been spent
    /quota set <what> <n> Set your own limit: requests, tokens or usd
    /quota clear          Remove your own limits
    /quota override       Keep working past today's limit
    /quota reset          Cancel an override

FREE TIER (a fresh install with no API key enrols anonymously and gets a small
           daily budget on one model -- no sign-in. Only a hash of a hardware
           id is sent; prompts are never logged. Configuring your own key opts
           out entirely and sends traffic straight to your provider):
    TUISAMPLE_FREE_TIER       Set to 0 to never contact the gateway
    TUISAMPLE_GATEWAY         Point at a different gateway (e.g. staging)

DAILY LIMITS (optional, off by default -- every limit is 0 = no limit, so this
              only counts until you set one. See [quota] in config.toml):
    TUISAMPLE_QUOTA_ENABLED         Set to 0 to disable counting entirely
    TUISAMPLE_MAX_REQUESTS_PER_DAY  Requests before prompts are refused
    TUISAMPLE_MAX_TOKENS_PER_DAY    Prompt + completion tokens per UTC day
    TUISAMPLE_MAX_USD_PER_DAY       Spend per UTC day; needs [quota.pricing]
                                    entries for the models you use, or cost
                                    cannot be computed and reads as unpriced

KEYS:
    Enter                 Send prompt
    Alt/Shift-Enter       New line
    Esc                   Cancel request
    Ctrl-C                Exit");
    reveal_strlit("tuisample-code [FLAGS]");
    assert(text.subrange(64, 86) =~= "tuisample-code [FLAGS]"@);
    assert(holds_at(text, "tuisample-code [FLAGS]"@, 64));
    reveal_strlit("-V, --version    Print version and exit");
    assert(text.subrange(99, 138) =~= "-V, --version    Print version and exit"@);
    assert(holds_at(text, "-V, --version    Print version and exit"@, 99));
    reveal_strlit("-h, --help       Print this help and exit");
    assert(text.subrange(143, 184) =~= "-h, --help       Print this help and exit"@);
    assert(holds_at(text, "-h, --help       Print this help and exit"@, 143));
    reveal_strlit("-u, --upgrade    Update to the latest release");
    assert(text.subrange(189, 234) =~= "-u, --upgrade    Update to the latest release"@);
    assert(holds_at(text, "-u, --upgrade    Update to the latest release"@, 189));
    reveal_strlit("-f, --force      With --upgrade: reinstall even if already up to date");
    assert(text.subrange(239, 308) =~= "-f, --force      With --upgrade: reinstall even if already up to date"@);
    assert(holds_at(text, "-f, --force      With --upgrade: reinstall even if already up to date"@, 239));
    reveal_strlit("TUISAMPLE_ENDPOINT    Base URL, e.g. https://llm.internal:8443");
    assert(text.subrange(376, 438) =~= "TUISAMPLE_ENDPOINT    Base URL, e.g. https://llm.internal:8443"@);
    assert(holds_at(text, "TUISAMPLE_ENDPOINT    Base URL, e.g. https://llm.internal:8443"@, 376));
    reveal_strlit("TUISAMPLE_MODEL       Model name");
    assert(text.subrange(443, 475) =~= "TUISAMPLE_MODEL       Model name"@);
    assert(holds_at(text, "TUISAMPLE_MODEL       Model name"@, 443));
    reveal_strlit("TUISAMPLE_API_KEY     Bearer token");
    assert(text.subrange(480, 514) =~= "TUISAMPLE_API_KEY     Bearer token"@);
    assert(holds_at(text, "TUISAMPLE_API_KEY     Bearer token"@, 480));
    reveal_strlit("TUISAMPLE_WORKSPACE       Directory these operate in (default: cwd)");
    assert(text.subrange(661, 728) =~= "TUISAMPLE_WORKSPACE       Directory these operate in (default: cwd)"@);
    assert(holds_at(text, "TUISAMPLE_WORKSPACE       Directory these operate in (default: cwd)"@, 661));
    reveal_strlit("TUISAMPLE_TOOLS_ENABLED   Set to 0 to send no tool schema at all");
    assert(text.subrange(733, 797) =~= "TUISAMPLE_TOOLS_ENABLED   Set to 0 to send no tool schema at all"@);
    assert(holds_at(text, "TUISAMPLE_TOOLS_ENABLED   Set to 0 to send no tool schema at all"@, 733));
    reveal_strlit("TUISAMPLE_TOOLS_APPROVAL  Set to 0 to stop asking before each write/command.");
    assert(text.subrange(802, 878) =~= "TUISAMPLE_TOOLS_APPROVAL  Set to 0 to stop asking before each write/command."@);
    assert(holds_at(text, "TUISAMPLE_TOOLS_APPROVAL  Set to 0 to stop asking before each write/command."@, 802));
    reveal_strlit("TUISAMPLE_UPGRADE_URL_BASE");
    assert(text.subrange(1241, 1267) =~= "TUISAMPLE_UPGRADE_URL_BASE"@);
    assert(holds_at(text, "TUISAMPLE_UPGRADE_URL_BASE"@, 1241));
    reveal_strlit("/provider             Pick a provider + model + API key, saved to config.toml");
    assert(text.subrange(1439, 1516) =~= "/provider             Pick a provider + model + API key, saved to config.toml"@);
    assert(holds_at(text, "/provider             Pick a provider + model + API key, saved to config.toml"@, 1439));
    reveal_strlit("/model                Pick a model for the currently configured provider");
    assert(text.subrange(1521, 1593) =~= "/model                Pick a model for the currently configured provider"@);
    assert(holds_at(text, "/model                Pick a model for the currently configured provider"@, 1521));
    reveal_strlit("/new                  Forget the conversation and start fresh");
    assert(text.subrange(1598, 1659) =~= "/new                  Forget the conversation and start fresh"@);
    assert(holds_at(text, "/new                  Forget the conversation and start fresh"@, 1598));
    reveal_strlit("/usage                Show this machine's local token history");
    assert(text.subrange(1664, 1725) =~= "/usage                Show this machine's local token history"@);
    assert(holds_at(text, "/usage                Show this machine's local token history"@, 1664));
    reveal_strlit("/quota                Show today's limits and what's been spent");
    assert(text.subrange(1730, 1793) =~= "/quota                Show today's limits and what's been spent"@);
    assert(holds_at(text, "/quota                Show today's limits and what's been spent"@, 1730));
    reveal_strlit("/quota set <what> <n> Set your own limit: requests, tokens or usd");
    assert(text.subrange(1798, 1863) =~= "/quota set <what> <n> Set your own limit: requests, tokens or usd"@);
    assert(holds_at(text, "/quota set <what> <n> Set your own limit: requests, tokens or usd"@, 1798));
    reveal_strlit("/quota clear          Remove your own limits");
    assert(text.subrange(1868, 1912) =~= "/quota clear          Remove your own limits"@);
    assert(holds_at(text, "/quota clear          Remove your own limits"@, 1868));
    reveal_strlit("/quota override       Keep working past today's limit");
    assert(text.subrange(1917, 1970) =~= "/quota override       Keep working past today's limit"@);
    assert(holds_at(text, "/quota override       Keep working past today's limit"@, 1917));
    reveal_strlit("/quota reset          Cancel an override");
    assert(text.subrange(1975, 2015) =~= "/quota reset          Cancel an override"@);
    assert(holds_at(text, "/quota reset          Cancel an override"@, 1975));
    reveal_strlit("TUISAMPLE_FREE_TIER       Set to 0 to never contact the gateway");
    assert(text.subrange(2327, 2390) =~= "TUISAMPLE_FREE_TIER       Set to 0 to never contact the gateway"@);
    assert(holds_at(text, "TUISAMPLE_FREE_TIER       Set to 0 to never contact the gateway"@, 2327));
    reveal_strlit("TUISAMPLE_GATEWAY         Point at a different gateway (e.g. staging)");
    assert(text.subrange(2395, 2464) =~= "TUISAMPLE_GATEWAY         Point at a different gateway (e.g. staging)"@);
    assert(holds_at(text, "TUISAMPLE_GATEWAY         Point at a different gateway (e.g. staging)"@, 2395));
    reveal_strlit("TUISAMPLE_QUOTA_ENABLED         Set to 0 to disable counting entirely");
    assert(text.subrange(2623, 2692) =~= "TUISAMPLE_QUOTA_ENABLED         Set to 0 to disable counting entirely"@);
    assert(holds_at(text, "TUISAMPLE_QUOTA_ENABLED         Set to 0 to disable counting entirely"@, 2623));
    reveal_strlit("TUISAMPLE_MAX_REQUESTS_PER_DAY  Requests before prompts are refused");
    assert(text.subrange(2697, 2764) =~= "TUISAMPLE_MAX_REQUESTS_PER_DAY  Requests before prompts are refused"@);
    assert(holds_at(text, "TUISAMPLE_MAX_REQUESTS_PER_DAY  Requests before prompts are refused"@, 2697));
    reveal_strlit("TUISAMPLE_MAX_TOKENS_PER_DAY    Prompt + completion tokens per UTC day");
    assert(text.subrange(2769, 2839) =~= "TUISAMPLE_MAX_TOKENS_PER_DAY    Prompt + completion tokens per UTC day"@);
    assert(holds_at(text, "TUISAMPLE_MAX_TOKENS_PER_DAY    Prompt + completion tokens per UTC day"@, 2769));
    reveal_strlit("TUISAMPLE_MAX_USD_PER_DAY       Spend per UTC day; needs [quota.pricing]");
    assert(text.subrange(2844, 2916) =~= "TUISAMPLE_MAX_USD_PER_DAY       Spend per UTC day; needs [quota.pricing]"@);
    assert(holds_at(text, "TUISAMPLE_MAX_USD_PER_DAY       Spend per UTC day; needs [quota.pricing]"@, 2844));
    reveal_strlit("Enter                 Send prompt");
    assert(text.subrange(3081, 3114) =~= "Enter                 Send prompt"@);
    assert(holds_at(text, "Enter                 Send prompt"@, 3081));
    reveal_strlit("Alt/Shift-Enter       New line");
    assert(text.subrange(3119, 3149) =~= "Alt/Shift-Enter       New line"@);
    assert(holds_at(text, "Alt/Shift-Enter       New line"@, 3119));
    reveal_strlit("Esc                   Cancel request");
    assert(text.subrange(3154, 3190) =~= "Esc                   Cancel request"@);
    assert(holds_at(text, "Esc                   Cancel request"@, 3154));
    reveal_strlit("Ctrl-C                Exit");
    assert(text.subrange(3195, 3221) =~= "Ctrl-C                Exit"@);
    assert(holds_at(text, "Ctrl-C                Exit"@, 3195));
}

/// The help opens with the name and the version of the program, and then tells everything.
pub proof fn law_help_opens_with_the_version(version: Seq<char>)
    ensures
        help(version).take("tuisample-code "@.len() as int) == "tuisample-code "@,
        help(version).skip("tuisample-code "@.len() as int) == version + HELP_BODY@,
{
    assert(help(version).take("tuisample-code "@.len() as int) =~= "tuisample-code "@);
    assert(help(version).skip("tuisample-code "@.len() as int) =~= version + HELP_BODY@);
}

} // verus!
