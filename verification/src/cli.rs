//! The command line of one run: its arguments, and the decisions that read
//! nothing but them.

use vstd::prelude::*;
use crate::text::{
    is_white_space, law_trim_after_trim_end, law_trim_removes_outer_white_space, str_eq, trim,
    trim_end, trim_end_seq, trim_seq,
};

verus! {

/// The arguments of one invocation, as the command-line parser fills them.
pub struct Args {
    /// OpenAI-compatible API base URL.
    pub base_url: Option<String>,
    /// Model identifier.
    pub model: Option<String>,
    /// API key.
    pub api_key: Option<String>,
    /// User message given with `-m` / `--message`.
    pub message: Option<String>,
    /// User message given as the first positional argument.
    pub positional_message: Option<String>,
    /// Non-interactive print mode (`-p`).
    pub print: bool,
    /// Output format for print mode (`text` or `json`).
    pub output: String,
    /// Disable all hooks.
    pub no_hooks: bool,
    /// Trust project-local resources for this run (`-a`).
    pub approve: bool,
    /// Distrust project-local resources for this run (`-N`).
    pub no_approve: bool,
    /// Resume the most recently used session (`-c`).
    pub continue_session: bool,
    /// Resume a specific session (`--session`).
    pub session_id: Option<String>,
    /// Fork a session (`--fork`).
    pub fork_id: Option<String>,
    /// Use this exact session id (`--session-id`).
    pub exact_session_id: Option<String>,
    /// Wire protocol (`--api-kind`).
    pub api_kind: Option<String>,
    /// Skill files or directories (`--skill`, repeatable).
    pub skill: Vec<String>,
    /// Disable user and project skill discovery.
    pub no_skills: bool,
    /// Disable discovery of the agent context files (AGENTS.md and the like).
    pub no_context_files: bool,
    /// Replacement for the built-in system prompt.
    pub system_prompt: Option<String>,
    /// Text appended to the system prompt (repeatable).
    pub append_system_prompt: Vec<String>,
}

/// `nanopi init`: the positional message is exactly `init` and nothing else
/// that would make the invocation a chat turn is set: no message flag, no
/// print mode, no session to resume, fork or name, no provider setting (model,
/// base URL, key) and no system prompt.
pub open spec fn is_init_invocation(args: &Args) -> bool {
    &&& args.positional_message matches Some(p) && p@ == "init"@
    &&& args.message is None
    &&& !args.print
    &&& !args.continue_session
    &&& args.session_id is None
    &&& args.fork_id is None
    &&& args.exact_session_id is None
    &&& args.model is None
    &&& args.base_url is None
    &&& args.api_key is None
    &&& args.system_prompt is None
    &&& args.append_system_prompt.len() == 0
}

/// Detects `nanopi init`, the explicit call of the first-run wizard. A user who
/// wants to send the word `init` as a prompt can still do so with `-m init`.
pub fn is_init_subcommand(args: &Args) -> (r: bool)
    ensures
        r == is_init_invocation(args),
{
    let named_init = match &args.positional_message {
        Some(p) => str_eq(p.as_str(), "init"),
        None => false,
    };
    if !named_init {
        return false;
    }
    args.message.is_none() && !args.print && !args.continue_session && args.session_id.is_none()
        && args.fork_id.is_none() && args.exact_session_id.is_none() && args.model.is_none()
        && args.base_url.is_none() && args.api_key.is_none()
        && args.system_prompt.is_none()
        && args.append_system_prompt.len() == 0
}

/// A message given with `-m` never makes the invocation `nanopi init`, whatever
/// it says.
pub proof fn law_message_flag_is_never_init(args: &Args)
    requires
        args.message is Some,
    ensures
        !is_init_invocation(args),
{
}

/// The version string of the program: the text that the release records,
/// without surrounding white space.
pub fn nanopi_version(recorded: &str) -> (r: &str)
    ensures
        r@ == trim_seq(recorded@),
{
    trim(recorded)
}

/// How print mode writes its output.
#[derive(PartialEq, Eq, Structural, Debug, Clone, Copy)]
pub enum OutputFormat {
    Text,
    Json,
}

/// `--output json` selects JSON; every other value selects text.
pub fn output_format(output: &str) -> (r: OutputFormat)
    ensures
        r == (if output@ == "json"@ {
            OutputFormat::Json
        } else {
            OutputFormat::Text
        }),
{
    if str_eq(output, "json") {
        OutputFormat::Json
    } else {
        OutputFormat::Text
    }
}

/// The trust decision that the command line makes: `-a` trusts, `-N`
/// distrusts, `-a` wins when both are given, and neither leaves it open.
pub open spec fn approve_decision(approve: bool, distrust: bool) -> Option<bool> {
    if approve {
        Some(true)
    } else if distrust {
        Some(false)
    } else {
        None
    }
}

/// Whether project-local resources are trusted, given the command line's
/// decision and the one persisted for the project.
pub open spec fn trust_decision(approve: Option<bool>, persisted_trusted: bool) -> bool {
    match approve {
        Some(v) => v,
        None => persisted_trusted,
    }
}

/// The trust decision of the command line (`-a`, `-N`).
pub fn approve_override(approve: bool, distrust: bool) -> (r: Option<bool>)
    ensures
        r == approve_decision(approve, distrust),
{
    if approve {
        Some(true)
    } else if distrust {
        Some(false)
    } else {
        None
    }
}

/// Whether project-local resources are trusted: an explicit decision on the
/// command line beats the decision persisted for the project.
pub fn project_trusted(approve: Option<bool>, persisted_trusted: bool) -> (r: bool)
    ensures
        r == trust_decision(approve, persisted_trusted),
{
    match approve {
        Some(v) => v,
        None => persisted_trusted,
    }
}

/// `-a` trusts and `-N` distrusts whatever was persisted, `-a` winning over
/// `-N`; the persisted decision counts only when neither is given.
pub proof fn law_command_line_trust_wins(approve: bool, distrust: bool, persisted_trusted: bool)
    ensures
        approve ==> trust_decision(approve_decision(approve, distrust), persisted_trusted),
        !approve && distrust ==> !trust_decision(
            approve_decision(approve, distrust),
            persisted_trusted,
        ),
        !approve && !distrust ==> trust_decision(approve_decision(approve, distrust), persisted_trusted)
            == persisted_trusted,
{
}

/// A run is non-interactive with `-p`, and also whenever standard input is
/// not a terminal (a piped invocation).
pub fn non_interactive(print: bool, stdin_is_terminal: bool) -> (r: bool)
    ensures
        r == (print || !stdin_is_terminal),
{
    print || !stdin_is_terminal
}

/// Where print mode takes its message from.
#[derive(PartialEq, Eq, Structural, Debug, Clone, Copy)]
pub enum MessageSource {
    /// `-m` or the positional argument.
    Argument,
    /// Piped standard input.
    Stdin,
    /// Nowhere: the run fails with "no message".
    Missing,
}

/// The message given on the command line: `-m` first, then the positional
/// argument.
pub fn message_argument(args: &Args) -> (r: Option<&str>)
    ensures
        r is Some <==> (args.message is Some || args.positional_message is Some),
        r matches Some(m) ==> m@ == (if args.message is Some {
            args.message->0@
        } else {
            args.positional_message->0@
        }),
{
    match &args.message {
        Some(m) => Some(m.as_str()),
        None => match &args.positional_message {
            Some(p) => Some(p.as_str()),
            None => None,
        },
    }
}

/// Print mode reads its message from standard input only when no argument
/// gives one and standard input is piped; on a terminal it would block
/// waiting for input that the user does not know is wanted.
pub fn message_source(args: &Args, stdin_is_terminal: bool) -> (r: MessageSource)
    ensures
        r == (if args.message is Some || args.positional_message is Some {
            MessageSource::Argument
        } else if !stdin_is_terminal {
            MessageSource::Stdin
        } else {
            MessageSource::Missing
        }),
{
    if args.message.is_some() || args.positional_message.is_some() {
        MessageSource::Argument
    } else if !stdin_is_terminal {
        MessageSource::Stdin
    } else {
        MessageSource::Missing
    }
}

/// The message read from standard input: refused (`None`) when it is blank,
/// else the input without its trailing white space.
pub fn message_from_stdin(input: &str) -> (r: Option<&str>)
    ensures
        r is None <==> trim_seq(input@).len() == 0,
        r matches Some(m) ==> m@ == trim_end_seq(input@),
{
    if trim(input).unicode_len() == 0 {
        None
    } else {
        Some(trim_end(input))
    }
}


/// A message accepted from standard input is never blank: trimming it gives
/// what trimming the whole input gives, which is not empty; and the input is
/// refused exactly when every character of it is white space.
pub proof fn law_stdin_message_is_not_blank(input: Seq<char>)
    ensures
        trim_seq(input).len() > 0 ==> trim_seq(trim_end_seq(input)) == trim_seq(input),
        trim_seq(input).len() > 0 ==> trim_seq(trim_end_seq(input)).len() > 0,
        trim_seq(input).len() == 0 <==> (forall|k: int|
            0 <= k < input.len() ==> is_white_space(#[trigger] input[k])),
{
    law_trim_after_trim_end(input);
    law_trim_removes_outer_white_space(input);
}

/// Each flag that makes the invocation a chat turn keeps it from being
/// `nanopi init`, and so does any positional word other than `init`; with
/// `init` and none of those flags, it is `nanopi init`.
pub proof fn law_init_needs_bare_invocation(args: &Args)
    ensures
        !(args.positional_message matches Some(p) && p@ == "init"@) ==> !is_init_invocation(args),
        args.print ==> !is_init_invocation(args),
        args.continue_session ==> !is_init_invocation(args),
        args.session_id is Some ==> !is_init_invocation(args),
        args.fork_id is Some ==> !is_init_invocation(args),
        args.exact_session_id is Some ==> !is_init_invocation(args),
        args.model is Some ==> !is_init_invocation(args),
        args.base_url is Some ==> !is_init_invocation(args),
        args.api_key is Some ==> !is_init_invocation(args),
        args.system_prompt is Some ==> !is_init_invocation(args),
        args.append_system_prompt.len() > 0 ==> !is_init_invocation(args),
        (args.positional_message matches Some(p) && p@ == "init"@) && args.message is None
            && !args.print && !args.continue_session && args.session_id is None
            && args.fork_id is None && args.exact_session_id is None && args.model is None
            && args.base_url is None && args.api_key is None && args.system_prompt is None
            && args.append_system_prompt.len() == 0 ==> is_init_invocation(args),
{
}

/// Flags that start no chat turn (hooks, trust, skills, context files, the
/// output format and the protocol kind) do not change whether the invocation
/// is `nanopi init`.
pub proof fn law_init_ignores_other_flags(a: &Args, b: &Args)
    requires
        a.positional_message == b.positional_message,
        a.message == b.message,
        a.print == b.print,
        a.continue_session == b.continue_session,
        a.session_id == b.session_id,
        a.fork_id == b.fork_id,
        a.exact_session_id == b.exact_session_id,
        a.model == b.model,
        a.base_url == b.base_url,
        a.api_key == b.api_key,
        a.system_prompt == b.system_prompt,
        a.append_system_prompt@.len() == b.append_system_prompt@.len(),
    ensures
        is_init_invocation(a) == is_init_invocation(b),
{
}

} // verus!
