use nanopi_cli::cli::{
    approve_override, is_init_subcommand, message_argument, message_from_stdin, message_source,
    nanopi_version, non_interactive, output_format, project_trusted, Args, MessageSource,
    OutputFormat,
};

fn bare_args() -> Args {
    Args {
        base_url: None,
        model: None,
        api_key: None,
        message: None,
        positional_message: None,
        print: false,
        output: "text".to_string(),
        no_hooks: false,
        approve: false,
        no_approve: false,
        continue_session: false,
        session_id: None,
        fork_id: None,
        exact_session_id: None,
        api_kind: None,
        skill: Vec::new(),
        no_skills: false,
        no_context_files: false,
        system_prompt: None,
        append_system_prompt: Vec::new(),
    }
}

fn init_args() -> Args {
    let mut a = bare_args();
    a.positional_message = Some("init".to_string());
    a
}

#[test]
fn init_is_detected() {
    assert!(is_init_subcommand(&init_args()));
}

#[test]
fn init_tolerates_flags_that_are_no_chat_turn() {
    let mut a = init_args();
    a.no_hooks = true;
    a.approve = true;
    a.no_skills = true;
    a.no_approve = true;
    a.api_kind = Some("anthropic".to_string());
    a.no_context_files = true;
    a.skill.push("skills/greet".to_string());
    assert!(is_init_subcommand(&a));
}

#[test]
fn init_via_message_flag_is_a_prompt() {
    let mut a = bare_args();
    a.message = Some("init".to_string());
    assert!(!is_init_subcommand(&a));
    let mut b = init_args();
    b.message = Some("hello".to_string());
    assert!(!is_init_subcommand(&b));
}

#[test]
fn init_with_chat_flags_is_a_prompt() {
    let edits: Vec<fn(&mut Args)> = vec![
        |a| a.print = true,
        |a| a.continue_session = true,
        |a| a.session_id = Some("s".to_string()),
        |a| a.fork_id = Some("f".to_string()),
        |a| a.exact_session_id = Some("s1".to_string()),
        |a| a.model = Some("m".to_string()),
        |a| a.base_url = Some("u".to_string()),
        |a| a.api_key = Some("k".to_string()),
        |a| a.system_prompt = Some("p".to_string()),
        |a| a.append_system_prompt.push("p".to_string()),
    ];
    for edit in edits {
        let mut a = init_args();
        edit(&mut a);
        assert!(!is_init_subcommand(&a));
    }
}

#[test]
fn other_words_are_not_init() {
    for w in ["Init", "init ", "initialize", "", "ini"] {
        let mut a = bare_args();
        a.positional_message = Some(w.to_string());
        assert!(!is_init_subcommand(&a), "{:?}", w);
    }
    assert!(!is_init_subcommand(&bare_args()));
}

#[test]
fn version_is_trimmed() {
    assert_eq!(nanopi_version("0.10.0\n"), "0.10.0");
    assert_eq!(nanopi_version(" \t0.9.3\r\n"), "0.9.3");
    assert_eq!(nanopi_version("1.0"), "1.0");
    assert_eq!(nanopi_version("\n"), "");
}

#[test]
fn output_format_selects_json_only_for_json() {
    assert_eq!(output_format("json"), OutputFormat::Json);
    assert_eq!(output_format("text"), OutputFormat::Text);
    assert_eq!(output_format("JSON"), OutputFormat::Text);
    assert_eq!(output_format("json "), OutputFormat::Text);
}

#[test]
fn approve_flags() {
    assert_eq!(approve_override(true, false), Some(true));
    assert_eq!(approve_override(false, true), Some(false));
    assert_eq!(approve_override(true, true), Some(true));
    assert_eq!(approve_override(false, false), None);
}

#[test]
fn command_line_trust_beats_persisted() {
    assert!(project_trusted(Some(true), false));
    assert!(!project_trusted(Some(false), true));
    assert!(project_trusted(None, true));
    assert!(!project_trusted(None, false));
    assert!(project_trusted(approve_override(true, true), false));
}

#[test]
fn piped_stdin_is_non_interactive() {
    assert!(non_interactive(true, true));
    assert!(non_interactive(false, false));
    assert!(!non_interactive(false, true));
}

#[test]
fn message_flag_beats_positional() {
    let mut a = bare_args();
    assert_eq!(message_argument(&a), None);
    a.positional_message = Some("pos".to_string());
    assert_eq!(message_argument(&a), Some("pos"));
    a.message = Some("flag".to_string());
    assert_eq!(message_argument(&a), Some("flag"));
}

#[test]
fn message_source_prefers_arguments_then_pipe() {
    let mut a = bare_args();
    assert_eq!(message_source(&a, true), MessageSource::Missing);
    assert_eq!(message_source(&a, false), MessageSource::Stdin);
    a.positional_message = Some("hi".to_string());
    assert_eq!(message_source(&a, false), MessageSource::Argument);
    assert_eq!(message_source(&a, true), MessageSource::Argument);
}

#[test]
fn stdin_message_is_refused_when_blank() {
    assert_eq!(message_from_stdin(""), None);
    assert_eq!(message_from_stdin(" \n\t\n"), None);
    assert_eq!(message_from_stdin("  explain this error\n"), Some("  explain this error"));
    assert_eq!(message_from_stdin("a\r\n"), Some("a"));
}
