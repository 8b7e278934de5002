use nanopi_cli::provider::{
    api_kind_setting, kind_conflict_warning, kind_str, messages_endpoint_notice,
    unknown_kind_warning, ApiKind,
};

#[test]
fn kind_names() {
    assert_eq!(kind_str(ApiKind::Openai), "openai");
    assert_eq!(kind_str(ApiKind::Anthropic), "anthropic");
    assert_ne!(kind_str(ApiKind::Openai), kind_str(ApiKind::Anthropic));
}

#[test]
fn command_line_kind_beats_config() {
    assert_eq!(api_kind_setting(Some("openai"), Some("anthropic")), Some("openai"));
    assert_eq!(api_kind_setting(None, Some("anthropic")), Some("anthropic"));
    assert_eq!(api_kind_setting(None, None), None);
}

#[test]
fn unknown_kind_is_warned_unless_blank() {
    assert_eq!(
        unknown_kind_warning(Some("gemini"), false),
        Some(
            "nanopi: unknown api_kind `gemini` (expected `openai` or `anthropic`) — falling through to vendor sniff"
                .to_string()
        )
    );
    assert_eq!(unknown_kind_warning(Some("  "), false), None);
    assert_eq!(unknown_kind_warning(Some(""), false), None);
    assert_eq!(unknown_kind_warning(Some("anthropic"), true), None);
    assert_eq!(unknown_kind_warning(None, false), None);
}

#[test]
fn anthropic_notice_names_messages_endpoint() {
    assert_eq!(
        messages_endpoint_notice(ApiKind::Anthropic, "https://api.x.com/anthropic//"),
        Some("• api_kind = anthropic — talking to https://api.x.com/anthropic/v1/messages".to_string())
    );
    assert_eq!(messages_endpoint_notice(ApiKind::Openai, "https://api.x.com"), None);
}

#[test]
fn conflicting_kind_is_warned() {
    assert_eq!(
        kind_conflict_warning(Some(ApiKind::Openai), "deepseek", ApiKind::Anthropic, "https://api.deepseek.com/anthropic/"),
        Some(
            "nanopi: warning: api_kind = `openai` but vendor `deepseek` expects `anthropic` for https://api.deepseek.com/anthropic — honoring your api_kind"
                .to_string()
        )
    );
    assert_eq!(kind_conflict_warning(Some(ApiKind::Openai), "x", ApiKind::Openai, "u"), None);
    assert_eq!(kind_conflict_warning(None, "x", ApiKind::Anthropic, "u"), None);
}
