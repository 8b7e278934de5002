use nanopi_cli::paths::expand_tilde;
use nanopi_cli::settings::{
    needs_first_run_wizard, resolve_api_key, resolve_base_url, resolve_setting, KeyPlan,
    KeySources, SettingSources,
};

fn src(flag: Option<&str>, env: Option<&str>, config: Option<&str>) -> SettingSources {
    SettingSources {
        flag: flag.map(|s| s.to_string()),
        env: env.map(|s| s.to_string()),
        config: config.map(|s| s.to_string()),
    }
}

fn keys(flag: Option<&str>, env: Option<&str>, inline: Option<&str>, file: Option<&str>) -> KeySources {
    KeySources {
        flag: flag.map(|s| s.to_string()),
        env: env.map(|s| s.to_string()),
        config_inline: inline.map(|s| s.to_string()),
        config_file: file.map(|s| s.as_bytes().to_vec()),
    }
}

fn plan_text(p: KeyPlan) -> String {
    match p {
        KeyPlan::Use(k) => format!("use {}", k),
        KeyPlan::UseInline(k) => format!("inline {}", k),
        KeyPlan::ReadFile(f) => format!("file {}", String::from_utf8_lossy(&f)),
        KeyPlan::Missing => "missing".to_string(),
    }
}

#[test]
fn setting_precedence() {
    assert_eq!(resolve_setting(&src(Some("f"), Some("e"), Some("c"))), Some("f".to_string()));
    assert_eq!(resolve_setting(&src(None, Some("e"), Some("c"))), Some("e".to_string()));
    assert_eq!(resolve_setting(&src(None, None, Some("c"))), Some("c".to_string()));
    assert_eq!(resolve_setting(&src(None, None, None)), None);
}

#[test]
fn base_url_defaults_to_openai() {
    assert_eq!(resolve_base_url(&src(None, None, None)), "https://api.openai.com/v1");
    assert_eq!(resolve_base_url(&src(None, Some("https://api.deepseek.com/v1"), None)), "https://api.deepseek.com/v1");
    assert_eq!(resolve_base_url(&src(Some("http://localhost:11434/v1"), Some("e"), Some("c"))), "http://localhost:11434/v1");
}

#[test]
fn api_key_precedence() {
    assert_eq!(plan_text(resolve_api_key(&keys(Some("f"), Some("e"), Some("i"), Some("p")))), "use f");
    assert_eq!(plan_text(resolve_api_key(&keys(None, Some("e"), Some("i"), Some("p")))), "use e");
    assert_eq!(plan_text(resolve_api_key(&keys(None, None, Some("i"), Some("p")))), "inline i");
    assert_eq!(plan_text(resolve_api_key(&keys(None, None, None, Some("~/.key")))), "file ~/.key");
    assert_eq!(plan_text(resolve_api_key(&keys(None, None, None, None))), "missing");
}

#[test]
fn wizard_only_when_nothing_is_configured() {
    let none = src(None, None, None);
    let no_keys = keys(None, None, None, None);
    assert!(needs_first_run_wizard(&none, &no_keys, &none));
    assert!(!needs_first_run_wizard(&src(None, None, Some("m")), &no_keys, &none));
    assert!(!needs_first_run_wizard(&none, &keys(None, None, None, Some("p")), &none));
    assert!(!needs_first_run_wizard(&none, &no_keys, &src(None, Some("u"), None)));
}

fn expand(p: &str, home: Option<&str>) -> Option<String> {
    expand_tilde(p.as_bytes(), home.map(|h| h.as_bytes()))
        .map(|v| String::from_utf8(v).unwrap())
}

#[test]
fn tilde_expansion() {
    assert_eq!(expand("~/.nanopi/key", Some("/home/u")), Some("/home/u/.nanopi/key".to_string()));
    assert_eq!(expand("~/.nanopi/key", None), None);
    assert_eq!(expand("/abs/key", Some("/home/u")), None);
    assert_eq!(expand("~user/key", Some("/home/u")), None);
    assert_eq!(expand("~", Some("/home/u")), None);
    assert_eq!(expand("~/", Some("/home/u")), Some("/home/u/".to_string()));
    assert_eq!(expand("~//etc/key", Some("/home/alice")), Some("/home/alice//etc/key".to_string()));
    assert_eq!(expand("~/key", Some("")), Some("/key".to_string()));
    assert_eq!(expand("~/key", Some("/home/u/")), Some("/home/u//key".to_string()));
}

#[test]
fn tilde_expansion_keeps_raw_bytes() {
    let home: &[u8] = &[b'/', b'h', 0xff, b'e'];
    let path: &[u8] = &[b'~', b'/', 0xfe, b'k'];
    assert_eq!(
        expand_tilde(path, Some(home)),
        Some(vec![b'/', b'h', 0xff, b'e', b'/', 0xfe, b'k'])
    );
}
