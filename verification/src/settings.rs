//! How a setting is resolved from the command line, the environment and the
//! configuration files, and when the first-run wizard takes over.

use vstd::prelude::*;
use crate::paths::copy_bytes;

verus! {

/// The places one setting can come from, each absent or given.
pub struct SettingSources {
    /// The command-line flag.
    pub flag: Option<String>,
    /// The environment variable (absent when unset or not valid Unicode).
    pub env: Option<String>,
    /// The value in `config.toml`.
    pub config: Option<String>,
}

/// The characters of an optional string.
pub open spec fn opt_chars(o: Option<String>) -> Option<Seq<char>> {
    match o {
        Some(s) => Some(s@),
        None => None,
    }
}

/// The value in force: flag, then environment, then configuration.
pub open spec fn layered_value(s: SettingSources) -> Option<Seq<char>> {
    if s.flag is Some {
        opt_chars(s.flag)
    } else if s.env is Some {
        opt_chars(s.env)
    } else {
        opt_chars(s.config)
    }
}

fn clone_opt(o: &Option<String>) -> (r: Option<String>)
    ensures
        opt_chars(r) == opt_chars(*o),
{
    match o {
        Some(s) => Some(s.clone()),
        None => None,
    }
}

/// Resolves a setting: flag beats environment beats configuration; `None`
/// when none of them gives it. This is how the model is resolved.
pub fn resolve_setting(s: &SettingSources) -> (r: Option<String>)
    ensures
        opt_chars(r) == layered_value(*s),
{
    if s.flag.is_some() {
        clone_opt(&s.flag)
    } else if s.env.is_some() {
        clone_opt(&s.env)
    } else {
        clone_opt(&s.config)
    }
}

/// The base URL used when no source gives one.
pub open spec fn default_base_url_chars() -> Seq<char> {
    "https://api.openai.com/v1"@
}

/// The base URL in force: flag, environment, configuration, then the OpenAI
/// default.
pub open spec fn base_url_value(s: SettingSources) -> Seq<char> {
    match layered_value(s) {
        Some(v) => v,
        None => default_base_url_chars(),
    }
}

/// Resolves the base URL.
pub fn resolve_base_url(s: &SettingSources) -> (r: String)
    ensures
        r@ == base_url_value(*s),
{
    match resolve_setting(s) {
        Some(v) => v,
        None => String::from_str("https://api.openai.com/v1"),
    }
}

/// The places the API key can come from.
pub struct KeySources {
    /// `--api-key`.
    pub flag: Option<String>,
    /// `OPENAI_API_KEY` (absent when unset or not valid Unicode).
    pub env: Option<String>,
    /// `api_key` in `config.toml`.
    pub config_inline: Option<String>,
    /// `api_key_file` in `config.toml`, as the bytes of the path.
    pub config_file: Option<Vec<u8>>,
}

/// What main does to obtain the API key.
pub enum KeyPlan {
    /// Use this key (from the flag or the environment).
    Use(String),
    /// Use this key from `config.toml`, warning that an inline key is easy to
    /// commit by accident.
    UseInline(String),
    /// Read the key from the file at this path (after `~/` expansion), trimmed.
    ReadFile(Vec<u8>),
    /// No key anywhere: the run fails.
    Missing,
}

/// What main does to obtain the API key, in characters.
pub enum KeyStep {
    Use(Seq<char>),
    UseInline(Seq<char>),
    ReadFile(Seq<u8>),
    Missing,
}

impl View for KeyPlan {
    type V = KeyStep;

    open spec fn view(&self) -> KeyStep {
        match self {
            KeyPlan::Use(k) => KeyStep::Use(k@),
            KeyPlan::UseInline(k) => KeyStep::UseInline(k@),
            KeyPlan::ReadFile(f) => KeyStep::ReadFile(f@),
            KeyPlan::Missing => KeyStep::Missing,
        }
    }
}

/// The step the sources call for: flag, environment, inline key (with a
/// warning), key file, in that order.
pub open spec fn key_step(s: KeySources) -> KeyStep {
    if s.flag is Some {
        KeyStep::Use(s.flag->0@)
    } else if s.env is Some {
        KeyStep::Use(s.env->0@)
    } else if s.config_inline is Some {
        KeyStep::UseInline(s.config_inline->0@)
    } else if s.config_file is Some {
        KeyStep::ReadFile(s.config_file->0@)
    } else {
        KeyStep::Missing
    }
}

/// Decides where the API key comes from.
pub fn resolve_api_key(s: &KeySources) -> (r: KeyPlan)
    ensures
        r@ == key_step(*s),
{
    match &s.flag {
        Some(k) => KeyPlan::Use(k.clone()),
        None => match &s.env {
            Some(k) => KeyPlan::Use(k.clone()),
            None => match &s.config_inline {
                Some(k) => KeyPlan::UseInline(k.clone()),
                None => match &s.config_file {
                    Some(f) => KeyPlan::ReadFile(copy_bytes(f.as_slice())),
                    None => KeyPlan::Missing,
                },
            },
        },
    }
}

/// No source at all gives the model, the API key or the base URL.
pub open spec fn nothing_configured(model: SettingSources, key: KeySources, base: SettingSources) -> bool {
    &&& model.flag is None && model.env is None && model.config is None
    &&& key.flag is None && key.env is None && key.config_inline is None && key.config_file is None
    &&& base.flag is None && base.env is None && base.config is None
}

/// The first-run wizard starts only when the model, the API key and the base
/// URL are all unresolved at once; a partly configured user gets the targeted
/// error for what is missing instead.
pub fn needs_first_run_wizard(model: &SettingSources, key: &KeySources, base: &SettingSources) -> (r:
    bool)
    ensures
        r == nothing_configured(*model, *key, *base),
{
    let model_missing = model.flag.is_none() && model.env.is_none() && model.config.is_none();
    let key_missing = key.flag.is_none() && key.env.is_none() && key.config_inline.is_none()
        && key.config_file.is_none();
    let base_missing = base.flag.is_none() && base.env.is_none() && base.config.is_none();
    model_missing && key_missing && base_missing
}

/// The wizard starts exactly when resolution would find no model, no API key
/// and no base URL but the default.
pub proof fn law_wizard_iff_nothing_resolves(
    model: SettingSources,
    key: KeySources,
    base: SettingSources,
)
    ensures
        nothing_configured(model, key, base) <==> (layered_value(model) is None
            && key_step(key) is Missing && layered_value(base) is None),
{
}

/// A flag given on the command line is the value in force, whatever the
/// environment and the configuration say.
pub proof fn law_flag_wins(s: SettingSources, k: KeySources)
    ensures
        s.flag is Some ==> layered_value(s) == Some(s.flag->0@),
        s.flag is Some ==> base_url_value(s) == s.flag->0@,
        k.flag is Some ==> key_step(k) == KeyStep::Use(k.flag->0@),
{
}

/// The order in which a setting is taken: a flag is used whenever given; with
/// no flag, a value from the environment is used whatever the configuration
/// says; the configuration counts only when neither gives a value.
pub proof fn law_setting_precedence(s: SettingSources)
    ensures
        s.flag is Some ==> layered_value(s) == Some(s.flag->0@),
        s.flag is None && s.env is Some ==> layered_value(s) == Some(s.env->0@),
        s.flag is None && s.env is None && s.config is Some ==> layered_value(s) == Some(
            s.config->0@,
        ),
        s.flag is None && s.env is None && s.config is None ==> layered_value(s) is None,
{
}

/// The base URL in force is the first one given among flag, environment and
/// configuration, and `https://api.openai.com/v1` only when none gives one.
pub proof fn law_base_url_precedence(s: SettingSources)
    ensures
        s.flag is Some ==> base_url_value(s) == s.flag->0@,
        s.flag is None && s.env is Some ==> base_url_value(s) == s.env->0@,
        s.flag is None && s.env is None && s.config is Some ==> base_url_value(s)
            == s.config->0@,
        s.flag is None && s.env is None && s.config is None ==> base_url_value(s)
            == "https://api.openai.com/v1"@,
{
}

/// The order in which the API key is taken: `--api-key`, then
/// `OPENAI_API_KEY` whatever `config.toml` holds, then the inline key (with a
/// warning), then the key file; the run fails only when none is given.
pub proof fn law_api_key_precedence(s: KeySources)
    ensures
        s.flag is Some ==> key_step(s) == KeyStep::Use(s.flag->0@),
        s.flag is None && s.env is Some ==> key_step(s) == KeyStep::Use(s.env->0@),
        s.flag is None && s.env is None && s.config_inline is Some ==> key_step(s)
            == KeyStep::UseInline(s.config_inline->0@),
        s.flag is None && s.env is None && s.config_inline is None && s.config_file is Some
            ==> key_step(s) == KeyStep::ReadFile(s.config_file->0@),
        (key_step(s) is Missing) <==> (s.flag is None && s.env is None && s.config_inline is None
            && s.config_file is None),
{
}

/// Any one source of the model, the API key or the base URL keeps the
/// first-run wizard from starting; with none at all it starts.
pub proof fn law_wizard_needs_every_source_empty(
    model: SettingSources,
    key: KeySources,
    base: SettingSources,
)
    ensures
        model.flag is Some || model.env is Some || model.config is Some ==> !nothing_configured(
            model,
            key,
            base,
        ),
        key.flag is Some || key.env is Some || key.config_inline is Some || key.config_file is Some
            ==> !nothing_configured(model, key, base),
        base.flag is Some || base.env is Some || base.config is Some ==> !nothing_configured(
            model,
            key,
            base,
        ),
        model.flag is None && model.env is None && model.config is None && key.flag is None
            && key.env is None && key.config_inline is None && key.config_file is None
            && base.flag is None && base.env is None && base.config is None ==> nothing_configured(
            model,
            key,
            base,
        ),
{
}

} // verus!
