//! The wire protocol that a run speaks, and the notices that main prints
//! about it.

use vstd::prelude::*;
use crate::text::{strip_trailing, strip_trailing_seq, trim, trim_seq};

verus! {

/// The wire protocol spoken against the base URL.
#[derive(PartialEq, Eq, Structural, Debug, Clone, Copy)]
pub enum ApiKind {
    /// `/chat/completions`.
    Openai,
    /// `/v1/messages`.
    Anthropic,
}

/// The display name of a kind: the string that `api_kind` accepts for it, so
/// that a warning can be pasted straight back into the configuration.
pub open spec fn kind_name(k: ApiKind) -> Seq<char> {
    match k {
        ApiKind::Openai => "openai"@,
        ApiKind::Anthropic => "anthropic"@,
    }
}

/// The display name of `k`.
pub fn kind_str(k: ApiKind) -> (r: &'static str)
    ensures
        r@ == kind_name(k),
{
    match k {
        ApiKind::Openai => "openai",
        ApiKind::Anthropic => "anthropic",
    }
}

/// Two kinds never share a display name, so a name read back identifies its
/// kind; the OpenAI protocol is named `openai` and the Anthropic one
/// `anthropic`, the values that `api_kind` accepts.
pub proof fn law_kind_names_are_distinct(a: ApiKind, b: ApiKind)
    ensures
        kind_name(a) == kind_name(b) ==> a == b,
        kind_name(ApiKind::Openai) == "openai"@,
        kind_name(ApiKind::Anthropic) == "anthropic"@,
{
    reveal_strlit("openai");
    reveal_strlit("anthropic");
    if a != b {
        assert(kind_name(a).len() != kind_name(b).len());
    }
}

/// The `api_kind` setting in force: the command line's `--api-kind` beats the
/// configuration's `api_kind`.
pub fn api_kind_setting<'a>(flag: Option<&'a str>, config: Option<&'a str>) -> (r: Option<&'a str>)
    ensures
        r == (if flag is Some {
            flag
        } else {
            config
        }),
{
    match flag {
        Some(f) => Some(f),
        None => config,
    }
}

/// The warning for an `api_kind` value that names no known kind.
pub open spec fn unknown_kind_text(raw: Seq<char>) -> Seq<char> {
    "nanopi: unknown api_kind `"@ + raw + "` (expected `openai` or `anthropic`) — falling through to vendor sniff"@
}

/// The warning printed when the `api_kind` setting is present, is not blank,
/// and names no known kind (`recognized` says whether it does); `None` when
/// there is nothing to warn of. The vendor sniff then picks the kind.
pub fn unknown_kind_warning(raw: Option<&str>, recognized: bool) -> (r: Option<String>)
    ensures
        r is Some <==> (raw is Some && !recognized && trim_seq(raw->0@).len() > 0),
        r matches Some(w) ==> w@ == unknown_kind_text(raw->0@),
{
    match raw {
        Some(text) => {
            if !recognized && trim(text).unicode_len() > 0 {
                let mut w = String::from_str("nanopi: unknown api_kind `");
                w.append(text);
                w.append("` (expected `openai` or `anthropic`) — falling through to vendor sniff");
                Some(w)
            } else {
                None
            }
        },
        None => None,
    }
}

/// The notice that the run talks to the Anthropic messages endpoint.
pub open spec fn messages_endpoint_text(base_url: Seq<char>) -> Seq<char> {
    "• api_kind = anthropic — talking to "@ + strip_trailing_seq(base_url, '/') + "/v1/messages"@
}

/// The notice announcing the protocol actually spoken, printed only when the
/// effective kind is Anthropic; the base URL loses its trailing slashes.
pub fn messages_endpoint_notice(effective: ApiKind, base_url: &str) -> (r: Option<String>)
    ensures
        r is Some <==> effective == ApiKind::Anthropic,
        r matches Some(n) ==> n@ == messages_endpoint_text(base_url@),
{
    match effective {
        ApiKind::Anthropic => {
            let mut n = String::from_str("• api_kind = anthropic — talking to ");
            n.append(strip_trailing(base_url, '/'));
            n.append("/v1/messages");
            Some(n)
        },
        ApiKind::Openai => None,
    }
}

/// The warning for an explicit `api_kind` that contradicts the surface of the
/// vendor serving the base URL.
pub open spec fn kind_conflict_text(
    configured: ApiKind,
    vendor_id: Seq<char>,
    vendor_says: ApiKind,
    base_url: Seq<char>,
) -> Seq<char> {
    "nanopi: warning: api_kind = `"@ + kind_name(configured) + "` but vendor `"@ + vendor_id
        + "` expects `"@ + kind_name(vendor_says) + "` for "@ + strip_trailing_seq(base_url, '/')
        + " — honoring your api_kind"@
}

/// The warning printed when an explicit `api_kind` differs from the kind that
/// the vendor expects for the base URL; the explicit kind is still honoured.
/// `None` when no kind was given or the two agree.
pub fn kind_conflict_warning(
    configured: Option<ApiKind>,
    vendor_id: &str,
    vendor_says: ApiKind,
    base_url: &str,
) -> (r: Option<String>)
    ensures
        r is Some <==> (configured matches Some(k) && k != vendor_says),
        r matches Some(w) ==> w@ == kind_conflict_text(
            configured->0,
            vendor_id@,
            vendor_says,
            base_url@,
        ),
{
    match configured {
        Some(k) => {
            if k != vendor_says {
                let mut w = String::from_str("nanopi: warning: api_kind = `");
                w.append(kind_str(k));
                w.append("` but vendor `");
                w.append(vendor_id);
                w.append("` expects `");
                w.append(kind_str(vendor_says));
                w.append("` for ");
                w.append(strip_trailing(base_url, '/'));
                w.append(" — honoring your api_kind");
                Some(w)
            } else {
                None
            }
        },
        None => None,
    }
}

} // verus!
