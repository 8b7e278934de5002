use nanopi_cli::text::{is_whitespace_char, str_eq, strip_trailing, trim, trim_end, trim_start};

#[test]
fn whitespace_matches_std_on_every_char() {
    for n in 0u32..=0x10FFFF {
        if let Some(c) = char::from_u32(n) {
            assert_eq!(is_whitespace_char(c), c.is_whitespace(), "U+{:04X}", n);
        }
    }
}

const SAMPLES: &[&str] = &[
    "",
    " ",
    "\t\n\r ",
    "abc",
    "  abc",
    "abc  ",
    "  a b c  ",
    "\u{3000}\u{00A0}x\u{2028}\u{0085}",
    "\u{200B}x\u{200B}",
    "é\t",
    "\n0.10.0\n",
    "x\u{1680}",
];

#[test]
fn trim_matches_std() {
    for s in SAMPLES {
        assert_eq!(trim(s), s.trim(), "{:?}", s);
        assert_eq!(trim_start(s), s.trim_start(), "{:?}", s);
        assert_eq!(trim_end(s), s.trim_end(), "{:?}", s);
    }
}

#[test]
fn trim_keeps_inner_white_space() {
    assert_eq!(trim("  hello   world \n"), "hello   world");
}

#[test]
fn trim_is_idempotent_on_samples() {
    for s in SAMPLES {
        assert_eq!(trim(trim(s)), trim(s));
    }
}

#[test]
fn trim_after_trim_end_on_samples() {
    for s in SAMPLES {
        assert_eq!(trim(trim_end(s)), trim(s));
    }
}

#[test]
fn strip_trailing_matches_std() {
    for s in ["", "/", "///", "https://api.x/v1/", "https://api.x/v1", "a/b//", "é/"] {
        assert_eq!(strip_trailing(s, '/'), s.trim_end_matches('/'), "{:?}", s);
    }
    assert_eq!(strip_trailing(strip_trailing("a//", '/'), '/'), "a");
}

#[test]
fn str_eq_compares_characters() {
    assert!(str_eq("init", "init"));
    assert!(!str_eq("init", "Init"));
    assert!(!str_eq("init", "init "));
    assert!(str_eq("", ""));
    assert!(str_eq("héllo", "héllo"));
}
