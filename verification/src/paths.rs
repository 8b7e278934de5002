//! Paths given in configuration files, as the bytes a Unix path is made of:
//! `~/` expansion into the home directory.

use vstd::prelude::*;

verus! {

/// A copy of `bytes`.
pub fn copy_bytes(bytes: &[u8]) -> (r: Vec<u8>)
    ensures
        r@ == bytes@,
{
    let mut r: Vec<u8> = Vec::new();
    let n = bytes.len();
    let mut i: usize = 0;
    while i < n
        invariant
            n == bytes@.len(),
            i <= n,
            r@ == bytes@.subrange(0, i as int),
        decreases n - i,
    {
        r.push(bytes[i]);
        i = i + 1;
        assert(r@ =~= bytes@.subrange(0, i as int));
    }
    assert(bytes@.subrange(0, n as int) =~= bytes@);
    r
}

/// Whether a path begins with `~/`.
pub open spec fn has_home_prefix(p: Seq<u8>) -> bool {
    p.len() >= 2 && p[0] == '~' as u8 && p[1] == '/' as u8
}

/// The bytes of an optional path.
pub open spec fn opt_bytes(o: Option<&[u8]>) -> Option<Seq<u8>> {
    match o {
        Some(s) => Some(s@),
        None => None,
    }
}

/// The expansion of a leading `~/` into `$HOME/`; `None` when the path stays
/// as it is, because it does not begin with `~/` or no home directory is
/// known.
pub open spec fn tilde_expansion(p: Seq<u8>, home: Option<Seq<u8>>) -> Option<Seq<u8>> {
    match home {
        Some(h) => if has_home_prefix(p) {
            Some(h + seq!['/' as u8] + p.skip(2))
        } else {
            None
        },
        None => None,
    }
}

/// Expands a leading `~/` to `$HOME/`, `home` being the value of `HOME`.
/// Best effort: `None` means that the path is used unchanged, as when `HOME`
/// is unset.
pub fn expand_tilde(path: &[u8], home: Option<&[u8]>) -> (r: Option<Vec<u8>>)
    ensures
        match r {
            Some(s) => tilde_expansion(path@, opt_bytes(home)) == Some(s@),
            None => tilde_expansion(path@, opt_bytes(home)) is None,
        },
{
    let n = path.len();
    if n >= 2 && path[0] == 0x7e && path[1] == 0x2f {
        match home {
            Some(h) => {
                let mut r = copy_bytes(h);
                r.push(0x2f);
                let mut i: usize = 2;
                while i < n
                    invariant
                        n == path@.len(),
                        2 <= i <= n,
                        r@ == h@ + seq!['/' as u8] + path@.subrange(2, i as int),
                    decreases n - i,
                {
                    r.push(path[i]);
                    i = i + 1;
                    assert(r@ =~= h@ + seq!['/' as u8] + path@.subrange(2, i as int));
                }
                assert(path@.subrange(2, n as int) =~= path@.skip(2));
                Some(r)
            },
            None => None,
        }
    } else {
        None
    }
}

/// A path that does not begin with `~/` is never rewritten, and without a home
/// directory no path is; a rewritten path is `$HOME/` followed by the rest,
/// whatever that rest begins with.
pub proof fn law_expansion_is_home_substitution(p: Seq<u8>, home: Option<Seq<u8>>)
    ensures
        !has_home_prefix(p) ==> tilde_expansion(p, home) is None,
        home is None ==> tilde_expansion(p, home) is None,
        tilde_expansion(p, home) matches Some(e) ==> {
            &&& e.subrange(0, home->0.len() as int) == home->0
            &&& e[home->0.len() as int] == '/' as u8
            &&& e.skip(home->0.len() + 1int) == p.skip(2)
        },
{
    if tilde_expansion(p, home) is Some {
        let h = home->0;
        let e = h + seq!['/' as u8] + p.skip(2);
        assert(e.subrange(0, h.len() as int) =~= h);
        assert(e.skip(h.len() + 1int) =~= p.skip(2));
    }
}

/// Expansion happens exactly when the path begins with `~` and `/` and a home
/// directory is known, whatever the length of the path, and then the result is
/// the home directory, a `/`, and the path after its first two bytes.
pub proof fn law_expansion_whenever_home_is_known(p: Seq<u8>, home: Option<Seq<u8>>)
    ensures
        p.len() >= 2 && p[0] == 0x7e && p[1] == 0x2f && home is Some ==> tilde_expansion(p, home)
            == Some(home->0 + seq![0x2fu8] + p.subrange(2, p.len() as int)),
        !(p.len() >= 2 && p[0] == 0x7e && p[1] == 0x2f) ==> tilde_expansion(p, home) is None,
        home is None ==> tilde_expansion(p, home) is None,
{
    if p.len() >= 2 && p[0] == 0x7e && p[1] == 0x2f && home is Some {
        assert(p.skip(2) =~= p.subrange(2, p.len() as int));
    }
}

} // verus!
