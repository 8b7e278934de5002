//! Character-level helpers on strings: Unicode white space, trimming and
//! comparison, each with the sequence of characters it yields.

use vstd::prelude::*;

verus! {

/// The Unicode `White_Space` property: the characters that `char::is_whitespace`
/// accepts.
pub open spec fn is_white_space(c: char) -> bool {
    let n = c as u32;
    ||| 0x09 <= n <= 0x0d
    ||| n == 0x20
    ||| n == 0x85
    ||| n == 0xa0
    ||| n == 0x1680
    ||| 0x2000 <= n <= 0x200a
    ||| n == 0x2028
    ||| n == 0x2029
    ||| n == 0x202f
    ||| n == 0x205f
    ||| n == 0x3000
}

/// `s` without its leading white space.
pub open spec fn trim_start_seq(s: Seq<char>) -> Seq<char>
    decreases s.len(),
{
    if s.len() > 0 && is_white_space(s[0]) {
        trim_start_seq(s.drop_first())
    } else {
        s
    }
}

/// `s` without its trailing white space.
pub open spec fn trim_end_seq(s: Seq<char>) -> Seq<char>
    decreases s.len(),
{
    if s.len() > 0 && is_white_space(s.last()) {
        trim_end_seq(s.drop_last())
    } else {
        s
    }
}

/// `s` without leading and trailing white space.
pub open spec fn trim_seq(s: Seq<char>) -> Seq<char> {
    trim_end_seq(trim_start_seq(s))
}

/// Whether `c` is white space in the Unicode sense.
pub fn is_whitespace_char(c: char) -> (r: bool)
    ensures
        r == is_white_space(c),
{
    let n = c as u32;
    (0x09 <= n && n <= 0x0d) || n == 0x20 || n == 0x85 || n == 0xa0 || n == 0x1680 || (0x2000
        <= n && n <= 0x200a) || n == 0x2028 || n == 0x2029 || n == 0x202f || n == 0x205f || n
        == 0x3000
}

/// Dropping the first `i` characters, all of them white space, does not change
/// what `trim_start_seq` yields.
proof fn lemma_trim_start_skip(s: Seq<char>, i: int)
    requires
        0 <= i <= s.len(),
        forall|k: int| 0 <= k < i ==> is_white_space(#[trigger] s[k]),
    ensures
        trim_start_seq(s) == trim_start_seq(s.subrange(i, s.len() as int)),
    decreases i,
{
    if i > 0 {
        assert(s.drop_first() =~= s.subrange(1, s.len() as int));
        let t = s.drop_first();
        assert forall|k: int| 0 <= k < i - 1 implies is_white_space(#[trigger] t[k]) by {
            assert(t[k] == s[k + 1]);
        }
        lemma_trim_start_skip(t, i - 1);
        assert(t.subrange(i - 1, t.len() as int) =~= s.subrange(i, s.len() as int));
    } else {
        assert(s.subrange(0, s.len() as int) =~= s);
    }
}

/// Dropping the last characters from index `j` on, all of them white space,
/// does not change what `trim_end_seq` yields.
proof fn lemma_trim_end_cut(s: Seq<char>, j: int)
    requires
        0 <= j <= s.len(),
        forall|k: int| j <= k < s.len() ==> is_white_space(#[trigger] s[k]),
    ensures
        trim_end_seq(s) == trim_end_seq(s.subrange(0, j)),
    decreases s.len() - j,
{
    if j < s.len() {
        let t = s.drop_last();
        assert(t =~= s.subrange(0, s.len() - 1));
        assert(is_white_space(s[s.len() - 1]));
        assert forall|k: int| j <= k < t.len() implies is_white_space(#[trigger] t[k]) by {
            assert(t[k] == s[k]);
        }
        lemma_trim_end_cut(t, j);
        assert(t.subrange(0, j) =~= s.subrange(0, j));
    } else {
        assert(s.subrange(0, j) =~= s);
    }
}

/// `s` without its leading white space.
pub fn trim_start(s: &str) -> (r: &str)
    ensures
        r@ == trim_start_seq(s@),
{
    let n = s.unicode_len();
    let mut i: usize = 0;
    while i < n && is_whitespace_char(s.get_char(i))
        invariant
            n == s@.len(),
            i <= n,
            forall|k: int| 0 <= k < i ==> is_white_space(#[trigger] s@[k]),
        decreases n - i,
    {
        i = i + 1;
    }
    proof {
        lemma_trim_start_skip(s@, i as int);
    }
    s.substring_char(i, n)
}

/// `s` without its trailing white space.
pub fn trim_end(s: &str) -> (r: &str)
    ensures
        r@ == trim_end_seq(s@),
{
    let n = s.unicode_len();
    let mut j: usize = n;
    while j > 0 && is_whitespace_char(s.get_char(j - 1))
        invariant
            n == s@.len(),
            j <= n,
            forall|k: int| j <= k < n ==> is_white_space(#[trigger] s@[k]),
        decreases j,
    {
        j = j - 1;
    }
    proof {
        lemma_trim_end_cut(s@, j as int);
        let t = s@.subrange(0, j as int);
        if j > 0 {
            assert(t.last() == s@[j - 1]);
        }
    }
    s.substring_char(0, j)
}

/// `s` without leading and trailing white space, as `str::trim` returns it.
pub fn trim(s: &str) -> (r: &str)
    ensures
        r@ == trim_seq(s@),
{
    trim_end(trim_start(s))
}

proof fn lemma_trim_start_first(s: Seq<char>)
    ensures
        trim_start_seq(s).len() > 0 ==> !is_white_space(trim_start_seq(s)[0]),
    decreases s.len(),
{
    if s.len() > 0 && is_white_space(s[0]) {
        lemma_trim_start_first(s.drop_first());
    }
}

proof fn lemma_trim_end_last(s: Seq<char>)
    ensures
        trim_end_seq(s).len() > 0 ==> !is_white_space(trim_end_seq(s).last()),
    decreases s.len(),
{
    if s.len() > 0 && is_white_space(s.last()) {
        lemma_trim_end_last(s.drop_last());
    }
}

proof fn lemma_trim_end_keeps_first(s: Seq<char>)
    requires
        s.len() > 0,
        !is_white_space(s[0]),
    ensures
        trim_end_seq(s).len() > 0,
        trim_end_seq(s)[0] == s[0],
    decreases s.len(),
{
    if is_white_space(s.last()) {
        let t = s.drop_last();
        assert(s.len() > 1);
        assert(t[0] == s[0]);
        lemma_trim_end_keeps_first(t);
    }
}

/// Trimmed text begins and ends with a character that is not white space.
pub proof fn law_trim_leaves_no_outer_white_space(s: Seq<char>)
    ensures
        trim_seq(s).len() > 0 ==> !is_white_space(trim_seq(s)[0]),
        trim_seq(s).len() > 0 ==> !is_white_space(trim_seq(s).last()),
{
    let t = trim_start_seq(s);
    lemma_trim_start_first(s);
    lemma_trim_end_last(t);
    if t.len() > 0 {
        lemma_trim_end_keeps_first(t);
    } else {
        assert(trim_end_seq(t) == t);
    }
}

/// Trimming text that is already trimmed changes nothing.
pub proof fn law_trim_is_idempotent(s: Seq<char>)
    ensures
        trim_seq(trim_seq(s)) == trim_seq(s),
{
    let r = trim_seq(s);
    law_trim_leaves_no_outer_white_space(s);
    assert(trim_start_seq(r) == r);
    assert(trim_end_seq(r) == r);
}

proof fn lemma_trim_start_drop_trailing_white(s: Seq<char>)
    requires
        s.len() > 0,
        is_white_space(s.last()),
    ensures
        trim_end_seq(trim_start_seq(s)) == trim_end_seq(trim_start_seq(s.drop_last())),
    decreases s.len(),
{
    let d = s.drop_last();
    if is_white_space(s[0]) {
        if s.len() > 1 {
            let t = s.drop_first();
            assert(t.last() == s.last());
            lemma_trim_start_drop_trailing_white(t);
            assert(t.drop_last() =~= d.drop_first());
            assert(d[0] == s[0]);
            assert(trim_start_seq(s) == trim_start_seq(t));
            assert(trim_start_seq(d) == trim_start_seq(d.drop_first()));
        } else {
            assert(s.drop_first() =~= Seq::<char>::empty());
            assert(d =~= Seq::<char>::empty());
            assert(trim_start_seq(s) == trim_start_seq(s.drop_first()));
        }
    } else {
        assert(s.len() > 1);
        assert(d[0] == s[0]);
        assert(trim_start_seq(s) == s);
        assert(trim_start_seq(d) == d);
        assert(trim_end_seq(s) == trim_end_seq(d));
    }
}

proof fn lemma_trim_start_keeps_last(s: Seq<char>)
    requires
        s.len() > 0,
        !is_white_space(s.last()),
    ensures
        trim_start_seq(s).len() > 0,
        trim_start_seq(s).last() == s.last(),
    decreases s.len(),
{
    if is_white_space(s[0]) {
        assert(s.len() > 1);
        let t = s.drop_first();
        assert(t.last() == s.last());
        lemma_trim_start_keeps_last(t);
    }
}

proof fn lemma_trim_ends_commute(s: Seq<char>)
    ensures
        trim_start_seq(trim_end_seq(s)) == trim_end_seq(trim_start_seq(s)),
    decreases s.len(),
{
    if s.len() > 0 {
        if is_white_space(s.last()) {
            lemma_trim_ends_commute(s.drop_last());
            lemma_trim_start_drop_trailing_white(s);
        } else {
            lemma_trim_start_keeps_last(s);
        }
    }
}

proof fn lemma_trim_end_idempotent(s: Seq<char>)
    ensures
        trim_end_seq(trim_end_seq(s)) == trim_end_seq(s),
{
    lemma_trim_end_last(s);
}

/// Trimming the end first and then both ends gives what trimming both ends
/// gives: `trim_end` never removes anything that `trim` keeps.
pub proof fn law_trim_after_trim_end(s: Seq<char>)
    ensures
        trim_seq(trim_end_seq(s)) == trim_seq(s),
{
    lemma_trim_ends_commute(s);
    lemma_trim_end_idempotent(trim_start_seq(s));
}

proof fn lemma_trim_start_shape(s: Seq<char>) -> (i: int)
    ensures
        0 <= i <= s.len(),
        trim_start_seq(s) == s.subrange(i, s.len() as int),
        forall|k: int| 0 <= k < i ==> is_white_space(#[trigger] s[k]),
        i < s.len() ==> !is_white_space(s[i]),
    decreases s.len(),
{
    if s.len() > 0 && is_white_space(s[0]) {
        let t = s.drop_first();
        let i0 = lemma_trim_start_shape(t);
        assert(t.subrange(i0, t.len() as int) =~= s.subrange(i0 + 1, s.len() as int));
        assert forall|k: int| 0 <= k < i0 + 1 implies is_white_space(#[trigger] s[k]) by {
            if k > 0 {
                assert(s[k] == t[k - 1]);
            }
        }
        if i0 + 1 < s.len() {
            assert(s[i0 + 1] == t[i0]);
        }
        i0 + 1
    } else {
        assert(s.subrange(0, s.len() as int) =~= s);
        0
    }
}

proof fn lemma_trim_end_shape(s: Seq<char>) -> (j: int)
    ensures
        0 <= j <= s.len(),
        trim_end_seq(s) == s.subrange(0, j),
        forall|k: int| j <= k < s.len() ==> is_white_space(#[trigger] s[k]),
        j > 0 ==> !is_white_space(s[j - 1]),
    decreases s.len(),
{
    if s.len() > 0 && is_white_space(s.last()) {
        let t = s.drop_last();
        let j0 = lemma_trim_end_shape(t);
        assert(t.subrange(0, j0) =~= s.subrange(0, j0));
        assert forall|k: int| j0 <= k < s.len() implies is_white_space(#[trigger] s[k]) by {
            if k < s.len() - 1 {
                assert(s[k] == t[k]);
            }
        }
        if j0 > 0 {
            assert(s[j0 - 1] == t[j0 - 1]);
        }
        j0
    } else {
        assert(s.subrange(0, s.len() as int) =~= s);
        s.len() as int
    }
}

/// `trim_start` removes exactly the leading white space: the result is the
/// rest of the text from the first character that is not white space.
pub proof fn law_trim_start_removes_leading_white_space(s: Seq<char>)
    ensures
        exists|i: int|
            #![trigger s.subrange(i, s.len() as int)]
            0 <= i <= s.len() && trim_start_seq(s) == s.subrange(i, s.len() as int) && (forall|
                k: int,
            |
                0 <= k < i ==> is_white_space(#[trigger] s[k])) && (i < s.len() ==> !is_white_space(
                s[i],
            )),
{
    let i = lemma_trim_start_shape(s);
    assert(trim_start_seq(s) == s.subrange(i, s.len() as int));
}

/// `trim_end` removes exactly the trailing white space: the result is the text
/// up to and with the last character that is not white space.
pub proof fn law_trim_end_removes_trailing_white_space(s: Seq<char>)
    ensures
        exists|j: int|
            #![trigger s.subrange(0, j)]
            0 <= j <= s.len() && trim_end_seq(s) == s.subrange(0, j) && (forall|k: int|
                j <= k < s.len() ==> is_white_space(#[trigger] s[k])) && (j > 0
                ==> !is_white_space(s[j - 1])),
{
    let j = lemma_trim_end_shape(s);
    assert(trim_end_seq(s) == s.subrange(0, j));
}

/// `trim` removes exactly the white space at both ends: the result is the
/// stretch of the text between the first and the last character that is not
/// white space, and it is empty exactly when the whole text is white space.
pub proof fn law_trim_removes_outer_white_space(s: Seq<char>)
    ensures
        exists|i: int, j: int|
            #![trigger s.subrange(i, j)]
            0 <= i <= j <= s.len() && trim_seq(s) == s.subrange(i, j) && (forall|k: int|
                0 <= k < i ==> is_white_space(#[trigger] s[k])) && (forall|k: int|
                j <= k < s.len() ==> is_white_space(#[trigger] s[k])) && (i < j ==> !is_white_space(
                s[i]) && !is_white_space(s[j - 1])),
        trim_seq(s).len() == 0 <==> (forall|k: int| 0 <= k < s.len() ==> is_white_space(
            #[trigger] s[k],
        )),
{
    let i = lemma_trim_start_shape(s);
    let t = s.subrange(i, s.len() as int);
    let j0 = lemma_trim_end_shape(t);
    let j = i + j0;
    assert(t.subrange(0, j0) =~= s.subrange(i, j));
    assert forall|k: int| j <= k < s.len() implies is_white_space(#[trigger] s[k]) by {
        assert(s[k] == t[k - i]);
    }
    if i < j {
        assert(s[j - 1] == t[j0 - 1]);
    }
    assert(trim_seq(s) == s.subrange(i, j));
    if trim_seq(s).len() == 0 {
        assert forall|k: int| 0 <= k < s.len() implies is_white_space(#[trigger] s[k]) by {
            if k >= i {
                assert(j == i);
            }
        }
    }
    if forall|k: int| 0 <= k < s.len() ==> is_white_space(#[trigger] s[k]) {
        if i < j {
            assert(is_white_space(s[i]));
        }
    }
}

/// `s` without its trailing `c` characters, as `str::trim_end_matches(c)` returns it.
pub open spec fn strip_trailing_seq(s: Seq<char>, c: char) -> Seq<char>
    decreases s.len(),
{
    if s.len() > 0 && s.last() == c {
        strip_trailing_seq(s.drop_last(), c)
    } else {
        s
    }
}

/// Dropping the last characters from index `j` on, all of them `c`, does not
/// change what `strip_trailing_seq` yields.
proof fn lemma_strip_trailing_cut(s: Seq<char>, c: char, j: int)
    requires
        0 <= j <= s.len(),
        forall|k: int| j <= k < s.len() ==> #[trigger] s[k] == c,
    ensures
        strip_trailing_seq(s, c) == strip_trailing_seq(s.subrange(0, j), c),
    decreases s.len() - j,
{
    if j < s.len() {
        let t = s.drop_last();
        assert(t =~= s.subrange(0, s.len() - 1));
        assert(s[s.len() - 1] == c);
        assert forall|k: int| j <= k < t.len() implies #[trigger] t[k] == c by {
            assert(t[k] == s[k]);
        }
        lemma_strip_trailing_cut(t, c, j);
        assert(t.subrange(0, j) =~= s.subrange(0, j));
    } else {
        assert(s.subrange(0, j) =~= s);
    }
}

proof fn lemma_strip_trailing_last(s: Seq<char>, c: char)
    ensures
        strip_trailing_seq(s, c).len() > 0 ==> strip_trailing_seq(s, c).last() != c,
    decreases s.len(),
{
    if s.len() > 0 && s.last() == c {
        lemma_strip_trailing_last(s.drop_last(), c);
    }
}

/// After `strip_trailing`, the text no longer ends in the stripped character,
/// and stripping again changes nothing.
pub proof fn law_strip_trailing_is_complete(s: Seq<char>, c: char)
    ensures
        strip_trailing_seq(s, c).len() > 0 ==> strip_trailing_seq(s, c).last() != c,
        strip_trailing_seq(strip_trailing_seq(s, c), c) == strip_trailing_seq(s, c),
{
    lemma_strip_trailing_last(s, c);
}

proof fn lemma_strip_trailing_shape(s: Seq<char>, c: char) -> (j: int)
    ensures
        0 <= j <= s.len(),
        strip_trailing_seq(s, c) == s.subrange(0, j),
        forall|k: int| j <= k < s.len() ==> #[trigger] s[k] == c,
        j > 0 ==> s[j - 1] != c,
    decreases s.len(),
{
    if s.len() > 0 && s.last() == c {
        let t = s.drop_last();
        let j0 = lemma_strip_trailing_shape(t, c);
        assert(t.subrange(0, j0) =~= s.subrange(0, j0));
        assert forall|k: int| j0 <= k < s.len() implies #[trigger] s[k] == c by {
            if k < s.len() - 1 {
                assert(s[k] == t[k]);
            }
        }
        if j0 > 0 {
            assert(s[j0 - 1] == t[j0 - 1]);
        }
        j0
    } else {
        assert(s.subrange(0, s.len() as int) =~= s);
        s.len() as int
    }
}

/// `strip_trailing` removes exactly the run of `c` at the end of the text.
pub proof fn law_strip_trailing_removes_trailing_run(s: Seq<char>, c: char)
    ensures
        exists|j: int|
            #![trigger s.subrange(0, j)]
            0 <= j <= s.len() && strip_trailing_seq(s, c) == s.subrange(0, j) && (forall|k: int|
                j <= k < s.len() ==> #[trigger] s[k] == c) && (j > 0 ==> s[j - 1] != c),
{
    let j = lemma_strip_trailing_shape(s, c);
    assert(strip_trailing_seq(s, c) == s.subrange(0, j));
}

/// `s` without its trailing `c` characters.
pub fn strip_trailing(s: &str, c: char) -> (r: &str)
    ensures
        r@ == strip_trailing_seq(s@, c),
{
    let n = s.unicode_len();
    let mut j: usize = n;
    while j > 0 && s.get_char(j - 1) == c
        invariant
            n == s@.len(),
            j <= n,
            forall|k: int| j <= k < n ==> #[trigger] s@[k] == c,
        decreases j,
    {
        j = j - 1;
    }
    proof {
        lemma_strip_trailing_cut(s@, c, j as int);
        let t = s@.subrange(0, j as int);
        if j > 0 {
            assert(t.last() == s@[j - 1]);
        }
    }
    s.substring_char(0, j)
}

/// Whether `a` and `b` hold the same characters.
pub fn str_eq(a: &str, b: &str) -> (r: bool)
    ensures
        r == (a@ == b@),
{
    let n = a.unicode_len();
    let m = b.unicode_len();
    if n != m {
        return false;
    }
    let mut i: usize = 0;
    while i < n
        invariant
            n == a@.len(),
            m == b@.len(),
            n == m,
            i <= n,
            forall|k: int| 0 <= k < i ==> a@[k] == b@[k],
        decreases n - i,
    {
        if a.get_char(i) != b.get_char(i) {
            return false;
        }
        i = i + 1;
    }
    assert(a@ =~= b@);
    true
}

} // verus!
