//! Text helpers shared by the wire codec and the status renderers.

use vstd::prelude::*;

verus! {

/// Whether `c` is white space as Unicode defines it (`White_Space`).
pub open spec fn is_white_space(c: char) -> bool {
    let u = c as u32;
    ||| 0x09 <= u <= 0x0D
    ||| u == 0x20
    ||| u == 0x85
    ||| u == 0xA0
    ||| u == 0x1680
    ||| 0x2000 <= u <= 0x200A
    ||| u == 0x2028
    ||| u == 0x2029
    ||| u == 0x202F
    ||| u == 0x205F
    ||| u == 0x3000
}

/// `s` without its leading white space.
pub open spec fn trim_start(s: Seq<char>) -> Seq<char>
    decreases s.len(),
{
    if s.len() > 0 && is_white_space(s[0]) {
        trim_start(s.drop_first())
    } else {
        s
    }
}

/// `s` without its trailing white space.
pub open spec fn trim_end(s: Seq<char>) -> Seq<char>
    decreases s.len(),
{
    if s.len() > 0 && is_white_space(s.last()) {
        trim_end(s.drop_last())
    } else {
        s
    }
}

/// `s` without leading and trailing white space.
pub open spec fn trimmed(s: Seq<char>) -> Seq<char> {
    trim_end(trim_start(s))
}

/// Whether `needle` occurs in `hay` as a contiguous run of characters.
pub open spec fn occurs_in(needle: Seq<char>, hay: Seq<char>) -> bool {
    exists|i: int|
        0 <= i && i + needle.len() <= hay.len() && #[trigger] hay.subrange(
            i,
            i + needle.len() as int,
        ) == needle
}

/// Decides `is_white_space` for one character.
pub fn white_space(c: char) -> (b: bool)
    ensures
        b == is_white_space(c),
{
    let u = c as u32;
    (0x09 <= u && u <= 0x0D) || u == 0x20 || u == 0x85 || u == 0xA0 || u == 0x1680 || (0x2000 <= u
        && u <= 0x200A) || u == 0x2028 || u == 0x2029 || u == 0x202F || u == 0x205F || u == 0x3000
}

/// What `String::from_utf8_lossy` makes of a run of bytes: the text they
/// encode, with each malformed stretch replaced by U+FFFD.
pub uninterp spec fn utf8_lossy(bytes: Seq<u8>) -> Seq<char>;

/// Calls `String::from_utf8_lossy` and takes ownership of what it returns.
/// The result is a function of the bytes alone; the contract gives it the
/// name `utf8_lossy` and claims nothing else of it.
#[verifier::external_body]
pub(crate) fn from_utf8_lossy(bytes: &[u8]) -> (r: String)
    ensures
        r@ == utf8_lossy(bytes@),
{
    String::from_utf8_lossy(bytes).into_owned()
}

/// Calls `str::contains` with a string pattern, which the standard library
/// documents as true exactly when the pattern matches a sub-slice of the
/// text.
#[verifier::external_body]
pub(crate) fn str_contains(hay: &str, needle: &str) -> (b: bool)
    ensures
        b == occurs_in(needle@, hay@),
{
    hay.contains(needle)
}

proof fn lemma_trim_start_skip(s: Seq<char>, i: int)
    requires
        0 <= i < s.len(),
        is_white_space(s[i]),
    ensures
        trim_start(s.skip(i)) == trim_start(s.skip(i + 1)),
{
    assert(s.skip(i).drop_first() =~= s.skip(i + 1));
}

proof fn lemma_trim_end_take(s: Seq<char>, i: int, j: int)
    requires
        0 <= i < j <= s.len(),
        is_white_space(s[j - 1]),
    ensures
        trim_end(s.subrange(i, j)) == trim_end(s.subrange(i, j - 1)),
{
    assert(s.subrange(i, j).drop_last() =~= s.subrange(i, j - 1));
}

/// Whether `text`, with the white space at both ends removed, is exactly
/// `token`.
pub fn trimmed_eq(text: &str, token: &str) -> (b: bool)
    ensures
        b == (trimmed(text@) == token@),
{
    let n = text.unicode_len();
    let mut i: usize = 0;
    assert(text@.skip(0) =~= text@);
    while i < n && white_space(text.get_char(i))
        invariant
            i <= n,
            n == text@.len(),
            trim_start(text@) == trim_start(text@.skip(i as int)),
        decreases n - i,
    {
        proof {
            lemma_trim_start_skip(text@, i as int);
        }
        i += 1;
    }
    assert(trim_start(text@) == text@.skip(i as int));
    assert(text@.skip(i as int) =~= text@.subrange(i as int, n as int));
    let mut j: usize = n;
    while j > i && white_space(text.get_char(j - 1))
        invariant
            i <= j <= n,
            n == text@.len(),
            trim_end(text@.subrange(i as int, n as int)) == trim_end(
                text@.subrange(i as int, j as int),
            ),
        decreases j,
    {
        proof {
            lemma_trim_end_take(text@, i as int, j as int);
        }
        j -= 1;
    }
    let ghost core = text@.subrange(i as int, j as int);
    assert(trimmed(text@) == core);
    let m = token.unicode_len();
    if j - i != m {
        return false;
    }
    let mut k: usize = 0;
    while k < m
        invariant
            k <= m,
            m == token@.len(),
            n == text@.len(),
            i <= j <= n,
            j - i == m,
            core == text@.subrange(i as int, j as int),
            trimmed(text@) == core,
            forall|t: int| 0 <= t < k ==> core[t] == token@[t],
        decreases m - k,
    {
        if text.get_char(i + k) != token.get_char(k) {
            assert(core[k as int] != token@[k as int]);
            return false;
        }
        k += 1;
    }
    assert(core =~= token@);
    true
}

/// Trimming leaves alone a text that neither starts nor ends with white
/// space.
pub proof fn lemma_trim_is_identity_without_margins(s: Seq<char>)
    requires
        s.len() > 0 ==> !is_white_space(s[0]) && !is_white_space(s.last()),
    ensures
        trimmed(s) == s,
{
}

/// Trimming is idempotent, and what it leaves neither starts nor ends with
/// white space.
pub proof fn lemma_trimmed_has_no_margins(s: Seq<char>)
    ensures
        trimmed(s).len() > 0 ==> !is_white_space(trimmed(s)[0]) && !is_white_space(
            trimmed(s).last(),
        ),
        trimmed(trimmed(s)) == trimmed(s),
        trimmed(s).len() <= s.len(),
{
    lemma_trim_start_shape(s);
    lemma_trim_end_shape(trim_start(s));
    lemma_trim_is_identity_without_margins(trimmed(s));
}

proof fn lemma_trim_start_shape(s: Seq<char>)
    ensures
        trim_start(s).len() <= s.len(),
        trim_start(s).len() > 0 ==> !is_white_space(trim_start(s)[0]) && trim_start(s).last()
            == s.last(),
    decreases s.len(),
{
    if s.len() > 0 && is_white_space(s[0]) {
        lemma_trim_start_shape(s.drop_first());
    }
}

proof fn lemma_trim_end_shape(s: Seq<char>)
    ensures
        trim_end(s).len() <= s.len(),
        trim_end(s).len() > 0 ==> !is_white_space(trim_end(s).last()) && trim_end(s)[0] == s[0],
    decreases s.len(),
{
    if s.len() > 0 && is_white_space(s.last()) {
        lemma_trim_end_shape(s.drop_last());
    }
}

} // verus!
