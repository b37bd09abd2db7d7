//! Text as sequences of characters: the pieces of `std`'s string API that the
//! parser and the renderer build on.

use vstd::prelude::*;
use vstd::string::*;

verus! {

/// Whether `c` is white space in Unicode's sense (the `White_Space` property).
/// This is the test that `str::trim` and `str::trim_end` apply to each character.
pub uninterp spec fn white_space(c: char) -> bool;

/// `s` without the white space at its end.
pub open spec fn trim_end_of(s: Seq<char>) -> Seq<char>
    decreases s.len(),
{
    if s.len() > 0 && white_space(s.last()) {
        trim_end_of(s.drop_last())
    } else {
        s
    }
}

/// `s` without the white space at its start.
pub open spec fn trim_start_of(s: Seq<char>) -> Seq<char>
    decreases s.len(),
{
    if s.len() > 0 && white_space(s.first()) {
        trim_start_of(s.drop_first())
    } else {
        s
    }
}

/// `s` without the white space at either end.
pub open spec fn trim_of(s: Seq<char>) -> Seq<char> {
    trim_start_of(trim_end_of(s))
}

/// Calls `str::trim_end`. Trusted: the result is the start of `s`, it does not
/// end in white space, and all that follows it in `s` is white space.
#[verifier::external_body]
fn std_trim_end(s: &str) -> (r: &str)
    ensures
        r@.is_prefix_of(s@),
        r@.len() > 0 ==> !white_space(r@.last()),
        forall|i: int| r@.len() <= i < s@.len() ==> white_space(#[trigger] s@[i]),
{
    s.trim_end()
}

/// Calls `str::trim`. Trusted: the result is a stretch of `s` that neither
/// starts nor ends in white space, and all of `s` around it is white space.
#[verifier::external_body]
fn std_trim(s: &str) -> (r: &str)
    ensures
        r@.len() > 0 ==> !white_space(r@.first()) && !white_space(r@.last()),
        (exists|start: int|
            0 <= start <= s@.len() - r@.len() && r@ == #[trigger] s@.subrange(
                start,
                start + r@.len(),
            ) && (forall|i: int|
                0 <= i < s@.len() && !(start <= i < start + r@.len()) ==> white_space(
                    #[trigger] s@[i],
                ))),
{
    s.trim()
}

/// Calls `str::starts_with` with a string pattern. Trusted: the result says
/// whether the characters of `prefix` are the first characters of `s`.
#[verifier::external_body]
pub(crate) fn starts_with(s: &str, prefix: &str) -> (b: bool)
    ensures
        b == prefix@.is_prefix_of(s@),
{
    s.starts_with(prefix)
}

/// Where the white space at the end of `s` begins is where `trim_end_of` cuts.
pub proof fn lemma_trim_end_at(s: Seq<char>, end: int)
    requires
        0 <= end <= s.len(),
        forall|i: int| end <= i < s.len() ==> white_space(#[trigger] s[i]),
        end > 0 ==> !white_space(s[end - 1]),
    ensures
        trim_end_of(s) == s.take(end),
    decreases s.len(),
{
    if end < s.len() {
        let shorter = s.drop_last();
        lemma_trim_end_at(shorter, end);
        assert(shorter.take(end) =~= s.take(end));
    } else {
        assert(s.take(end) =~= s);
    }
}

/// Where the white space at the start of `s` ends is where `trim_start_of` cuts.
pub proof fn lemma_trim_start_at(s: Seq<char>, start: int)
    requires
        0 <= start <= s.len(),
        forall|i: int| 0 <= i < start ==> white_space(#[trigger] s[i]),
        start < s.len() ==> !white_space(s[start]),
    ensures
        trim_start_of(s) == s.skip(start),
    decreases s.len(),
{
    if start > 0 {
        let shorter = s.drop_first();
        assert forall|i: int| 0 <= i < start - 1 implies white_space(#[trigger] shorter[i]) by {
            assert(shorter[i] == s[i + 1]);
        }
        lemma_trim_start_at(shorter, start - 1);
        assert(shorter.skip(start - 1) =~= s.skip(start));
    } else {
        assert(s.skip(0) =~= s);
    }
}

/// `s` without the white space at its end.
pub fn trim_end(s: &str) -> (r: &str)
    ensures
        r@ == trim_end_of(s@),
{
    let r = std_trim_end(s);
    proof {
        lemma_trim_end_at(s@, r@.len() as int);
    }
    r
}

/// `s` without the white space at either end.
pub fn trim(s: &str) -> (r: &str)
    ensures
        r@ == trim_of(s@),
{
    let r = std_trim(s);
    proof {
        let start = choose|start: int|
            0 <= start <= s@.len() - r@.len() && r@ == #[trigger] s@.subrange(
                start,
                start + r@.len(),
            ) && (forall|i: int|
                0 <= i < s@.len() && !(start <= i < start + r@.len()) ==> white_space(
                    #[trigger] s@[i],
                ));
        let end = start + r@.len();
        if start < end {
            assert(r@.first() == s@[start] && r@.last() == s@[end - 1]);
            lemma_trim_end_at(s@, end);
            let head = s@.take(end);
            assert forall|i: int| 0 <= i < start implies white_space(#[trigger] head[i]) by {
                assert(head[i] == s@[i]);
            }
            lemma_trim_start_at(head, start);
            assert(head.skip(start) =~= s@.subrange(start, end));
        } else {
            lemma_trim_end_at(s@, 0);
            assert(s@.take(0) =~= Seq::<char>::empty());
            assert(s@.subrange(start, end) =~= Seq::<char>::empty());
        }
    }
    r
}

/// The characters of `s`, in order.
pub fn to_chars(s: &str) -> (chars: Vec<char>)
    ensures
        chars@ == s@,
{
    let mut chars: Vec<char> = Vec::new();
    for c in it: s.chars()
        invariant
            chars@ == it.seq().take(it.index() as int),
            it.seq() == s@,
    {
        chars.push(c);
    }
    chars
}

} // verus!
