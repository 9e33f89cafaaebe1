//! String operations of the standard library that the middleware needs,
//! each with the contract that its documentation gives.

use vstd::prelude::*;

verus! {

/// Whether `c` is white space as Unicode defines it, by the property
/// White_Space: the characters that `char::is_whitespace` tells and that
/// `str::trim` cuts.
pub open spec fn white_space(c: char) -> bool {
    ||| ('\u{9}' <= c && c <= '\u{d}')
    ||| c == ' '
    ||| c == '\u{85}'
    ||| c == '\u{a0}'
    ||| c == '\u{1680}'
    ||| ('\u{2000}' <= c && c <= '\u{200a}')
    ||| c == '\u{2028}'
    ||| c == '\u{2029}'
    ||| c == '\u{202f}'
    ||| c == '\u{205f}'
    ||| c == '\u{3000}'
}

/// The number of white-space characters that `s` starts with.
pub open spec fn leading_space(s: Seq<char>) -> nat
    decreases s.len(),
{
    if s.len() > 0 && white_space(s[0]) {
        1 + leading_space(s.skip(1))
    } else {
        0
    }
}

/// The number of white-space characters that `s` ends with.
pub open spec fn trailing_space(s: Seq<char>) -> nat
    decreases s.len(),
{
    if s.len() > 0 && white_space(s.last()) {
        1 + trailing_space(s.drop_last())
    } else {
        0
    }
}

/// What `str::trim` makes of a string: the string without the white space
/// it starts with and without the white space that the rest ends with.
pub open spec fn trimmed(s: Seq<char>) -> Seq<char> {
    let rest = s.skip(leading_space(s) as int);
    rest.take(rest.len() - trailing_space(rest))
}

/// The characters of an optional string.
pub open spec fn text_of(s: Option<&str>) -> Option<Seq<char>> {
    match s {
        Some(s) => Some(s@),
        None => None,
    }
}

/// Whether `c` occurs in `s` first at index `i`.
pub open spec fn first_at(s: Seq<char>, c: char, i: int) -> bool {
    &&& 0 <= i < s.len()
    &&& s[i] == c
    &&& !s.take(i).contains(c)
}

/// The part of `s` before the first `c`, or all of `s` where it holds none.
pub open spec fn before_first(s: Seq<char>, c: char) -> Seq<char> {
    if s.contains(c) {
        s.take(choose|i: int| first_at(s, c, i))
    } else {
        s
    }
}

/// Calls `==` on two string slices: true exactly when they hold the same
/// characters.
#[verifier::external_body]
pub(crate) fn same_text(a: &str, b: &str) -> (same: bool)
    ensures
        same == (a@ == b@),
{
    a == b
}

/// Calls `str::strip_prefix` with a string as the pattern: the rest of `s`
/// behind `prefix` where `s` starts with it, and nothing where it does not.
#[verifier::external_body]
pub(crate) fn strip_prefix<'a>(s: &'a str, prefix: &str) -> (rest: Option<&'a str>)
    ensures
        rest is Some <==> prefix@.is_prefix_of(s@),
        rest matches Some(r) ==> r@ == s@.skip(prefix@.len() as int),
{
    s.strip_prefix(prefix)
}

/// Calls `str::split_once` with a character as the delimiter: the parts of
/// `s` before and behind the first `delimiter`, and nothing where `s` holds
/// none.
#[verifier::external_body]
pub(crate) fn split_once<'a>(s: &'a str, delimiter: char) -> (parts: Option<(&'a str, &'a str)>)
    ensures
        parts is Some <==> s@.contains(delimiter),
        parts matches Some((head, tail)) ==> !head@.contains(delimiter) && s@ == head@ + seq![
            delimiter,
        ] + tail@,
{
    s.split_once(delimiter)
}

/// Calls `str::trim`: the string without its leading and trailing white
/// space, where white space is what Unicode's property White_Space says.
#[verifier::external_body]
pub(crate) fn trim<'a>(s: &'a str) -> (inner: &'a str)
    ensures
        inner@ == trimmed(s@),
{
    s.trim()
}

/// The white space that a string starts with is white space, stays within
/// the string, and ends before the first character that is none.
pub proof fn leading_space_is_white(s: Seq<char>)
    ensures
        leading_space(s) <= s.len(),
        forall|k: int| 0 <= k < leading_space(s) ==> white_space(#[trigger] s[k]),
        leading_space(s) < s.len() ==> !white_space(s[leading_space(s) as int]),
    decreases s.len(),
{
    if s.len() > 0 && white_space(s[0]) {
        let rest = s.skip(1);
        leading_space_is_white(rest);
        assert forall|k: int| 0 <= k < leading_space(s) implies white_space(#[trigger] s[k]) by {
            if k > 0 {
                assert(s[k] == rest[k - 1]);
            }
        }
        if leading_space(s) < s.len() {
            assert(s[leading_space(s) as int] == rest[leading_space(rest) as int]);
        }
    }
}

/// The white space that a string ends with is white space, stays within the
/// string, and starts behind the last character that is none.
pub proof fn trailing_space_is_white(s: Seq<char>)
    ensures
        trailing_space(s) <= s.len(),
        forall|k: int| s.len() - trailing_space(s) <= k < s.len() ==> white_space(#[trigger] s[k]),
        trailing_space(s) < s.len() ==> !white_space(s[s.len() - trailing_space(s) - 1]),
    decreases s.len(),
{
    if s.len() > 0 && white_space(s.last()) {
        let rest = s.drop_last();
        trailing_space_is_white(rest);
        assert forall|k: int| s.len() - trailing_space(s) <= k < s.len() implies white_space(
            #[trigger] s[k],
        ) by {
            if k < s.len() - 1 {
                assert(s[k] == rest[k]);
            }
        }
        if trailing_space(s) < s.len() {
            assert(s[s.len() - trailing_space(s) - 1] == rest[rest.len() - trailing_space(rest)
                - 1]);
        }
    }
}

/// Trimming cuts white space and nothing else: what is left is one
/// contiguous part of the string, all that stands before it and behind it
/// is white space, and it neither starts nor ends with white space.
pub proof fn trimmed_cuts_only_white_space(s: Seq<char>)
    ensures
        exists|from: int, to: int|
            0 <= from <= to <= s.len() && trimmed(s) == #[trigger] s.subrange(from, to) && (
            forall|k: int| 0 <= k < from ==> white_space(#[trigger] s[k])) && (forall|k: int|
                to <= k < s.len() ==> white_space(#[trigger] s[k])),
        trimmed(s).len() > 0 ==> !white_space(trimmed(s).first()) && !white_space(
            trimmed(s).last(),
        ),
{
    let from = leading_space(s) as int;
    leading_space_is_white(s);
    let rest = s.skip(from);
    trailing_space_is_white(rest);
    let to = s.len() - trailing_space(rest);
    assert(trimmed(s) =~= s.subrange(from, to));
    assert forall|k: int| to <= k < s.len() implies white_space(#[trigger] s[k]) by {
        assert(s[k] == rest[k - from]);
    }
    if trimmed(s).len() > 0 {
        assert(trimmed(s).first() == s[from]);
        assert(trimmed(s).last() == rest[rest.len() - trailing_space(rest) - 1]);
    }
}

/// The part that `split_once` puts before the delimiter is the part before
/// its first occurrence.
pub proof fn head_is_before_first(s: Seq<char>, c: char, head: Seq<char>, tail: Seq<char>)
    requires
        !head.contains(c),
        s == head + seq![c] + tail,
    ensures
        s.contains(c),
        before_first(s, c) == head,
{
    let n = head.len() as int;
    assert(s[n] == c);
    assert(s.take(n) =~= head);
    assert(first_at(s, c, n));
    let i = choose|i: int| first_at(s, c, i);
    assert(first_at(s, c, i));
    if i < n {
        assert(head[i] == c);
    }
    if n < i {
        assert(s.take(i)[n] == c);
    }
    assert(s.take(i) =~= head);
}

} // verus!
