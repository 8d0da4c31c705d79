use vstd::prelude::*;

verus! {

broadcast use vstd::string::axiom_spec_iter, vstd::string::next_postcondition;

/// The characters with the Unicode `White_Space` property, the ones that
/// `str::trim_start` and `char::is_whitespace` treat as whitespace.
pub open spec fn is_white_space(c: char) -> bool {
    let n = c as u32;
    ||| 0x9 <= n <= 0xd
    ||| n == 0x20
    ||| n == 0x85
    ||| n == 0xa0
    ||| n == 0x1680
    ||| 0x2000 <= n <= 0x200a
    ||| n == 0x2028
    ||| n == 0x2029
    ||| n == 0x202f
    ||| n == 0x205f
    ||| n == 0x3000
}

/// `s` without its leading whitespace.
pub open spec fn trim_ws(s: Seq<char>) -> Seq<char>
    decreases s.len(),
{
    if s.len() > 0 && is_white_space(s[0]) {
        trim_ws(s.drop_first())
    } else {
        s
    }
}

/// Trimming leading whitespace keeps a suffix of the text.
pub proof fn lemma_trim_ws_suffix(s: Seq<char>)
    ensures
        trim_ws(s).is_suffix_of(s),
    decreases s.len(),
{
    if s.len() > 0 && is_white_space(s[0]) {
        lemma_trim_ws_suffix(s.drop_first());
        assert(trim_ws(s).is_suffix_of(s));
    }
}

/// Wraps `str::trim_start`, which drops the leading characters with the
/// Unicode `White_Space` property; the contract states exactly that.
#[verifier::external_body]
pub(crate) fn trim_start(s: &str) -> (r: &str)
    ensures
        r@ == trim_ws(s@),
{
    s.trim_start()
}

/// Wraps `str::strip_prefix` with a string pattern: the rest of `s` after
/// `prefix` when `s` starts with `prefix`, and `None` otherwise.
#[verifier::external_body]
pub(crate) fn strip_prefix<'a>(s: &'a str, prefix: &str) -> (r: Option<&'a str>)
    ensures
        r is Some <==> prefix@.is_prefix_of(s@),
        r matches Some(rest) ==> rest@ == s@.skip(prefix@.len() as int),
{
    s.strip_prefix(prefix)
}

/// Wraps `str::strip_prefix` with a `char` pattern: the rest of `s` after its
/// first character when that character is `c`, and `None` otherwise.
#[verifier::external_body]
pub(crate) fn strip_prefix_char(s: &str, c: char) -> (r: Option<&str>)
    ensures
        r is Some <==> (s@.len() > 0 && s@[0] == c),
        r matches Some(rest) ==> rest@ == s@.drop_first(),
{
    s.strip_prefix(c)
}

/// Wraps `String::push`, which appends one character.
#[verifier::external_body]
pub(crate) fn push_char(s: &mut String, c: char)
    ensures
        final(s)@ == old(s)@.push(c),
{
    s.push(c)
}

/// The first character of `s` and the text after it, or `None` when `s` is
/// empty.
pub(crate) fn split_first(s: &str) -> (r: Option<(char, &str)>)
    ensures
        r is None <==> s@.len() == 0,
        r matches Some((c, rest)) ==> s@.len() > 0 && c == s@[0] && rest@ == s@.drop_first(),
{
    let mut it = s.chars();
    match it.next() {
        None => None,
        Some(c) => match strip_prefix_char(s, c) {
            Some(rest) => Some((c, rest)),
            None => None,
        },
    }
}

} // verus!

verus! {

/// A suffix of a suffix is a suffix.
pub proof fn lemma_suffix_trans(a: Seq<char>, b: Seq<char>, c: Seq<char>)
    requires
        a.is_suffix_of(b),
        b.is_suffix_of(c),
    ensures
        a.is_suffix_of(c),
{
    assert(a =~= c.subrange(c.len() - a.len(), c.len() as int));
}

} // verus!

verus! {

/// The text before the first `c` in `s` and the text after it, or `None`
/// when `c` does not occur in `s`.
pub open spec fn split_at_first(s: Seq<char>, c: char) -> Option<(Seq<char>, Seq<char>)>
    decreases s.len(),
{
    if s.len() == 0 {
        None
    } else if s[0] == c {
        Some((Seq::empty(), s.drop_first()))
    } else {
        match split_at_first(s.drop_first(), c) {
            Some((before, after)) => Some((seq![s[0]] + before, after)),
            None => None,
        }
    }
}

/// Wraps `str::split_once` with a `char` pattern, which splits `s` at the
/// first occurrence of `c`.
#[verifier::external_body]
pub(crate) fn split_once_char(s: &str, c: char) -> (r: Option<(&str, &str)>)
    ensures
        r is Some <==> split_at_first(s@, c) is Some,
        r matches Some((before, after)) ==> split_at_first(s@, c) == Some((before@, after@)),
{
    s.split_once(c)
}

/// Wraps `str::ends_with` with a `char` pattern: whether the last character
/// of `s` is `c`.
#[verifier::external_body]
pub(crate) fn ends_with_char(s: &str, c: char) -> (r: bool)
    ensures
        r == (s@.len() > 0 && s@.last() == c),
{
    s.ends_with(c)
}

/// Splitting at the first `c` keeps the text around it.
pub proof fn lemma_split_at_first(s: Seq<char>, c: char)
    ensures
        split_at_first(s, c) matches Some((before, after)) ==> {
            &&& s =~= before + seq![c] + after
            &&& !before.contains(c)
        },
    decreases s.len(),
{
    if s.len() > 0 && s[0] != c {
        lemma_split_at_first(s.drop_first(), c);
        if let Some((before, after)) = split_at_first(s.drop_first(), c) {
            assert(s =~= seq![s[0]] + s.drop_first());
            assert(!(seq![s[0]] + before).contains(c)) by {
                if (seq![s[0]] + before).contains(c) {
                    let i = choose|i: int| 0 <= i < (seq![s[0]] + before).len() && (seq![s[0]] + before)[i] == c;
                    if i > 0 {
                        assert(before[i - 1] == c);
                    }
                }
            }
        }
    }
}

} // verus!
