use vstd::prelude::*;

use super::text::{
    ends_with_char, lemma_split_at_first, lemma_suffix_trans, lemma_trim_ws_suffix,
    push_char, split_at_first, split_first, split_once_char, strip_prefix, strip_prefix_char,
    trim_start, trim_ws,
};
use super::{Mapper, Model, Parser, outcome_of};

verus! {

// ---------------------------------------------------------------------------
// Quoting
// ---------------------------------------------------------------------------

/// A character as it stands inside quotes: a backslash or a quote gets a
/// backslash in front of it.
pub open spec fn escape_char(c: char) -> Seq<char> {
    if c == '\\' || c == '"' {
        seq!['\\', c]
    } else {
        seq![c]
    }
}

/// `s` with each character escaped.
pub open spec fn escaped(s: Seq<char>) -> Seq<char>
    decreases s.len(),
{
    if s.len() == 0 {
        Seq::empty()
    } else {
        escaped(s.drop_last()) + escape_char(s.last())
    }
}

/// `s` escaped and wrapped in quotes.
pub open spec fn quoted(s: Seq<char>) -> Seq<char> {
    seq!['"'] + escaped(s) + seq!['"']
}

/// Wrap a string in quotes, escaping the quotes (and backslashes) it already
/// holds
pub fn quote(input: &str) -> (r: String)
    ensures
        r@ == quoted(input@),
{
    let mut result = String::new();
    push_char(&mut result, '"');
    let mut rest = input;
    let ghost mut done: Seq<char> = Seq::empty();
    loop
        invariant
            input@ == done + rest@,
            result@ == seq!['"'] + escaped(done),
        ensures
            result@ == seq!['"'] + escaped(input@),
        decreases rest@.len(),
    {
        match split_first(rest) {
            None => {
                assert(done =~= input@);
                break ;
            },
            Some((c, tail)) => {
                if c == '\\' || c == '"' {
                    push_char(&mut result, '\\');
                }
                push_char(&mut result, c);
                proof {
                    let next = done.push(c);
                    assert(next.drop_last() =~= done);
                    assert(result@ =~= seq!['"'] + escaped(next));
                    assert(input@ =~= next + tail@);
                    done = next;
                }
                rest = tail;
            },
        }
    }
    push_char(&mut result, '"');
    assert(result@ =~= quoted(input@));
    result
}

/// `p` put in front of the value of a successful outcome.
pub open spec fn with_prefix(p: Seq<char>, o: Option<(Seq<char>, Seq<char>)>) -> Option<
    (Seq<char>, Seq<char>),
> {
    match o {
        Some((rest, v)) => Some((rest, p + v)),
        None => None,
    }
}

/// Reading the inside of a quoted string up to its closing quote: the text
/// after the closing quote and the unescaped content, or `None` when the
/// text ends first. `escaped_now` says that the previous character was an
/// escaping backslash.
pub open spec fn unquote_body(s: Seq<char>, escaped_now: bool) -> Option<(Seq<char>, Seq<char>)>
    decreases s.len(),
{
    if s.len() == 0 {
        None
    } else {
        let c = s[0];
        let t = s.drop_first();
        if !escaped_now && c == '\\' {
            unquote_body(t, true)
        } else if !escaped_now && c == '"' {
            Some((t, Seq::empty()))
        } else {
            with_prefix(seq![c], unquote_body(t, false))
        }
    }
}

/// What follows the closing quote is a suffix of the text.
pub proof fn lemma_unquote_body_suffix(s: Seq<char>, escaped_now: bool)
    ensures
        unquote_body(s, escaped_now) matches Some((rest, _)) ==> rest.is_suffix_of(s),
    decreases s.len(),
{
    if s.len() > 0 {
        let t = s.drop_first();
        lemma_unquote_body_suffix(t, true);
        lemma_unquote_body_suffix(t, false);
        assert(t.is_suffix_of(s));
        if let Some((rest, _)) = unquote_body(s, escaped_now) {
            if rest != t {
                lemma_suffix_trans(rest, t, s);
            }
        }
    }
}

/// What [`do_unquote`] gives for a text: the text after the quoted string and
/// its unescaped content, or `None` when the text does not start with a
/// complete quoted string.
pub open spec fn unquoted(s: Seq<char>) -> Option<(Seq<char>, Seq<char>)> {
    if s.len() > 0 && s[0] == '"' {
        unquote_body(s.drop_first(), false)
    } else {
        None
    }
}

/// Parse a string that was earlier [wrapped in quotes](quote)
// `"abc\"def\\ghi"nice` -> (`abc"def\ghi`, `nice`)
pub fn do_unquote(input: &str) -> (r: Result<(&str, String), ()>)
    ensures
        outcome_of(r) == unquoted(input@),
{
    let mut rest = match strip_prefix_char(input, '"') {
        Some(rest) => rest,
        None => return Err(()),
    };
    let mut result = String::new();
    let mut escaped_now = false;
    loop
        invariant
            unquoted(input@) == with_prefix(result@, unquote_body(rest@, escaped_now)),
        decreases rest@.len(),
    {
        match split_first(rest) {
            None => {
                return Err(());
            },
            Some((c, tail)) => {
                let ghost prev = result@;
                assert(rest@.drop_first() == tail@);
                if escaped_now {
                    push_char(&mut result, c);
                    escaped_now = false;
                } else if c == '\\' {
                    escaped_now = true;
                } else if c == '"' {
                    assert(prev + Seq::<char>::empty() =~= prev);
                    return Ok((tail, result));
                } else {
                    push_char(&mut result, c);
                }
                proof {
                    if let Some((r0, v0)) = unquote_body(tail@, escaped_now) {
                        assert(prev + (seq![c] + v0) =~= prev.push(c) + v0);
                    }
                }
                rest = tail;
            },
        }
    }
}

/// What [`do_unquote_non_escaped`] gives for a text: the text after the second
/// quote and the content between the first two quotes, or `None` when the
/// text does not start with a quote, holds no second quote, the content is
/// empty or it ends in a backslash.
pub open spec fn unquoted_non_escaped(s: Seq<char>) -> Option<(Seq<char>, Seq<char>)> {
    if s.len() > 0 && s[0] == '"' {
        match split_at_first(s.drop_first(), '"') {
            Some((content, rest)) => if content.len() == 0 || content.last() == '\\' {
                None
            } else {
                Some((rest, content))
            },
            None => None,
        }
    } else {
        None
    }
}

/// Parse a string wrapped in quotes (a shorter version of [`do_unquote`]
/// where nested quotes are not provided for)
pub fn do_unquote_non_escaped(input: &str) -> (r: Result<(&str, &str), ()>)
    ensures
        match r {
            Ok((rest, content)) => unquoted_non_escaped(input@) == Some((rest@, content@)),
            Err(()) => unquoted_non_escaped(input@) is None,
        },
{
    let input = match strip_prefix_char(input, '"') {
        Some(rest) => rest,
        None => return Err(()),
    };
    let (content, rest) = match split_once_char(input, '"') {
        Some(parts) => parts,
        None => return Err(()),
    };
    if content.is_empty() || ends_with_char(content, '\\') {
        return Err(());
    }
    Ok((rest, content))
}

/// Parser of quoted strings
#[derive(Debug, Clone)]
pub struct Unquote;

impl Parser for Unquote {
    type Dest = String;

    open spec fn spec_parse(&self, input: Seq<char>) -> Option<(Seq<char>, Seq<char>)> {
        unquoted(input)
    }

    proof fn lemma_parse_suffix(&self, input: Seq<char>) {
        if input.len() > 0 && input[0] == '"' {
            lemma_unquote_body_suffix(input.drop_first(), false);
        }
    }

    fn parse<'a>(&self, input: &'a str) -> (r: Result<(&'a str, String), ()>) {
        do_unquote(input)
    }
}

/// Constructor of [Unquote]
#[verifier::allow_in_spec]
pub fn unquote() -> Unquote
    returns
        Unquote,
{
    Unquote
}

/// Parser that gives back its whole input as it is
#[derive(Debug, Clone)]
pub struct AsIs;

impl Parser for AsIs {
    type Dest = String;

    open spec fn spec_parse(&self, input: Seq<char>) -> Option<(Seq<char>, Seq<char>)> {
        Some((Seq::empty(), input))
    }

    proof fn lemma_parse_suffix(&self, input: Seq<char>) {
        assert(Seq::<char>::empty() =~= input.subrange(input.len() as int, input.len() as int));
    }

    fn parse<'a>(&self, input: &'a str) -> (r: Result<(&'a str, String), ()>) {
        proof {
            reveal_strlit("");
        }
        Ok(("", input.to_owned()))
    }
}

// ---------------------------------------------------------------------------
// Constant strings
// ---------------------------------------------------------------------------

/// Parser of constant strings
/// (like `nom::bytes::complete::tag`)
#[derive(Debug, Clone)]
pub struct Tag {
    pub tag: &'static str,
}

impl Parser for Tag {
    type Dest = ();

    open spec fn spec_parse(&self, input: Seq<char>) -> Option<(Seq<char>, ())> {
        if self.tag@.is_prefix_of(input) {
            Some((input.skip(self.tag@.len() as int), ()))
        } else {
            None
        }
    }

    proof fn lemma_parse_suffix(&self, input: Seq<char>) {
    }

    fn parse<'a>(&self, input: &'a str) -> (r: Result<(&'a str, ()), ()>) {
        match strip_prefix(input, self.tag) {
            Some(rest) => Ok((rest, ())),
            None => Err(()),
        }
    }
}

/// Constructor of [Tag]
#[verifier::allow_in_spec]
pub fn tag(tag: &'static str) -> Tag
    returns
        (Tag { tag }),
{
    Tag { tag }
}

/// Parser of a [tag](Tag) wrapped in quotes
#[derive(Debug, Clone)]
pub struct QuotedTag(pub Tag);

impl Parser for QuotedTag {
    type Dest = ();

    open spec fn spec_parse(&self, input: Seq<char>) -> Option<(Seq<char>, ())> {
        match unquoted_non_escaped(input) {
            Some((rest, content)) => match self.0.spec_parse(content) {
                Some((left, _)) => if left.len() == 0 {
                    Some((rest, ()))
                } else {
                    None
                },
                None => None,
            },
            None => None,
        }
    }

    proof fn lemma_parse_suffix(&self, input: Seq<char>) {
        if input.len() > 0 && input[0] == '"' {
            lemma_split_at_first(input.drop_first(), '"');
            if let Some((content, rest)) = split_at_first(input.drop_first(), '"') {
                assert(input =~= seq!['"'] + input.drop_first());
                assert(input =~= seq!['"'] + content + seq!['"'] + rest);
                assert(rest =~= input.subrange(input.len() - rest.len(), input.len() as int));
            }
        }
    }

    fn parse<'a>(&self, input: &'a str) -> (r: Result<(&'a str, ()), ()>) {
        let (remaining, candidate) = do_unquote_non_escaped(input)?;
        let (left, _) = self.0.parse(candidate)?;
        if !left.is_empty() {
            return Err(());
        }
        Ok((remaining, ()))
    }
}

/// Constructor of [`QuotedTag`]
#[verifier::allow_in_spec]
pub fn quoted_tag(tag: &'static str) -> QuotedTag
    returns
        QuotedTag(Tag { tag }),
{
    QuotedTag(Tag { tag })
}

// ---------------------------------------------------------------------------
// Combinators
// ---------------------------------------------------------------------------

/// Passes the input without its leading whitespace on, and trims the
/// leading whitespace of what the inner parser leaves
#[derive(Debug, Clone)]
pub struct StripWhitespace<T> {
    pub parser: T,
}

impl<T: Parser> Parser for StripWhitespace<T> {
    type Dest = T::Dest;

    open spec fn spec_parse(&self, input: Seq<char>) -> Option<(Seq<char>, <T::Dest as Model>::M)> {
        match self.parser.spec_parse(trim_ws(input)) {
            Some((rest, v)) => Some((trim_ws(rest), v)),
            None => None,
        }
    }

    proof fn lemma_parse_suffix(&self, input: Seq<char>) {
        lemma_trim_ws_suffix(input);
        self.parser.lemma_parse_suffix(trim_ws(input));
        if let Some((rest, v)) = self.parser.spec_parse(trim_ws(input)) {
            lemma_trim_ws_suffix(rest);
            lemma_suffix_trans(trim_ws(rest), rest, trim_ws(input));
            lemma_suffix_trans(trim_ws(rest), trim_ws(input), input);
        }
    }

    fn parse<'a>(&self, input: &'a str) -> (r: Result<(&'a str, T::Dest), ()>) {
        match self.parser.parse(trim_start(input)) {
            Ok((rest, v)) => Ok((trim_start(rest), v)),
            Err(()) => Err(()),
        }
    }
}

/// Constructor of [`StripWhitespace`]
#[verifier::allow_in_spec]
pub fn strip_whitespace<T: Parser>(parser: T) -> StripWhitespace<T>
    returns
        (StripWhitespace { parser }),
{
    StripWhitespace { parser }
}

/// Parses what is wanted between a mandatory prefix and suffix that take
/// no part in the result: the prefix parser reads the input, the value
/// parser what it leaves, the suffix parser what that leaves. The value
/// parser's result is the result, and the text after the suffix is left
/// (like `delimited` from `nom`)
#[derive(Debug, Clone)]
pub struct Delimited<Prefix, T, Suffix> {
    pub prefix_to_ignore: Prefix,
    pub dest_parser: T,
    pub suffix_to_ignore: Suffix,
}

impl<Prefix, T, Suffix> Parser for Delimited<Prefix, T, Suffix> where
    Prefix: Parser,
    T: Parser,
    Suffix: Parser,
 {
    type Dest = T::Dest;

    open spec fn spec_parse(&self, input: Seq<char>) -> Option<(Seq<char>, <T::Dest as Model>::M)> {
        match self.prefix_to_ignore.spec_parse(input) {
            Some((r1, _)) => match self.dest_parser.spec_parse(r1) {
                Some((r2, v)) => match self.suffix_to_ignore.spec_parse(r2) {
                    Some((r3, _)) => Some((r3, v)),
                    None => None,
                },
                None => None,
            },
            None => None,
        }
    }

    proof fn lemma_parse_suffix(&self, input: Seq<char>) {
        self.prefix_to_ignore.lemma_parse_suffix(input);
        if let Some((r1, _)) = self.prefix_to_ignore.spec_parse(input) {
            self.dest_parser.lemma_parse_suffix(r1);
            if let Some((r2, v)) = self.dest_parser.spec_parse(r1) {
                self.suffix_to_ignore.lemma_parse_suffix(r2);
                if let Some((r3, _)) = self.suffix_to_ignore.spec_parse(r2) {
                    lemma_suffix_trans(r3, r2, r1);
                    lemma_suffix_trans(r3, r1, input);
                }
            }
        }
    }

    fn parse<'a>(&self, input: &'a str) -> (r: Result<(&'a str, T::Dest), ()>) {
        let (remaining, _) = self.prefix_to_ignore.parse(input)?;
        let (remaining, result) = self.dest_parser.parse(remaining)?;
        match self.suffix_to_ignore.parse(remaining) {
            Ok((remaining, _)) => Ok((remaining, result)),
            Err(()) => Err(()),
        }
    }
}

/// Constructor of [Delimited]
#[verifier::allow_in_spec]
pub fn delimited<Prefix, T, Suffix>(
    prefix_to_ignore: Prefix,
    dest_parser: T,
    suffix_to_ignore: Suffix,
) -> Delimited<Prefix, T, Suffix> where Prefix: Parser, T: Parser, Suffix: Parser
    returns
        (Delimited { prefix_to_ignore, dest_parser, suffix_to_ignore }),
{
    Delimited { prefix_to_ignore, dest_parser, suffix_to_ignore }
}

/// Parses with the inner parser and turns its result into what the caller
/// wants
#[derive(Debug, Clone)]
pub struct Mapped<T, M> {
    pub parser: T,
    pub map: M,
}

impl<T: Parser, M: Mapper<T::Dest>> Parser for Mapped<T, M> {
    type Dest = M::Out;

    open spec fn spec_parse(&self, input: Seq<char>) -> Option<(Seq<char>, <M::Out as Model>::M)> {
        match self.parser.spec_parse(input) {
            Some((rest, v)) => Some((rest, self.map.spec_apply(v))),
            None => None,
        }
    }

    proof fn lemma_parse_suffix(&self, input: Seq<char>) {
        self.parser.lemma_parse_suffix(input);
    }

    fn parse<'a>(&self, input: &'a str) -> (r: Result<(&'a str, M::Out), ()>) {
        match self.parser.parse(input) {
            Ok((remaining, pre_result)) => Ok((remaining, self.map.apply(pre_result))),
            Err(()) => Err(()),
        }
    }
}

/// Constructor of [Mapped]
#[verifier::allow_in_spec]
pub fn map<T: Parser, M: Mapper<T::Dest>>(parser: T, map: M) -> Mapped<T, M>
    returns
        (Mapped { parser, map }),
{
    Mapped { parser, map }
}

/// A prefix to ignore, then the value: a simpler [Delimited]
/// (like `preceded` from `nom`)
#[derive(Debug, Clone)]
pub struct Preceded<Prefix, T> {
    pub prefix_to_ignore: Prefix,
    pub dest_parser: T,
}

impl<Prefix, T> Parser for Preceded<Prefix, T> where Prefix: Parser, T: Parser {
    type Dest = T::Dest;

    open spec fn spec_parse(&self, input: Seq<char>) -> Option<(Seq<char>, <T::Dest as Model>::M)> {
        match self.prefix_to_ignore.spec_parse(input) {
            Some((r1, _)) => self.dest_parser.spec_parse(r1),
            None => None,
        }
    }

    proof fn lemma_parse_suffix(&self, input: Seq<char>) {
        self.prefix_to_ignore.lemma_parse_suffix(input);
        if let Some((r1, _)) = self.prefix_to_ignore.spec_parse(input) {
            self.dest_parser.lemma_parse_suffix(r1);
            if let Some((r2, _)) = self.dest_parser.spec_parse(r1) {
                lemma_suffix_trans(r2, r1, input);
            }
        }
    }

    fn parse<'a>(&self, input: &'a str) -> (r: Result<(&'a str, T::Dest), ()>) {
        let (remaining, _) = self.prefix_to_ignore.parse(input)?;
        self.dest_parser.parse(remaining)
    }
}

/// Constructor of [Preceded]
#[verifier::allow_in_spec]
pub fn preceded<Prefix, T>(prefix_to_ignore: Prefix, dest_parser: T) -> Preceded<Prefix, T> where
    Prefix: Parser,
    T: Parser,

    returns
        (Preceded { prefix_to_ignore, dest_parser }),
{
    Preceded { prefix_to_ignore, dest_parser }
}

/// Requires all the inner parsers to succeed one after another
/// (like `all` from `nom`)
#[derive(Debug, Clone)]
pub struct All<T> {
    pub parser: T,
}

impl<A0, A1> Parser for All<(A0, A1)> where A0: Parser, A1: Parser {
    type Dest = (A0::Dest, A1::Dest);

    open spec fn spec_parse(&self, input: Seq<char>) -> Option<
        (Seq<char>, <(A0::Dest, A1::Dest) as Model>::M),
    > {
        match self.parser.0.spec_parse(input) {
            Some((r0, a0)) => match self.parser.1.spec_parse(r0) {
                Some((r1, a1)) => Some((r1, (a0, a1))),
                None => None,
            },
            None => None,
        }
    }

    proof fn lemma_parse_suffix(&self, input: Seq<char>) {
        self.parser.0.lemma_parse_suffix(input);
        if let Some((r0, _)) = self.parser.0.spec_parse(input) {
            self.parser.1.lemma_parse_suffix(r0);
            if let Some((r1, _)) = self.parser.1.spec_parse(r0) {
                lemma_suffix_trans(r1, r0, input);
            }
        }
    }

    fn parse<'a>(&self, input: &'a str) -> (r: Result<(&'a str, (A0::Dest, A1::Dest)), ()>) {
        let (remaining, a0) = self.parser.0.parse(input)?;
        match self.parser.1.parse(remaining) {
            Ok((remaining, a1)) => {
                let r = (a0, a1);
                assert(r.model() == (a0.model(), a1.model()));
                Ok((remaining, r))
            },
            Err(()) => Err(()),
        }
    }
}

/// Constructor of [All] for two parsers
#[verifier::allow_in_spec]
pub fn all2<A0: Parser, A1: Parser>(a0: A0, a1: A1) -> All<(A0, A1)>
    returns
        (All { parser: (a0, a1) }),
{
    All { parser: (a0, a1) }
}

impl<A0, A1, A2> Parser for All<(A0, A1, A2)> where A0: Parser, A1: Parser, A2: Parser {
    type Dest = (A0::Dest, A1::Dest, A2::Dest);

    open spec fn spec_parse(&self, input: Seq<char>) -> Option<
        (Seq<char>, <(A0::Dest, A1::Dest, A2::Dest) as Model>::M),
    > {
        match self.parser.0.spec_parse(input) {
            Some((r0, a0)) => match self.parser.1.spec_parse(r0) {
                Some((r1, a1)) => match self.parser.2.spec_parse(r1) {
                    Some((r2, a2)) => Some((r2, (a0, a1, a2))),
                    None => None,
                },
                None => None,
            },
            None => None,
        }
    }

    proof fn lemma_parse_suffix(&self, input: Seq<char>) {
        self.parser.0.lemma_parse_suffix(input);
        if let Some((r0, _)) = self.parser.0.spec_parse(input) {
            self.parser.1.lemma_parse_suffix(r0);
            if let Some((r1, _)) = self.parser.1.spec_parse(r0) {
                self.parser.2.lemma_parse_suffix(r1);
                lemma_suffix_trans(r1, r0, input);
                if let Some((r2, _)) = self.parser.2.spec_parse(r1) {
                    lemma_suffix_trans(r2, r1, input);
                }
            }
        }
    }

    fn parse<'a>(&self, input: &'a str) -> (r: Result<
        (&'a str, (A0::Dest, A1::Dest, A2::Dest)),
        (),
    >) {
        let (remaining, a0) = self.parser.0.parse(input)?;
        let (remaining, a1) = self.parser.1.parse(remaining)?;
        match self.parser.2.parse(remaining) {
            Ok((remaining, a2)) => Ok((remaining, (a0, a1, a2))),
            Err(()) => Err(()),
        }
    }
}

/// Constructor of [All] for three parsers
#[verifier::allow_in_spec]
pub fn all3<A0: Parser, A1: Parser, A2: Parser>(a0: A0, a1: A1, a2: A2) -> All<(A0, A1, A2)>
    returns
        (All { parser: (a0, a1, a2) }),
{
    All { parser: (a0, a1, a2) }
}

impl<A0, A1, A2, A3> Parser for All<(A0, A1, A2, A3)> where
    A0: Parser,
    A1: Parser,
    A2: Parser,
    A3: Parser,
 {
    type Dest = (A0::Dest, A1::Dest, A2::Dest, A3::Dest);

    open spec fn spec_parse(&self, input: Seq<char>) -> Option<
        (Seq<char>, <(A0::Dest, A1::Dest, A2::Dest, A3::Dest) as Model>::M),
    > {
        match self.parser.0.spec_parse(input) {
            Some((r0, a0)) => match self.parser.1.spec_parse(r0) {
                Some((r1, a1)) => match self.parser.2.spec_parse(r1) {
                    Some((r2, a2)) => match self.parser.3.spec_parse(r2) {
                        Some((r3, a3)) => Some((r3, (a0, a1, a2, a3))),
                        None => None,
                    },
                    None => None,
                },
                None => None,
            },
            None => None,
        }
    }

    proof fn lemma_parse_suffix(&self, input: Seq<char>) {
        self.parser.0.lemma_parse_suffix(input);
        if let Some((r0, _)) = self.parser.0.spec_parse(input) {
            self.parser.1.lemma_parse_suffix(r0);
            if let Some((r1, _)) = self.parser.1.spec_parse(r0) {
                self.parser.2.lemma_parse_suffix(r1);
                lemma_suffix_trans(r1, r0, input);
                if let Some((r2, _)) = self.parser.2.spec_parse(r1) {
                    self.parser.3.lemma_parse_suffix(r2);
                    lemma_suffix_trans(r2, r1, input);
                    if let Some((r3, _)) = self.parser.3.spec_parse(r2) {
                        lemma_suffix_trans(r3, r2, input);
                    }
                }
            }
        }
    }

    fn parse<'a>(&self, input: &'a str) -> (r: Result<
        (&'a str, (A0::Dest, A1::Dest, A2::Dest, A3::Dest)),
        (),
    >) {
        let (remaining, a0) = self.parser.0.parse(input)?;
        let (remaining, a1) = self.parser.1.parse(remaining)?;
        let (remaining, a2) = self.parser.2.parse(remaining)?;
        match self.parser.3.parse(remaining) {
            Ok((remaining, a3)) => Ok((remaining, (a0, a1, a2, a3))),
            Err(()) => Err(()),
        }
    }
}

/// Constructor of [All] for four parsers
#[verifier::allow_in_spec]
pub fn all4<A0: Parser, A1: Parser, A2: Parser, A3: Parser>(
    a0: A0,
    a1: A1,
    a2: A2,
    a3: A3,
) -> All<(A0, A1, A2, A3)>
    returns
        (All { parser: (a0, a1, a2, a3) }),
{
    All { parser: (a0, a1, a2, a3) }
}

/// Reads the value out of a `"key":value,` pair. The comma after the pair
/// is always required; a bare `"key":value` is not read
#[derive(Debug, Clone)]
pub struct KeyValue<T> {
    pub parser: Delimited<
        All<(StripWhitespace<QuotedTag>, StripWhitespace<Tag>)>,
        StripWhitespace<T>,
        StripWhitespace<Tag>,
    >,
}

impl<T> Parser for KeyValue<T> where T: Parser {
    type Dest = T::Dest;

    open spec fn spec_parse(&self, input: Seq<char>) -> Option<(Seq<char>, <T::Dest as Model>::M)> {
        self.parser.spec_parse(input)
    }

    proof fn lemma_parse_suffix(&self, input: Seq<char>) {
        self.parser.lemma_parse_suffix(input);
    }

    fn parse<'a>(&self, input: &'a str) -> (r: Result<(&'a str, T::Dest), ()>) {
        self.parser.parse(input)
    }
}

/// Constructor of [`KeyValue`]
#[verifier::allow_in_spec]
pub fn key_value<T: Parser>(key: &'static str, value_parser: T) -> KeyValue<T>
    returns
        (KeyValue {
            parser: delimited(
                all2(strip_whitespace(quoted_tag(key)), strip_whitespace(tag(":"))),
                strip_whitespace(value_parser),
                strip_whitespace(tag(",")),
            ),
        }),
{
    KeyValue {
        parser: delimited(
            all2(strip_whitespace(quoted_tag(key)), strip_whitespace(tag(":"))),
            strip_whitespace(value_parser),
            strip_whitespace(tag(",")),
        ),
    }
}

/// Returns the results of the inner parsers when they can be applied one
/// after another in any order. The results come in the order the
/// `Permutation` was built in
/// (like `permutation` from `nom`)
#[derive(Debug, Clone)]
pub struct Permutation<T> {
    pub parsers: T,
}

impl<A0, A1> Parser for Permutation<(A0, A1)> where A0: Parser, A1: Parser {
    type Dest = (A0::Dest, A1::Dest);

    open spec fn spec_parse(&self, input: Seq<char>) -> Option<
        (Seq<char>, <(A0::Dest, A1::Dest) as Model>::M),
    > {
        let p0 = self.parsers.0;
        let p1 = self.parsers.1;
        match p0.spec_parse(input) {
            Some((r0, a0)) => match p1.spec_parse(r0) {
                Some((r1, a1)) => Some((r1, (a0, a1))),
                None => None,
            },
            None => match p1.spec_parse(input) {
                Some((r1, a1)) => match p0.spec_parse(r1) {
                    Some((r0, a0)) => Some((r0, (a0, a1))),
                    None => None,
                },
                None => None,
            },
        }
    }

    proof fn lemma_parse_suffix(&self, input: Seq<char>) {
        let p0 = self.parsers.0;
        let p1 = self.parsers.1;
        p0.lemma_parse_suffix(input);
        p1.lemma_parse_suffix(input);
        if let Some((r0, _)) = p0.spec_parse(input) {
            p1.lemma_parse_suffix(r0);
            if let Some((r1, _)) = p1.spec_parse(r0) {
                lemma_suffix_trans(r1, r0, input);
            }
        } else if let Some((r1, _)) = p1.spec_parse(input) {
            p0.lemma_parse_suffix(r1);
            if let Some((r0, _)) = p0.spec_parse(r1) {
                lemma_suffix_trans(r0, r1, input);
            }
        }
    }

    fn parse<'a>(&self, input: &'a str) -> (r: Result<(&'a str, (A0::Dest, A1::Dest)), ()>) {
        match self.parsers.0.parse(input) {
            Ok((remaining, a0)) => match self.parsers.1.parse(remaining) {
                Ok((remaining, a1)) => Ok((remaining, (a0, a1))),
                Err(()) => Err(()),
            },
            Err(()) => match self.parsers.1.parse(input) {
                Ok((remaining, a1)) => match self.parsers.0.parse(remaining) {
                    Ok((remaining, a0)) => Ok((remaining, (a0, a1))),
                    Err(()) => Err(()),
                },
                Err(()) => Err(()),
            },
        }
    }
}

/// Constructor of [Permutation] for two parsers
#[verifier::allow_in_spec]
pub fn permutation2<A0: Parser, A1: Parser>(a0: A0, a1: A1) -> Permutation<(A0, A1)>
    returns
        (Permutation { parsers: (a0, a1) }),
{
    Permutation { parsers: (a0, a1) }
}

impl<A0, A1, A2> Parser for Permutation<(A0, A1, A2)> where A0: Parser, A1: Parser, A2: Parser {
    type Dest = (A0::Dest, A1::Dest, A2::Dest);

    open spec fn spec_parse(&self, input: Seq<char>) -> Option<
        (Seq<char>, <(A0::Dest, A1::Dest, A2::Dest) as Model>::M),
    > {
        let p0 = self.parsers.0;
        let p1 = self.parsers.1;
        let p2 = self.parsers.2;
        match p0.spec_parse(input) {
            Some((r0, a0)) => match p1.spec_parse(r0) {
                Some((r1, a1)) => match p2.spec_parse(r1) {
                    Some((r2, a2)) => Some((r2, (a0, a1, a2))),
                    None => None,
                },
                None => match p2.spec_parse(r0) {
                    Some((r2, a2)) => match p1.spec_parse(r2) {
                        Some((r1, a1)) => Some((r1, (a0, a1, a2))),
                        None => None,
                    },
                    None => None,
                },
            },
            None => match p1.spec_parse(input) {
                Some((r1, a1)) => match p0.spec_parse(r1) {
                    Some((r0, a0)) => match p2.spec_parse(r0) {
                        Some((r2, a2)) => Some((r2, (a0, a1, a2))),
                        None => None,
                    },
                    None => match p2.spec_parse(r1) {
                        Some((r2, a2)) => match p0.spec_parse(r2) {
                            Some((r0, a0)) => Some((r0, (a0, a1, a2))),
                            None => None,
                        },
                        None => None,
                    },
                },
                None => match p2.spec_parse(input) {
                    Some((r2, a2)) => match p0.spec_parse(r2) {
                        Some((r0, a0)) => match p1.spec_parse(r0) {
                            Some((r1, a1)) => Some((r1, (a0, a1, a2))),
                            None => None,
                        },
                        None => match p1.spec_parse(r2) {
                            Some((r1, a1)) => match p0.spec_parse(r1) {
                                Some((r0, a0)) => Some((r0, (a0, a1, a2))),
                                None => None,
                            },
                            None => None,
                        },
                    },
                    None => None,
                },
            },
        }
    }

    proof fn lemma_parse_suffix(&self, input: Seq<char>) {
        let p0 = self.parsers.0;
        let p1 = self.parsers.1;
        let p2 = self.parsers.2;
        lemma_chain3(p0, p1, p2, input);
        lemma_chain3(p0, p2, p1, input);
        lemma_chain3(p1, p0, p2, input);
        lemma_chain3(p1, p2, p0, input);
        lemma_chain3(p2, p0, p1, input);
        lemma_chain3(p2, p1, p0, input);
    }

    fn parse<'a>(&self, input: &'a str) -> (r: Result<
        (&'a str, (A0::Dest, A1::Dest, A2::Dest)),
        (),
    >) {
        match self.parsers.0.parse(input) {
            Ok((remaining, a0)) => match self.parsers.1.parse(remaining) {
                Ok((remaining, a1)) => match self.parsers.2.parse(remaining) {
                    Ok((remaining, a2)) => Ok((remaining, (a0, a1, a2))),
                    Err(()) => Err(()),
                },
                Err(()) => match self.parsers.2.parse(remaining) {
                    Ok((remaining, a2)) => match self.parsers.1.parse(remaining) {
                        Ok((remaining, a1)) => Ok((remaining, (a0, a1, a2))),
                        Err(()) => Err(()),
                    },
                    Err(()) => Err(()),
                },
            },
            Err(()) => match self.parsers.1.parse(input) {
                Ok((remaining, a1)) => match self.parsers.0.parse(remaining) {
                    Ok((remaining, a0)) => match self.parsers.2.parse(remaining) {
                        Ok((remaining, a2)) => Ok((remaining, (a0, a1, a2))),
                        Err(()) => Err(()),
                    },
                    Err(()) => match self.parsers.2.parse(remaining) {
                        Ok((remaining, a2)) => match self.parsers.0.parse(remaining) {
                            Ok((remaining, a0)) => Ok((remaining, (a0, a1, a2))),
                            Err(()) => Err(()),
                        },
                        Err(()) => Err(()),
                    },
                },
                Err(()) => match self.parsers.2.parse(input) {
                    Ok((remaining, a2)) => match self.parsers.0.parse(remaining) {
                        Ok((remaining, a0)) => match self.parsers.1.parse(remaining) {
                            Ok((remaining, a1)) => Ok((remaining, (a0, a1, a2))),
                            Err(()) => Err(()),
                        },
                        Err(()) => match self.parsers.1.parse(remaining) {
                            Ok((remaining, a1)) => match self.parsers.0.parse(remaining) {
                                Ok((remaining, a0)) => Ok((remaining, (a0, a1, a2))),
                                Err(()) => Err(()),
                            },
                            Err(()) => Err(()),
                        },
                    },
                    Err(()) => Err(()),
                },
            },
        }
    }
}

/// Whatever two or three of the parsers leave when run one after another
/// is a suffix of the input.
proof fn lemma_chain3<P: Parser, Q: Parser, R: Parser>(p: P, q: Q, r: R, input: Seq<char>)
    ensures
        p.spec_parse(input) matches Some((r0, _)) ==> {
            &&& r0.is_suffix_of(input)
            &&& q.spec_parse(r0) matches Some((r1, _)) ==> {
                &&& r1.is_suffix_of(input)
                &&& r.spec_parse(r1) matches Some((r2, _)) ==> r2.is_suffix_of(input)
            }
        },
{
    p.lemma_parse_suffix(input);
    if let Some((r0, _)) = p.spec_parse(input) {
        q.lemma_parse_suffix(r0);
        if let Some((r1, _)) = q.spec_parse(r0) {
            lemma_suffix_trans(r1, r0, input);
            r.lemma_parse_suffix(r1);
            if let Some((r2, _)) = r.spec_parse(r1) {
                lemma_suffix_trans(r2, r1, input);
            }
        }
    }
}

/// Constructor of [Permutation] for three parsers
#[verifier::allow_in_spec]
pub fn permutation3<A0: Parser, A1: Parser, A2: Parser>(a0: A0, a1: A1, a2: A2) -> Permutation<
    (A0, A1, A2),
>
    returns
        (Permutation { parsers: (a0, a1, a2) }),
{
    Permutation { parsers: (a0, a1, a2) }
}

/// `done` put in front of the items of a successful outcome.
pub open spec fn with_items<V>(done: Seq<V>, o: Option<(Seq<char>, Seq<V>)>) -> Option<
    (Seq<char>, Seq<V>),
> {
    match o {
        Some((rest, vs)) => Some((rest, done + vs)),
        None => None,
    }
}

/// Nothing put in front changes nothing.
pub proof fn lemma_with_items_empty<V>(o: Option<(Seq<char>, Seq<V>)>)
    ensures
        with_items(Seq::empty(), o) == o,
{
    if let Some((rest, vs)) = o {
        assert(Seq::<V>::empty() + vs =~= vs);
    }
}

/// A list of any number of items, each read by the inner parser. The list
/// is bounded by square brackets (`[` and `]`).
/// Each item must be followed by a comma
#[derive(Debug, Clone)]
pub struct List<T> {
    pub parser: T,
}

impl<T: Parser> List<T> {
    /// Reading the items from after the opening bracket (and its whitespace)
    /// up to and past the closing bracket.
    pub open spec fn spec_items(&self, s: Seq<char>) -> Option<
        (Seq<char>, Seq<<T::Dest as Model>::M>),
    >
        decreases s.len(),
    {
        if s.len() == 0 {
            None
        } else if s[0] == ']' {
            Some((trim_ws(s.drop_first()), Seq::empty()))
        } else {
            match self.parser.spec_parse(s) {
                Some((r, v)) => {
                    let r1 = trim_ws(r);
                    if r1.len() > 0 && r1[0] == ',' {
                        let r2 = trim_ws(r1.drop_first());
                        if r2.len() < s.len() {
                            with_items(seq![v], self.spec_items(r2))
                        } else {
                            None
                        }
                    } else {
                        None
                    }
                },
                None => None,
            }
        }
    }

    proof fn lemma_items_suffix(&self, s: Seq<char>)
        ensures
            self.spec_items(s) matches Some((rest, _)) ==> rest.is_suffix_of(s),
        decreases s.len(),
    {
        if s.len() > 0 {
            if s[0] == ']' {
                lemma_trim_ws_suffix(s.drop_first());
                lemma_suffix_trans(trim_ws(s.drop_first()), s.drop_first(), s);
            } else if let Some((r, v)) = self.parser.spec_parse(s) {
                let r1 = trim_ws(r);
                if r1.len() > 0 && r1[0] == ',' {
                    let r2 = trim_ws(r1.drop_first());
                    if r2.len() < s.len() {
                        self.lemma_items_suffix(r2);
                        if let Some((rest, _)) = self.spec_items(r2) {
                            self.parser.lemma_parse_suffix(s);
                            lemma_trim_ws_suffix(r);
                            lemma_trim_ws_suffix(r1.drop_first());
                            lemma_suffix_trans(r1, r, s);
                            lemma_suffix_trans(r1.drop_first(), r1, s);
                            lemma_suffix_trans(r2, r1.drop_first(), s);
                            lemma_suffix_trans(rest, r2, s);
                        }
                    }
                }
            }
        }
    }
}

impl<T: Parser> Parser for List<T> {
    type Dest = Vec<T::Dest>;

    open spec fn spec_parse(&self, input: Seq<char>) -> Option<
        (Seq<char>, Seq<<T::Dest as Model>::M>),
    > {
        let t = trim_ws(input);
        if t.len() > 0 && t[0] == '[' {
            self.spec_items(trim_ws(t.drop_first()))
        } else {
            None
        }
    }

    proof fn lemma_parse_suffix(&self, input: Seq<char>) {
        let t = trim_ws(input);
        if t.len() > 0 && t[0] == '[' {
            let s = trim_ws(t.drop_first());
            self.lemma_items_suffix(s);
            if let Some((rest, _)) = self.spec_items(s) {
                lemma_trim_ws_suffix(input);
                lemma_trim_ws_suffix(t.drop_first());
                lemma_suffix_trans(t.drop_first(), t, input);
                lemma_suffix_trans(s, t.drop_first(), input);
                lemma_suffix_trans(rest, s, input);
            }
        }
    }

    fn parse<'a>(&self, input: &'a str) -> (r: Result<(&'a str, Vec<T::Dest>), ()>) {
        let mut remaining = match strip_prefix_char(trim_start(input), '[') {
            Some(rest) => trim_start(rest),
            None => return Err(()),
        };
        let mut result: Vec<T::Dest> = Vec::new();
        assert(result.model() =~= Seq::<<T::Dest as Model>::M>::empty());
        proof {
            lemma_with_items_empty(self.spec_items(remaining@));
        }
        while !remaining.is_empty()
            invariant
                self.spec_parse(input@) == with_items(result.model(), self.spec_items(remaining@)),
            decreases remaining@.len(),
        {
            let ghost before = remaining@;
            let ghost done = result.model();
            if let Some(rest) = strip_prefix_char(remaining, ']') {
                assert(done + Seq::<<T::Dest as Model>::M>::empty() =~= done);
                return Ok((trim_start(rest), result));
            } else {
                let (new_remaining, item) = self.parser.parse(remaining)?;
                proof {
                    self.parser.lemma_parse_suffix(before);
                    lemma_trim_ws_suffix(new_remaining@);
                }
                remaining = match strip_prefix_char(trim_start(new_remaining), ',') {
                    Some(rest) => trim_start(rest),
                    None => return Err(()),
                };
                proof {
                    let r1 = trim_ws(new_remaining@);
                    lemma_trim_ws_suffix(r1.drop_first());
                    assert(remaining@.len() < before.len());
                }
                result.push(item);
                proof {
                    let v = item.model();
                    assert(result.model() =~= done.push(v));
                    if let Some((rest, vs)) = self.spec_items(remaining@) {
                        assert(done + (seq![v] + vs) =~= done.push(v) + vs);
                    }
                }
            }
        }
        Err(())
    }
}

/// Constructor of [List]
#[verifier::allow_in_spec]
pub fn list<T: Parser>(parser: T) -> List<T>
    returns
        (List { parser }),
{
    List { parser }
}

/// Returns the result of the first inner parser that succeeds
/// (like `alt` from `nom`)
#[derive(Debug, Clone)]
pub struct Alt<T> {
    pub parser: T,
}

impl<A0, A1, Dest: Model> Parser for Alt<(A0, A1)> where
    A0: Parser<Dest = Dest>,
    A1: Parser<Dest = Dest>,
 {
    type Dest = Dest;

    open spec fn spec_parse(&self, input: Seq<char>) -> Option<(Seq<char>, Dest::M)> {
        match self.parser.0.spec_parse(input) {
            Some(r) => Some(r),
            None => self.parser.1.spec_parse(input),
        }
    }

    proof fn lemma_parse_suffix(&self, input: Seq<char>) {
        self.parser.0.lemma_parse_suffix(input);
        self.parser.1.lemma_parse_suffix(input);
    }

    fn parse<'a>(&self, input: &'a str) -> (r: Result<(&'a str, Dest), ()>) {
        match self.parser.0.parse(input) {
            Ok(r) => Ok(r),
            Err(()) => self.parser.1.parse(input),
        }
    }
}

/// Constructor of [Alt] for two parsers
#[verifier::allow_in_spec]
pub fn alt2<Dest: Model, A0: Parser<Dest = Dest>, A1: Parser<Dest = Dest>>(a0: A0, a1: A1) -> Alt<
    (A0, A1),
>
    returns
        (Alt { parser: (a0, a1) }),
{
    Alt { parser: (a0, a1) }
}

impl<A0, A1, A2, Dest: Model> Parser for Alt<(A0, A1, A2)> where
    A0: Parser<Dest = Dest>,
    A1: Parser<Dest = Dest>,
    A2: Parser<Dest = Dest>,
 {
    type Dest = Dest;

    open spec fn spec_parse(&self, input: Seq<char>) -> Option<(Seq<char>, Dest::M)> {
        match self.parser.0.spec_parse(input) {
            Some(r) => Some(r),
            None => match self.parser.1.spec_parse(input) {
                Some(r) => Some(r),
                None => self.parser.2.spec_parse(input),
            },
        }
    }

    proof fn lemma_parse_suffix(&self, input: Seq<char>) {
        self.parser.0.lemma_parse_suffix(input);
        self.parser.1.lemma_parse_suffix(input);
        self.parser.2.lemma_parse_suffix(input);
    }

    fn parse<'a>(&self, input: &'a str) -> (r: Result<(&'a str, Dest), ()>) {
        match self.parser.0.parse(input) {
            Ok(r) => Ok(r),
            Err(()) => match self.parser.1.parse(input) {
                Ok(r) => Ok(r),
                Err(()) => self.parser.2.parse(input),
            },
        }
    }
}

/// Constructor of [Alt] for three parsers
#[verifier::allow_in_spec]
pub fn alt3<Dest: Model, A0: Parser<Dest = Dest>, A1: Parser<Dest = Dest>, A2: Parser<Dest = Dest>>(
    a0: A0,
    a1: A1,
    a2: A2,
) -> Alt<(A0, A1, A2)>
    returns
        (Alt { parser: (a0, a1, a2) }),
{
    Alt { parser: (a0, a1, a2) }
}

impl<A0, A1, A2, A3, Dest: Model> Parser for Alt<(A0, A1, A2, A3)> where
    A0: Parser<Dest = Dest>,
    A1: Parser<Dest = Dest>,
    A2: Parser<Dest = Dest>,
    A3: Parser<Dest = Dest>,
 {
    type Dest = Dest;

    open spec fn spec_parse(&self, input: Seq<char>) -> Option<(Seq<char>, Dest::M)> {
        match self.parser.0.spec_parse(input) {
            Some(r) => Some(r),
            None => match self.parser.1.spec_parse(input) {
                Some(r) => Some(r),
                None => match self.parser.2.spec_parse(input) {
                    Some(r) => Some(r),
                    None => self.parser.3.spec_parse(input),
                },
            },
        }
    }

    proof fn lemma_parse_suffix(&self, input: Seq<char>) {
        self.parser.0.lemma_parse_suffix(input);
        self.parser.1.lemma_parse_suffix(input);
        self.parser.2.lemma_parse_suffix(input);
        self.parser.3.lemma_parse_suffix(input);
    }

    fn parse<'a>(&self, input: &'a str) -> (r: Result<(&'a str, Dest), ()>) {
        match self.parser.0.parse(input) {
            Ok(r) => Ok(r),
            Err(()) => match self.parser.1.parse(input) {
                Ok(r) => Ok(r),
                Err(()) => match self.parser.2.parse(input) {
                    Ok(r) => Ok(r),
                    Err(()) => self.parser.3.parse(input),
                },
            },
        }
    }
}

/// Constructor of [Alt] for four parsers
#[verifier::allow_in_spec]
pub fn alt4<
    Dest: Model,
    A0: Parser<Dest = Dest>,
    A1: Parser<Dest = Dest>,
    A2: Parser<Dest = Dest>,
    A3: Parser<Dest = Dest>,
>(a0: A0, a1: A1, a2: A2, a3: A3) -> Alt<(A0, A1, A2, A3)>
    returns
        (Alt { parser: (a0, a1, a2, a3) }),
{
    Alt { parser: (a0, a1, a2, a3) }
}

impl<A0, A1, A2, A3, A4, A5, A6, A7, Dest: Model> Parser for Alt<
    (A0, A1, A2, A3, A4, A5, A6, A7),
> where
    A0: Parser<Dest = Dest>,
    A1: Parser<Dest = Dest>,
    A2: Parser<Dest = Dest>,
    A3: Parser<Dest = Dest>,
    A4: Parser<Dest = Dest>,
    A5: Parser<Dest = Dest>,
    A6: Parser<Dest = Dest>,
    A7: Parser<Dest = Dest>,
 {
    type Dest = Dest;

    open spec fn spec_parse(&self, input: Seq<char>) -> Option<(Seq<char>, Dest::M)> {
        match self.parser.0.spec_parse(input) {
            Some(r) => Some(r),
            None => match self.parser.1.spec_parse(input) {
                Some(r) => Some(r),
                None => match self.parser.2.spec_parse(input) {
                    Some(r) => Some(r),
                    None => match self.parser.3.spec_parse(input) {
                        Some(r) => Some(r),
                        None => match self.parser.4.spec_parse(input) {
                            Some(r) => Some(r),
                            None => match self.parser.5.spec_parse(input) {
                                Some(r) => Some(r),
                                None => match self.parser.6.spec_parse(input) {
                                    Some(r) => Some(r),
                                    None => self.parser.7.spec_parse(input),
                                },
                            },
                        },
                    },
                },
            },
        }
    }

    proof fn lemma_parse_suffix(&self, input: Seq<char>) {
        self.parser.0.lemma_parse_suffix(input);
        self.parser.1.lemma_parse_suffix(input);
        self.parser.2.lemma_parse_suffix(input);
        self.parser.3.lemma_parse_suffix(input);
        self.parser.4.lemma_parse_suffix(input);
        self.parser.5.lemma_parse_suffix(input);
        self.parser.6.lemma_parse_suffix(input);
        self.parser.7.lemma_parse_suffix(input);
    }

    fn parse<'a>(&self, input: &'a str) -> (r: Result<(&'a str, Dest), ()>) {
        match self.parser.0.parse(input) {
            Ok(r) => Ok(r),
            Err(()) => match self.parser.1.parse(input) {
                Ok(r) => Ok(r),
                Err(()) => match self.parser.2.parse(input) {
                    Ok(r) => Ok(r),
                    Err(()) => match self.parser.3.parse(input) {
                        Ok(r) => Ok(r),
                        Err(()) => match self.parser.4.parse(input) {
                            Ok(r) => Ok(r),
                            Err(()) => match self.parser.5.parse(input) {
                                Ok(r) => Ok(r),
                                Err(()) => match self.parser.6.parse(input) {
                                    Ok(r) => Ok(r),
                                    Err(()) => self.parser.7.parse(input),
                                },
                            },
                        },
                    },
                },
            },
        }
    }
}

/// Constructor of [Alt] for eight parsers
#[verifier::allow_in_spec]
pub fn alt8<
    Dest: Model,
    A0: Parser<Dest = Dest>,
    A1: Parser<Dest = Dest>,
    A2: Parser<Dest = Dest>,
    A3: Parser<Dest = Dest>,
    A4: Parser<Dest = Dest>,
    A5: Parser<Dest = Dest>,
    A6: Parser<Dest = Dest>,
    A7: Parser<Dest = Dest>,
>(a0: A0, a1: A1, a2: A2, a3: A3, a4: A4, a5: A5, a6: A6, a7: A7) -> Alt<
    (A0, A1, A2, A3, A4, A5, A6, A7),
>
    returns
        (Alt { parser: (a0, a1, a2, a3, a4, a5, a6, a7) }),
{
    Alt { parser: (a0, a1, a2, a3, a4, a5, a6, a7) }
}

/// Applies the inner parser N times
/// (like `take` from `nom`)
pub struct Take<T> {
    pub count: usize,
    pub parser: T,
}

impl<T: Parser> Take<T> {
    /// Applying the inner parser `n` times in a row.
    pub open spec fn spec_take(&self, s: Seq<char>, n: nat) -> Option<
        (Seq<char>, Seq<<T::Dest as Model>::M>),
    >
        decreases n,
    {
        if n == 0 {
            Some((s, Seq::empty()))
        } else {
            match self.parser.spec_parse(s) {
                Some((r, v)) => with_items(seq![v], self.spec_take(r, (n - 1) as nat)),
                None => None,
            }
        }
    }

    proof fn lemma_take_suffix(&self, s: Seq<char>, n: nat)
        ensures
            self.spec_take(s, n) matches Some((rest, _)) ==> rest.is_suffix_of(s),
        decreases n,
    {
        if n == 0 {
            assert(s =~= s.subrange(0, s.len() as int));
        } else if let Some((r, v)) = self.parser.spec_parse(s) {
            self.parser.lemma_parse_suffix(s);
            self.lemma_take_suffix(r, (n - 1) as nat);
            if let Some((rest, _)) = self.spec_take(r, (n - 1) as nat) {
                lemma_suffix_trans(rest, r, s);
            }
        }
    }
}

impl<T: Parser> Parser for Take<T> {
    type Dest = Vec<T::Dest>;

    open spec fn spec_parse(&self, input: Seq<char>) -> Option<
        (Seq<char>, Seq<<T::Dest as Model>::M>),
    > {
        self.spec_take(input, self.count as nat)
    }

    proof fn lemma_parse_suffix(&self, input: Seq<char>) {
        self.lemma_take_suffix(input, self.count as nat);
    }

    fn parse<'a>(&self, input: &'a str) -> (r: Result<(&'a str, Vec<T::Dest>), ()>) {
        let mut remaining = input;
        let mut result: Vec<T::Dest> = Vec::with_capacity(self.count);
        let mut i: usize = 0;
        assert(result.model() =~= Seq::<<T::Dest as Model>::M>::empty());
        proof {
            lemma_with_items_empty(self.spec_take(input@, self.count as nat));
        }
        while i < self.count
            invariant
                i <= self.count,
                self.spec_parse(input@) == with_items(
                    result.model(),
                    self.spec_take(remaining@, (self.count - i) as nat),
                ),
            decreases self.count - i,
        {
            let ghost done = result.model();
            let (new_remaining, item) = self.parser.parse(remaining)?;
            result.push(item);
            proof {
                let v = item.model();
                assert(result.model() =~= done.push(v));
                if let Some((rest, vs)) = self.spec_take(
                    new_remaining@,
                    (self.count - i - 1) as nat,
                ) {
                    assert(done + (seq![v] + vs) =~= done.push(v) + vs);
                }
            }
            remaining = new_remaining;
            i = i + 1;
        }
        assert(result.model() + Seq::<<T::Dest as Model>::M>::empty() =~= result.model());
        Ok((remaining, result))
    }
}

/// Constructor of `Take`
#[verifier::allow_in_spec]
pub fn take<T: Parser>(count: usize, parser: T) -> Take<T>
    returns
        (Take { count, parser }),
{
    Take { count, parser }
}

} // verus!
