use vstd::prelude::*;

use super::combinators::{
    Take, alt2, alt3, alt4, alt8, delimited, escape_char, escaped, list, permutation2, preceded,
    quoted, strip_whitespace, tag, unquote_body, unquoted, unquoted_non_escaped, with_items,
    with_prefix,
};
use super::log_types::{AppLogTraceKind, AppLogTraceKindModel};
use super::stdp::{Byte, U32, digits_value, hex_byte, is_digit, leading_digits, to_digit};
use super::text::{is_white_space, lemma_split_at_first, lemma_suffix_trans, lemma_trim_ws_suffix, trim_ws};
use super::types::{Announcements, AuthData, UserBackets};
use super::{Model, Parsable, Parser};

verus! {

/// Escaping text piece by piece is escaping it whole.
pub proof fn lemma_escaped_concat(a: Seq<char>, b: Seq<char>)
    ensures
        escaped(a + b) == escaped(a) + escaped(b),
    decreases b.len(),
{
    if b.len() == 0 {
        assert(a + b =~= a);
        assert(escaped(a) + escaped(b) =~= escaped(a));
    } else {
        lemma_escaped_concat(a, b.drop_last());
        assert((a + b).drop_last() =~= a + b.drop_last());
        assert((a + b).last() == b.last());
        assert(escaped(a) + escaped(b.drop_last()) + escape_char(b.last()) =~= escaped(a) + (
        escaped(b.drop_last()) + escape_char(b.last())));
    }
}

/// Reading escaped text gives the text back, and reading goes on with what
/// follows it.
pub proof fn lemma_unquote_body_escaped(s: Seq<char>, tail: Seq<char>)
    ensures
        unquote_body(escaped(s) + tail, false) == with_prefix(s, unquote_body(tail, false)),
    decreases s.len(),
{
    if s.len() == 0 {
        assert(escaped(s) + tail =~= tail);
        if let Some((r, v)) = unquote_body(tail, false) {
            assert(s + v =~= v);
        }
    } else {
        let c = s[0];
        let rest = s.drop_first();
        assert(s =~= seq![c] + rest);
        lemma_escaped_concat(seq![c], rest);
        assert(seq![c].drop_last() =~= Seq::<char>::empty());
        assert(seq![c].last() == c);
        assert(escaped(Seq::<char>::empty()) == Seq::<char>::empty());
        assert(escaped(seq![c]) =~= escape_char(c));
        lemma_unquote_body_escaped(rest, tail);
        let inner = escaped(rest) + tail;
        let x = escaped(s) + tail;
        assert(x =~= escape_char(c) + inner);
        if c == '\\' || c == '"' {
            assert(x[0] == '\\');
            assert(x.drop_first() =~= seq![c] + inner);
            assert((seq![c] + inner).drop_first() =~= inner);
            assert(unquote_body(x, false) == unquote_body(seq![c] + inner, true));
            assert(unquote_body(seq![c] + inner, true) == with_prefix(
                seq![c],
                unquote_body(inner, false),
            ));
        } else {
            assert(x[0] == c);
            assert(x.drop_first() =~= inner);
            assert(unquote_body(x, false) == with_prefix(seq![c], unquote_body(inner, false)));
        }
        if let Some((r, v)) = unquote_body(tail, false) {
            assert(seq![c] + (rest + v) =~= s + v);
        }
    }
}

/// What [`quote`] wraps, [`do_unquote`] gives back, with the text that
/// followed the quoted string left over.
///
/// [`quote`]: super::combinators::quote
/// [`do_unquote`]: super::combinators::do_unquote
pub proof fn lemma_unquote_quoted(s: Seq<char>, rest: Seq<char>)
    ensures
        unquoted(quoted(s) + rest) == Some((rest, s)),
{
    let x = quoted(s) + rest;
    let close = seq!['"'] + rest;
    assert(x =~= seq!['"'] + (escaped(s) + close));
    assert(x.drop_first() =~= escaped(s) + close);
    lemma_unquote_body_escaped(s, close);
    assert(close.drop_first() =~= rest);
    assert(s + Seq::<char>::empty() =~= s);
}

/// Where the content between the quotes holds no backslash, the shorter
/// [`do_unquote_non_escaped`] reads a quoted string as [`do_unquote`] does.
///
/// [`do_unquote_non_escaped`]: super::combinators::do_unquote_non_escaped
/// [`do_unquote`]: super::combinators::do_unquote
pub proof fn lemma_non_escaped_agrees(s: Seq<char>)
    requires
        unquoted_non_escaped(s) matches Some((rest, content)) && !content.contains('\\'),
    ensures
        unquoted(s) == unquoted_non_escaped(s),
{
    let (rest, content) = unquoted_non_escaped(s).unwrap();
    lemma_split_at_first(s.drop_first(), '"');
    assert(s.drop_first() =~= content + (seq!['"'] + rest));
    lemma_unquote_body_plain(content, seq!['"'] + rest);
    assert((seq!['"'] + rest).drop_first() =~= rest);
    assert(content + Seq::<char>::empty() =~= content);
}

/// Text without backslashes or quotes is read as it stands.
proof fn lemma_unquote_body_plain(s: Seq<char>, tail: Seq<char>)
    requires
        !s.contains('\\'),
        !s.contains('"'),
    ensures
        unquote_body(s + tail, false) == with_prefix(s, unquote_body(tail, false)),
    decreases s.len(),
{
    if s.len() == 0 {
        assert(s + tail =~= tail);
        if let Some((r, v)) = unquote_body(tail, false) {
            assert(s + v =~= v);
        }
    } else {
        let c = s[0];
        let t = s.drop_first();
        assert(!t.contains('\\') && !t.contains('"')) by {
            if t.contains('\\') || t.contains('"') {
                let i = choose|i: int| 0 <= i < t.len() && (t[i] == '\\' || t[i] == '"');
                assert(s[i + 1] == t[i]);
            }
        }
        assert(c != '\\' && c != '"') by {
            assert(s[0] == c);
        }
        lemma_unquote_body_plain(t, tail);
        assert((s + tail).drop_first() =~= t + tail);
        assert((s + tail)[0] == c);
        if let Some((r, v)) = unquote_body(tail, false) {
            assert(seq![c] + (t + v) =~= s + v);
        }
    }
}

/// Trimming whitespace twice trims no more than once.
pub proof fn lemma_trim_ws_idempotent(s: Seq<char>)
    ensures
        trim_ws(trim_ws(s)) == trim_ws(s),
    decreases s.len(),
{
    if s.len() > 0 && is_white_space(s[0]) {
        lemma_trim_ws_idempotent(s.drop_first());
    }
}

/// A parser wrapped in [`StripWhitespace`](super::combinators::StripWhitespace) does not see the whitespace in
/// front of its input: the input with its leading whitespace removed is
/// parsed the same way.
pub proof fn lemma_strip_whitespace_ignores_leading<T: Parser>(p: T, s: Seq<char>)
    ensures
        strip_whitespace(p).spec_parse(s) == strip_whitespace(p).spec_parse(trim_ws(s)),
        strip_whitespace(p).spec_parse(s) matches Some((rest, _)) ==> trim_ws(rest) == rest,
{
    lemma_trim_ws_idempotent(s);
    if let Some((r, v)) = p.spec_parse(trim_ws(s)) {
        lemma_trim_ws_idempotent(r);
    }
}

/// A [`Permutation`](super::combinators::Permutation) of two parsers reads its parts in either order and gives
/// the results in the order it was built in: the first parser's part first
/// when it stands first, and else the second parser's part followed by the
/// first's.
pub proof fn lemma_permutation2_either_order<A0: Parser, A1: Parser>(
    a0: A0,
    a1: A1,
    s: Seq<char>,
)
    ensures
        a0.spec_parse(s) matches Some((r0, x)) ==> (a1.spec_parse(r0) matches Some((r1, y))
            ==> permutation2(a0, a1).spec_parse(s) == Some((r1, (x, y)))),
        a0.spec_parse(s) is None ==> (a1.spec_parse(s) matches Some((r1, y)) ==> (a0.spec_parse(
            r1,
        ) matches Some((r0, x)) ==> permutation2(a0, a1).spec_parse(s) == Some((r0, (x, y))))),
{
}

/// [`Preceded`] is the simpler [`Delimited`]: it parses as a [`Delimited`]
/// whose suffix is the empty tag.
///
/// [`Preceded`]: super::combinators::Preceded
/// [`Delimited`]: super::combinators::Delimited
pub proof fn lemma_preceded_is_delimited<P: Parser, T: Parser>(p: P, t: T, s: Seq<char>)
    ensures
        preceded(p, t).spec_parse(s) == delimited(p, t, tag("")).spec_parse(s),
{
    reveal_strlit("");
    if let Some((r1, _)) = p.spec_parse(s) {
        if let Some((r2, v)) = t.spec_parse(r1) {
            assert(r2.skip(0) =~= r2);
        }
    }
}

/// [`Take`] gives exactly as many items as it was asked for.
pub proof fn lemma_take_count<T: Parser>(t: Take<T>, s: Seq<char>, n: nat)
    ensures
        t.spec_take(s, n) matches Some((_, items)) ==> items.len() == n,
    decreases n,
{
    if n > 0 {
        if let Some((r, v)) = t.parser.spec_parse(s) {
            lemma_take_count(t, r, (n - 1) as nat);
        }
    }
}

/// Only quotes and backslashes are escaped: a text that holds neither is
/// quoted by putting a quote on each side of it and nothing else.
pub proof fn lemma_quote_plain(s: Seq<char>)
    requires
        !s.contains('"'),
        !s.contains('\\'),
    ensures
        quoted(s) == seq!['"'] + s + seq!['"'],
{
    lemma_escaped_plain(s);
}

/// A text without quotes or backslashes is its own escaped form.
proof fn lemma_escaped_plain(s: Seq<char>)
    requires
        !s.contains('"'),
        !s.contains('\\'),
    ensures
        escaped(s) == s,
    decreases s.len(),
{
    if s.len() > 0 {
        let t = s.drop_last();
        assert(!t.contains('"') && !t.contains('\\')) by {
            if t.contains('"') || t.contains('\\') {
                let i = choose|i: int| 0 <= i < t.len() && (t[i] == '"' || t[i] == '\\');
                assert(s[i] == t[i]);
            }
        }
        lemma_escaped_plain(t);
        let c = s.last();
        assert(c != '"' && c != '\\') by {
            assert(s[s.len() - 1] == c);
        }
        assert(s =~= t + seq![c]);
    }
}

/// [`Alt`](super::combinators::Alt) of two parsers gives the outcome of the
/// first parser that accepts the input, and refuses what both refuse.
pub proof fn lemma_alt2_first_success<D: Model, A0: Parser<Dest = D>, A1: Parser<Dest = D>>(
    a0: A0,
    a1: A1,
    s: Seq<char>,
)
    ensures
        a0.spec_parse(s) is Some ==> alt2(a0, a1).spec_parse(s) == a0.spec_parse(s),
        a0.spec_parse(s) is None ==> alt2(a0, a1).spec_parse(s) == a1.spec_parse(s),
{
}

/// [`Alt`](super::combinators::Alt) of three parsers tries them in the order
/// given and gives the outcome of the first that accepts the input.
pub proof fn lemma_alt3_first_success<
    D: Model,
    A0: Parser<Dest = D>,
    A1: Parser<Dest = D>,
    A2: Parser<Dest = D>,
>(a0: A0, a1: A1, a2: A2, s: Seq<char>)
    ensures
        a0.spec_parse(s) is Some ==> alt3(a0, a1, a2).spec_parse(s) == a0.spec_parse(s),
        a0.spec_parse(s) is None && a1.spec_parse(s) is Some ==> alt3(a0, a1, a2).spec_parse(s)
            == a1.spec_parse(s),
        a0.spec_parse(s) is None && a1.spec_parse(s) is None ==> alt3(a0, a1, a2).spec_parse(s)
            == a2.spec_parse(s),
{
}

/// [`Alt`](super::combinators::Alt) of four parsers tries them in the order
/// given and gives the outcome of the first that accepts the input.
pub proof fn lemma_alt4_first_success<
    D: Model,
    A0: Parser<Dest = D>,
    A1: Parser<Dest = D>,
    A2: Parser<Dest = D>,
    A3: Parser<Dest = D>,
>(a0: A0, a1: A1, a2: A2, a3: A3, s: Seq<char>)
    ensures
        a0.spec_parse(s) is Some ==> alt4(a0, a1, a2, a3).spec_parse(s) == a0.spec_parse(s),
        a0.spec_parse(s) is None && a1.spec_parse(s) is Some ==> alt4(a0, a1, a2, a3).spec_parse(
            s,
        ) == a1.spec_parse(s),
        a0.spec_parse(s) is None && a1.spec_parse(s) is None && a2.spec_parse(s) is Some
            ==> alt4(a0, a1, a2, a3).spec_parse(s) == a2.spec_parse(s),
        a0.spec_parse(s) is None && a1.spec_parse(s) is None && a2.spec_parse(s) is None
            ==> alt4(a0, a1, a2, a3).spec_parse(s) == a3.spec_parse(s),
{
}

/// [`Alt`](super::combinators::Alt) of eight parsers tries them in the order
/// given: the outcome is that of the first that accepts the input, and the
/// input is refused when all refuse it.
pub proof fn lemma_alt8_first_success<
    D: Model,
    A0: Parser<Dest = D>,
    A1: Parser<Dest = D>,
    A2: Parser<Dest = D>,
    A3: Parser<Dest = D>,
    A4: Parser<Dest = D>,
    A5: Parser<Dest = D>,
    A6: Parser<Dest = D>,
    A7: Parser<Dest = D>,
>(a0: A0, a1: A1, a2: A2, a3: A3, a4: A4, a5: A5, a6: A6, a7: A7, s: Seq<char>)
    ensures
        ({
            let r = alt8(a0, a1, a2, a3, a4, a5, a6, a7).spec_parse(s);
            &&& a0.spec_parse(s) is Some ==> r == a0.spec_parse(s)
            &&& a0.spec_parse(s) is None ==> {
                &&& a1.spec_parse(s) is Some ==> r == a1.spec_parse(s)
                &&& a1.spec_parse(s) is None ==> {
                    &&& a2.spec_parse(s) is Some ==> r == a2.spec_parse(s)
                    &&& a2.spec_parse(s) is None ==> {
                        &&& a3.spec_parse(s) is Some ==> r == a3.spec_parse(s)
                        &&& a3.spec_parse(s) is None ==> {
                            &&& a4.spec_parse(s) is Some ==> r == a4.spec_parse(s)
                            &&& a4.spec_parse(s) is None ==> {
                                &&& a5.spec_parse(s) is Some ==> r == a5.spec_parse(s)
                                &&& a5.spec_parse(s) is None ==> {
                                    &&& a6.spec_parse(s) is Some ==> r == a6.spec_parse(s)
                                    &&& a6.spec_parse(s) is None ==> r == a7.spec_parse(s)
                                }
                            }
                        }
                    }
                }
            }
        }),
{
}

/// [`Announcements`] are the whole list of [`UserBackets`] as parsed: one
/// entry per item of the list, in order, none dropped or changed.
pub proof fn lemma_announcements_are_the_list(s: Seq<char>)
    ensures
        Announcements::spec_parser().spec_parse(s) == list(UserBackets::spec_parser()).spec_parse(s),
{
}

/// The text `t` starts with the bytes `m` written as pairs of hexadecimal
/// digits: byte `i` of `m` is the `i`-th pair.
pub open spec fn hex_pairs(t: Seq<char>, m: Seq<u8>) -> bool {
    &&& t.len() >= 2 * m.len()
    &&& forall|i: int| 0 <= i < m.len() ==> Some(#[trigger] m[i]) == hex_byte(t[2 * i], t[2 * i + 1])
}

/// Reading `n` bytes reads `n` pairs of hexadecimal digits in order and
/// leaves the text after them.
pub proof fn lemma_take_bytes(t: Take<Byte>, s: Seq<char>, n: nat)
    ensures
        t.spec_take(s, n) matches Some((rest, items)) ==> {
            &&& items.len() == n
            &&& hex_pairs(s, items)
            &&& rest == s.skip(2 * n as int)
        },
    decreases n,
{
    if n == 0 {
        assert(s.skip(0) =~= s);
    } else if let Some((r, v)) = Byte.spec_parse(s) {
        lemma_take_bytes(t, r, (n - 1) as nat);
        if let Some((rest, items)) = t.spec_take(s, n) {
            let tail = t.spec_take(r, (n - 1) as nat).unwrap().1;
            assert(items == seq![v] + tail);
            assert(r =~= s.skip(2));
            assert forall|i: int| 0 <= i < items.len() implies Some(#[trigger] items[i]) == hex_byte(
                s[2 * i],
                s[2 * i + 1],
            ) by {
                if i > 0 {
                    assert(items[i] == tail[i - 1]);
                    assert(Some(tail[i - 1]) == hex_byte(r[2 * (i - 1)], r[2 * (i - 1) + 1]));
                    assert(r[2 * (i - 1)] == s[2 * i]);
                    assert(r[2 * (i - 1) + 1] == s[2 * i + 1]);
                }
            }
            assert(rest =~= s.skip(2 * n as int));
        }
    }
}

/// [`AuthData`] is read as 1024 pairs of hexadecimal digits: byte `i` is the
/// `i`-th pair, in the order written, and the text after the pairs is left.
pub proof fn lemma_auth_data_bytes(s: Seq<char>)
    ensures
        AuthData::spec_parser().spec_parse(s) matches Some((rest, m)) ==> {
            &&& m.len() == 1024
            &&& hex_pairs(s, m)
            &&& rest == s.skip(2048)
        },
{
    let t = Take { count: 1024usize, parser: Byte };
    lemma_take_bytes(t, s, 1024);
}

/// A `Connect` trace entry carries the [`AuthData`] as it was read: its bytes
/// are the pairs of hexadecimal digits that follow `Connect` in the text, in
/// the order written.
pub proof fn lemma_connect_keeps_auth_data(s: Seq<char>)
    ensures
        AppLogTraceKind::spec_parser().spec_parse(s) matches Some(
            (_, AppLogTraceKindModel::Connect(m)),
        ) ==> m.len() == 1024 && exists|k: int| 0 <= k <= s.len() && #[trigger] hex_pairs(s.skip(k), m),
{
    reveal_strlit("Trace");
    reveal_strlit("Connect");
    if let Some((_, AppLogTraceKindModel::Connect(m))) = AppLogTraceKind::spec_parser().spec_parse(s) {
        let connect = strip_whitespace(tag("Connect"));
        let auth = strip_whitespace(AuthData::spec_parser());
        let r1 = s.skip(5);
        assert(tag("Trace").spec_parse(s) == Some((r1, ())));
        let (r2, _) = connect.spec_parse(r1).unwrap();
        let (r3, m3) = auth.spec_parse(r2).unwrap();
        assert(m3 == m);
        let t = trim_ws(r2);
        assert(AuthData::spec_parser().spec_parse(t) matches Some((_, mm)) && mm == m);
        lemma_auth_data_bytes(t);
        connect.lemma_parse_suffix(r1);
        lemma_trim_ws_suffix(r2);
        assert(r1.is_suffix_of(s));
        lemma_suffix_trans(r2, r1, s);
        lemma_suffix_trans(t, r2, s);
        let k = s.len() - t.len();
        assert(t =~= s.skip(k));
        assert(hex_pairs(s.skip(k), m));
    }
}

/// A run of digits followed by no digit is read whole.
proof fn lemma_leading_digits_of_run(d: Seq<char>, rest: Seq<char>, radix: u32)
    requires
        forall|i: int| 0 <= i < d.len() ==> #[trigger] is_digit(d[i], radix),
        rest.len() == 0 || !is_digit(rest[0], radix),
    ensures
        leading_digits(d + rest, radix) == d,
    decreases d.len(),
{
    if d.len() == 0 {
        assert(d + rest =~= rest);
    } else {
        let t = d.drop_first();
        assert forall|i: int| 0 <= i < t.len() implies #[trigger] is_digit(t[i], radix) by {
            assert(t[i] == d[i + 1]);
            assert(is_digit(d[i + 1], radix));
        }
        lemma_leading_digits_of_run(t, rest, radix);
        assert(is_digit(d[0], radix));
        assert((d + rest).drop_first() =~= t + rest);
        assert(d =~= seq![d[0]] + t);
    }
}

/// A text of decimal digits that does not start with `0x` is read in base
/// ten: [`U32`] gives the number the digits write, whatever zeros lead it,
/// and leaves the text after the digits.
pub proof fn lemma_u32_decimal(d: Seq<char>, rest: Seq<char>)
    requires
        d.len() > 0,
        forall|i: int| 0 <= i < d.len() ==> #[trigger] is_digit(d[i], 10),
        rest.len() == 0 || !is_digit(rest[0], 10),
        0 < digits_value(d, 10) <= u32::MAX,
    ensures
        U32.spec_parse(d + rest) == Some((rest, digits_value(d, 10) as u32)),
{
    let s = d + rest;
    if s.len() >= 2 && s[0] == '0' && s[1] == 'x' {
        assert(d[0] == '0');
        if d.len() >= 2 {
            assert(is_digit(d[1], 10));
            assert(s[1] == d[1]);
        } else {
            assert(d =~= seq!['0']);
            assert(d.drop_last() =~= Seq::<char>::empty());
            assert(to_digit('0', 10) == Some(0u32));
            assert(d.last() == '0');
            assert(digits_value(Seq::<char>::empty(), 10) == 0);
            assert(digits_value(d, 10) == 0);
        }
    }
    lemma_leading_digits_of_run(d, rest, 10);
    assert(s.skip(d.len() as int) =~= rest);
}

/// A zero written before a number does not change its value.
pub proof fn lemma_leading_zero_value(d: Seq<char>, radix: u32)
    requires
        2 <= radix <= 36,
    ensures
        digits_value(seq!['0'] + d, radix) == digits_value(d, radix),
    decreases d.len(),
{
    if d.len() == 0 {
        let z = seq!['0'] + d;
        assert(z =~= seq!['0']);
        assert(z.drop_last() =~= Seq::<char>::empty());
        assert(to_digit('0', radix) == Some(0u32));
        assert(z.last() == '0');
        assert(digits_value(Seq::<char>::empty(), radix) == 0);
        assert(0nat * (radix as nat) == 0) by (nonlinear_arith);
        assert(digits_value(z, radix) == 0);
        assert(digits_value(d, radix) == 0);
    } else {
        lemma_leading_zero_value(d.drop_last(), radix);
        let z = seq!['0'] + d;
        assert(z.drop_last() =~= seq!['0'] + d.drop_last());
        assert(z.last() == d.last());
        assert(digits_value(z, radix) == digits_value(z.drop_last(), radix) * (radix as nat) + match to_digit(z.last(), radix) {
            Some(v) => v as nat,
            None => 0,
        });
    }
}

/// Leading zeros never change what [`U32`] reads from decimal digits: a
/// number with a zero written before it parses to the same value.
pub proof fn lemma_u32_leading_zero(d: Seq<char>, rest: Seq<char>)
    requires
        d.len() > 0,
        forall|i: int| 0 <= i < d.len() ==> #[trigger] is_digit(d[i], 10),
        rest.len() == 0 || (!is_digit(rest[0], 10) && rest[0] != 'x'),
    ensures
        U32.spec_parse(seq!['0'] + d + rest) == U32.spec_parse(d + rest),
{
    let z = seq!['0'] + d;
    assert forall|i: int| 0 <= i < z.len() implies #[trigger] is_digit(z[i], 10) by {
        if i == 0 {
            assert(to_digit('0', 10) == Some(0u32));
        } else {
            assert(z[i] == d[i - 1]);
            assert(is_digit(d[i - 1], 10));
        }
    }
    lemma_leading_digits_of_run(z, rest, 10);
    lemma_leading_digits_of_run(d, rest, 10);
    lemma_leading_zero_value(d, 10);
    assert(seq!['0'] + d + rest =~= z + rest);
    let s = d + rest;
    assert(s[0] == d[0]);
    if d.len() >= 2 {
        assert(s[1] == d[1]);
        assert(is_digit(d[1], 10));
    } else {
        assert(rest.len() == 0 || s[1] == rest[0]);
    }
    assert((z + rest)[0] == '0');
    assert((z + rest)[1] == d[0]);
    assert(is_digit(d[0], 10));
    assert((z + rest).skip(z.len() as int) =~= rest);
    assert(s.skip(d.len() as int) =~= rest);
}

} // verus!
