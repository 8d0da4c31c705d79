use lib::parse::Parser;
use lib::parse::combinators::{
    AsIs, all2, all3, all4, alt2, alt3, alt4, alt8, delimited, do_unquote,
    do_unquote_non_escaped, key_value, list, permutation2, permutation3, preceded, quote,
    quoted_tag, strip_whitespace, tag, take, unquote,
};
use lib::parse::stdp::{Byte, U32};
use lib::parse::types::ToErr;

#[test]
fn quote_escapes_quotes_and_backslashes() {
    assert_eq!(quote("abc\"def\\ghi"), "\"abc\\\"def\\\\ghi\"");
    assert_eq!(quote(""), "\"\"");
    assert_eq!(quote("plain"), "\"plain\"");
}

#[test]
fn do_unquote_reads_escaped_string() {
    assert_eq!(
        do_unquote("\"abc\\\"def\\\\ghi\"nice"),
        Ok(("nice", String::from("abc\"def\\ghi")))
    );
    assert_eq!(do_unquote("\"\"rest"), Ok(("rest", String::new())));
    // an escaped ordinary character stands for itself
    assert_eq!(do_unquote("\"a\\bc\""), Ok(("", String::from("abc"))));
}

#[test]
fn do_unquote_refuses_bad_input() {
    assert_eq!(do_unquote("abc\""), Err(()));
    assert_eq!(do_unquote("\"abc"), Err(()));
    assert_eq!(do_unquote("\"abc\\\""), Err(()));
    assert_eq!(do_unquote(""), Err(()));
}

#[test]
fn unquote_undoes_quote() {
    for s in ["", "x", "a\"b", "\\", "\\\"\\", "тест \"кавычки\""] {
        let text = quote(s) + " tail";
        assert_eq!(do_unquote(&text), Ok((" tail", s.to_string())));
    }
}

#[test]
fn do_unquote_non_escaped_reads_simple_string() {
    assert_eq!(do_unquote_non_escaped("\"abc\"rest"), Ok(("rest", "abc")));
    assert_eq!(do_unquote_non_escaped("\"a\\b\"x"), Ok(("x", "a\\b")));
}

#[test]
fn do_unquote_non_escaped_refuses() {
    assert_eq!(do_unquote_non_escaped("\"\"rest"), Err(()));
    assert_eq!(do_unquote_non_escaped("\"ab\\\"c\""), Err(()));
    assert_eq!(do_unquote_non_escaped("abc"), Err(()));
    assert_eq!(do_unquote_non_escaped("\"abc"), Err(()));
}

#[test]
fn non_escaped_agrees_with_do_unquote() {
    let input = "\"key\": 1";
    let (rest, content) = do_unquote_non_escaped(input).unwrap();
    assert_eq!(do_unquote(input), Ok((rest, content.to_string())));
}

#[test]
fn unquote_parser() {
    assert_eq!(unquote().parse("\"hi\" there"), Ok((" there", String::from("hi"))));
    assert_eq!(unquote().parse("hi"), Err(()));
}

#[test]
fn as_is_takes_everything() {
    assert_eq!(AsIs.parse("all of it"), Ok(("", String::from("all of it"))));
}

#[test]
fn tag_strips_prefix() {
    assert_eq!(tag("Ok").parse("Okay"), Ok(("ay", ())));
    assert_eq!(tag("Ok").parse("ok"), Err(()));
    assert_eq!(tag("").parse("x"), Ok(("x", ())));
}

#[test]
fn quoted_tag_needs_exact_content() {
    assert_eq!(quoted_tag("id").parse("\"id\":1"), Ok((":1", ())));
    assert_eq!(quoted_tag("id").parse("\"idx\":1"), Err(()));
    assert_eq!(quoted_tag("id").parse("\"i\":1"), Err(()));
    assert_eq!(quoted_tag("id").parse("id:1"), Err(()));
}

#[test]
fn strip_whitespace_trims_both_sides() {
    let p = strip_whitespace(tag("x"));
    assert_eq!(p.parse(" \t\n x  y"), Ok(("y", ())));
    assert_eq!(p.parse("\u{3000}x\u{a0}y"), Ok(("y", ())));
    assert_eq!(p.parse(" y"), Err(()));
}

#[test]
fn delimited_keeps_middle() {
    let p = delimited(tag("("), unquote(), tag(")"));
    assert_eq!(p.parse("(\"v\")rest"), Ok(("rest", String::from("v"))));
    assert_eq!(p.parse("(\"v\"rest"), Err(()));
    assert_eq!(p.parse("\"v\")"), Err(()));
}

#[test]
fn map_applies_function() {
    let p = lib::parse::combinators::map(unquote(), ToErr);
    match p.parse("\"boom\"!") {
        Ok(("!", lib::parse::types::Status::Error(msg))) => assert_eq!(msg, "boom"),
        _ => panic!("unexpected result"),
    }
}

#[test]
fn preceded_drops_prefix() {
    let p = preceded(tag("requestid="), U32);
    let (rest, n) = p.parse("requestid=42 end").unwrap();
    assert_eq!(rest, " end");
    assert_eq!(n.get(), 42);
    assert!(p.parse("request=42").is_err());
}

#[test]
fn all_runs_in_sequence() {
    assert_eq!(all2(tag("a"), tag("b")).parse("abc"), Ok(("c", ((), ()))));
    assert_eq!(all2(tag("a"), tag("b")).parse("bac"), Err(()));
    assert_eq!(all3(tag("a"), tag("b"), Byte).parse("ab0f!"), Ok(("!", ((), (), 15))));
    assert_eq!(
        all4(Byte, Byte, tag("-"), Byte).parse("0102-ff"),
        Ok(("", (1, 2, (), 255)))
    );
    assert_eq!(all4(Byte, Byte, tag("-"), Byte).parse("0102+ff"), Err(()));
}

#[test]
fn key_value_needs_trailing_comma() {
    let p = key_value("id", unquote());
    assert_eq!(p.parse(" \"id\" : \"x\" , rest"), Ok(("rest", String::from("x"))));
    assert_eq!(p.parse("\"id\":\"x\""), Err(()));
    assert_eq!(p.parse("\"other\":\"x\","), Err(()));
}

#[test]
fn permutation2_either_order() {
    let p = permutation2(key_value("a", unquote()), key_value("b", unquote()));
    let expected = (String::from("1"), String::from("2"));
    assert_eq!(p.parse("\"a\":\"1\",\"b\":\"2\","), Ok(("", expected.clone())));
    assert_eq!(p.parse("\"b\":\"2\",\"a\":\"1\","), Ok(("", expected)));
    assert_eq!(p.parse("\"a\":\"1\","), Err(()));
}

#[test]
fn permutation3_any_order() {
    let p = permutation3(tag("a"), tag("b"), Byte);
    for input in ["ab10", "a10b", "ba10", "b10a", "10ab", "10ba"] {
        assert_eq!(p.parse(input), Ok(("", ((), (), 16))), "input {}", input);
    }
    assert_eq!(p.parse("aab10"), Err(()));
}

#[test]
fn list_reads_items_with_commas() {
    let p = list(unquote());
    assert_eq!(
        p.parse(" [ \"a\" , \"b\", ] tail"),
        Ok(("tail", vec![String::from("a"), String::from("b")]))
    );
    assert_eq!(p.parse("[]"), Ok(("", Vec::new())));
    assert_eq!(p.parse("[\"a\"]"), Err(()));
    assert_eq!(p.parse("[\"a\","), Err(()));
    assert_eq!(p.parse("(\"a\",)"), Err(()));
}

#[test]
fn alt_takes_first_success() {
    let p2 = alt2(tag("ab"), tag("a"));
    assert_eq!(p2.parse("abc"), Ok(("c", ())));
    assert_eq!(p2.parse("ac"), Ok(("c", ())));
    assert_eq!(p2.parse("c"), Err(()));
    let p3 = alt3(tag("x"), tag("y"), tag("z"));
    assert_eq!(p3.parse("z!"), Ok(("!", ())));
    let p4 = alt4(tag("1"), tag("2"), tag("3"), tag("4"));
    assert_eq!(p4.parse("4"), Ok(("", ())));
    assert_eq!(p4.parse("5"), Err(()));
    let p8 = alt8(
        tag("a"),
        tag("b"),
        tag("c"),
        tag("d"),
        tag("e"),
        tag("f"),
        tag("g"),
        tag("h"),
    );
    assert_eq!(p8.parse("hh"), Ok(("h", ())));
    assert_eq!(p8.parse("i"), Err(()));
}

#[test]
fn take_repeats_exactly() {
    assert_eq!(take(3, Byte).parse("0a0b0cff"), Ok(("ff", vec![10, 11, 12])));
    assert_eq!(take(0, Byte).parse("zz"), Ok(("zz", Vec::new())));
    assert_eq!(take(3, Byte).parse("0a0b"), Err(()));
}
