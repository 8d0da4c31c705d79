use lib::parse::Parser;
use lib::parse::stdp::{Byte, I32, NonZeroI32, NonZeroU32, U32};

fn u32_of(input: &str) -> Result<(&str, u32), ()> {
    U32.parse(input).map(|(rest, n)| (rest, n.get()))
}

fn i32_of(input: &str) -> Result<(&str, i32), ()> {
    I32.parse(input).map(|(rest, n)| (rest, n.get()))
}

#[test]
fn nonzero_new() {
    assert!(NonZeroU32::new(0).is_none());
    assert_eq!(NonZeroU32::new(7).unwrap().get(), 7);
    assert!(NonZeroI32::new(0).is_none());
    assert_eq!(NonZeroI32::new(-7).unwrap().get(), -7);
}

#[test]
fn u32_decimal() {
    assert_eq!(u32_of("123abc"), Ok(("abc", 123)));
    assert_eq!(u32_of("4294967295"), Ok(("", 4294967295)));
    assert_eq!(u32_of("007,"), Ok((",", 7)));
}

#[test]
fn u32_hexadecimal() {
    assert_eq!(u32_of("0x1F zz"), Ok((" zz", 31)));
    assert_eq!(u32_of("0xffffffff"), Ok(("", u32::MAX)));
    assert_eq!(u32_of("0xg"), Err(()));
}

#[test]
fn u32_refuses() {
    assert_eq!(u32_of("0"), Err(()));
    assert_eq!(u32_of("0x0"), Err(()));
    assert_eq!(u32_of("4294967296"), Err(()));
    assert_eq!(u32_of("0x100000000"), Err(()));
    assert_eq!(u32_of(""), Err(()));
    assert_eq!(u32_of("+5"), Err(()));
    assert_eq!(u32_of(" 5"), Err(()));
}

#[test]
fn i32_signs() {
    assert_eq!(i32_of("-5x"), Ok(("x", -5)));
    assert_eq!(i32_of("+7,"), Ok((",", 7)));
    assert_eq!(i32_of("42"), Ok(("", 42)));
    assert_eq!(i32_of("-2147483648"), Ok(("", i32::MIN)));
    assert_eq!(i32_of("2147483647 "), Ok((" ", i32::MAX)));
}

#[test]
fn i32_refuses() {
    assert_eq!(i32_of("-"), Err(()));
    assert_eq!(i32_of("+"), Err(()));
    assert_eq!(i32_of(""), Err(()));
    assert_eq!(i32_of("0"), Err(()));
    assert_eq!(i32_of("-0"), Err(()));
    assert_eq!(i32_of("2147483648"), Err(()));
    assert_eq!(i32_of("-2147483649"), Err(()));
    assert_eq!(i32_of("x1"), Err(()));
}

#[test]
fn byte_hex_pairs() {
    assert_eq!(Byte.parse("ff00"), Ok(("00", 255)));
    assert_eq!(Byte.parse("0A"), Ok(("", 10)));
    assert_eq!(Byte.parse("+f"), Ok(("", 15)));
}

#[test]
fn byte_refuses() {
    assert_eq!(Byte.parse("f"), Err(()));
    assert_eq!(Byte.parse("g0"), Err(()));
    assert_eq!(Byte.parse("-f"), Err(()));
    assert_eq!(Byte.parse("é0"), Err(()));
    assert_eq!(Byte.parse(""), Err(()));
}
