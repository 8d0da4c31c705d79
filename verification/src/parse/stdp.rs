use vstd::prelude::*;

use super::text::{split_first, strip_prefix};
use super::{Model, Parser, outcome_of};

verus! {

/// A `u32` that is not zero. Verus cannot declare `std::num::NonZeroU32`, so
/// the library has this type with the same `new` and `get`.
#[derive(Debug, Clone, Copy, PartialEq, Eq, Hash)]
pub struct NonZeroU32 {
    value: u32,
}

impl NonZeroU32 {
    #[verifier::type_invariant]
    spec fn nonzero(self) -> bool {
        self.value != 0
    }

    /// The number held.
    pub closed spec fn spec_get(self) -> u32 {
        self.value
    }

    /// `None` for zero, else the number as a `NonZeroU32`.
    pub fn new(n: u32) -> (r: Option<NonZeroU32>)
        ensures
            r is None <==> n == 0,
            r matches Some(x) ==> x.spec_get() == n,
    {
        if n == 0 {
            None
        } else {
            Some(NonZeroU32 { value: n })
        }
    }

    /// The number held, which is not zero.
    pub fn get(self) -> (r: u32)
        ensures
            r == self.spec_get(),
            r != 0,
    {
        proof {
            use_type_invariant(&self);
        }
        self.value
    }
}

/// An `i32` that is not zero. Verus cannot declare `std::num::NonZeroI32`, so
/// the library has this type with the same `new` and `get`.
#[derive(Debug, Clone, Copy, PartialEq, Eq, Hash)]
pub struct NonZeroI32 {
    value: i32,
}

impl NonZeroI32 {
    #[verifier::type_invariant]
    spec fn nonzero(self) -> bool {
        self.value != 0
    }

    /// The number held.
    pub closed spec fn spec_get(self) -> i32 {
        self.value
    }

    /// `None` for zero, else the number as a `NonZeroI32`.
    pub fn new(n: i32) -> (r: Option<NonZeroI32>)
        ensures
            r is None <==> n == 0,
            r matches Some(x) ==> x.spec_get() == n,
    {
        if n == 0 {
            None
        } else {
            Some(NonZeroI32 { value: n })
        }
    }

    /// The number held, which is not zero.
    pub fn get(self) -> (r: i32)
        ensures
            r == self.spec_get(),
            r != 0,
    {
        proof {
            use_type_invariant(&self);
        }
        self.value
    }
}

impl Model for NonZeroU32 {
    type M = u32;

    open spec fn model(&self) -> u32 {
        self.spec_get()
    }
}

impl Model for NonZeroI32 {
    type M = i32;

    open spec fn model(&self) -> i32 {
        self.spec_get()
    }
}

// ---------------------------------------------------------------------------
// Digits
// ---------------------------------------------------------------------------

/// The value of a character as a digit of the given radix (at most 36), as
/// `char::to_digit` gives it: `0`-`9`, then `a`-`z` or `A`-`Z` for 10 to 35.
pub open spec fn to_digit(c: char, radix: u32) -> Option<u32> {
    let n = c as u32;
    let d: int = if 48 <= n <= 57 {
        n - 48
    } else if 97 <= n <= 122 {
        n - 97 + 10
    } else if 65 <= n <= 90 {
        n - 65 + 10
    } else {
        36
    };
    if d < radix {
        Some(d as u32)
    } else {
        None
    }
}

/// Whether a character is a digit of the given radix (`char::is_digit`).
pub open spec fn is_digit(c: char, radix: u32) -> bool {
    to_digit(c, radix) is Some
}

/// The leading digits of `s` in the given radix.
pub open spec fn leading_digits(s: Seq<char>, radix: u32) -> Seq<char>
    decreases s.len(),
{
    if s.len() > 0 && is_digit(s[0], radix) {
        seq![s[0]] + leading_digits(s.drop_first(), radix)
    } else {
        Seq::empty()
    }
}

/// The number written by a sequence of digits.
pub open spec fn digits_value(d: Seq<char>, radix: u32) -> nat
    decreases d.len(),
{
    if d.len() == 0 {
        0
    } else {
        digits_value(d.drop_last(), radix) * (radix as nat) + match to_digit(d.last(), radix) {
            Some(v) => v as nat,
            None => 0,
        }
    }
}

/// What `u32::from_str_radix` gives for a nonempty run of digits: their
/// value when it fits in a `u32`; `None` for no digits or an overflow.
pub open spec fn u32_of_digits(d: Seq<char>, radix: u32) -> Option<u32> {
    if d.len() > 0 && digits_value(d, radix) <= u32::MAX {
        Some(digits_value(d, radix) as u32)
    } else {
        None
    }
}

/// A number never shrinks when digits are written after it.
proof fn lemma_digits_value_grows(d: Seq<char>, k: int, radix: u32)
    requires
        0 <= k <= d.len(),
        radix >= 1,
    ensures
        digits_value(d.take(k), radix) <= digits_value(d, radix),
    decreases d.len(),
{
    if k < d.len() {
        lemma_digits_value_grows(d.drop_last(), k, radix);
        assert(d.drop_last().take(k) =~= d.take(k));
        let x = digits_value(d.drop_last(), radix);
        assert(x * (radix as nat) >= x) by (nonlinear_arith)
            requires
                radix >= 1,
        ;
    } else {
        assert(d.take(k) =~= d);
    }
}

/// The leading digits are digits, and what follows them is no digit.
proof fn lemma_leading_digits(s: Seq<char>, radix: u32)
    ensures
        leading_digits(s, radix).len() <= s.len(),
        leading_digits(s, radix) =~= s.take(leading_digits(s, radix).len() as int),
        forall|i: int|
            0 <= i < leading_digits(s, radix).len() ==> #[trigger] is_digit(s[i], radix),
        leading_digits(s, radix).len() < s.len() ==> !is_digit(
            s[leading_digits(s, radix).len() as int],
            radix,
        ),
    decreases s.len(),
{
    if s.len() > 0 && is_digit(s[0], radix) {
        lemma_leading_digits(s.drop_first(), radix);
        let l = leading_digits(s.drop_first(), radix);
        assert forall|i: int| 0 <= i < leading_digits(s, radix).len() implies #[trigger] is_digit(
            s[i],
            radix,
        ) by {
            if i > 0 {
                assert(s[i] == s.drop_first()[i - 1]);
            }
        }
    }
}

/// The value of the leading digits of `s` in the given radix (2 to 36),
/// computed the way `u32::from_str_radix` computes it on them: `None` when
/// there is no digit or the value does not fit in a `u32`.
fn leading_digits_value(s: &str, radix: u32) -> (r: Option<u32>)
    requires
        2 <= radix <= 36,
    ensures
        r == u32_of_digits(leading_digits(s@, radix), radix),
{
    let ghost ld = leading_digits(s@, radix);
    proof {
        lemma_leading_digits(s@, radix);
    }
    let mut rest = s;
    let mut value: u32 = 0;
    let mut any = false;
    let ghost mut k: int = 0;
    loop
        invariant
            2 <= radix <= 36,
            ld == leading_digits(s@, radix),
            ld.len() <= s@.len(),
            ld =~= s@.take(ld.len() as int),
            forall|i: int| 0 <= i < ld.len() ==> #[trigger] is_digit(s@[i], radix),
            ld.len() < s@.len() ==> !is_digit(s@[ld.len() as int], radix),
            0 <= k <= ld.len(),
            rest@ == s@.skip(k),
            any == (k > 0),
            value == digits_value(ld.take(k), radix),
        ensures
            k == ld.len(),
            any == (k > 0),
            value == digits_value(ld.take(k), radix),
        decreases s@.len() - k,
    {
        match split_first(rest) {
            None => {
                break ;
            },
            Some((c, tail)) => {
                let d = match digit_of(c, radix) {
                    Some(d) => d,
                    None => {
                        assert(k == ld.len()) by {
                            if k < ld.len() {
                                assert(s@[k] == c);
                                assert(is_digit(s@[k], radix));
                            }
                        }
                        break ;
                    },
                };
                assert(k < ld.len()) by {
                    if k >= ld.len() {
                        assert(s@[k] == c);
                    }
                };
                assert(ld.take(k + 1).drop_last() =~= ld.take(k));
                assert(ld.take(k + 1).last() == c);
                let next = match value.checked_mul(radix) {
                    Some(m) => m.checked_add(d),
                    None => None,
                };
                match next {
                    Some(n) => {
                        value = n;
                    },
                    None => {
                        proof {
                            lemma_digits_value_grows(ld, k + 1, radix);
                        }
                        return None;
                    },
                }
                any = true;
                proof {
                    assert(tail@ =~= s@.skip(k + 1));
                    k = k + 1;
                }
                rest = tail;
            },
        }
    }
    assert(ld.take(k) =~= ld);
    if any {
        Some(value)
    } else {
        None
    }
}

/// The value of `c` as a digit of the given radix (`char::to_digit`).
fn digit_of(c: char, radix: u32) -> (r: Option<u32>)
    requires
        2 <= radix <= 36,
    ensures
        r == to_digit(c, radix),
{
    let n = c as u32;
    let d: u32 = if 48 <= n && n <= 57 {
        n - 48
    } else if 97 <= n && n <= 122 {
        n - 97 + 10
    } else if 65 <= n && n <= 90 {
        n - 65 + 10
    } else {
        36
    };
    if d < radix {
        Some(d)
    } else {
        None
    }
}

// ---------------------------------------------------------------------------
// Parsers
// ---------------------------------------------------------------------------

/// The digits of a number and its radix: after a `0x` prefix hexadecimal,
/// else decimal.
pub open spec fn radix_split(s: Seq<char>) -> (Seq<char>, u32) {
    if s.len() >= 2 && s[0] == '0' && s[1] == 'x' {
        (s.skip(2), 16)
    } else {
        (s, 10)
    }
}

/// Unsigned numbers (not zero), decimal or hexadecimal after `0x`
#[derive(Debug)]
pub struct U32;

impl U32 {
    /// Separates the radix prefix; returns the rest and the radix
    fn strip_radix_prefix(input: &str) -> (r: (&str, u32))
        ensures
            (r.0@, r.1) == radix_split(input@),
    {
        proof {
            reveal_strlit("0x");
        }
        let hex = "0x";
        assert(hex@ =~= seq!['0', 'x']);
        match strip_prefix(input, hex) {
            Some(rest) => (rest, 16),
            None => {
                assert(!(input@.len() >= 2 && input@[0] == '0' && input@[1] == 'x')) by {
                    if input@.len() >= 2 && input@[0] == '0' && input@[1] == 'x' {
                        assert(hex@ =~= input@.subrange(0, 2));
                    }
                }
                (input, 10)
            },
        }
    }

    /// The text from the first character that is no digit of the radix
    fn find_digit_end(s: &str, radix: u32) -> (r: &str)
        requires
            2 <= radix <= 36,
        ensures
            r@ == s@.skip(leading_digits(s@, radix).len() as int),
    {
        proof {
            lemma_leading_digits(s@, radix);
        }
        let ghost ld = leading_digits(s@, radix);
        let mut rest = s;
        let ghost mut k: int = 0;
        loop
            invariant
                ld == leading_digits(s@, radix),
                ld.len() <= s@.len(),
                forall|i: int| 0 <= i < ld.len() ==> #[trigger] is_digit(s@[i], radix),
                ld.len() < s@.len() ==> !is_digit(s@[ld.len() as int], radix),
                2 <= radix <= 36,
                0 <= k <= ld.len(),
                rest@ == s@.skip(k),
            ensures
                rest@ == s@.skip(ld.len() as int),
            decreases s@.len() - k,
        {
            match split_first(rest) {
                None => {
                    return rest;
                },
                Some((c, tail)) => {
                    if digit_of(c, radix).is_none() {
                        assert(k == ld.len()) by {
                            if k < ld.len() {
                                assert(s@[k] == c);
                                assert(is_digit(s@[k], radix));
                            }
                        }
                        break ;
                    }
                    assert(k < ld.len()) by {
                        if k >= ld.len() {
                            assert(s@[k] == c);
                        }
                    }
                    proof {
                        assert(tail@ =~= s@.skip(k + 1));
                        k = k + 1;
                    }
                    rest = tail;
                },
            }
        }
        rest
    }
}

impl Parser for U32 {
    type Dest = NonZeroU32;

    open spec fn spec_parse(&self, input: Seq<char>) -> Option<(Seq<char>, u32)> {
        let (t, radix) = radix_split(input);
        let ld = leading_digits(t, radix);
        match u32_of_digits(ld, radix) {
            Some(v) => if v != 0 {
                Some((t.skip(ld.len() as int), v))
            } else {
                None
            },
            None => None,
        }
    }

    proof fn lemma_parse_suffix(&self, input: Seq<char>) {
        let (t, radix) = radix_split(input);
        lemma_leading_digits(t, radix);
        let n = leading_digits(t, radix).len() as int;
        assert(t.skip(n) =~= input.subrange(input.len() - t.skip(n).len(), input.len() as int));
    }

    fn parse<'a>(&self, input: &'a str) -> (r: Result<(&'a str, NonZeroU32), ()>) {
        let (after_prefix, radix) = Self::strip_radix_prefix(input);
        let remaining = Self::find_digit_end(after_prefix, radix);
        let value = match leading_digits_value(after_prefix, radix) {
            Some(v) => v,
            None => return Err(()),
        };
        let non_zero = match NonZeroU32::new(value) {
            Some(n) => n,
            None => return Err(()),
        };
        Ok((remaining, non_zero))
    }
}

/// What `i32::from_str` gives for a sign or digit followed by decimal
/// digits.
pub open spec fn i32_of(c: char, d: Seq<char>) -> Option<i32> {
    if c == '-' {
        match u32_of_digits(d, 10) {
            Some(m) => if m <= 0x8000_0000 {
                Some((0 - m) as i32)
            } else {
                None
            },
            None => None,
        }
    } else if c == '+' {
        match u32_of_digits(d, 10) {
            Some(m) => if m <= 0x7fff_ffff {
                Some(m as i32)
            } else {
                None
            },
            None => None,
        }
    } else if is_digit(c, 10) {
        match u32_of_digits(seq![c] + d, 10) {
            Some(m) => if m <= 0x7fff_ffff {
                Some(m as i32)
            } else {
                None
            },
            None => None,
        }
    } else {
        None
    }
}

/// Signed numbers (not zero)
#[derive(Debug)]
pub struct I32;

impl I32 {
    /// The text after the number: its first character (sign or digit) is
    /// passed over whatever it is, then the decimal digits
    fn find_digit_end(input: &str) -> (r: &str)
        ensures
            r@ == (if input@.len() == 0 {
                input@
            } else {
                input@.drop_first().skip(leading_digits(input@.drop_first(), 10).len() as int)
            }),
    {
        match split_first(input) {
            None => input,
            Some((_, tail)) => U32::find_digit_end(tail, 10),
        }
    }
}

impl Parser for I32 {
    type Dest = NonZeroI32;

    open spec fn spec_parse(&self, input: Seq<char>) -> Option<(Seq<char>, i32)> {
        if input.len() == 0 {
            None
        } else {
            let t = input.drop_first();
            let d = leading_digits(t, 10);
            match i32_of(input[0], d) {
                Some(v) => if v != 0 {
                    Some((t.skip(d.len() as int), v))
                } else {
                    None
                },
                None => None,
            }
        }
    }

    proof fn lemma_parse_suffix(&self, input: Seq<char>) {
        if input.len() > 0 {
            let t = input.drop_first();
            lemma_leading_digits(t, 10);
            let n = leading_digits(t, 10).len() as int;
            assert(t.skip(n) =~= input.subrange(input.len() - t.skip(n).len(), input.len() as int));
        }
    }

    fn parse<'a>(&self, input: &'a str) -> (r: Result<(&'a str, NonZeroI32), ()>) {
        let remaining = Self::find_digit_end(input);
        let (c, tail) = match split_first(input) {
            Some(parts) => parts,
            None => return Err(()),
        };
        let value: i32 = if c == '-' {
            let m = match leading_digits_value(tail, 10) {
                Some(m) => m,
                None => return Err(()),
            };
            if m > 0x8000_0000 {
                return Err(());
            }
            if m == 0x8000_0000 {
                i32::MIN
            } else {
                0 - (m as i32)
            }
        } else if c == '+' {
            let m = match leading_digits_value(tail, 10) {
                Some(m) => m,
                None => return Err(()),
            };
            if m > 0x7fff_ffff {
                return Err(());
            }
            m as i32
        } else if digit_of(c, 10).is_some() {
            assert(leading_digits(input@, 10) =~= seq![c] + leading_digits(tail@, 10));
            let m = match leading_digits_value(input, 10) {
                Some(m) => m,
                None => return Err(()),
            };
            if m > 0x7fff_ffff {
                return Err(());
            }
            m as i32
        } else {
            return Err(());
        };
        let non_zero = match NonZeroI32::new(value) {
            Some(n) => n,
            None => return Err(()),
        };
        Ok((remaining, non_zero))
    }
}

/// The byte that two characters write in hexadecimal as
/// `u8::from_str_radix` reads them: two hexadecimal digits, or `+` and one
/// digit.
pub open spec fn hex_byte(c0: char, c1: char) -> Option<u8> {
    match (to_digit(c0, 16), to_digit(c1, 16)) {
        (Some(d0), Some(d1)) => Some((d0 * 16 + d1) as u8),
        (None, Some(d1)) => if c0 == '+' {
            Some(d1 as u8)
        } else {
            None
        },
        _ => None,
    }
}

/// Hexadecimal bytes (handy for parsing blobs)
#[derive(Debug, Clone)]
pub struct Byte;

impl Parser for Byte {
    type Dest = u8;

    open spec fn spec_parse(&self, input: Seq<char>) -> Option<(Seq<char>, u8)> {
        if input.len() >= 2 {
            match hex_byte(input[0], input[1]) {
                Some(v) => Some((input.skip(2), v)),
                None => None,
            }
        } else {
            None
        }
    }

    proof fn lemma_parse_suffix(&self, input: Seq<char>) {
        if input.len() >= 2 {
            assert(input.skip(2) =~= input.subrange(2, input.len() as int));
        }
    }

    fn parse<'a>(&self, input: &'a str) -> (r: Result<(&'a str, u8), ()>) {
        let (c0, rest) = match split_first(input) {
            Some(parts) => parts,
            None => return Err(()),
        };
        let (c1, remaining) = match split_first(rest) {
            Some(parts) => parts,
            None => return Err(()),
        };
        assert(remaining@ =~= input@.skip(2));
        let d1 = match digit_of(c1, 16) {
            Some(d) => d,
            None => return Err(()),
        };
        match digit_of(c0, 16) {
            Some(d0) => Ok((remaining, (d0 * 16 + d1) as u8)),
            None => if c0 == '+' {
                Ok((remaining, d1 as u8))
            } else {
                Err(())
            },
        }
    }
}

} // verus!
