//! The requested output size: decimal parsing, default and clamping.

use vstd::prelude::*;
use vstd::string::StringSliceAdditionalSpecFns;
use vstd::string::is_ascii_spec_bytes;

verus! {

/// The size used when the request names none, or names one that is not a number.
pub const DEFAULT_SIZE: u32 = 80;

/// Largest side length that is ever served; larger requests are clamped.
pub const MAX_SIZE: u32 = 512;

pub open spec fn is_digit(c: char) -> bool {
    '0' <= c <= '9'
}

pub open spec fn digit_value(c: char) -> nat {
    if is_digit(c) {
        (c as u32 - 48) as nat
    } else {
        0
    }
}

pub open spec fn all_digits(s: Seq<char>) -> bool {
    forall|i: int| 0 <= i < s.len() ==> is_digit(#[trigger] s[i])
}

/// The number that a string of decimal digits denotes, most significant
/// digit first.
pub open spec fn decimal_value(s: Seq<char>) -> nat
    decreases s.len(),
{
    if s.len() == 0 {
        0
    } else {
        10 * decimal_value(s.drop_last()) + digit_value(s.last())
    }
}

/// The text without one leading plus sign.
pub open spec fn unsigned_part(s: Seq<char>) -> Seq<char> {
    if s.len() > 0 && s[0] == '+' {
        s.drop_first()
    } else {
        s
    }
}

/// Whether a text is a number: an optional plus sign, then one or more
/// decimal digits and nothing else. There is no limit on their count.
pub open spec fn is_number(s: Seq<char>) -> bool {
    unsigned_part(s).len() > 0 && all_digits(unsigned_part(s))
}

/// The number that such a text denotes.
pub open spec fn number_value(s: Seq<char>) -> nat {
    decimal_value(unsigned_part(s))
}

/// A number as far as 32 bits can hold it: larger ones become `u32::MAX`.
pub open spec fn saturated(n: nat) -> u32 {
    if n <= u32::MAX {
        n as u32
    } else {
        u32::MAX
    }
}

/// What parsing a text gives: its number, saturated, or nothing where the
/// text is no number.
pub open spec fn parse_number(s: Seq<char>) -> Option<u32> {
    if is_number(s) {
        Some(saturated(number_value(s)))
    } else {
        None
    }
}

/// Parses an unsigned decimal number of any length; one above `u32::MAX`
/// is given as `u32::MAX`. `None` for a text that is no number.
pub fn parse_decimal(s: &str) -> (r: Option<u32>)
    ensures
        r == parse_number(s@),
{
    let ghost text = s@;
    if !s.is_ascii() {
        proof {
            let i = choose|i: int| 0 <= i < text.len() && !('\0' <= #[trigger] text[i] <= '\u{7f}');
            let digits = unsigned_part(text);
            if text[0] == '+' {
                assert(digits[i - 1] == text[i]);
            }
            assert(!all_digits(digits));
        }
        return None;
    }
    let bytes = s.as_bytes();
    proof {
        is_ascii_spec_bytes(s);
    }
    let n: usize = bytes.len();
    let start: usize = if n > 0 && bytes[0] == 43 {
        1
    } else {
        0
    };
    let ghost digits = text.subrange(start as int, n as int);
    assert(digits =~= unsigned_part(text));
    if start == n {
        return None;
    }
    let mut acc: u32 = 0;
    let mut overflowed: bool = false;
    let mut i: usize = start;
    assert(digits.subrange(0, 0) =~= Seq::<char>::empty());
    while i < n
        invariant
            start <= i <= n,
            n == text.len(),
            n == bytes@.len(),
            vstd::utf8::is_ascii_chars(text),
            forall|k: int| 0 <= k < n ==> bytes@[k] == #[trigger] text[k] as u8,
            text == s@,
            digits == unsigned_part(text),
            digits == text.subrange(start as int, n as int),
            all_digits(digits.subrange(0, i - start)),
            !overflowed ==> acc == decimal_value(digits.subrange(0, i - start)),
            overflowed ==> decimal_value(digits.subrange(0, i - start)) > u32::MAX,
        decreases n - i,
    {
        let b: u8 = bytes[i];
        let ghost c = text[i as int];
        let ghost before = digits.subrange(0, i - start);
        let ghost after = digits.subrange(0, i + 1 - start);
        assert(digits[i - start] == c);
        assert(c as u8 == b);
        assert('\0' <= c <= '\u{7f}');
        if b < 48 || b > 57 {
            assert(!is_digit(c));
            assert(!all_digits(digits));
            return None;
        }
        assert(is_digit(c));
        assert(after.drop_last() =~= before);
        assert(after.last() == c);
        assert(decimal_value(after) == 10 * decimal_value(before) + (b - 48));
        if !overflowed {
            let next: Option<u32> = match acc.checked_mul(10) {
                Some(tens) => tens.checked_add((b - 48) as u32),
                None => None,
            };
            match next {
                Some(v) => {
                    acc = v;
                },
                None => {
                    overflowed = true;
                },
            }
        }
        i += 1;
    }
    assert(digits.subrange(0, n - start) =~= digits);
    if overflowed {
        Some(u32::MAX)
    } else {
        Some(acc)
    }
}

/// A side length held to the limit: above `MAX_SIZE` it becomes `MAX_SIZE`.
pub open spec fn limited(n: nat) -> nat {
    if n <= MAX_SIZE {
        n
    } else {
        MAX_SIZE as nat
    }
}

/// The side length that is served for a requested one: values above
/// `MAX_SIZE` become `MAX_SIZE`, all others, zero included, stay.
pub open spec fn clamp(raw: u32) -> nat {
    limited(raw as nat)
}

/// The side length for a raw `s` parameter: the number it denotes, however
/// many digits it has, held to the limit; `DEFAULT_SIZE` where the
/// parameter is absent or no number.
pub open spec fn requested(raw: Option<Seq<char>>) -> nat {
    match raw {
        Some(text) => if is_number(text) {
            limited(number_value(text))
        } else {
            DEFAULT_SIZE as nat
        },
        None => DEFAULT_SIZE as nat,
    }
}

/// Side length in pixels of a square output image; never above `MAX_SIZE`.
#[derive(Clone, Copy, Debug, PartialEq, Eq)]
pub struct TargetSize {
    px: u32,
}

impl View for TargetSize {
    type V = nat;

    closed spec fn view(&self) -> nat {
        self.px as nat
    }
}

impl TargetSize {
    #[verifier::type_invariant]
    spec fn within_limit(self) -> bool {
        self.px <= MAX_SIZE
    }

    /// Clamps a raw side length to `MAX_SIZE`.
    pub fn clamped(raw: u32) -> (size: TargetSize)
        ensures
            size@ == clamp(raw),
    {
        if raw <= MAX_SIZE {
            TargetSize { px: raw }
        } else {
            TargetSize { px: MAX_SIZE }
        }
    }

    /// The side length in pixels.
    pub fn get(self) -> (px: u32)
        ensures
            px == self@,
            px <= MAX_SIZE,
    {
        proof {
            use_type_invariant(&self);
        }
        self.px
    }
}

/// The size for the raw `s` query parameter, if the request has one.
pub fn requested_size(raw: Option<&str>) -> (size: TargetSize)
    ensures
        size@ == requested(
            match raw {
                Some(text) => Some(text@),
                None => None,
            },
        ),
{
    match raw {
        Some(text) => match parse_decimal(text) {
            Some(n) => TargetSize::clamped(n),
            None => TargetSize::clamped(DEFAULT_SIZE),
        },
        None => TargetSize::clamped(DEFAULT_SIZE),
    }
}

/// Clamping never exceeds the limit, leaves sizes within it alone, and maps
/// every size at or above the limit to the limit itself.
pub proof fn lemma_clamp(raw: u32)
    ensures
        clamp(raw) <= MAX_SIZE,
        raw <= MAX_SIZE ==> clamp(raw) == raw,
        raw >= MAX_SIZE ==> clamp(raw) == clamp(MAX_SIZE),
{
}

/// Two raw sizes at or above the limit are served alike.
pub proof fn lemma_oversize_alike(a: u32, b: u32)
    requires
        a >= MAX_SIZE,
        b >= MAX_SIZE,
    ensures
        clamp(a) == clamp(b),
{
}

/// Whatever the `s` parameter holds, the size that is served is within the
/// limit; and two parameters that denote numbers at or above the limit, of
/// whatever length, are both served at the limit.
pub proof fn lemma_requested_within_limit(a: Seq<char>, b: Seq<char>)
    ensures
        requested(None) <= MAX_SIZE,
        requested(Some(a)) <= MAX_SIZE,
        is_number(a) && number_value(a) <= MAX_SIZE ==> requested(Some(a)) == number_value(a),
        is_number(a) && number_value(a) >= MAX_SIZE ==> requested(Some(a)) == MAX_SIZE,
        is_number(a) && is_number(b) && number_value(a) >= MAX_SIZE && number_value(b) >= MAX_SIZE
            ==> requested(Some(a)) == requested(Some(b)),
        !is_number(a) ==> requested(Some(a)) == DEFAULT_SIZE,
{
}

} // verus!
