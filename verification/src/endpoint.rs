//! The addresses of the two upstream providers: the URL for each call that
//! a resolution asks for.

use vstd::prelude::*;
use vstd::string::StringExecFns;
use crate::resolver::{Request, RequestView};
use crate::size::{all_digits, decimal_value, digit_value, is_digit};

verus! {

/// The character of a decimal digit.
pub open spec fn digit_char(d: nat) -> char {
    if d == 0 {
        '0'
    } else if d == 1 {
        '1'
    } else if d == 2 {
        '2'
    } else if d == 3 {
        '3'
    } else if d == 4 {
        '4'
    } else if d == 5 {
        '5'
    } else if d == 6 {
        '6'
    } else if d == 7 {
        '7'
    } else if d == 8 {
        '8'
    } else {
        '9'
    }
}

/// A number in decimal digits, most significant first, without sign or
/// leading zeros.
pub open spec fn decimal_text(n: nat) -> Seq<char>
    decreases n,
{
    if n < 10 {
        seq![digit_char(n)]
    } else {
        decimal_text(n / 10).push(digit_char(n % 10))
    }
}

/// Where the direct image provider is reached.
pub open spec fn direct_base() -> Seq<char> {
    "https://www.gravatar.com/avatar"@
}

/// Where the generated-pattern provider is reached.
pub open spec fn generated_base() -> Seq<char> {
    "https://boring-avatars-api.vercel.app/api/avatar"@
}

/// The URL of a provider call. The hash stands in it as it was given.
pub open spec fn url_of(request: RequestView) -> Seq<char> {
    match request {
        RequestView::Direct { hash, style, size } => direct_base() + "/"@ + hash + "?d="@
            + style.token() + "&s="@ + decimal_text(size),
        RequestView::Generated { hash, variant, size } => generated_base() + "?name="@ + hash
            + "&size="@ + decimal_text(size) + "&variant="@ + variant.token(),
    }
}

/// Decimal text reads back as the number it was written from.
pub proof fn lemma_decimal_text_reads_back(n: nat)
    ensures
        decimal_text(n).len() >= 1,
        all_digits(decimal_text(n)),
        decimal_value(decimal_text(n)) == n,
        n > 0 ==> decimal_text(n)[0] != '0',
    decreases n,
{
    if n < 10 {
        let s = decimal_text(n);
        assert(s.drop_last() =~= Seq::<char>::empty());
        assert(is_digit(s[0]));
        assert(digit_value(s.last()) == n);
        assert(decimal_value(s.drop_last()) == 0);
    } else {
        lemma_decimal_text_reads_back(n / 10);
        let s = decimal_text(n);
        assert(s.drop_last() =~= decimal_text(n / 10));
        assert(is_digit(s.last()));
        assert(digit_value(s.last()) == n % 10);
        assert(s[0] == decimal_text(n / 10)[0]);
    }
}

fn digit_str(d: u32) -> (s: &'static str)
    requires
        d < 10,
    ensures
        s@ == seq![digit_char(d as nat)],
{
    proof {
        reveal_strlit("0");
        reveal_strlit("1");
        reveal_strlit("2");
        reveal_strlit("3");
        reveal_strlit("4");
        reveal_strlit("5");
        reveal_strlit("6");
        reveal_strlit("7");
        reveal_strlit("8");
        reveal_strlit("9");
    }
    let s = if d == 0 {
        "0"
    } else if d == 1 {
        "1"
    } else if d == 2 {
        "2"
    } else if d == 3 {
        "3"
    } else if d == 4 {
        "4"
    } else if d == 5 {
        "5"
    } else if d == 6 {
        "6"
    } else if d == 7 {
        "7"
    } else if d == 8 {
        "8"
    } else {
        "9"
    };
    assert(s@ =~= seq![digit_char(d as nat)]);
    s
}

/// Writes a number in decimal digits.
pub fn decimal_string(n: u32) -> (s: String)
    ensures
        s@ == decimal_text(n as nat),
    decreases n,
{
    if n < 10 {
        digit_str(n).to_owned()
    } else {
        let mut s = decimal_string(n / 10);
        s.append(digit_str(n % 10));
        assert(s@ =~= decimal_text((n / 10) as nat).push(digit_char((n % 10) as nat)));
        s
    }
}

/// The URL at which a provider call is made.
pub fn request_url(request: &Request) -> (url: String)
    ensures
        url@ == url_of(request@),
{
    match request {
        Request::Direct { hash, style, size } => {
            let mut url = "https://www.gravatar.com/avatar".to_owned();
            url.append("/");
            url.append(hash.as_str());
            url.append("?d=");
            url.append(style.as_str());
            url.append("&s=");
            url.append(decimal_string(*size).as_str());
            url
        },
        Request::Generated { hash, variant, size } => {
            let mut url = "https://boring-avatars-api.vercel.app/api/avatar".to_owned();
            url.append("?name=");
            url.append(hash.as_str());
            url.append("&size=");
            url.append(decimal_string(*size).as_str());
            url.append("&variant=");
            url.append(variant.as_str());
            url
        },
    }
}

} // verus!
