use vstd::prelude::*;

use crate::error::FetchError;

verus! {

/// What `reqwest::StatusCode::canonical_reason` gives for a status code (the
/// standard reason phrase), with `None` for a number that is no status code.
pub uninterp spec fn canonical_reason_of(code: u16) -> Option<Seq<char>>;

/// Relies on `reqwest::StatusCode::from_u16` and `StatusCode::canonical_reason`:
/// the standard reason phrase of a status code, if it has one.
#[verifier::external_body]
fn reason_phrase(code: u16) -> (r: Option<&'static str>)
    ensures
        match r {
            Some(s) => canonical_reason_of(code) == Some(s@),
            None => canonical_reason_of(code) is None,
        },
{
    match reqwest::StatusCode::from_u16(code) {
        Ok(status) => status.canonical_reason(),
        Err(_) => None,
    }
}

/// A status code in the success range.
pub open spec fn success_code(code: u16) -> bool {
    200 <= code <= 299
}

pub open spec fn digit_char(d: nat) -> char {
    if d == 0 {
        '0'
    } else if d == 1 {
        '1'
    } else if d == 2 {
        '2'
    } else if d == 3 {
        '3'
    } else if d == 4 {
        '4'
    } else if d == 5 {
        '5'
    } else if d == 6 {
        '6'
    } else if d == 7 {
        '7'
    } else if d == 8 {
        '8'
    } else {
        '9'
    }
}

/// The decimal digits of `n`, most significant first, without leading zeros.
pub open spec fn decimal(n: nat) -> Seq<char>
    decreases n,
{
    if n < 10 {
        seq![digit_char(n)]
    } else {
        decimal(n / 10).push(digit_char(n % 10))
    }
}

/// The reason phrase after the code, separated by a space, or a mark for a
/// code that has none.
pub open spec fn reason_suffix(reason: Option<Seq<char>>) -> Seq<char> {
    match reason {
        Some(r) => " "@ + r,
        None => " <unknown status code>"@,
    }
}

/// The message of the error for a failing status: the code in decimal and its
/// reason phrase.
pub open spec fn status_message_of(code: u16) -> Seq<char> {
    "API request failed with status: "@ + decimal(code as nat) + reason_suffix(
        canonical_reason_of(code),
    )
}

fn digit_text(d: u16) -> (r: &'static str)
    requires
        d < 10,
    ensures
        r@ == seq![digit_char(d as nat)],
{
    proof {
        reveal_strlit("0");
        reveal_strlit("1");
        reveal_strlit("2");
        reveal_strlit("3");
        reveal_strlit("4");
        reveal_strlit("5");
        reveal_strlit("6");
        reveal_strlit("7");
        reveal_strlit("8");
        reveal_strlit("9");
    }
    let r = if d == 0 {
        "0"
    } else if d == 1 {
        "1"
    } else if d == 2 {
        "2"
    } else if d == 3 {
        "3"
    } else if d == 4 {
        "4"
    } else if d == 5 {
        "5"
    } else if d == 6 {
        "6"
    } else if d == 7 {
        "7"
    } else if d == 8 {
        "8"
    } else {
        "9"
    };
    assert(r@ =~= seq![digit_char(d as nat)]);
    r
}

/// Appends the decimal digits of `n` to `out`.
fn push_decimal(out: &mut String, n: u16)
    ensures
        final(out)@ == old(out)@ + decimal(n as nat),
    decreases n,
{
    if n >= 10 {
        push_decimal(out, n / 10);
    }
    let d = digit_text(n % 10);
    out.append(d);
    assert(final(out)@ =~= old(out)@ + decimal(n as nat));
}

/// Whether a status code is in the success range 200..=299.
pub fn is_success(code: u16) -> (r: bool)
    ensures
        r == success_code(code),
{
    200 <= code && code <= 299
}

/// The message for a failing status, which holds the code in decimal.
pub fn status_message(code: u16) -> (r: String)
    ensures
        r@ == status_message_of(code),
{
    let mut m = String::from_str("API request failed with status: ");
    push_decimal(&mut m, code);
    match reason_phrase(code) {
        Some(reason) => {
            m.append(" ");
            m.append(reason);
        },
        None => {
            m.append(" <unknown status code>");
        },
    }
    assert(m@ =~= status_message_of(code));
    m
}

/// `r` is how a response with status `code` is judged: a success status lets
/// the body be read, any other is an `ApiStatus` error whose message holds the
/// code.
pub open spec fn status_judged(code: u16, r: Result<(), FetchError>) -> bool {
    &&& success_code(code) ==> r is Ok
    &&& !success_code(code) ==> (r matches Err(FetchError::ApiStatus(t)) && t@
        == status_message_of(code))
}

/// Accepts a status in the success range; any other becomes an `ApiStatus`
/// error whose message holds the code.
pub fn check_status(code: u16) -> (r: Result<(), FetchError>)
    ensures
        status_judged(code, r),
{
    if is_success(code) {
        Ok(())
    } else {
        Err(FetchError::ApiStatus(status_message(code)))
    }
}

} // verus!
