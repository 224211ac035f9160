//! The one-shot HTTP response that serve mode writes back: a 200 status
//! line, an exact Content-Length header, an empty line, and the script as
//! the whole body.

use vstd::prelude::*;
use vstd::string::*;

verus! {

/// The character for one decimal digit.
pub open spec fn digit_char(d: nat) -> char {
    if d == 0 {
        '0'
    } else if d == 1 {
        '1'
    } else if d == 2 {
        '2'
    } else if d == 3 {
        '3'
    } else if d == 4 {
        '4'
    } else if d == 5 {
        '5'
    } else if d == 6 {
        '6'
    } else if d == 7 {
        '7'
    } else if d == 8 {
        '8'
    } else {
        '9'
    }
}

/// The decimal digit string of a number, most significant digit first,
/// without leading zeros (a lone zero for 0).
pub open spec fn dec_digits(n: nat) -> Seq<char>
    decreases n,
{
    if n < 10 {
        seq![digit_char(n)]
    } else {
        dec_digits(n / 10) + seq![digit_char(n % 10)]
    }
}

fn digit_str(d: u64) -> (r: &'static str)
    requires
        d < 10,
    ensures
        r@ == seq![digit_char(d as nat)],
{
    proof {
        reveal_strlit("0");
        reveal_strlit("1");
        reveal_strlit("2");
        reveal_strlit("3");
        reveal_strlit("4");
        reveal_strlit("5");
        reveal_strlit("6");
        reveal_strlit("7");
        reveal_strlit("8");
        reveal_strlit("9");
    }
    let r = if d == 0 {
        "0"
    } else if d == 1 {
        "1"
    } else if d == 2 {
        "2"
    } else if d == 3 {
        "3"
    } else if d == 4 {
        "4"
    } else if d == 5 {
        "5"
    } else if d == 6 {
        "6"
    } else if d == 7 {
        "7"
    } else if d == 8 {
        "8"
    } else {
        "9"
    };
    proof {
        assert(r@ =~= seq![digit_char(d as nat)]);
    }
    r
}

/// Renders a number in decimal, exactly as `dec_digits` describes it.
pub fn decimal_string(n: u64) -> (r: String)
    ensures
        r@ == dec_digits(n as nat),
    decreases n,
{
    if n < 10 {
        digit_str(n).to_owned()
    } else {
        let mut s = decimal_string(n / 10);
        s.append(digit_str(n % 10));
        proof {
            assert(s@ =~= dec_digits(n as nat));
        }
        s
    }
}

/// The full response for a body whose UTF-8 encoding is `byte_len` bytes
/// long.
pub open spec fn http_response_of(body: Seq<char>, byte_len: nat) -> Seq<char> {
    "HTTP/1.1 200 OK\r\nContent-Length: "@ + dec_digits(byte_len) + "\r\n\r\n"@ + body
}

/// Wraps a generated script as the complete HTTP response that is written
/// to an accepted connection. The Content-Length is the body's byte
/// length.
pub fn http_response(body: &str) -> (r: String)
    ensures
        r@ == http_response_of(body@, (body.spec_bytes().len() as usize) as nat),
{
    let len = body.len();
    let mut s = String::new();
    s.append("HTTP/1.1 200 OK\r\nContent-Length: ");
    let digits = decimal_string(len as u64);
    s.append(digits.as_str());
    s.append("\r\n\r\n");
    s.append(body);
    proof {
        assert(s@ =~= http_response_of(body@, (body.spec_bytes().len() as usize) as nat));
    }
    s
}

} // verus!
