//! Response assembly: the exact wire format of every response.
//!
//! A response is `{status line}\r\nContent-Length: {len}\r\n\r\n{body}`,
//! byte for byte, with no other headers. The `Content-Length` field names
//! the byte length of the body (not a character count), written in decimal.

use vstd::arithmetic::div_mod::lemma_fundamental_div_mod;
use vstd::prelude::*;
use vstd::slice::slice_to_vec;
use vstd::string::StrSliceExecFns;
use vstd::utf8::encode_utf8;

verus! {

/// The decimal digits of `n`, most significant first, as ASCII bytes.
pub open spec fn dec_digits_of(n: nat) -> Seq<u8>
    decreases n,
{
    if n < 10 {
        seq![(48 + n) as u8]
    } else {
        dec_digits_of(n / 10).push((48 + n % 10) as u8)
    }
}

/// The number that a sequence of ASCII decimal digits denotes.
pub open spec fn dec_value_of(digits: Seq<u8>) -> int
    decreases digits.len(),
{
    if digits.len() == 0 {
        0
    } else {
        dec_value_of(digits.drop_last()) * 10 + (digits.last() - 48)
    }
}

/// Law: writing a number in decimal and reading the digits back agree,
/// the written form is never empty, and every byte of it is an ASCII digit.
pub proof fn lemma_dec_digits_of(n: nat)
    ensures
        dec_value_of(dec_digits_of(n)) == n,
        dec_digits_of(n).len() >= 1,
        forall|i: int|
            0 <= i < dec_digits_of(n).len() ==> 48 <= #[trigger] dec_digits_of(n)[i] <= 57,
    decreases n,
{
    if n < 10 {
        assert(dec_digits_of(n).drop_last() =~= Seq::<u8>::empty());
        assert(dec_digits_of(n).last() == (48 + n) as u8);
        assert(dec_value_of(Seq::<u8>::empty()) == 0);
    } else {
        lemma_dec_digits_of(n / 10);
        lemma_fundamental_div_mod(n as int, 10);
        assert(dec_digits_of(n).drop_last() =~= dec_digits_of(n / 10));
        assert(dec_digits_of(n).last() == (48 + n % 10) as u8);
    }
}

/// The full wire form of a response with the given status line and body.
pub open spec fn spec_response(status: Seq<char>, body: Seq<u8>) -> Seq<u8> {
    encode_utf8(status) + encode_utf8("\r\nContent-Length: "@) + dec_digits_of(body.len())
        + encode_utf8("\r\n\r\n"@) + body
}

/// Appends the decimal digits of `n`, most significant first, to `out`.
fn push_decimal(out: &mut Vec<u8>, n: u64)
    ensures
        final(out)@ == old(out)@ + dec_digits_of(n as nat),
    decreases n,
{
    if n < 10 {
        out.push(48 + n as u8);
        assert(out@ =~= old(out)@ + dec_digits_of(n as nat));
    } else {
        push_decimal(out, n / 10);
        out.push(48 + (n % 10) as u8);
        assert(out@ =~= old(out)@ + dec_digits_of(n as nat));
    }
}

/// Assembles the wire response for a status line and a body: the status
/// line, a `Content-Length` header naming the exact byte length of the
/// body, a blank line, and the body itself, joined by CRLF.
pub fn build_response(status_line: &str, body: &[u8]) -> (r: Vec<u8>)
    ensures
        r@ == spec_response(status_line@, body@),
{
    let mut out: Vec<u8> = status_line.as_bytes_vec();
    let mut header: Vec<u8> = "\r\nContent-Length: ".as_bytes_vec();
    out.append(&mut header);
    push_decimal(&mut out, body.len() as u64);
    let mut blank: Vec<u8> = "\r\n\r\n".as_bytes_vec();
    out.append(&mut blank);
    let mut tail: Vec<u8> = slice_to_vec(body);
    out.append(&mut tail);
    proof {
        assert(out@ =~= spec_response(status_line@, body@));
    }
    out
}

/// Law: in every produced response, the `Content-Length` field and the body
/// agree — the digits written between `Content-Length: ` and the blank line
/// denote exactly the byte length of the body that follows the blank line.
pub proof fn lemma_content_length_round_trip(status: Seq<char>, body: Seq<u8>)
    ensures
        spec_response(status, body) =~= encode_utf8(status) + encode_utf8("\r\nContent-Length: "@)
            + dec_digits_of(body.len()) + encode_utf8("\r\n\r\n"@) + body,
        dec_value_of(dec_digits_of(body.len())) == body.len(),
        ({
            let r = spec_response(status, body);
            r.subrange(r.len() - body.len(), r.len() as int) =~= body
        }),
{
    lemma_dec_digits_of(body.len());
}

} // verus!
