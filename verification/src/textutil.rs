//! Small verified text helpers: decimal rendering for diagnostics, and
//! extraction of a byte span from a string at character boundaries.
use vstd::prelude::*;
use vstd::string::StringSliceAdditionalSpecFns;
use vstd::string::StringExecFns;
use vstd::string::StrSliceExecFns;
use vstd::utf8::encode_utf8;
use vstd::utf8::is_char_boundary;
use vstd::utf8::is_char_boundary_start_end_of_seq;
use vstd::utf8::is_char_boundary_iff_not_is_continuation_byte;
use vstd::utf8::encode_utf8_valid_utf8;
use vstd::utf8::valid_utf8;
use vstd::utf8::valid_utf8_split;

verus! {

/// The character for a single decimal digit.
pub open spec fn spec_digit(n: nat) -> char
    recommends
        n < 10,
{
    if n == 0 {
        '0'
    } else if n == 1 {
        '1'
    } else if n == 2 {
        '2'
    } else if n == 3 {
        '3'
    } else if n == 4 {
        '4'
    } else if n == 5 {
        '5'
    } else if n == 6 {
        '6'
    } else if n == 7 {
        '7'
    } else if n == 8 {
        '8'
    } else {
        '9'
    }
}

/// Decimal rendering of a natural number, most significant digit first.
pub open spec fn spec_decimal_nat(n: nat) -> Seq<char>
    decreases n,
{
    if n < 10 {
        seq![spec_digit(n)]
    } else {
        spec_decimal_nat(n / 10) + seq![spec_digit(n % 10)]
    }
}

/// Decimal rendering of an integer, with a leading minus sign when negative.
pub open spec fn spec_decimal_int(i: int) -> Seq<char> {
    if i < 0 {
        seq!['-'] + spec_decimal_nat((-i) as nat)
    } else {
        spec_decimal_nat(i as nat)
    }
}

/// The one-character string for a decimal digit.
fn digit_str(d: u64) -> (r: &'static str)
    requires
        d < 10,
    ensures
        r@ == seq![spec_digit(d as nat)],
{
    let r: &'static str = match d {
        0 => "0",
        1 => "1",
        2 => "2",
        3 => "3",
        4 => "4",
        5 => "5",
        6 => "6",
        7 => "7",
        8 => "8",
        _ => "9",
    };
    proof {
        reveal_strlit("0");
        reveal_strlit("1");
        reveal_strlit("2");
        reveal_strlit("3");
        reveal_strlit("4");
        reveal_strlit("5");
        reveal_strlit("6");
        reveal_strlit("7");
        reveal_strlit("8");
        reveal_strlit("9");
        assert(r@ =~= seq![spec_digit(d as nat)]);
    }
    r
}

/// Renders a natural number in decimal.
pub fn decimal_u64(n: u64) -> (r: String)
    ensures
        r@ == spec_decimal_nat(n as nat),
    decreases n,
{
    let d: u64 = n % 10;
    if n < 10 {
        digit_str(d).to_owned()
    } else {
        proof {
            assert(n / 10 < n) by (nonlinear_arith)
                requires
                    n >= 10,
            ;
        }
        let prefix = decimal_u64(n / 10);
        prefix.concat(digit_str(d))
    }
}

/// Renders a signed number in decimal.
pub fn decimal_i32(i: i32) -> (r: String)
    ensures
        r@ == spec_decimal_int(i as int),
{
    if i < 0 {
        let m: u64 = (-(i as i64)) as u64;
        proof {
            reveal_strlit("-");
        }
        let s = "-".to_owned();
        s.concat(decimal_u64(m).as_str())
    } else {
        decimal_u64(i as u64)
    }
}

/// A character boundary of a byte sequence is still a boundary of any suffix
/// that starts at an earlier boundary.
proof fn lemma_boundary_in_suffix(b: Seq<u8>, s: int, e: int)
    requires
        valid_utf8(b),
        0 <= s <= e <= b.len(),
        is_char_boundary(b, s),
        is_char_boundary(b, e),
    ensures
        is_char_boundary(b.subrange(s, b.len() as int), e - s),
{
    let t = b.subrange(s, b.len() as int);
    valid_utf8_split(b, s);
    if e == s {
    } else if e == b.len() {
        is_char_boundary_start_end_of_seq(t);
    } else {
        is_char_boundary_iff_not_is_continuation_byte(b, e);
        is_char_boundary_iff_not_is_continuation_byte(t, e - s);
        assert(t[e - s] == b[e]);
    }
}

/// Whether `[start, end)` is a valid character-aligned byte span of `bytes`.
pub open spec fn valid_span(bytes: Seq<u8>, start: int, end: int) -> bool {
    &&& 0 <= start <= end <= bytes.len()
    &&& is_char_boundary(bytes, start)
    &&& is_char_boundary(bytes, end)
}

/// Copies the byte range `[start, end)` out of `text` when it is a valid
/// character-aligned span, and rejects it otherwise.
pub fn slice_span(text: &str, start: usize, end: usize) -> (r: Option<String>)
    ensures
        r is Some <==> valid_span(text.spec_bytes(), start as int, end as int),
        r matches Some(s) ==> encode_utf8(s@) == text.spec_bytes().subrange(
            start as int,
            end as int,
        ),
{
    proof {
        encode_utf8_valid_utf8(text@);
    }
    let n: usize = text.as_bytes().len();
    if start > end || end > n {
        return None;
    }
    if !text.is_char_boundary(start) || !text.is_char_boundary(end) {
        return None;
    }
    let (_, tail) = text.split_at(start);
    proof {
        lemma_boundary_in_suffix(text.spec_bytes(), start as int, end as int);
    }
    let (mid, _) = tail.split_at(end - start);
    let r = mid.to_owned();
    proof {
        assert(encode_utf8(r@) =~= text.spec_bytes().subrange(start as int, end as int));
    }
    Some(r)
}

} // verus!
