//! The output payload: a UTF-8 text line carrying the accepted confidence,
//! rounded to two decimal places.

use vstd::prelude::*;

verus! {

/// Decimal digits of `n` as ASCII bytes, most significant first.
pub open spec fn spec_digits(n: int) -> Seq<u8>
    recommends
        0 <= n,
    decreases n,
{
    if n < 10 {
        seq![(48 + n) as u8]
    } else {
        spec_digits(n / 10) + seq![(48 + n % 10) as u8]
    }
}

/// The score in hundredths of a confidence unit, rounded half-up: the
/// fixed-point score counts millionths, so two decimal places remain.
pub open spec fn spec_hundredths(score: int) -> int {
    score / 10000 + if score % 10000 >= 5000 {
        1int
    } else {
        0int
    }
}

/// The whole payload: `hello: ` followed by the rounded confidence with two
/// decimal places and a newline, as UTF-8 bytes.
pub open spec fn spec_score_text(score: int) -> Seq<u8>
    recommends
        0 <= score,
{
    let h = spec_hundredths(score);
    seq![104u8, 101u8, 108u8, 108u8, 111u8, 58u8, 32u8] + spec_digits(h / 100) + seq![46u8]
        + seq![(48 + (h % 100) / 10) as u8, (48 + h % 10) as u8, 10u8]
}

fn push_digits(n: i64, out: &mut Vec<u8>)
    requires
        0 <= n,
    ensures
        final(out)@ == old(out)@ + spec_digits(n as int),
    decreases n,
{
    if n < 10 {
        out.push((48 + n) as u8);
        proof {
            assert(old(out)@.push((48 + n) as u8) =~= old(out)@ + spec_digits(n as int));
        }
    } else {
        push_digits(n / 10, out);
        let d: u8 = (48 + (n % 10)) as u8;
        out.push(d);
        proof {
            assert((old(out)@ + spec_digits(n as int / 10)).push(d) =~= old(out)@ + spec_digits(
                n as int,
            ));
        }
    }
}

/// Renders the payload for an accepted window's score.
pub fn score_text(score: i64) -> (r: Vec<u8>)
    requires
        0 <= score,
    ensures
        r@ == spec_score_text(score as int),
{
    let mut out: Vec<u8> = Vec::new();
    out.push(104);
    out.push(101);
    out.push(108);
    out.push(108);
    out.push(111);
    out.push(58);
    out.push(32);
    let h: i64 = score / 10000 + if score % 10000 >= 5000 {
        1
    } else {
        0
    };
    push_digits(h / 100, &mut out);
    out.push(46);
    out.push((48 + (h % 100) / 10) as u8);
    out.push((48 + h % 10) as u8);
    out.push(10);
    proof {
        assert(out@ =~= spec_score_text(score as int));
    }
    out
}

} // verus!
