//! Plain-text pixel stream assembly.
//!
//! The renderer hands its image to a sink as text: a header naming the
//! format, the extent and the channel maximum, then one line of three
//! decimal channel values per pixel, row-major, top row first. Quantizing
//! a sampled color to channel values is floating-point work done by the
//! caller; turning the quantized values into the exact lines written out
//! is verified here.

use vstd::prelude::*;
use vstd::string::StrSliceExecFns;
use vstd::string::StringExecFns;

verus! {

/// The character for one decimal digit.
pub open spec fn digit_char(d: int) -> char {
    "0123456789"@[d]
}

/// The decimal representation of `n`: most significant digit first, no
/// leading zero (a single zero for 0).
pub open spec fn dec_rep(n: int) -> Seq<char>
    decreases n,
{
    if n < 10 {
        seq![digit_char(n)]
    } else {
        dec_rep(n / 10).push(digit_char(n % 10))
    }
}

/// One digit as text, cut out of the digit alphabet.
fn digit_str(d: u64) -> (r: &'static str)
    requires
        d < 10,
    ensures
        r@ =~= seq![digit_char(d as int)],
{
    let digits: &'static str = "0123456789";
    proof {
        reveal_strlit("0123456789");
    }
    let r = digits.substring_ascii(d as usize, d as usize + 1);
    proof {
        assert(r@ =~= seq![digit_char(d as int)]);
    }
    r
}

/// Writes `n` in decimal.
pub fn u64_to_decimal(n: u64) -> (s: String)
    ensures
        s@ == dec_rep(n as int),
    decreases n,
{
    if n < 10 {
        String::from_str(digit_str(n))
    } else {
        assert(n / 10 < n) by (nonlinear_arith)
            requires
                n >= 10,
        ;
        let mut s = u64_to_decimal(n / 10);
        s.append(digit_str(n % 10));
        s
    }
}

/// One pixel's line: the three decimal channel values separated by single
/// spaces, newline-terminated.
pub fn pixel_line(r: u64, g: u64, b: u64) -> (s: String)
    ensures
        s@ == dec_rep(r as int) + " "@ + dec_rep(g as int) + " "@ + dec_rep(b as int) + "\n"@,
{
    let mut s = u64_to_decimal(r);
    s.append(" ");
    let gs = u64_to_decimal(g);
    s.append(gs.as_str());
    s.append(" ");
    let bs = u64_to_decimal(b);
    s.append(bs.as_str());
    s.append("\n");
    s
}

/// The stream header: the format name, the width and height, and the
/// largest channel value, each on its own line.
pub fn header_lines(x: u64, y: u64) -> (s: String)
    ensures
        s@ == "P3\n"@ + dec_rep(x as int) + " "@ + dec_rep(y as int) + "\n255\n"@,
{
    let mut s = String::from_str("P3\n");
    let xs = u64_to_decimal(x);
    s.append(xs.as_str());
    s.append(" ");
    let ys = u64_to_decimal(y);
    s.append(ys.as_str());
    s.append("\n255\n");
    s
}

} // verus!
