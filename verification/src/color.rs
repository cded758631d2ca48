//! The text form of an encoded pixel.
//!
//! The output encoder turns each linear color into a gamma-corrected byte
//! triplet (floating-point work that lives with the renderer) and writes one
//! line of three space-separated decimal numbers per pixel.  The line itself
//! is exact: each number is the decimal numeral of a byte, so it never
//! leaves `0..=255`.

use vstd::prelude::*;
use vstd::string::StringExecFns;

use crate::progress::decimal_u64;
use crate::progress::spec_decimal;

verus! {

/// The text line of one encoded pixel: the three byte values in decimal,
/// separated by single spaces, without the trailing newline.
pub open spec fn spec_pixel_line(r: int, g: int, b: int) -> Seq<char> {
    spec_decimal(r) + seq![' '] + spec_decimal(g) + seq![' '] + spec_decimal(b)
}

/// Formats one encoded pixel as its output line.
pub fn pixel_line(r: u8, g: u8, b: u8) -> (line: String)
    ensures
        line@ == spec_pixel_line(r as int, g as int, b as int),
{
    let mut line = decimal_u64(r as u64);
    line.append(" ");
    let green = decimal_u64(g as u64);
    line.append(green.as_str());
    line.append(" ");
    let blue = decimal_u64(b as u64);
    line.append(blue.as_str());
    proof {
        reveal_strlit(" ");
        assert(line@ =~= spec_pixel_line(r as int, g as int, b as int));
    }
    line
}

} // verus!
