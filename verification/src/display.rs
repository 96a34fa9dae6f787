//! Layout arithmetic of the display: where the footer text starts, and which
//! point of a recorded measurement a column of the plot shows.

use vstd::prelude::*;

verus! {

/// `numer / denom` of `factor`, rounded towards zero.
///
/// Calls `num::rational::Ratio::new`, the product of a ratio with an integer,
/// and `Ratio::to_integer`. The ratio is built in lowest terms, the product
/// divides its denominator and the factor by what they have in common before
/// it multiplies, and `to_integer` divides numerator by denominator. For a
/// numerator and a factor that are not negative and a positive denominator
/// no step leaves the range of `i32` as long as numerator times factor is
/// within it, and the result is the integer part of the exact quotient.
#[verifier::external_body]
fn ratio_of(numer: i32, denom: i32, factor: i32) -> (part: i32)
    requires
        numer >= 0,
        denom > 0,
        factor >= 0,
        numer * factor <= i32::MAX,
    ensures
        part == numer * factor / (denom as int),
{
    (num::rational::Ratio::<i32>::new(numer, denom) * factor).to_integer()
}

/// Column at which the footer of the title screen starts: a quarter of the
/// width of the display.
pub fn title_footer_x(display_w: u8) -> (x: i32)
    ensures
        x == display_w / 4,
{
    ratio_of(1, 4, display_w as i32)
}

/// Column at which the footer of the setup menu starts: a third of the width
/// of the display.
pub fn menu_footer_x(display_w: u8) -> (x: i32)
    ensures
        x == display_w / 3,
{
    ratio_of(1, 3, display_w as i32)
}

/// The point of a record of `len` points that column `line_n` of a plot
/// `display_w` columns wide shows: the first column shows the first point, the
/// last column the last, and the columns between are spread evenly.
pub open spec fn mapped_point(line_n: u32, len: usize, display_w: u8) -> int {
    (len - 1) * line_n / (display_w - 1) as int
}

/// Index of the point that column `line_n` shows, or `None` where the record
/// is empty or the plot has fewer than two columns.
pub fn select_mapped_point(line_n: u32, len: usize, display_w: u8) -> (point: Option<usize>)
    ensures
        len == 0 || display_w < 2 ==> point is None,
        len > 0 && display_w >= 2 && mapped_point(line_n, len, display_w) <= usize::MAX
            ==> point == Some(mapped_point(line_n, len, display_w) as usize),
        len > 0 && display_w >= 2 && mapped_point(line_n, len, display_w) > usize::MAX
            ==> point is None,
        line_n < display_w ==> (point matches Some(i) ==> i < len),
{
    if len == 0 || display_w < 2 {
        return None;
    }
    let last: u128 = (len - 1) as u128;
    let columns: u128 = (display_w - 1) as u128;
    assert(last * line_n <= 0xffff_ffff_ffff_ffff * 0xffff_ffff) by (nonlinear_arith)
        requires
            0 <= last <= 0xffff_ffff_ffff_ffff,
            0 <= line_n <= 0xffff_ffff,
    ;
    let i: u128 = last * (line_n as u128) / columns;
    proof {
        if line_n < display_w {
            assert(last * line_n <= last * columns) by (nonlinear_arith)
                requires
                    0 <= line_n <= columns,
                    0 <= last,
            ;
            assert(last * line_n / (columns as int) <= last) by (nonlinear_arith)
                requires
                    last * line_n <= last * columns,
                    columns > 0,
                    0 <= last,
                    0 <= line_n,
            ;
        }
    }
    if i > usize::MAX as u128 {
        None
    } else {
        Some(i as usize)
    }
}

} // verus!
