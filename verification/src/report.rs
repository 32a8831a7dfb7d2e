//! The report lines: a header, then one line per sample holding the time
//! stamp and the figure as unsigned decimal numbers.

use vstd::prelude::*;
use crate::sampler::Report;

verus! {

/// The ASCII digit for `d`, which is below ten.
pub open spec fn digit_byte(d: nat) -> u8 {
    (48 + d) as u8
}

/// `n` in decimal, most significant digit first, without leading zeros.
pub open spec fn decimal(n: nat) -> Seq<u8>
    decreases n,
{
    if n < 10 {
        seq![digit_byte(n)]
    } else {
        decimal(n / 10).push(digit_byte(n % 10))
    }
}

/// The number that a run of ASCII digits stands for.
pub open spec fn decimal_value(digits: Seq<u8>) -> nat
    decreases digits.len(),
{
    if digits.len() == 0 {
        0
    } else {
        decimal_value(digits.drop_last()) * 10 + (digits.last() - 48) as nat
    }
}

/// The header line, `millis,RPM` and a newline.
pub open spec fn header_bytes() -> Seq<u8> {
    seq![109u8, 105u8, 108u8, 108u8, 105u8, 115u8, 44u8, 82u8, 80u8, 77u8, 10u8]
}

/// The line for one sample: time stamp, a comma, the figure, a newline.
pub open spec fn line_bytes(report: Report) -> Seq<u8> {
    decimal(report.timestamp as nat) + seq![44u8] + decimal(report.rpm as nat) + seq![10u8]
}

/// Appends `n` in decimal to `out`.
pub fn push_decimal(out: &mut Vec<u8>, n: u32)
    ensures
        final(out)@ == old(out)@ + decimal(n as nat),
    decreases n,
{
    if n >= 10 {
        push_decimal(out, n / 10);
    }
    let digit: u8 = (n % 10) as u8;
    out.push(48 + digit);
    assert(final(out)@ =~= old(out)@ + decimal(n as nat));
}

/// The header line, sent once before the first sample.
pub fn header() -> (line: Vec<u8>)
    ensures
        line@ == header_bytes(),
{
    let line: Vec<u8> = vec![109u8, 105u8, 108u8, 108u8, 105u8, 115u8, 44u8, 82u8, 80u8, 77u8, 10u8];
    assert(line@ =~= header_bytes());
    line
}

/// The line for `report`.
pub fn format_line(report: &Report) -> (line: Vec<u8>)
    ensures
        line@ == line_bytes(*report),
{
    let mut line: Vec<u8> = Vec::new();
    push_decimal(&mut line, report.timestamp);
    line.push(44u8);
    push_decimal(&mut line, report.rpm);
    line.push(10u8);
    assert(line@ =~= line_bytes(*report));
    line
}

/// A number is written with at least one digit, with ASCII digits only, and
/// reads back as itself.
pub proof fn lemma_decimal_reads_back(n: nat)
    ensures
        decimal(n).len() >= 1,
        forall|i: int| 0 <= i < decimal(n).len() ==> 48 <= #[trigger] decimal(n)[i] <= 57,
        decimal_value(decimal(n)) == n,
    decreases n,
{
    if n < 10 {
        assert(decimal(n).drop_last() =~= Seq::<u8>::empty());
        assert(decimal_value(decimal(n).drop_last()) == 0);
    } else {
        lemma_decimal_reads_back(n / 10);
        assert(decimal(n).drop_last() =~= decimal(n / 10));
    }
}

/// Ten to the power `width`.
pub open spec fn ten_to(width: nat) -> nat
    decreases width,
{
    if width == 0 {
        1
    } else {
        10 * ten_to((width - 1) as nat)
    }
}

/// A number below the `width`-th power of ten takes at most `width` digits.
pub proof fn lemma_decimal_width(n: nat, width: nat)
    requires
        width >= 1,
        n < ten_to(width),
    ensures
        decimal(n).len() <= width,
    decreases width,
{
    reveal_with_fuel(ten_to, 2);
    if n >= 10 {
        lemma_decimal_width(n / 10, (width - 1) as nat);
    }
}

/// A 32-bit number takes at most ten digits, so a line is at most 22 bytes.
pub proof fn lemma_line_is_short(report: Report)
    ensures
        line_bytes(report).len() <= 22,
{
    reveal_with_fuel(ten_to, 11);
    assert(ten_to(10) == 10_000_000_000);
    lemma_decimal_width(report.timestamp as nat, 10);
    lemma_decimal_width(report.rpm as nat, 10);
}

} // verus!
