//! Progress of a transfer: the percentage and the line that shows it.

use vstd::prelude::*;
use vstd::string::StringExecFns;

verus! {

/// The number of cells in the progress bar.
pub const BAR_WIDTH: u32 = 20;

/// The width to which the percentage is right-aligned.
pub const PERCENT_WIDTH: usize = 3;

/// The share of `total` that `written` makes up, in whole percent, rounded
/// down and never above 100. With an unknown total (zero) it is zero.
pub open spec fn percent_of(written: nat, total: nat) -> nat {
    if total == 0 {
        0
    } else if written * 100 / total >= 100 {
        100
    } else {
        written * 100 / total
    }
}

/// The number of bar cells that are filled at `percent`: one for every full
/// five percent, at most the whole bar.
pub open spec fn filled_cells(percent: nat) -> nat {
    if percent / 5 >= 20 {
        20
    } else {
        percent / 5
    }
}

/// The bar itself: the filled cells as `=`, the others blank.
pub open spec fn bar_cells(percent: nat) -> Seq<char> {
    Seq::new(20, |i: int| if i < filled_cells(percent) { '=' } else { ' ' })
}

/// The character of a decimal digit.
pub open spec fn digit_char(d: nat) -> char
    recommends
        d < 10,
{
    ((d + 48) as u8) as char
}

/// A number in decimal, without sign or leading zeros.
pub open spec fn decimal_digits(n: nat) -> Seq<char>
    decreases n,
{
    if n < 10 {
        seq![digit_char(n)]
    } else {
        decimal_digits(n / 10).push(digit_char(n % 10))
    }
}

/// The percentage as it is printed: in decimal, with blanks in front up to a
/// width of three.
pub open spec fn percent_field(percent: nat) -> Seq<char> {
    let digits = decimal_digits(percent);
    if digits.len() < 3 {
        Seq::new((3 - digits.len()) as nat, |i: int| ' ') + digits
    } else {
        digits
    }
}

/// The whole progress line: the label, the bar in brackets, the percentage
/// and a percent sign.
pub open spec fn progress_line(percent: nat) -> Seq<char> {
    "Downloading: ["@ + bar_cells(percent) + "] "@ + percent_field(percent) + "%"@
}

/// Computes [`percent_of`].
pub fn percent_complete(bytes_written: u64, total_bytes: u64) -> (percent: u32)
    ensures
        percent == percent_of(bytes_written as nat, total_bytes as nat),
        percent <= 100,
{
    if total_bytes == 0 {
        return 0;
    }
    let scaled: u128 = (bytes_written as u128) * 100;
    let share: u128 = scaled / (total_bytes as u128);
    if share >= 100 {
        100
    } else {
        share as u32
    }
}

/// Computes [`filled_cells`].
pub fn filled_cell_count(percent: u32) -> (cells: u32)
    ensures
        cells == filled_cells(percent as nat),
        cells <= BAR_WIDTH,
{
    let cells: u32 = percent / 5;
    if cells >= BAR_WIDTH {
        BAR_WIDTH
    } else {
        cells
    }
}

/// Appends `n` in decimal to `out`.
fn push_decimal(out: &mut String, n: u32)
    ensures
        final(out)@ == old(out)@ + decimal_digits(n as nat),
    decreases n,
{
    if n >= 10 {
        push_decimal(out, n / 10);
    }
    let digit: u8 = (n % 10) as u8;
    out.push((digit + 48) as char);
    proof {
        let before = old(out)@;
        if n >= 10 {
            assert(before + decimal_digits(n as nat) =~= (before + decimal_digits((n / 10) as nat)).push(
                digit_char((n % 10) as nat),
            ));
        } else {
            assert(before + decimal_digits(n as nat) =~= before.push(digit_char(n as nat)));
        }
    }
}

/// Appends `count` copies of `c` to `out`.
fn push_repeated(out: &mut String, c: char, count: usize)
    ensures
        final(out)@ == old(out)@ + Seq::new(count as nat, |i: int| c),
{
    let mut i: usize = 0;
    while i < count
        invariant
            i <= count,
            out@ == old(out)@ + Seq::new(i as nat, |k: int| c),
        decreases count - i,
    {
        out.push(c);
        i += 1;
        assert(out@ =~= old(out)@ + Seq::new(i as nat, |k: int| c));
    }
}

/// Renders [`percent_field`].
pub fn render_percent_field(percent: u32) -> (field: String)
    ensures
        field@ == percent_field(percent as nat),
{
    let mut digits = String::new();
    push_decimal(&mut digits, percent);
    assert(digits@ =~= decimal_digits(percent as nat));
    let len: usize = digits.as_str().unicode_len();
    if len < PERCENT_WIDTH {
        let mut field = String::new();
        push_repeated(&mut field, ' ', PERCENT_WIDTH - len);
        field.append(digits.as_str());
        assert(field@ =~= percent_field(percent as nat));
        field
    } else {
        digits
    }
}

/// Renders [`bar_cells`].
pub fn render_bar_cells(percent: u32) -> (bar: String)
    ensures
        bar@ == bar_cells(percent as nat),
{
    let filled: u32 = filled_cell_count(percent);
    let mut bar = String::new();
    push_repeated(&mut bar, '=', filled as usize);
    push_repeated(&mut bar, ' ', (BAR_WIDTH - filled) as usize);
    assert(bar@ =~= bar_cells(percent as nat));
    bar
}

/// Renders [`progress_line`].
pub fn render_progress_line(percent: u32) -> (line: String)
    ensures
        line@ == progress_line(percent as nat),
{
    let mut line = String::from_str("Downloading: [");
    let bar = render_bar_cells(percent);
    line.append(bar.as_str());
    line.append("] ");
    let field = render_percent_field(percent);
    line.append(field.as_str());
    line.append("%");
    line
}

/// A percentage never exceeds 100, whatever was written.
pub proof fn lemma_percent_at_most_100(written: nat, total: nat)
    ensures
        percent_of(written, total) <= 100,
{
}

/// With an unknown total every progress update reports zero percent.
pub proof fn lemma_unknown_total_reports_zero(written: nat)
    ensures
        percent_of(written, 0) == 0,
{
}

/// Once everything that was declared has been written, the percentage is 100.
pub proof fn lemma_complete_reports_100(written: nat, total: nat)
    requires
        0 < total <= written,
    ensures
        percent_of(written, total) == 100,
{
    assert(written * 100 / total >= 100) by (nonlinear_arith)
        requires
            0 < total <= written,
    ;
}

/// Below the declared total the percentage is the exact rounded-down share,
/// and it stays under 100.
pub proof fn lemma_partial_share(written: nat, total: nat)
    requires
        written < total,
    ensures
        percent_of(written, total) == written * 100 / total,
        percent_of(written, total) < 100,
{
    assert(written * 100 / total < 100) by (nonlinear_arith)
        requires
            written < total,
    ;
}

/// Progress never goes back: writing more never lowers the percentage.
pub proof fn lemma_percent_monotone(earlier: nat, later: nat, total: nat)
    requires
        earlier <= later,
    ensures
        percent_of(earlier, total) <= percent_of(later, total),
{
    if total > 0 {
        assert(earlier * 100 / total <= later * 100 / total) by (nonlinear_arith)
            requires
                earlier <= later,
                total > 0,
        ;
    }
}

/// The bar is always twenty cells wide: `=` in every cell below a fifth of
/// the percentage, a blank in every other.
pub proof fn lemma_bar_width(percent: nat)
    ensures
        bar_cells(percent).len() == 20,
        forall|i: int|
            0 <= i < 20 ==> #[trigger] bar_cells(percent)[i] == (if i < percent / 5 {
                '='
            } else {
                ' '
            }),
{
}

} // verus!
