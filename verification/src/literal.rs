//! The tile grid written out as a nested array literal, ready to be pasted
//! into source text: `[[0, 1], [1, 0]]`.

use vstd::prelude::*;

verus! {

/// ASCII `[`.
pub const OPEN: u8 = 91;

/// ASCII `]`.
pub const CLOSE: u8 = 93;

/// ASCII `,`.
pub const COMMA: u8 = 44;

/// ASCII blank.
pub const BLANK: u8 = 32;

/// ASCII `0`; the other digits follow it.
pub const ZERO: u8 = 48;

/// The decimal digits of `n` as ASCII bytes, without leading zeros.
pub open spec fn decimal(n: nat) -> Seq<u8>
    decreases n,
{
    if n < 10 {
        seq![(ZERO + n) as u8]
    } else {
        decimal(n / 10).push((ZERO + n % 10) as u8)
    }
}

/// The numbers of `row` in decimal, separated by a comma and a blank.
pub open spec fn numbers_text(row: Seq<usize>) -> Seq<u8>
    decreases row.len(),
{
    if row.len() == 0 {
        Seq::empty()
    } else if row.len() == 1 {
        decimal(row[0] as nat)
    } else {
        numbers_text(row.drop_last()) + seq![COMMA, BLANK] + decimal(row.last() as nat)
    }
}

/// One row as an array literal: its numbers between square brackets.
pub open spec fn row_text(row: Seq<usize>) -> Seq<u8> {
    seq![OPEN] + numbers_text(row) + seq![CLOSE]
}

/// The rows of `grid` as array literals, separated by a comma and a blank.
pub open spec fn rows_text(grid: Seq<Seq<usize>>) -> Seq<u8>
    decreases grid.len(),
{
    if grid.len() == 0 {
        Seq::empty()
    } else if grid.len() == 1 {
        row_text(grid[0])
    } else {
        rows_text(grid.drop_last()) + seq![COMMA, BLANK] + row_text(grid.last())
    }
}

/// The whole grid as an array literal of array literals.
pub open spec fn grid_text(grid: Seq<Seq<usize>>) -> Seq<u8> {
    seq![OPEN] + rows_text(grid) + seq![CLOSE]
}

/// Appends the decimal digits of `n` to `out`.
pub fn push_decimal(out: &mut Vec<u8>, n: usize)
    ensures
        final(out)@ == old(out)@ + decimal(n as nat),
    decreases n,
{
    if n >= 10 {
        push_decimal(out, n / 10);
    }
    let digit: u8 = (n % 10) as u8;
    out.push(ZERO + digit);
    assert(final(out)@ =~= old(out)@ + decimal(n as nat));
}

/// Appends one row as an array literal to `out`.
pub fn push_row(out: &mut Vec<u8>, row: &Vec<usize>)
    ensures
        final(out)@ == old(out)@ + row_text(row@),
{
    out.push(OPEN);
    let mut i: usize = 0;
    while i < row.len()
        invariant
            i <= row@.len(),
            out@ == old(out)@ + seq![OPEN] + numbers_text(row@.take(i as int)),
        decreases row@.len() - i,
    {
        if i > 0 {
            out.push(COMMA);
            out.push(BLANK);
        }
        push_decimal(out, row[i]);
        proof {
            let upto = row@.take(i + 1);
            assert(upto.drop_last() =~= row@.take(i as int));
            assert(upto.last() == row@[i as int]);
            assert(out@ =~= old(out)@ + seq![OPEN] + numbers_text(upto));
        }
        i += 1;
    }
    out.push(CLOSE);
    assert(row@.take(row@.len() as int) =~= row@);
    assert(final(out)@ =~= old(out)@ + row_text(row@));
}

/// The array literal of `grid`: every row between square brackets, the rows
/// between square brackets again, numbers and rows separated by a comma and
/// a blank.
pub fn array_literal(grid: &Vec<Vec<usize>>) -> (text: Vec<u8>)
    ensures
        text@ == grid_text(grid.deep_view()),
{
    let ghost rows = grid.deep_view();
    let mut text: Vec<u8> = Vec::new();
    text.push(OPEN);
    let mut i: usize = 0;
    while i < grid.len()
        invariant
            i <= grid@.len(),
            rows == grid.deep_view(),
            text@ == seq![OPEN] + rows_text(rows.take(i as int)),
        decreases grid@.len() - i,
    {
        if i > 0 {
            text.push(COMMA);
            text.push(BLANK);
        }
        push_row(&mut text, &grid[i]);
        proof {
            let upto = rows.take(i + 1);
            assert(upto.drop_last() =~= rows.take(i as int));
            assert(upto.last() =~= grid@[i as int]@);
            assert(text@ =~= seq![OPEN] + rows_text(upto));
        }
        i += 1;
    }
    text.push(CLOSE);
    assert(rows.take(grid@.len() as int) =~= rows);
    assert(text@ =~= grid_text(rows));
    text
}

} // verus!
