//! Terminal paint commands, produced by the library and carried out by the
//! caller on the real terminal.
use vstd::prelude::*;
use vstd::string::StrSliceExecFns;
use crate::display::{Color, MapDisplay};

verus! {

/// One terminal command.
#[derive(Clone, Copy, Debug, PartialEq, Eq, Structural)]
pub enum PaintOp {
    /// Move the cursor to `(column, row)`.
    MoveTo(u16, u16),
    /// Set the foreground colour.
    SetColor(Color),
    /// Print one character at the cursor.
    PrintChar(char),
    /// Clear from the cursor to the end of the line.
    ClearUntilNewLine,
    /// Clear the whole line under the cursor.
    ClearLine,
    /// Restore the default colours.
    ResetColor,
}

/// Printing `t` character by character.
pub open spec fn text_ops(t: Seq<char>) -> Seq<PaintOp>
    decreases t.len(),
{
    if t.len() == 0 {
        seq![]
    } else {
        text_ops(t.drop_last()).push(PaintOp::PrintChar(t.last()))
    }
}

/// Painting one row of cells: colour then symbol for each cell.
pub open spec fn row_ops(row: Seq<MapDisplay>) -> Seq<PaintOp>
    decreases row.len(),
{
    if row.len() == 0 {
        seq![]
    } else {
        row_ops(row.drop_last()) + seq![PaintOp::SetColor(row.last().color), PaintOp::PrintChar(row.last().symbol)]
    }
}

/// Painting the first `n` rows of `g`: each row starts at the left edge
/// of its line and ends by clearing what is left of the line.
pub open spec fn rows_ops(g: Seq<Seq<MapDisplay>>, n: int) -> Seq<PaintOp>
    decreases n,
{
    if n <= 0 {
        seq![]
    } else {
        rows_ops(g, n - 1) + seq![PaintOp::MoveTo(0, (n - 1) as u16)] + row_ops(g[n - 1])
            + seq![PaintOp::ClearUntilNewLine]
    }
}

/// Painting a whole map, then restoring the default colours.
pub open spec fn map_ops(g: Seq<Seq<MapDisplay>>) -> Seq<PaintOp> {
    rows_ops(g, g.len() as int) + seq![PaintOp::ResetColor]
}

/// Appends the commands that print `t`.
pub fn push_text(ops: &mut Vec<PaintOp>, t: &str)
    ensures
        final(ops)@ == old(ops)@ + text_ops(t@),
{
    let ghost start = ops@;
    let n = t.unicode_len();
    let mut i: usize = 0;
    assert(text_ops(t@.take(0)) =~= Seq::<PaintOp>::empty());
    while i < n
        invariant
            i <= n,
            n == t@.len(),
            ops@ =~= start + text_ops(t@.take(i as int)),
        decreases n - i,
    {
        let c = t.get_char(i);
        ops.push(PaintOp::PrintChar(c));
        assert(t@.take(i + 1) =~= t@.take(i as int).push(c));
        assert(t@.take(i + 1).drop_last() =~= t@.take(i as int));
        i = i + 1;
    }
    assert(t@.take(n as int) =~= t@);
}

} // verus!
