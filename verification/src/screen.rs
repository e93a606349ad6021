//! The abstract terminal surface: a viewport size and a queue of draw
//! operations. Each render cycle computes the whole frame as a sequence of
//! operations, which a front end executes and flushes in one batch.

use vstd::prelude::*;
use crate::row::{Row, render_of, spaces};
use crate::text::{chars_upto, slice_chars, str_chars, take_upto};

verus! {

/// A pair of terminal cell coordinates or extents.
#[derive(Clone, Copy, PartialEq, Eq, Structural, Debug)]
pub struct Position {
    /// Column, or horizontal extent.
    pub x: u16,
    /// Row, or vertical extent.
    pub y: u16,
}

impl Default for Position {
    /// The origin cell.
    fn default() -> (p: Position)
        ensures
            p.x == 0,
            p.y == 0,
    {
        Position { x: 0, y: 0 }
    }
}

/// One abstract draw operation for the terminal front end to execute.
pub enum DrawOp {
    /// Clear the whole screen.
    ClearAll,
    /// Move the output cursor to column `.0` of row `.1`.
    MoveTo(u16, u16),
    /// Write the characters at the current output position.
    Print(Vec<char>),
    /// Switch to inverse-video styling.
    SetInverse,
    /// Return to default styling.
    ResetStyle,
}

/// The mathematical shape of a draw operation, with printed text as a
/// character sequence.
pub ghost enum OpModel {
    /// Clear the whole screen.
    ClearAll,
    /// Move the output cursor to column `.0` of row `.1`.
    MoveTo(u16, u16),
    /// Write the characters at the current output position.
    Print(Seq<char>),
    /// Switch to inverse-video styling.
    SetInverse,
    /// Return to default styling.
    ResetStyle,
}

/// The model of one draw operation.
pub open spec fn op_model(op: DrawOp) -> OpModel {
    match op {
        DrawOp::ClearAll => OpModel::ClearAll,
        DrawOp::MoveTo(x, y) => OpModel::MoveTo(x, y),
        DrawOp::Print(v) => OpModel::Print(v@),
        DrawOp::SetInverse => OpModel::SetInverse,
        DrawOp::ResetStyle => OpModel::ResetStyle,
    }
}

/// The models of a queue of draw operations, in order.
pub open spec fn op_models(ops: Seq<DrawOp>) -> Seq<OpModel> {
    ops.map_values(|op: DrawOp| op_model(op))
}

/// Appending one operation appends its model.
pub proof fn lemma_op_models_push(ops: Seq<DrawOp>, op: DrawOp)
    ensures
        op_models(ops.push(op)) == op_models(ops).push(op_model(op)),
{
    assert(op_models(ops.push(op)) =~= op_models(ops).push(op_model(op)));
}

/// The welcome banner shown on an empty document.
pub open spec fn banner_chars() -> Seq<char> {
    "Text editor --version 0.1.0"@
}

/// The rendered forms of the document's rows, in order.
pub open spec fn renders(rows: Seq<Row>) -> Seq<Seq<char>> {
    rows.map_values(|r: Row| r.render@)
}

/// The operations that draw the welcome banner on screen row `r`: the
/// banner is cut to the viewport width and centered when it fits, with the
/// usual placeholder marker drawn first; a banner exactly as wide as the
/// viewport is drawn flush left.
pub open spec fn banner_ops(r: u16, width: u16) -> Seq<OpModel> {
    let b = take_upto(banner_chars(), width as int);
    if b.len() < width {
        seq![
            OpModel::MoveTo(0, r),
            OpModel::Print(seq!['~']),
            OpModel::MoveTo((((width - b.len()) / 2) as u16), r),
            OpModel::Print(b),
        ]
    } else {
        seq![OpModel::MoveTo(0, r), OpModel::Print(b)]
    }
}

/// The operations that draw one document line on screen row `r`: nothing
/// when the line has scrolled fully out of view to the left, otherwise the
/// slice of its rendered form from `coloff` on, cut to the viewport width.
pub open spec fn text_row_ops(rend: Seq<char>, r: u16, coloff: int, width: int) -> Seq<OpModel> {
    if rend.len() < coloff {
        Seq::empty()
    } else {
        seq![
            OpModel::MoveTo(0, r),
            OpModel::Print(
                rend.subrange(coloff, coloff + vstd::math::min(rend.len() - coloff, width)),
            ),
        ]
    }
}

/// The operations that draw screen row `r`: a document line when one is
/// scrolled into view there, the welcome banner a third of the way down an
/// empty document, and a placeholder marker on any other row past the end.
pub open spec fn screen_row_ops(
    rens: Seq<Seq<char>>,
    rowoff: int,
    coloff: int,
    width: u16,
    height: u16,
    r: int,
) -> Seq<OpModel> {
    if rowoff + r >= rens.len() {
        if rens.len() == 0 && r == height as int / 3 {
            banner_ops(r as u16, width)
        } else {
            seq![OpModel::MoveTo(0, r as u16), OpModel::Print(seq!['~'])]
        }
    } else {
        text_row_ops(rens[rowoff + r], r as u16, coloff, width as int)
    }
}

/// The operations that draw the first `n` screen rows, in order.
pub open spec fn draw_rows_ops(
    rens: Seq<Seq<char>>,
    rowoff: int,
    coloff: int,
    width: u16,
    height: u16,
    n: int,
) -> Seq<OpModel>
    decreases n,
{
    if n <= 0 {
        Seq::empty()
    } else {
        draw_rows_ops(rens, rowoff, coloff, width, height, n - 1) + screen_row_ops(
            rens,
            rowoff,
            coloff,
            width,
            height,
            n - 1,
        )
    }
}

/// The status-bar line: the left text cut to the viewport width, then,
/// when the right text still fits after it, padding and the right text
/// flush against the right edge; always exactly as wide as the viewport.
pub open spec fn status_line(left: Seq<char>, right: Seq<char>, width: int) -> Seq<char> {
    let l = take_upto(left, width);
    if l.len() + right.len() <= width {
        l + spaces(width - l.len() - right.len()) + right
    } else {
        l + spaces(width - l.len())
    }
}

/// The operations that draw the status bar (inverse video, on the row just
/// below the text area) and the message bar on the row below it.
pub open spec fn status_ops(
    left: Seq<char>,
    right: Seq<char>,
    msg: Seq<char>,
    width: u16,
    height: u16,
) -> Seq<OpModel> {
    seq![
        OpModel::MoveTo(0, height),
        OpModel::SetInverse,
        OpModel::Print(status_line(left, right, width as int)),
        OpModel::ResetStyle,
        OpModel::MoveTo(0, ((height as int + 1) as u16)),
        OpModel::Print(take_upto(msg, width as int)),
    ]
}

/// The placeholder marker drawn on rows past the end of the document.
fn marker_vec() -> (v: Vec<char>)
    ensures
        v@ == seq!['~'],
{
    let mut v: Vec<char> = Vec::new();
    v.push('~');
    proof {
        assert(v@ =~= seq!['~']);
    }
    v
}

/// Builds the status-bar line of exactly `width` characters: the left text
/// cut to the width, then, when the right text fits after it, padding and
/// the right text flush against the right edge.
fn build_status_line(left: &Vec<char>, right: &Vec<char>, width: usize) -> (bar: Vec<char>)
    ensures
        bar@ == status_line(left@, right@, width as int),
        bar@.len() == width,
{
    let mut bar = chars_upto(left, width);
    let l_len = bar.len();
    let ghost l = take_upto(left@, width as int);
    proof {
        assert(l + spaces(0) =~= l);
    }
    if right.len() <= width - l_len {
        let target = width - right.len();
        while bar.len() < target
            invariant
                l_len <= bar@.len() <= target,
                target == width - right@.len(),
                l_len == l.len(),
                right@.len() + l_len <= width,
                bar@ == l + spaces(bar@.len() - l_len),
            decreases target - bar@.len(),
        {
            proof {
                assert(l + spaces(bar@.len() - l_len + 1) =~= (l + spaces(
                    bar@.len() - l_len,
                )).push(' '));
            }
            bar.push(' ');
        }
        let ghost padded = bar@;
        proof {
            assert(padded + right@.take(0) =~= padded);
        }
        let mut j: usize = 0;
        while j < right.len()
            invariant
                j <= right@.len(),
                bar@ == padded + right@.take(j as int),
            decreases right@.len() - j,
        {
            proof {
                assert(padded + right@.take(j + 1) =~= (padded + right@.take(j as int)).push(
                    right@[j as int],
                ));
            }
            bar.push(right[j]);
            j = j + 1;
        }
        proof {
            assert(right@.take(right@.len() as int) =~= right@);
            assert(bar@ =~= status_line(left@, right@, width as int));
        }
    } else {
        while bar.len() < width
            invariant
                l_len <= bar@.len() <= width,
                l_len == l.len(),
                bar@ == l + spaces(bar@.len() - l_len),
            decreases width - bar@.len(),
        {
            proof {
                assert(l + spaces(bar@.len() - l_len + 1) =~= (l + spaces(
                    bar@.len() - l_len,
                )).push(' '));
            }
            bar.push(' ');
        }
        proof {
            assert(bar@ =~= status_line(left@, right@, width as int));
        }
    }
    bar
}

/// The terminal surface: the text area's extents and the operations
/// queued for the current frame.
pub struct Screen {
    /// Width of the text area, in cells.
    pub width: u16,
    /// Height of the text area, in rows; the status and message bars use
    /// the two rows below it.
    pub height: u16,
    /// Draw operations queued since the last flush, in order.
    pub ops: Vec<DrawOp>,
}

impl Screen {
    /// The text area is non-degenerate and leaves room for the status and
    /// message bars below it.
    pub open spec fn wf(&self) -> bool {
        &&& 1 <= self.width
        &&& 1 <= self.height <= 0xFFFD
    }

    /// A surface of the given extents with nothing queued.
    pub fn new(width: u16, height: u16) -> (s: Screen)
        requires
            1 <= width,
            1 <= height <= 0xFFFD,
        ensures
            s.width == width,
            s.height == height,
            s.ops@ == Seq::<DrawOp>::empty(),
            s.wf(),
    {
        Screen { width, height, ops: Vec::new() }
    }

    /// The text area's extents.
    pub fn bounds(&self) -> (p: Position)
        ensures
            p.x == self.width,
            p.y == self.height,
    {
        Position { x: self.width, y: self.height }
    }

    /// Queues clearing the whole screen and homing the output cursor.
    pub fn clear(&mut self)
        ensures
            final(self).width == old(self).width,
            final(self).height == old(self).height,
            op_models(final(self).ops@) == op_models(old(self).ops@) + seq![
                OpModel::ClearAll,
                OpModel::MoveTo(0, 0),
            ],
    {
        let ghost before = self.ops@;
        self.ops.push(DrawOp::ClearAll);
        proof {
            lemma_op_models_push(before, DrawOp::ClearAll);
        }
        self.ops.push(DrawOp::MoveTo(0, 0));
        proof {
            lemma_op_models_push(before.push(DrawOp::ClearAll), DrawOp::MoveTo(0, 0));
            assert(op_models(final(self).ops@) =~= op_models(before) + seq![
                OpModel::ClearAll,
                OpModel::MoveTo(0, 0),
            ]);
        }
    }

    /// Queues placing the terminal cursor at the cell where the logical
    /// cursor falls inside the viewport: document row `cursor_y` and render
    /// column `render_x`, relative to the scroll offsets.
    pub fn move_to(&mut self, render_x: usize, cursor_y: usize, rowoff: usize, coloff: usize)
        requires
            coloff <= render_x,
            render_x - coloff < old(self).width,
            rowoff <= cursor_y,
            cursor_y - rowoff < old(self).height,
        ensures
            final(self).width == old(self).width,
            final(self).height == old(self).height,
            op_models(final(self).ops@) == op_models(old(self).ops@).push(
                OpModel::MoveTo(((render_x - coloff) as u16), ((cursor_y - rowoff) as u16)),
            ),
    {
        let x = (render_x - coloff) as u16;
        let y = (cursor_y - rowoff) as u16;
        let ghost before = self.ops@;
        self.ops.push(DrawOp::MoveTo(x, y));
        proof {
            lemma_op_models_push(before, DrawOp::MoveTo(x, y));
        }
    }

    /// Queues the whole text area: for each screen row, the document line
    /// scrolled into view there, clipped horizontally to the viewport; rows
    /// past the end of the document get a placeholder marker, and an empty
    /// document shows the centered welcome banner a third of the way down.
    pub fn draw_rows(&mut self, rows: &Vec<Row>, rowoff: usize, coloff: usize)
        requires
            old(self).wf(),
            rowoff <= rows@.len(),
        ensures
            final(self).width == old(self).width,
            final(self).height == old(self).height,
            op_models(final(self).ops@) == op_models(old(self).ops@) + draw_rows_ops(
                renders(rows@),
                rowoff as int,
                coloff as int,
                old(self).width,
                old(self).height,
                old(self).height as int,
            ),
    {
        let ghost base = op_models(self.ops@);
        let ghost rens = renders(rows@);
        let width = self.width;
        let height = self.height;
        let mut r: u16 = 0;
        while r < height
            invariant
                r <= height,
                self.width == width,
                self.height == height,
                rowoff <= rows@.len(),
                rens == renders(rows@),
                op_models(self.ops@) == base + draw_rows_ops(
                    rens,
                    rowoff as int,
                    coloff as int,
                    width,
                    height,
                    r as int,
                ),
            decreases height as int - r as int,
        {
            let ghost prev = op_models(self.ops@);
            let ghost want = screen_row_ops(
                rens,
                rowoff as int,
                coloff as int,
                width,
                height,
                r as int,
            );
            let r_us = r as usize;
            if rows.len() - rowoff <= r_us {
                if rows.len() == 0 && r == height / 3 {
                    let mut welcome = str_chars("Text editor --version 0.1.0");
                    welcome.truncate(width as usize);
                    let ghost b = take_upto(banner_chars(), width as int);
                    proof {
                        assert(welcome@ == b);
                    }
                    if welcome.len() < width as usize {
                        let leftmost = ((width as usize - welcome.len()) / 2) as u16;
                        proof {
                            assert(leftmost == (((width - b.len()) / 2) as u16));
                        }
                        let ghost w0 = self.ops@;
                        self.ops.push(DrawOp::MoveTo(0, r));
                        let tilde = marker_vec();
                        let ghost w1 = self.ops@;
                        self.ops.push(DrawOp::Print(tilde));
                        let ghost w2 = self.ops@;
                        self.ops.push(DrawOp::MoveTo(leftmost, r));
                        let ghost w3 = self.ops@;
                        self.ops.push(DrawOp::Print(welcome));
                        proof {
                            lemma_op_models_push(w0, DrawOp::MoveTo(0, r));
                            lemma_op_models_push(w1, DrawOp::Print(tilde));
                            lemma_op_models_push(w2, DrawOp::MoveTo(leftmost, r));
                            lemma_op_models_push(w3, DrawOp::Print(welcome));
                            assert(op_models(self.ops@) =~= prev + want);
                        }
                    } else {
                        let ghost w0 = self.ops@;
                        self.ops.push(DrawOp::MoveTo(0, r));
                        let ghost w1 = self.ops@;
                        self.ops.push(DrawOp::Print(welcome));
                        proof {
                            lemma_op_models_push(w0, DrawOp::MoveTo(0, r));
                            lemma_op_models_push(w1, DrawOp::Print(welcome));
                            assert(op_models(self.ops@) =~= prev + want);
                        }
                    }
                } else {
                    let ghost w0 = self.ops@;
                    self.ops.push(DrawOp::MoveTo(0, r));
                    let tilde = marker_vec();
                    let ghost w1 = self.ops@;
                    self.ops.push(DrawOp::Print(tilde));
                    proof {
                        lemma_op_models_push(w0, DrawOp::MoveTo(0, r));
                        lemma_op_models_push(w1, DrawOp::Print(tilde));
                        assert(op_models(self.ops@) =~= prev + want);
                    }
                }
            } else {
                let filerow = rowoff + r_us;
                proof {
                    assert(rens[filerow as int] == rows@[filerow as int].render@);
                }
                let rlen = rows[filerow].render.len();
                if rlen >= coloff {
                    let avail = rlen - coloff;
                    let take_n = if avail < width as usize {
                        avail
                    } else {
                        width as usize
                    };
                    let slice = slice_chars(&rows[filerow].render, coloff, coloff + take_n);
                    let ghost w0 = self.ops@;
                    self.ops.push(DrawOp::MoveTo(0, r));
                    let ghost w1 = self.ops@;
                    self.ops.push(DrawOp::Print(slice));
                    proof {
                        lemma_op_models_push(w0, DrawOp::MoveTo(0, r));
                        lemma_op_models_push(w1, DrawOp::Print(slice));
                        assert(op_models(self.ops@) =~= prev + want);
                    }
                } else {
                    proof {
                        assert(op_models(self.ops@) =~= prev + want);
                    }
                }
            }
            proof {
                assert(draw_rows_ops(
                    rens,
                    rowoff as int,
                    coloff as int,
                    width,
                    height,
                    r as int + 1,
                ) == draw_rows_ops(rens, rowoff as int, coloff as int, width, height, r as int)
                    + want);
                assert(op_models(self.ops@) =~= base + draw_rows_ops(
                    rens,
                    rowoff as int,
                    coloff as int,
                    width,
                    height,
                    r as int + 1,
                ));
            }
            r = r + 1;
        }
    }

    /// Queues the status bar on the row just below the text area — the
    /// left text, padding, and the right text flush against the right edge,
    /// in inverse video, exactly as wide as the viewport — and the message
    /// bar on the row below it, cut to the viewport width.
    pub fn draw_status_bar(&mut self, left: &Vec<char>, right: &Vec<char>, msg: &Vec<char>)
        requires
            old(self).wf(),
        ensures
            final(self).width == old(self).width,
            final(self).height == old(self).height,
            op_models(final(self).ops@) == op_models(old(self).ops@) + status_ops(
                left@,
                right@,
                msg@,
                old(self).width,
                old(self).height,
            ),
    {
        let ghost prev = op_models(self.ops@);
        let bar = build_status_line(left, right, self.width as usize);
        let msg_cut = chars_upto(msg, self.width as usize);
        let below = self.height + 1;
        let ghost w0 = self.ops@;
        self.ops.push(DrawOp::MoveTo(0, self.height));
        let ghost w1 = self.ops@;
        self.ops.push(DrawOp::SetInverse);
        let ghost w2 = self.ops@;
        self.ops.push(DrawOp::Print(bar));
        let ghost w3 = self.ops@;
        self.ops.push(DrawOp::ResetStyle);
        let ghost w4 = self.ops@;
        self.ops.push(DrawOp::MoveTo(0, below));
        let ghost w5 = self.ops@;
        self.ops.push(DrawOp::Print(msg_cut));
        proof {
            lemma_op_models_push(w0, DrawOp::MoveTo(0, old(self).height));
            lemma_op_models_push(w1, DrawOp::SetInverse);
            lemma_op_models_push(w2, DrawOp::Print(bar));
            lemma_op_models_push(w3, DrawOp::ResetStyle);
            lemma_op_models_push(w4, DrawOp::MoveTo(0, below));
            lemma_op_models_push(w5, DrawOp::Print(msg_cut));
            assert(op_models(self.ops@) =~= prev + status_ops(
                left@,
                right@,
                msg@,
                old(self).width,
                old(self).height,
            ));
        }
    }

    /// Hands the queued frame to the front end and leaves the queue empty:
    /// the front end executes the operations and flushes them as one batch.
    pub fn flush_op(&mut self) -> (ops: Vec<DrawOp>)
        ensures
            final(self).width == old(self).width,
            final(self).height == old(self).height,
            ops@ == old(self).ops@,
            final(self).ops@ == Seq::<DrawOp>::empty(),
    {
        let mut out: Vec<DrawOp> = Vec::new();
        core::mem::swap(&mut out, &mut self.ops);
        out
    }
}

} // verus!
