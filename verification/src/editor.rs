//! The editor core: the document's rows, the logical cursor, the scroll
//! offsets, and the processing of one logical key event per cycle. A front
//! end decodes raw input into [`EditorKey`] values, hands them to
//! [`Editor::process_keypress`], asks [`Editor::refresh_screen`] for the
//! frame, and executes the queued draw operations.

use vstd::prelude::*;
use vstd::pervasive::VecAdditionalExecFns;
use crate::row::{Row, insert_at, rx_of};
use crate::screen::{
    DrawOp, OpModel, Screen, draw_rows_ops, op_models, renders, status_ops,
};
use crate::text::{copy_chars, dec_chars, dec_of, lines_view, str_chars};

verus! {

/// How long a status message stays on screen, in milliseconds.
pub const STATUS_TIMEOUT_MS: u64 = 5000;

/// One logical key event, as decoded by the front end.
#[derive(Clone, Copy, Debug)]
pub enum EditorKey {
    /// Move the cursor up one row.
    ArrowUp,
    /// Move the cursor down one row.
    ArrowDown,
    /// Move the cursor left, wrapping to the end of the previous line.
    ArrowLeft,
    /// Move the cursor right, wrapping to the start of the next line.
    ArrowRight,
    /// Jump to the top of the viewport, then up one screen.
    PageUp,
    /// Jump to the bottom of the viewport, then down one screen.
    PageDown,
    /// Jump to the start of the line.
    Home,
    /// Jump to the end of the line.
    End,
    /// Insert this character at the cursor.
    Char(char),
    /// Leave the editor.
    Quit,
    /// An event the editor does not react to.
    Other,
}

/// The raw length of row `row`, taking any position outside the document
/// (in particular the one-past-the-end row) to have length zero.
pub open spec fn line_len(d: Seq<Seq<char>>, row: int) -> int {
    if 0 <= row < d.len() {
        d[row].len() as int
    } else {
        0
    }
}

/// The column `col` clamped to the raw length of row `row`.
pub open spec fn clamp_col(d: Seq<Seq<char>>, row: int, col: int) -> int {
    if col > line_len(d, row) {
        line_len(d, row)
    } else {
        col
    }
}

/// One cursor transition: the directional moves honour line boundaries and
/// wrap between lines, any other key moves nothing, and the resulting
/// column is clamped to the resulting row's length.
pub open spec fn step_move(d: Seq<Seq<char>>, row: int, col: int, key: EditorKey) -> (int, int) {
    let moved = match key {
        EditorKey::ArrowLeft => if col > 0 {
            (row, col - 1)
        } else if row > 0 {
            (row - 1, line_len(d, row - 1))
        } else {
            (row, col)
        },
        EditorKey::ArrowRight => if row < d.len() {
            if col < line_len(d, row) {
                (row, col + 1)
            } else if col == line_len(d, row) {
                (row + 1, 0)
            } else {
                (row, col)
            }
        } else {
            (row, col)
        },
        EditorKey::ArrowUp => if row > 0 {
            (row - 1, col)
        } else {
            (row, col)
        },
        EditorKey::ArrowDown => if row < d.len() {
            (row + 1, col)
        } else {
            (row, col)
        },
        _ => (row, col),
    };
    (moved.0, clamp_col(d, moved.0, moved.1))
}

/// The cursor after `n` repetitions of the transition for `key`.
pub open spec fn move_n(d: Seq<Seq<char>>, row: int, col: int, key: EditorKey, n: nat) -> (
    int,
    int,
)
    decreases n,
{
    if n == 0 {
        (row, col)
    } else {
        let prev = move_n(d, row, col, key, (n - 1) as nat);
        step_move(d, prev.0, prev.1, key)
    }
}

/// The document after inserting `c` at `(row, col)`: a cursor resting on
/// the one-past-the-end row first materialises a new empty line there.
pub open spec fn doc_after_insert(d: Seq<Seq<char>>, row: int, col: int, c: char) -> Seq<
    Seq<char>,
> {
    let d2 = if row == d.len() {
        d.push(Seq::empty())
    } else {
        d
    };
    d2.update(row, insert_at(d2[row], col, c))
}

/// The sticky scroll rule for one axis: snap the offset only as far as
/// needed to bring the cursor position `cur` back inside the window of
/// `extent` cells starting at `off`.
pub open spec fn scrolled_off(cur: int, off: int, extent: int) -> int {
    if cur < off {
        cur
    } else if cur >= off + extent {
        cur - extent + 1
    } else {
        off
    }
}

/// The left half of the status bar: the file name (or a placeholder when
/// there is none) and the line count.
pub open spec fn left_status(filename: Seq<char>, n: nat) -> Seq<char> {
    (if filename.len() == 0 {
        "(no name)"@
    } else {
        filename
    }) + " - "@ + dec_of(n) + " lines"@
}

/// The right half of the status bar: the cursor row over the line count.
pub open spec fn right_status(row: nat, n: nat) -> Seq<char> {
    dec_of(row) + "/"@ + dec_of(n)
}

/// The status message once expiry has been polled at time `now`: cleared
/// when it has been on screen longer than the timeout, kept otherwise.
pub open spec fn polled_msg(msg: Seq<char>, set_at: u64, now: u64) -> Seq<char> {
    if msg.len() > 0 && now >= set_at && now - set_at > STATUS_TIMEOUT_MS {
        Seq::empty()
    } else {
        msg
    }
}

/// The editor: document, cursor, scroll state, status message, and the
/// terminal surface the frames are queued on.
pub struct Editor {
    /// Name of the loaded file; empty when none was given.
    pub filename: Vec<char>,
    /// The transient status message.
    pub status_msg: Vec<char>,
    /// When the status message was set, in milliseconds.
    pub status_time: u64,
    /// The terminal surface.
    pub screen: Screen,
    /// Cursor column, indexing raw characters of the current row.
    pub cursor_x: usize,
    /// Cursor row, up to and including one past the last line.
    pub cursor_y: usize,
    /// The cursor column projected into rendered cells; a projection
    /// recomputed by every scroll pass, never authoritative.
    pub render_x: usize,
    /// The document's rows, in visual order.
    pub rows: Vec<Row>,
    /// First visible document row.
    pub rowoff: usize,
    /// First visible rendered column.
    pub coloff: usize,
}

impl Editor {
    /// The raw characters of the document, one sequence per row.
    pub open spec fn doc(&self) -> Seq<Seq<char>> {
        self.rows@.map_values(|r: Row| r.chars@)
    }

    /// Structural well-formedness: the surface is usable, every row's
    /// rendered form matches its raw form, and the cursor row and row
    /// offset never pass the one-past-the-end row.
    pub open spec fn wf(&self) -> bool {
        &&& self.screen.wf()
        &&& self.cursor_y <= self.rows@.len()
        &&& self.rowoff <= self.rows@.len()
        &&& (forall|i: int| 0 <= i < self.rows@.len() ==> (#[trigger] self.rows@[i]).wf())
    }

    /// The cursor column never passes the current row's raw length; on the
    /// one-past-the-end row it is zero.
    pub open spec fn cursor_ok(&self) -> bool {
        self.cursor_x <= line_len(self.doc(), self.cursor_y as int)
    }

    /// The render column the cursor projects to: zero on the
    /// one-past-the-end row.
    pub open spec fn target_rx(&self) -> int {
        if self.cursor_y < self.rows@.len() {
            rx_of(self.rows@[self.cursor_y as int].chars@, self.cursor_x as int)
        } else {
            0
        }
    }

    /// Everything but the cursor is the same in `post` as in `pre`.
    pub open spec fn same_except_cursor(pre: Editor, post: Editor) -> bool {
        &&& post.rows == pre.rows
        &&& post.screen == pre.screen
        &&& post.filename == pre.filename
        &&& post.status_msg == pre.status_msg
        &&& post.status_time == pre.status_time
        &&& post.render_x == pre.render_x
        &&& post.rowoff == pre.rowoff
        &&& post.coloff == pre.coloff
    }

    /// The cursor of a well-formed editor always lies inside the document:
    /// the row never passes the one-past-the-end row, on a real line the
    /// column never passes that line's raw length, and on the
    /// one-past-the-end row the column is zero. Every navigation and
    /// editing operation ensures `wf` and `cursor_ok` again, so this holds
    /// after any sequence of them.
    pub proof fn lemma_cursor_clamped(e: Editor)
        requires
            e.wf(),
            e.cursor_ok(),
        ensures
            0 <= e.cursor_y <= e.doc().len(),
            e.cursor_y < e.doc().len() ==> e.cursor_x <= e.doc()[e.cursor_y as int].len(),
            e.cursor_y == e.doc().len() ==> e.cursor_x == 0,
    {
    }

    /// Builds an editor over the given lines, with the cursor at the
    /// origin, nothing scrolled, and the initial help message set at
    /// `now_ms`. The text area must be at least one cell each way and leave
    /// room for the two bars below it.
    pub fn build(
        data: &Vec<Vec<char>>,
        filename: Vec<char>,
        width: u16,
        height: u16,
        now_ms: u64,
    ) -> (e: Editor)
        requires
            1 <= width,
            1 <= height <= 0xFFFD,
        ensures
            e.wf(),
            e.cursor_ok(),
            e.doc() == lines_view(data@),
            e.filename@ == filename@,
            e.status_msg@ == "HELP: Ctrl -Q = quit"@,
            e.status_time == now_ms,
            e.cursor_x == 0,
            e.cursor_y == 0,
            e.render_x == 0,
            e.rowoff == 0,
            e.coloff == 0,
            e.screen.width == width,
            e.screen.height == height,
            e.screen.ops@ == Seq::<DrawOp>::empty(),
    {
        let mut rows: Vec<Row> = Vec::new();
        let mut i: usize = 0;
        while i < data.len()
            invariant
                i <= data@.len(),
                rows@.len() == i,
                forall|j: int|
                    0 <= j < i ==> (#[trigger] rows@[j]).wf() && rows@[j].chars@ == data@[j]@,
            decreases data@.len() - i,
        {
            let line = copy_chars(&data[i]);
            rows.push(Row::new(line));
            i = i + 1;
        }
        let help = str_chars("HELP: Ctrl -Q = quit");
        let e = Editor {
            filename,
            status_msg: help,
            status_time: now_ms,
            screen: Screen::new(width, height),
            cursor_x: 0,
            cursor_y: 0,
            render_x: 0,
            rows,
            rowoff: 0,
            coloff: 0,
        };
        proof {
            assert(e.doc() =~= lines_view(data@));
        }
        e
    }

    /// An editor over an empty document.
    pub fn new(width: u16, height: u16, now_ms: u64) -> (e: Editor)
        requires
            1 <= width,
            1 <= height <= 0xFFFD,
        ensures
            e.wf(),
            e.cursor_ok(),
            e.doc() == Seq::<Seq<char>>::empty(),
            e.filename@ == Seq::<char>::empty(),
            e.status_msg@ == "HELP: Ctrl -Q = quit"@,
            e.status_time == now_ms,
            e.cursor_x == 0,
            e.cursor_y == 0,
            e.render_x == 0,
            e.rowoff == 0,
            e.coloff == 0,
            e.screen.width == width,
            e.screen.height == height,
            e.screen.ops@ == Seq::<DrawOp>::empty(),
    {
        let data: Vec<Vec<char>> = Vec::new();
        let e = Editor::build(&data, Vec::new(), width, height, now_ms);
        proof {
            assert(lines_view(data@) =~= Seq::<Seq<char>>::empty());
        }
        e
    }

    /// Replaces the status message, remembering when it was set.
    pub fn set_status_message(&mut self, msg: Vec<char>, now_ms: u64)
        ensures
            final(self).status_msg@ == msg@,
            final(self).status_time == now_ms,
            final(self).rows == old(self).rows,
            final(self).screen == old(self).screen,
            final(self).filename == old(self).filename,
            final(self).cursor_x == old(self).cursor_x,
            final(self).cursor_y == old(self).cursor_y,
            final(self).render_x == old(self).render_x,
            final(self).rowoff == old(self).rowoff,
            final(self).coloff == old(self).coloff,
    {
        self.status_time = now_ms;
        self.status_msg = msg;
    }

    /// Applies one directional cursor transition, exactly as
    /// [`step_move`] describes it, and clamps the column to the new row.
    /// The cursor stays within the document bounds whatever sequence of
    /// moves is applied.
    pub fn move_cursor(&mut self, key: EditorKey)
        requires
            old(self).wf(),
        ensures
            final(self).wf(),
            final(self).cursor_ok(),
            Editor::same_except_cursor(*old(self), *final(self)),
            (final(self).cursor_y as int, final(self).cursor_x as int) == step_move(
                old(self).doc(),
                old(self).cursor_y as int,
                old(self).cursor_x as int,
                key,
            ),
    {
        proof {
            assert(forall|i: int|
                0 <= i < self.rows@.len() ==> self.doc()[i] == (#[trigger] self.rows@[i]).chars@);
        }
        match key {
            EditorKey::ArrowLeft => {
                if self.cursor_x != 0 {
                    self.cursor_x = self.cursor_x - 1;
                } else if self.cursor_y > 0 {
                    self.cursor_y = self.cursor_y - 1;
                    self.cursor_x = self.rows[self.cursor_y].chars.len();
                }
            },
            EditorKey::ArrowRight => {
                if self.cursor_y < self.rows.len() {
                    let len = self.rows[self.cursor_y].chars.len();
                    if self.cursor_x < len {
                        self.cursor_x = self.cursor_x + 1;
                    } else if self.cursor_x == len {
                        self.cursor_y = self.cursor_y + 1;
                        self.cursor_x = 0;
                    }
                }
            },
            EditorKey::ArrowUp => {
                if self.cursor_y > 0 {
                    self.cursor_y = self.cursor_y - 1;
                }
            },
            EditorKey::ArrowDown => {
                if self.cursor_y < self.rows.len() {
                    self.cursor_y = self.cursor_y + 1;
                }
            },
            _ => {},
        }
        let row_len: usize = if self.cursor_y < self.rows.len() {
            self.rows[self.cursor_y].chars.len()
        } else {
            0
        };
        if self.cursor_x > row_len {
            self.cursor_x = row_len;
        }
    }

    /// Inserts `c` at the cursor and advances the cursor one column; a
    /// cursor resting one past the last line first materialises a new
    /// empty line there.
    pub fn insert_char(&mut self, c: char)
        requires
            old(self).wf(),
            old(self).cursor_ok(),
        ensures
            final(self).wf(),
            final(self).cursor_ok(),
            final(self).doc() == doc_after_insert(
                old(self).doc(),
                old(self).cursor_y as int,
                old(self).cursor_x as int,
                c,
            ),
            final(self).cursor_y == old(self).cursor_y,
            final(self).cursor_x == old(self).cursor_x + 1,
            final(self).screen == old(self).screen,
            final(self).filename == old(self).filename,
            final(self).status_msg == old(self).status_msg,
            final(self).status_time == old(self).status_time,
            final(self).render_x == old(self).render_x,
            final(self).rowoff == old(self).rowoff,
            final(self).coloff == old(self).coloff,
    {
        proof {
            assert(forall|i: int|
                0 <= i < self.rows@.len() ==> self.doc()[i] == (#[trigger] self.rows@[i]).chars@);
        }
        if self.cursor_y == self.rows.len() {
            self.rows.push(Row::new(Vec::new()));
        }
        let y = self.cursor_y;
        let mut row = Row { chars: copy_chars(&self.rows[y].chars), render: Vec::new() };
        row.insert_char(self.cursor_x, c);
        self.rows.set(y, row);
        proof {
            assert(self.cursor_x < self.rows@[y as int].chars.len());
        }
        self.cursor_x = self.cursor_x + 1;
        proof {
            assert(final(self).doc() =~= doc_after_insert(
                old(self).doc(),
                old(self).cursor_y as int,
                old(self).cursor_x as int,
                c,
            ));
            assert(forall|i: int|
                0 <= i < final(self).rows@.len() ==> final(self).doc()[i] == (
                #[trigger] final(self).rows@[i]).chars@);
        }
    }

    /// Reacts to one logical key event and says whether the editor should
    /// quit. Directional keys move as [`step_move`] describes; PageUp and
    /// PageDown jump to the viewport's edge and then move a whole screen
    /// one row at a time, re-clamping the column against each intermediate
    /// line; Home and End jump within the line; a character key inserts at
    /// the cursor; anything else is ignored. Keys that act at a document
    /// boundary do nothing there rather than fail.
    pub fn process_keypress(&mut self, key: EditorKey) -> (quit: bool)
        requires
            old(self).wf(),
            old(self).cursor_ok(),
        ensures
            final(self).wf(),
            final(self).cursor_ok(),
            quit == (key matches EditorKey::Quit),
            match key {
                EditorKey::ArrowUp | EditorKey::ArrowDown | EditorKey::ArrowLeft
                    | EditorKey::ArrowRight => {
                    &&& Editor::same_except_cursor(*old(self), *final(self))
                    &&& (final(self).cursor_y as int, final(self).cursor_x as int) == step_move(
                        old(self).doc(),
                        old(self).cursor_y as int,
                        old(self).cursor_x as int,
                        key,
                    )
                },
                EditorKey::PageUp => {
                    &&& Editor::same_except_cursor(*old(self), *final(self))
                    &&& (final(self).cursor_y as int, final(self).cursor_x as int) == move_n(
                        old(self).doc(),
                        old(self).rowoff as int,
                        old(self).cursor_x as int,
                        EditorKey::ArrowUp,
                        old(self).screen.height as nat,
                    )
                },
                EditorKey::PageDown => {
                    &&& Editor::same_except_cursor(*old(self), *final(self))
                    &&& (final(self).cursor_y as int, final(self).cursor_x as int) == move_n(
                        old(self).doc(),
                        vstd::math::min(
                            old(self).rowoff as int + old(self).screen.height as int - 1,
                            old(self).rows@.len() as int,
                        ),
                        old(self).cursor_x as int,
                        EditorKey::ArrowDown,
                        old(self).screen.height as nat,
                    )
                },
                EditorKey::Home => {
                    &&& Editor::same_except_cursor(*old(self), *final(self))
                    &&& final(self).cursor_y == old(self).cursor_y
                    &&& final(self).cursor_x == 0
                },
                EditorKey::End => {
                    &&& Editor::same_except_cursor(*old(self), *final(self))
                    &&& final(self).cursor_y == old(self).cursor_y
                    &&& final(self).cursor_x as int == (if old(self).cursor_y < old(
                        self,
                    ).rows@.len() {
                        line_len(old(self).doc(), old(self).cursor_y as int)
                    } else {
                        old(self).cursor_x as int
                    })
                },
                EditorKey::Char(c) => {
                    &&& final(self).doc() == doc_after_insert(
                        old(self).doc(),
                        old(self).cursor_y as int,
                        old(self).cursor_x as int,
                        c,
                    )
                    &&& final(self).cursor_y == old(self).cursor_y
                    &&& final(self).cursor_x == old(self).cursor_x + 1
                    &&& final(self).screen == old(self).screen
                    &&& final(self).filename == old(self).filename
                    &&& final(self).status_msg == old(self).status_msg
                    &&& final(self).status_time == old(self).status_time
                    &&& final(self).render_x == old(self).render_x
                    &&& final(self).rowoff == old(self).rowoff
                    &&& final(self).coloff == old(self).coloff
                },
                EditorKey::Quit | EditorKey::Other => *final(self) == *old(self),
            },
    {
        match key {
            EditorKey::Quit => true,
            EditorKey::ArrowUp | EditorKey::ArrowDown | EditorKey::ArrowLeft
                | EditorKey::ArrowRight => {
                self.move_cursor(key);
                false
            },
            EditorKey::PageUp => {
                let bounds = self.screen.bounds();
                self.cursor_y = self.rowoff;
                let ghost pre = *self;
                let ghost d = self.doc();
                let ghost y0 = self.cursor_y as int;
                let ghost x0 = self.cursor_x as int;
                let mut i: u16 = 0;
                while i < bounds.y
                    invariant
                        i <= bounds.y,
                        self.wf(),
                        bounds.y == self.screen.height,
                        Editor::same_except_cursor(pre, *self),
                        d == self.doc(),
                        (self.cursor_y as int, self.cursor_x as int) == move_n(
                            d,
                            y0,
                            x0,
                            EditorKey::ArrowUp,
                            i as nat,
                        ),
                        i > 0 ==> self.cursor_ok(),
                    decreases bounds.y as int - i as int,
                {
                    let ghost before = (self.cursor_y as int, self.cursor_x as int);
                    self.move_cursor(EditorKey::ArrowUp);
                    proof {
                        assert(move_n(d, y0, x0, EditorKey::ArrowUp, i as nat + 1) == step_move(
                            d,
                            before.0,
                            before.1,
                            EditorKey::ArrowUp,
                        ));
                    }
                    i = i + 1;
                }
                false
            },
            EditorKey::PageDown => {
                let bounds = self.screen.bounds();
                let h = bounds.y as usize;
                let target: usize = if self.rows.len() - self.rowoff <= h - 1 {
                    self.rows.len()
                } else {
                    self.rowoff + h - 1
                };
                proof {
                    assert(target as int == vstd::math::min(
                        self.rowoff as int + h as int - 1,
                        self.rows@.len() as int,
                    ));
                }
                self.cursor_y = target;
                let ghost pre = *self;
                let ghost d = self.doc();
                let ghost y0 = self.cursor_y as int;
                let ghost x0 = self.cursor_x as int;
                let mut i: u16 = 0;
                while i < bounds.y
                    invariant
                        i <= bounds.y,
                        self.wf(),
                        bounds.y == self.screen.height,
                        Editor::same_except_cursor(pre, *self),
                        d == self.doc(),
                        (self.cursor_y as int, self.cursor_x as int) == move_n(
                            d,
                            y0,
                            x0,
                            EditorKey::ArrowDown,
                            i as nat,
                        ),
                        i > 0 ==> self.cursor_ok(),
                    decreases bounds.y as int - i as int,
                {
                    let ghost before = (self.cursor_y as int, self.cursor_x as int);
                    self.move_cursor(EditorKey::ArrowDown);
                    proof {
                        assert(move_n(d, y0, x0, EditorKey::ArrowDown, i as nat + 1) == step_move(
                            d,
                            before.0,
                            before.1,
                            EditorKey::ArrowDown,
                        ));
                    }
                    i = i + 1;
                }
                false
            },
            EditorKey::Home => {
                self.cursor_x = 0;
                false
            },
            EditorKey::End => {
                proof {
                    assert(forall|i: int|
                        0 <= i < self.rows@.len() ==> self.doc()[i] == (
                        #[trigger] self.rows@[i]).chars@);
                }
                if self.cursor_y < self.rows.len() {
                    self.cursor_x = self.rows[self.cursor_y].chars.len();
                }
                false
            },
            EditorKey::Char(c) => {
                self.insert_char(c);
                false
            },
            EditorKey::Other => false,
        }
    }

    /// Recomputes the whole frame: scrolls the cursor back into view,
    /// queues a clear, the text area, the status and message bars (the
    /// message is dropped once it has outlived its timeout, polled here
    /// rather than by any timer), and finally the terminal cursor
    /// placement at the cell where the logical cursor falls.
    pub fn refresh_screen(&mut self, now_ms: u64)
        requires
            old(self).wf(),
            old(self).cursor_ok(),
        ensures
            final(self).wf(),
            final(self).cursor_ok(),
            final(self).rows == old(self).rows,
            final(self).filename == old(self).filename,
            final(self).cursor_x == old(self).cursor_x,
            final(self).cursor_y == old(self).cursor_y,
            final(self).status_time == old(self).status_time,
            final(self).status_msg@ == polled_msg(
                old(self).status_msg@,
                old(self).status_time,
                now_ms,
            ),
            final(self).render_x == old(self).target_rx(),
            final(self).rowoff == scrolled_off(
                old(self).cursor_y as int,
                old(self).rowoff as int,
                old(self).screen.height as int,
            ),
            final(self).coloff == scrolled_off(
                final(self).render_x as int,
                old(self).coloff as int,
                old(self).screen.width as int,
            ),
            final(self).rowoff <= final(self).cursor_y,
            final(self).cursor_y < final(self).rowoff + final(self).screen.height,
            final(self).coloff <= final(self).render_x,
            final(self).render_x < final(self).coloff + final(self).screen.width,
            final(self).screen.width == old(self).screen.width,
            final(self).screen.height == old(self).screen.height,
            op_models(final(self).screen.ops@) == op_models(old(self).screen.ops@) + seq![
                OpModel::ClearAll,
                OpModel::MoveTo(0, 0),
            ] + draw_rows_ops(
                renders(old(self).rows@),
                final(self).rowoff as int,
                final(self).coloff as int,
                old(self).screen.width,
                old(self).screen.height,
                old(self).screen.height as int,
            ) + status_ops(
                left_status(old(self).filename@, old(self).rows@.len()),
                right_status(old(self).cursor_y as nat, old(self).rows@.len()),
                final(self).status_msg@,
                old(self).screen.width,
                old(self).screen.height,
            ) + seq![
                OpModel::MoveTo(
                    (((final(self).render_x - final(self).coloff)) as u16),
                    (((final(self).cursor_y - final(self).rowoff)) as u16),
                ),
            ],
    {
        self.scroll();
        self.screen.clear();
        self.screen.draw_rows(&self.rows, self.rowoff, self.coloff);
        if self.status_msg.len() > 0 {
            if now_ms >= self.status_time && now_ms - self.status_time > STATUS_TIMEOUT_MS {
                self.status_msg.clear();
            }
        }
        let mut left: Vec<char>;
        if self.filename.len() == 0 {
            left = str_chars("(no name)");
        } else {
            left = copy_chars(&self.filename);
        }
        let mut sep = str_chars(" - ");
        left.append(&mut sep);
        let mut cnt = dec_chars(self.rows.len());
        left.append(&mut cnt);
        let mut tail = str_chars(" lines");
        left.append(&mut tail);
        proof {
            assert(left@ =~= left_status(old(self).filename@, old(self).rows@.len()));
        }
        let mut right = dec_chars(self.cursor_y);
        let mut slash = str_chars("/");
        right.append(&mut slash);
        let mut cnt2 = dec_chars(self.rows.len());
        right.append(&mut cnt2);
        proof {
            assert(right@ =~= right_status(old(self).cursor_y as nat, old(self).rows@.len()));
        }
        self.screen.draw_status_bar(&left, &right, &self.status_msg);
        self.screen.move_to(self.render_x, self.cursor_y, self.rowoff, self.coloff);
        proof {
            assert(op_models(self.screen.ops@) =~= op_models(old(self).screen.ops@) + seq![
                OpModel::ClearAll,
                OpModel::MoveTo(0, 0),
            ] + draw_rows_ops(
                renders(old(self).rows@),
                self.rowoff as int,
                self.coloff as int,
                old(self).screen.width,
                old(self).screen.height,
                old(self).screen.height as int,
            ) + status_ops(
                left_status(old(self).filename@, old(self).rows@.len()),
                right_status(old(self).cursor_y as nat, old(self).rows@.len()),
                self.status_msg@,
                old(self).screen.width,
                old(self).screen.height,
            ) + seq![
                OpModel::MoveTo(
                    (((self.render_x - self.coloff)) as u16),
                    (((self.cursor_y - self.rowoff)) as u16),
                ),
            ]);
        }
    }

    /// Recomputes the render column from the cursor, then snaps each
    /// scroll offset only as far as needed — the sticky rule of
    /// [`scrolled_off`] — so that afterwards the cursor's row and render
    /// column always fall inside the viewport.
    pub fn scroll(&mut self)
        requires
            old(self).wf(),
            old(self).cursor_ok(),
        ensures
            final(self).wf(),
            final(self).cursor_ok(),
            final(self).rows == old(self).rows,
            final(self).screen == old(self).screen,
            final(self).filename == old(self).filename,
            final(self).status_msg == old(self).status_msg,
            final(self).status_time == old(self).status_time,
            final(self).cursor_x == old(self).cursor_x,
            final(self).cursor_y == old(self).cursor_y,
            final(self).render_x == old(self).target_rx(),
            final(self).rowoff == scrolled_off(
                old(self).cursor_y as int,
                old(self).rowoff as int,
                old(self).screen.height as int,
            ),
            final(self).coloff == scrolled_off(
                final(self).render_x as int,
                old(self).coloff as int,
                old(self).screen.width as int,
            ),
            final(self).rowoff <= final(self).cursor_y,
            final(self).cursor_y < final(self).rowoff + final(self).screen.height,
            final(self).coloff <= final(self).render_x,
            final(self).render_x < final(self).coloff + final(self).screen.width,
    {
        proof {
            assert(forall|i: int|
                0 <= i < self.rows@.len() ==> self.doc()[i] == (#[trigger] self.rows@[i]).chars@);
        }
        let bounds = self.screen.bounds();
        let h = bounds.y as usize;
        let w = bounds.x as usize;
        if self.cursor_y < self.rows.len() {
            self.render_x = self.rows[self.cursor_y].cx_to_rx(self.cursor_x);
        } else {
            self.render_x = 0;
        }
        if self.cursor_y < self.rowoff {
            self.rowoff = self.cursor_y;
        }
        if self.cursor_y - self.rowoff >= h {
            self.rowoff = self.cursor_y - h + 1;
        }
        if self.render_x < self.coloff {
            self.coloff = self.render_x;
        }
        if self.render_x - self.coloff >= w {
            self.coloff = self.render_x - w + 1;
        }
    }
}

} // verus!
