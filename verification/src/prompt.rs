//! The prompt input sub-state: a fixed-width input field anchored at the
//! bottom right of the screen that captures a line of text with backspace
//! and ellipsis-truncated overflow.

use crate::render::{RenderOp, RenderOpV};
use vstd::prelude::*;
use vstd::string::*;

verus! {

/// Relies on `String::push`: appends exactly the one character to the end
/// of the string.
#[verifier::external_body]
fn push_char(s: &mut String, c: char)
    ensures
        final(s)@ == old(s)@.push(c),
{
    s.push(c);
}

/// Relies on `String::pop`: removes and returns the last character of the
/// string, or returns nothing when it is empty.
#[verifier::external_body]
fn pop_char(s: &mut String) -> (r: Option<char>)
    ensures
        old(s)@.len() == 0 ==> final(s)@ == old(s)@ && r is None,
        old(s)@.len() > 0 ==> final(s)@ == old(s)@.drop_last() && r == Some(old(s)@.last()),
{
    s.pop()
}

/// Builds the one-character string holding `c`.
fn char_string(c: char) -> (r: String)
    ensures
        r@ == seq![c],
{
    let mut s: String = String::new();
    push_char(&mut s, c);
    proof {
        assert(s@ =~= seq![c]);
    }
    s
}

/// An open prompt: the logical, unbounded input typed so far and the count
/// of free cells left in the visible field (negative once the field
/// overflowed).
pub struct Prompt {
    /// The input typed so far, in full.
    pub buffer: String,
    /// Free cells in the field: the field width less the characters typed.
    pub remaining: i32,
    /// Cells of the visible field.
    pub field_width: i32,
    /// The screen row the field stands on.
    pub row: i32,
    /// The screen column just past the field's right edge.
    pub right: i32,
}

/// The mathematical counterpart of [`Prompt`].
#[verifier::ext_equal]
pub ghost struct PromptV {
    pub buffer: Seq<char>,
    pub remaining: int,
    pub field_width: int,
    pub row: int,
    pub right: int,
}

impl View for Prompt {
    type V = PromptV;

    open spec fn view(&self) -> PromptV {
        PromptV {
            buffer: self.buffer@,
            remaining: self.remaining as int,
            field_width: self.field_width as int,
            row: self.row as int,
            right: self.right as int,
        }
    }
}

/// The field is at least as wide as the truncation mark, ends on the
/// screen, and `remaining` counts its free cells.
pub open spec fn prompt_wf(p: PromptV) -> bool {
    &&& 3 <= p.field_width <= p.right
    &&& 0 <= p.row
    &&& p.remaining == p.field_width - p.buffer.len()
}

/// What an overflowed field shows: the buffer with its first
/// `3 - remaining` characters replaced by the three-dot truncation mark
/// (`remaining <= 0` here, so at least three drop and the result again
/// fills the field exactly).
pub open spec fn overflow_display(buffer: Seq<char>, remaining: int) -> Seq<char> {
    "..."@ + buffer.subrange(3 - remaining, buffer.len() as int)
}

/// One typed character joins the buffer and uses up one cell.
pub open spec fn insert_spec(p: PromptV, c: char) -> PromptV {
    PromptV { buffer: p.buffer.push(c), remaining: p.remaining - 1, ..p }
}

/// The echo of one typed character: while the field has room the character
/// appears in the next free cell; once the field is full the whole field
/// is redrawn as the ellipsis-truncated tail of the buffer and the cursor
/// parks at the field's right edge.
pub open spec fn insert_ops(p: PromptV, c: char) -> Seq<RenderOpV> {
    let q = insert_spec(p, c);
    if q.remaining > 0 {
        seq![
            RenderOpV::MoveCursor { row: p.row, col: p.right - q.remaining },
            RenderOpV::WriteText { text: seq![c] },
            RenderOpV::Refresh,
        ]
    } else {
        seq![
            RenderOpV::MoveCursor { row: p.row, col: p.right - p.field_width },
            RenderOpV::WriteText { text: overflow_display(q.buffer, q.remaining) },
            RenderOpV::MoveCursor { row: p.row, col: p.right },
            RenderOpV::Refresh,
        ]
    }
}

/// Backspace: the last character leaves the buffer and its cell is freed;
/// on an empty buffer nothing changes.
pub open spec fn backspace_spec(p: PromptV) -> PromptV {
    if p.buffer.len() == 0 {
        p
    } else {
        PromptV { buffer: p.buffer.drop_last(), remaining: p.remaining + 1, ..p }
    }
}

/// The echo of a backspace: step back one cell and delete it.
pub open spec fn backspace_ops(p: PromptV) -> Seq<RenderOpV> {
    if p.buffer.len() == 0 {
        Seq::empty()
    } else {
        seq![RenderOpV::CursorBack, RenderOpV::DeleteCharAtCursor, RenderOpV::Refresh]
    }
}

impl Prompt {
    /// Opens an empty prompt over a field of `field_width` cells whose
    /// right edge stands at column `right` of row `row`.
    pub fn new(field_width: i32, row: i32, right: i32) -> (p: Prompt)
        requires
            3 <= field_width <= right,
            0 <= row,
        ensures
            p@ == (PromptV {
                buffer: Seq::empty(),
                remaining: field_width as int,
                field_width: field_width as int,
                row: row as int,
                right: right as int,
            }),
            prompt_wf(p@),
    {
        let p = Prompt { buffer: String::new(), remaining: field_width, field_width, row, right };
        proof {
            assert(p@ =~= PromptV {
                buffer: Seq::empty(),
                remaining: field_width as int,
                field_width: field_width as int,
                row: row as int,
                right: right as int,
            });
        }
        p
    }

    /// Types one character into the prompt, yielding its echo.
    pub fn insert_char(&mut self, c: char) -> (ops: Vec<RenderOp>)
        requires
            prompt_wf(old(self)@),
            old(self).remaining > i32::MIN,
        ensures
            final(self)@ == insert_spec(old(self)@, c),
            prompt_wf(final(self)@),
            ops.deep_view() == insert_ops(old(self)@, c),
    {
        push_char(&mut self.buffer, c);
        self.remaining = self.remaining - 1;
        let mut ops: Vec<RenderOp> = Vec::new();
        if self.remaining > 0 {
            ops.push(RenderOp::MoveCursor { row: self.row, col: self.right - self.remaining });
            ops.push(RenderOp::WriteText { text: char_string(c) });
            ops.push(RenderOp::Refresh);
            proof {
                assert(ops.deep_view() =~= insert_ops(old(self)@, c));
            }
        } else {
            let len: usize = self.buffer.as_str().unicode_len();
            let keep: i64 = 3i64 - (self.remaining as i64);
            let tail: &str = self.buffer.as_str().substring_char(keep as usize, len);
            let display: String = String::from_str("...").concat(tail);
            proof {
                assert(display@ == overflow_display(self.buffer@, self.remaining as int));
            }
            ops.push(RenderOp::MoveCursor { row: self.row, col: self.right - self.field_width });
            ops.push(RenderOp::WriteText { text: display });
            ops.push(RenderOp::MoveCursor { row: self.row, col: self.right });
            ops.push(RenderOp::Refresh);
            proof {
                assert(ops.deep_view() =~= insert_ops(old(self)@, c));
            }
        }
        proof {
            assert(final(self)@ =~= insert_spec(old(self)@, c));
        }
        ops
    }

    /// Removes the last typed character, yielding the echo that erases its
    /// cell; with nothing typed the key does nothing.
    pub fn backspace(&mut self) -> (ops: Vec<RenderOp>)
        requires
            prompt_wf(old(self)@),
        ensures
            final(self)@ == backspace_spec(old(self)@),
            prompt_wf(final(self)@),
            ops.deep_view() == backspace_ops(old(self)@),
    {
        let mut ops: Vec<RenderOp> = Vec::new();
        if !self.buffer.as_str().is_empty() {
            let _last: Option<char> = pop_char(&mut self.buffer);
            self.remaining = self.remaining + 1;
            ops.push(RenderOp::CursorBack);
            ops.push(RenderOp::DeleteCharAtCursor);
            ops.push(RenderOp::Refresh);
            proof {
                assert(final(self)@ =~= backspace_spec(old(self)@));
                assert(ops.deep_view() =~= backspace_ops(old(self)@));
            }
        } else {
            proof {
                assert(ops.deep_view() =~= backspace_ops(old(self)@));
            }
        }
        ops
    }
}

} // verus!
