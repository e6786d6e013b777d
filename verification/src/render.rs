//! Screen instructions: the navigation core never touches the terminal, it
//! returns a sequence of these instructions for the terminal layer to
//! perform in order.

use crate::search::{valid_match, valid_matches, MatchV, SearchMatch};
use vstd::prelude::*;
use vstd::string::*;

verus! {

/// The display attribute a piece of text is written with.
#[derive(Clone, Copy, Debug, PartialEq, Eq, Structural)]
pub enum TextAttr {
    Normal,
    Highlight,
}

/// One screen instruction for the terminal layer to perform.
#[derive(Debug, PartialEq, Eq)]
pub enum RenderOp {
    /// Clear the whole screen.
    Clear,
    /// Move the cursor to `(row, col)`, counted from the top left corner.
    MoveCursor { row: i32, col: i32 },
    /// Write text at the cursor, in the attribute last set.
    WriteText { text: String },
    /// Switch the attribute further text is written with.
    SetAttribute { attr: TextAttr },
    /// Make everything written so far visible.
    Refresh,
    /// Move the cursor back one cell.
    CursorBack,
    /// Delete the character under the cursor.
    DeleteCharAtCursor,
}

/// The mathematical counterpart of [`RenderOp`].
pub ghost enum RenderOpV {
    Clear,
    MoveCursor { row: int, col: int },
    WriteText { text: Seq<char> },
    SetAttribute { attr: TextAttr },
    Refresh,
    CursorBack,
    DeleteCharAtCursor,
}

impl DeepView for RenderOp {
    type V = RenderOpV;

    open spec fn deep_view(&self) -> RenderOpV {
        match self {
            RenderOp::Clear => RenderOpV::Clear,
            RenderOp::MoveCursor { row, col } => RenderOpV::MoveCursor {
                row: *row as int,
                col: *col as int,
            },
            RenderOp::WriteText { text } => RenderOpV::WriteText { text: text@ },
            RenderOp::SetAttribute { attr } => RenderOpV::SetAttribute { attr: *attr },
            RenderOp::Refresh => RenderOpV::Refresh,
            RenderOp::CursorBack => RenderOpV::CursorBack,
            RenderOp::DeleteCharAtCursor => RenderOpV::DeleteCharAtCursor,
        }
    }
}

/// The writes that paint the lines `[i, bottom)` of the window `[top,
/// bottom)` at successive rows, line `top` standing at row 0.
pub open spec fn rows_from(lines: Seq<Seq<char>>, top: int, bottom: int, i: int) -> Seq<RenderOpV>
    decreases bottom - i,
{
    if i < top || i >= bottom {
        Seq::empty()
    } else {
        seq![
            RenderOpV::MoveCursor { row: i - top, col: 0 },
            RenderOpV::WriteText { text: lines[i] },
        ] + rows_from(lines, top, bottom, i + 1)
    }
}

/// A full redraw: clear the screen, paint the lines `[top, bottom)` at rows
/// 0 on, then refresh.
pub open spec fn redraw_ops(lines: Seq<Seq<char>>, top: int, bottom: int) -> Seq<RenderOpV> {
    seq![RenderOpV::Clear] + rows_from(lines, top, bottom, top) + seq![RenderOpV::Refresh]
}

/// Emits a full redraw of the window `[top, bottom)` over `lines`.
pub fn redraw(lines: &Vec<String>, top: i32, bottom: i32) -> (ops: Vec<RenderOp>)
    requires
        0 <= top <= bottom <= lines@.len(),
    ensures
        ops.deep_view() == redraw_ops(lines.deep_view(), top as int, bottom as int),
{
    let ghost docv: Seq<Seq<char>> = lines.deep_view();
    let mut ops: Vec<RenderOp> = Vec::new();
    ops.push(RenderOp::Clear);
    proof {
        assert(ops.deep_view() =~= seq![RenderOpV::Clear]);
    }
    let mut i: i32 = top;
    while i < bottom
        invariant
            0 <= top <= i <= bottom <= lines@.len(),
            docv == lines.deep_view(),
            ops.deep_view() + rows_from(docv, top as int, bottom as int, i as int) == seq![
                RenderOpV::Clear,
            ] + rows_from(docv, top as int, bottom as int, top as int),
        decreases bottom - i,
    {
        let ghost before: Seq<RenderOpV> = ops.deep_view();
        let ghost step: Seq<RenderOpV> = seq![
            RenderOpV::MoveCursor { row: i - top, col: 0 },
            RenderOpV::WriteText { text: docv[i as int] },
        ];
        let line: String = lines[i as usize].clone();
        ops.push(RenderOp::MoveCursor { row: i - top, col: 0 });
        ops.push(RenderOp::WriteText { text: line });
        proof {
            assert(docv[i as int] == lines@[i as int]@);
            assert(ops.deep_view() =~= before + step);
            assert(rows_from(docv, top as int, bottom as int, i as int) == step + rows_from(
                docv,
                top as int,
                bottom as int,
                i as int + 1,
            ));
            assert((before + step) + rows_from(docv, top as int, bottom as int, i as int + 1)
                =~= before + (step + rows_from(docv, top as int, bottom as int, i as int + 1)));
        }
        i += 1;
    }
    let ghost before: Seq<RenderOpV> = ops.deep_view();
    ops.push(RenderOp::Refresh);
    proof {
        assert(rows_from(docv, top as int, bottom as int, bottom as int)
            == Seq::<RenderOpV>::empty());
        assert(before =~= before + rows_from(docv, top as int, bottom as int, bottom as int));
        assert(ops.deep_view() =~= before + seq![RenderOpV::Refresh]);
        assert(ops.deep_view() =~= redraw_ops(docv, top as int, bottom as int));
    }
    ops
}

/// The writes that highlight one match, at the row where its line stands
/// in the window `[top, bottom)`.  Only the hit's own span `[start, end)`
/// is written — the text around it stays in the default attribute, as the
/// preceding repaint left it, and the default attribute is restored
/// afterwards — so when several matches share one visible line, applying
/// one never overwrites another's highlight.  A match on a line outside
/// the window paints nothing.
pub open spec fn match_ops(lines: Seq<Seq<char>>, m: MatchV, top: int, bottom: int) -> Seq<
    RenderOpV,
> {
    if top <= m.line < bottom {
        seq![
            RenderOpV::MoveCursor { row: m.line - top, col: m.start },
            RenderOpV::SetAttribute { attr: TextAttr::Highlight },
            RenderOpV::WriteText { text: lines[m.line].subrange(m.start, m.end) },
            RenderOpV::SetAttribute { attr: TextAttr::Normal },
            RenderOpV::Refresh,
        ]
    } else {
        Seq::empty()
    }
}

/// The writes that repaint the matches `[i, ..)` of the list that fall
/// inside the window `[top, bottom)`, in list order.
pub open spec fn highlight_ops(
    lines: Seq<Seq<char>>,
    results: Seq<MatchV>,
    top: int,
    bottom: int,
    i: int,
) -> Seq<RenderOpV>
    decreases results.len() - i,
{
    if i < 0 || i >= results.len() {
        Seq::empty()
    } else {
        match_ops(lines, results[i], top, bottom) + highlight_ops(lines, results, top, bottom, i + 1)
    }
}

/// Emits the repaint of every match of the list that falls inside the
/// window `[top, bottom)`, its hit span highlighted.
pub fn highlight(lines: &Vec<String>, results: &Vec<SearchMatch>, top: i32, bottom: i32) -> (ops:
    Vec<RenderOp>)
    requires
        valid_matches(lines.deep_view(), results.deep_view()),
        0 <= top,
        0 <= bottom <= lines@.len(),
        forall|i: int|
            0 <= i < lines.deep_view().len() ==> (#[trigger] lines.deep_view()[i]).len()
                <= i32::MAX,
    ensures
        ops.deep_view() == highlight_ops(
            lines.deep_view(),
            results.deep_view(),
            top as int,
            bottom as int,
            0,
        ),
{
    let ghost docv: Seq<Seq<char>> = lines.deep_view();
    let ghost rv: Seq<MatchV> = results.deep_view();
    let mut ops: Vec<RenderOp> = Vec::new();
    let n: usize = results.len();
    let mut k: usize = 0;
    proof {
        assert(ops.deep_view() + highlight_ops(docv, rv, top as int, bottom as int, 0)
            =~= highlight_ops(docv, rv, top as int, bottom as int, 0));
    }
    while k < n
        invariant
            valid_matches(docv, rv),
            docv == lines.deep_view(),
            rv == results.deep_view(),
            0 <= top,
            0 <= bottom <= lines@.len(),
            forall|i: int| 0 <= i < docv.len() ==> (#[trigger] docv[i]).len() <= i32::MAX,
            n == results.len(),
            k <= n,
            ops.deep_view() + highlight_ops(docv, rv, top as int, bottom as int, k as int)
                == highlight_ops(docv, rv, top as int, bottom as int, 0),
        decreases n - k,
    {
        let ghost before: Seq<RenderOpV> = ops.deep_view();
        let m: SearchMatch = results[k];
        proof {
            assert(m.deep_view() == rv[k as int]);
            assert(valid_match(docv, rv[k as int]));
        }
        let visible: bool = m.line >= top as usize && m.line < bottom as usize;
        if visible {
            let line: &String = &lines[m.line];
            proof {
                assert(docv[m.line as int] == lines@[m.line as int]@);
            }
            let hit: String = String::from_str(line.as_str().substring_char(m.start, m.end));
            let row: i32 = (m.line - top as usize) as i32;
            let col: i32 = m.start as i32;
            ops.push(RenderOp::MoveCursor { row, col });
            ops.push(RenderOp::SetAttribute { attr: TextAttr::Highlight });
            ops.push(RenderOp::WriteText { text: hit });
            ops.push(RenderOp::SetAttribute { attr: TextAttr::Normal });
            ops.push(RenderOp::Refresh);
            proof {
                assert(ops.deep_view() =~= before + match_ops(
                    docv,
                    rv[k as int],
                    top as int,
                    bottom as int,
                ));
            }
        } else {
            proof {
                assert(match_ops(docv, rv[k as int], top as int, bottom as int)
                    == Seq::<RenderOpV>::empty());
                assert(ops.deep_view() =~= before + match_ops(
                    docv,
                    rv[k as int],
                    top as int,
                    bottom as int,
                ));
            }
        }
        proof {
            assert(highlight_ops(docv, rv, top as int, bottom as int, k as int) == match_ops(
                docv,
                rv[k as int],
                top as int,
                bottom as int,
            ) + highlight_ops(docv, rv, top as int, bottom as int, k as int + 1));
            assert((before + match_ops(docv, rv[k as int], top as int, bottom as int))
                + highlight_ops(docv, rv, top as int, bottom as int, k as int + 1) =~= before
                + (match_ops(docv, rv[k as int], top as int, bottom as int) + highlight_ops(
                    docv,
                    rv,
                    top as int,
                    bottom as int,
                    k as int + 1,
                )));
        }
        k += 1;
    }
    proof {
        assert(highlight_ops(docv, rv, top as int, bottom as int, n as int)
            == Seq::<RenderOpV>::empty());
        assert(ops.deep_view() =~= ops.deep_view() + highlight_ops(
            docv,
            rv,
            top as int,
            bottom as int,
            n as int,
        ));
    }
    ops
}

} // verus!
