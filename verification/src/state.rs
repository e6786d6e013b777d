//! The navigation state machine: the one mutable aggregate — document,
//! viewport and search session — that every user command transforms.  Each
//! command takes the state by value and returns the new state together
//! with the screen instructions to perform.

use crate::document::{outcome_doc, outcome_lines, LoadOutcome};
use crate::help::{help_text, help_text_v};
use crate::prompt::{
    backspace_ops, backspace_spec, insert_ops, insert_spec, prompt_wf, Prompt, PromptV,
};
use crate::render::{highlight, highlight_ops, redraw, redraw_ops, RenderOp, RenderOpV};
use crate::search::{
    doc_scan, lemma_scan_ordered, reversed, scan, valid_match, valid_matches, MatchV, SearchMatch,
};
use vstd::math::{max, min};
use vstd::prelude::*;
use vstd::string::*;

verus! {

/// What the open prompt will do when its input is submitted.
#[derive(Clone, Copy, Debug, PartialEq, Eq)]
pub enum PromptKind {
    /// Load the file the typed path names.
    OpenFile,
    /// Search the document for the typed pattern; with `reverse` set the
    /// matches are visited backwards.
    Search { reverse: bool },
}

/// Whether the pager is browsing or capturing prompt input.
pub enum Mode {
    /// Normal browsing.
    Viewing,
    /// Capturing a line of input for `kind`.
    Prompting { kind: PromptKind, prompt: Prompt },
}

/// The mathematical counterpart of [`Mode`].
#[verifier::ext_equal]
pub ghost enum ModeV {
    Viewing,
    Prompting { kind: PromptKind, prompt: PromptV },
}

impl View for Mode {
    type V = ModeV;

    open spec fn view(&self) -> ModeV {
        match self {
            Mode::Viewing => ModeV::Viewing,
            Mode::Prompting { kind, prompt } => ModeV::Prompting { kind: *kind, prompt: prompt@ },
        }
    }
}

/// One key event, as the terminal layer reports it.
#[derive(Clone, Copy, Debug, PartialEq, Eq)]
pub enum KeyEvent {
    /// A typed character, control characters included.
    Char(char),
    /// The named backspace key; some terminals report it instead as one
    /// of the raw codes `'\u{7f}'` or `'\u{8f}'`, and all three forms are
    /// treated identically.
    Backspace,
    /// The up arrow.
    Up,
    /// The down arrow.
    Down,
    /// Page up.
    PageUp,
    /// Page down.
    PageDown,
    /// Any other key.
    Other,
}

/// What the caller must do after a key was handled.
#[derive(Debug, PartialEq, Eq)]
pub enum Effect {
    /// Nothing: read the next key.
    Continue,
    /// Quit the pager.
    Quit,
    /// Load the file at `path` and hand the outcome to `open_file`.
    LoadFile { path: String },
}

/// The mathematical counterpart of [`Effect`].
#[verifier::ext_equal]
pub ghost enum EffectV {
    Continue,
    Quit,
    LoadFile { path: Seq<char> },
}

impl DeepView for Effect {
    type V = EffectV;

    open spec fn deep_view(&self) -> EffectV {
        match self {
            Effect::Continue => EffectV::Continue,
            Effect::Quit => EffectV::Quit,
            Effect::LoadFile { path } => EffectV::LoadFile { path: path@ },
        }
    }
}

/// The whole pager state: the current document, the window over it, the
/// active search session's rotated match list, and the mode.
pub struct WindowState {
    /// The lines of the current document.
    pub lines: Vec<String>,
    /// Rows of the content window.
    pub screen_height: i32,
    /// Columns of the screen.
    pub screen_width: i32,
    /// Index of the first visible line.
    pub content_top: i32,
    /// One past the last visible line, always
    /// `min(content_top + screen_height, content_len)`.
    pub content_bottom: i32,
    /// Number of lines of the current document.
    pub content_len: i32,
    /// The active search session's matches, rotated so that the head is
    /// the next match to visit.
    pub search_results: Vec<SearchMatch>,
    /// Browsing or prompting.
    pub mode: Mode,
}

/// The mathematical counterpart of [`WindowState`].
#[verifier::ext_equal]
pub ghost struct StateV {
    pub lines: Seq<Seq<char>>,
    pub height: int,
    pub width: int,
    pub top: int,
    pub bottom: int,
    pub len: int,
    pub results: Seq<MatchV>,
    pub mode: ModeV,
}

impl View for WindowState {
    type V = StateV;

    open spec fn view(&self) -> StateV {
        StateV {
            lines: self.lines.deep_view(),
            height: self.screen_height as int,
            width: self.screen_width as int,
            top: self.content_top as int,
            bottom: self.content_bottom as int,
            len: self.content_len as int,
            results: self.search_results.deep_view(),
            mode: self.mode@,
        }
    }
}

/// An open prompt is anchored to the row below the content window and to
/// the screen's right edge, and its field is as wide as the screen allows,
/// up to twenty cells.
pub open spec fn mode_wf(s: StateV) -> bool {
    match s.mode {
        ModeV::Viewing => true,
        ModeV::Prompting { kind, prompt } => {
            &&& prompt_wf(prompt)
            &&& prompt.field_width == min(20, s.width)
            &&& prompt.row == s.height
            &&& prompt.right == s.width
        },
    }
}

/// The state is internally consistent: the window lies inside the current
/// document with its bottom derived from its top, the geometry is sane,
/// line count and line lengths are representable as screen coordinates,
/// and every stored match lies inside the current document.
pub open spec fn state_wf(s: StateV) -> bool {
    &&& s.len == s.lines.len()
    &&& 0 <= s.top <= s.len
    &&& s.bottom == min(s.top + s.height, s.len)
    &&& 1 <= s.height <= i32::MAX
    &&& 3 <= s.width <= i32::MAX
    &&& s.len <= i32::MAX
    &&& forall|i: int| 0 <= i < s.lines.len() ==> (#[trigger] s.lines[i]).len() <= i32::MAX
    &&& valid_matches(s.lines, s.results)
    &&& mode_wf(s)
}

/// Jumping to `n` scrolls the window there when `n` lies inside the
/// document (its very end included) and changes nothing otherwise — the
/// designed clamp.
pub open spec fn jump_spec(s: StateV, n: int) -> StateV {
    if 0 <= n <= s.len {
        StateV { top: n, bottom: min(n + s.height, s.len), ..s }
    } else {
        s
    }
}

/// A jump inside the document repaints the window in full; a clamped jump
/// paints nothing.
pub open spec fn jump_ops(s: StateV, n: int) -> Seq<RenderOpV> {
    if 0 <= n <= s.len {
        redraw_ops(s.lines, n, min(n + s.height, s.len))
    } else {
        Seq::empty()
    }
}

/// A new document replaces the old wholesale: the window resets to the
/// top, the search session is discarded, and the pager is back to
/// browsing.
pub open spec fn install_spec(s: StateV, doc: Seq<Seq<char>>) -> StateV {
    StateV {
        lines: doc,
        top: 0,
        bottom: min(s.height, doc.len() as int),
        len: doc.len() as int,
        results: Seq::empty(),
        mode: ModeV::Viewing,
        ..s
    }
}

/// Installing a document repaints the window in full.
pub open spec fn install_ops(s: StateV, doc: Seq<Seq<char>>) -> Seq<RenderOpV> {
    redraw_ops(doc, 0, min(s.height, doc.len() as int))
}

/// The match list rotated left by one: the head moves to the tail.
pub open spec fn rot_left(r: Seq<MatchV>) -> Seq<MatchV> {
    if r.len() == 0 {
        r
    } else {
        r.subrange(1, r.len() as int) + r.subrange(0, 1)
    }
}

/// The match list rotated right by one: the tail moves to the head.
pub open spec fn rot_right(r: Seq<MatchV>) -> Seq<MatchV> {
    if r.len() == 0 {
        r
    } else {
        r.subrange(r.len() - 1, r.len() as int) + r.subrange(0, r.len() - 1)
    }
}

/// Visiting the next match: jump to the head match's line, move that
/// match to the tail, and repaint the matches now in view; with no session
/// nothing happens.
pub open spec fn next_result_spec(s: StateV) -> StateV {
    if s.results.len() == 0 {
        s
    } else {
        StateV { results: rot_left(s.results), ..jump_spec(s, s.results[0].line) }
    }
}

/// The screen work of visiting the next match: the jump's full repaint,
/// then the highlights against the new window.
pub open spec fn next_result_ops(s: StateV) -> Seq<RenderOpV> {
    if s.results.len() == 0 {
        Seq::empty()
    } else {
        let t = next_result_spec(s);
        jump_ops(s, s.results[0].line) + highlight_ops(t.lines, t.results, t.top, t.bottom, 0)
    }
}

/// Visiting the previous match: with more than one match, jump to the
/// line of the next-to-tail match — the one visited before the current
/// head — move the tail match back to the head, and repaint the matches
/// now in view.  A session of one match or none cannot go back.
pub open spec fn last_result_spec(s: StateV) -> StateV {
    if s.results.len() <= 1 {
        s
    } else {
        StateV { results: rot_right(s.results), ..jump_spec(s, s.results[s.results.len() - 2].line) }
    }
}

/// The screen work of visiting the previous match.
pub open spec fn last_result_ops(s: StateV) -> Seq<RenderOpV> {
    if s.results.len() <= 1 {
        Seq::empty()
    } else {
        let t = last_result_spec(s);
        jump_ops(s, s.results[s.results.len() - 2].line) + highlight_ops(
            t.lines,
            t.results,
            t.top,
            t.bottom,
            0,
        )
    }
}

/// Submitting a search: the document is scanned for the pattern, the match
/// list — reversed end to end for a backward search — replaces any prior
/// session, and the first match is visited at once.
pub open spec fn search_spec(s: StateV, pat: Seq<char>, reverse: bool) -> StateV {
    next_result_spec(StateV { results: search_results_spec(s, pat, reverse), ..s })
}

/// The match list a search stores: the scan's output, reversed end to end
/// for a backward search.
pub open spec fn search_results_spec(s: StateV, pat: Seq<char>, reverse: bool) -> Seq<MatchV> {
    if reverse {
        doc_scan(s.lines, pat).reverse()
    } else {
        doc_scan(s.lines, pat)
    }
}

/// The screen work of submitting a search.
pub open spec fn search_ops(s: StateV, pat: Seq<char>, reverse: bool) -> Seq<RenderOpV> {
    next_result_ops(StateV { results: search_results_spec(s, pat, reverse), ..s })
}

/// Entering a prompt: the cursor moves to the input field at the bottom
/// right and the pager starts capturing a line of input for `kind`.
pub open spec fn enter_prompt_spec(s: StateV, kind: PromptKind) -> StateV {
    StateV {
        mode: ModeV::Prompting {
            kind,
            prompt: PromptV {
                buffer: Seq::empty(),
                remaining: min(20, s.width),
                field_width: min(20, s.width),
                row: s.height,
                right: s.width,
            },
        },
        ..s
    }
}

/// The screen work of entering a prompt: the cursor moves to the field's
/// left edge.
pub open spec fn enter_prompt_ops(s: StateV) -> Seq<RenderOpV> {
    seq![
        RenderOpV::MoveCursor { row: s.height, col: s.width - min(20, s.width) },
        RenderOpV::Refresh,
    ]
}

/// The command table of the browsing mode: `q` quits, `g` jumps to the
/// top, `h` opens the help screen, `j`/Down and `k`/Up move one line,
/// `d`/PageDown and `u`/PageUp move half a screen, `o` opens the file
/// prompt, `/` and `?` open the forward and backward search prompts, `n`
/// and `N` visit the next and previous match, and any other key does
/// nothing.
pub open spec fn viewing_step_spec(s: StateV, key: KeyEvent) -> (StateV, Seq<RenderOpV>, EffectV) {
    match key {
        KeyEvent::Char(c) => {
            if c == 'q' {
                (s, Seq::empty(), EffectV::Quit)
            } else if c == 'g' {
                (jump_spec(s, 0), jump_ops(s, 0), EffectV::Continue)
            } else if c == 'h' {
                (
                    install_spec(s, seq![help_text_v()]),
                    install_ops(s, seq![help_text_v()]),
                    EffectV::Continue,
                )
            } else if c == 'j' {
                (jump_spec(s, s.top + 1), jump_ops(s, s.top + 1), EffectV::Continue)
            } else if c == 'k' {
                (jump_spec(s, s.top - 1), jump_ops(s, s.top - 1), EffectV::Continue)
            } else if c == 'd' {
                (
                    jump_spec(s, min(s.top + s.height / 2, s.len)),
                    jump_ops(s, min(s.top + s.height / 2, s.len)),
                    EffectV::Continue,
                )
            } else if c == 'u' {
                (
                    jump_spec(s, max(0, s.top - s.height / 2)),
                    jump_ops(s, max(0, s.top - s.height / 2)),
                    EffectV::Continue,
                )
            } else if c == 'o' {
                (enter_prompt_spec(s, PromptKind::OpenFile), enter_prompt_ops(s), EffectV::Continue)
            } else if c == '/' {
                (
                    enter_prompt_spec(s, PromptKind::Search { reverse: false }),
                    enter_prompt_ops(s),
                    EffectV::Continue,
                )
            } else if c == '?' {
                (
                    enter_prompt_spec(s, PromptKind::Search { reverse: true }),
                    enter_prompt_ops(s),
                    EffectV::Continue,
                )
            } else if c == 'n' {
                (next_result_spec(s), next_result_ops(s), EffectV::Continue)
            } else if c == 'N' {
                (last_result_spec(s), last_result_ops(s), EffectV::Continue)
            } else {
                (s, Seq::empty(), EffectV::Continue)
            }
        },
        KeyEvent::Backspace => (s, Seq::empty(), EffectV::Continue),
        KeyEvent::Down => (jump_spec(s, s.top + 1), jump_ops(s, s.top + 1), EffectV::Continue),
        KeyEvent::Up => (jump_spec(s, s.top - 1), jump_ops(s, s.top - 1), EffectV::Continue),
        KeyEvent::PageDown => (
            jump_spec(s, min(s.top + s.height / 2, s.len)),
            jump_ops(s, min(s.top + s.height / 2, s.len)),
            EffectV::Continue,
        ),
        KeyEvent::PageUp => (
            jump_spec(s, max(0, s.top - s.height / 2)),
            jump_ops(s, max(0, s.top - s.height / 2)),
            EffectV::Continue,
        ),
        KeyEvent::Other => (s, Seq::empty(), EffectV::Continue),
    }
}

/// Erasing one character while prompting: the same step whether the key
/// arrived as the named backspace or as one of the raw delete codes.
pub open spec fn prompt_erase_spec(s: StateV, kind: PromptKind, p: PromptV) -> (
    StateV,
    Seq<RenderOpV>,
    EffectV,
) {
    (
        StateV { mode: ModeV::Prompting { kind, prompt: backspace_spec(p) }, ..s },
        backspace_ops(p),
        EffectV::Continue,
    )
}

/// The command table while prompting: newline submits — an open-file
/// prompt asks the caller to load the typed path, a search prompt runs
/// the search at once — a backspace (named key and raw delete codes
/// alike) erases one character, any other typed character lands in the
/// field (unless the free-cell counter would underflow the machine
/// integer), and any other key is ignored without leaving the prompt.
pub open spec fn prompt_step_spec(s: StateV, kind: PromptKind, p: PromptV, key: KeyEvent) -> (
    StateV,
    Seq<RenderOpV>,
    EffectV,
) {
    match key {
        KeyEvent::Char(c) => {
            if c == '\n' {
                let v = StateV { mode: ModeV::Viewing, ..s };
                match kind {
                    PromptKind::OpenFile => (v, Seq::empty(), EffectV::LoadFile { path: p.buffer }),
                    PromptKind::Search { reverse } => (
                        search_spec(v, p.buffer, reverse),
                        search_ops(v, p.buffer, reverse),
                        EffectV::Continue,
                    ),
                }
            } else if c == '\u{7f}' || c == '\u{8f}' {
                prompt_erase_spec(s, kind, p)
            } else if p.remaining == i32::MIN as int {
                (s, Seq::empty(), EffectV::Continue)
            } else {
                (
                    StateV { mode: ModeV::Prompting { kind, prompt: insert_spec(p, c) }, ..s },
                    insert_ops(p, c),
                    EffectV::Continue,
                )
            }
        },
        KeyEvent::Backspace => prompt_erase_spec(s, kind, p),
        _ => (s, Seq::empty(), EffectV::Continue),
    }
}

/// One step of the state machine: what one key event makes of the state,
/// what screen work it causes, and what the caller must do next.
pub open spec fn step_spec(s: StateV, key: KeyEvent) -> (StateV, Seq<RenderOpV>, EffectV) {
    match s.mode {
        ModeV::Viewing => viewing_step_spec(s, key),
        ModeV::Prompting { kind, prompt } => prompt_step_spec(s, kind, prompt, key),
    }
}

/// The match list rotated left `n` times.
pub open spec fn rot_left_n(r: Seq<MatchV>, n: nat) -> Seq<MatchV>
    decreases n,
{
    if n == 0 {
        r
    } else {
        rot_left(rot_left_n(r, (n - 1) as nat))
    }
}

/// The state after visiting the next match `n` times in a row.
pub open spec fn next_result_iter(s: StateV, n: nat) -> StateV
    decreases n,
{
    if n == 0 {
        s
    } else {
        next_result_spec(next_result_iter(s, (n - 1) as nat))
    }
}

/// Each visit of the next match rotates the match list left once, however
/// it moves the window.
proof fn lemma_next_iter_results(s: StateV, n: nat)
    ensures
        next_result_iter(s, n).results == rot_left_n(s.results, n),
    decreases n,
{
    if n > 0 {
        lemma_next_iter_results(s, (n - 1) as nat);
    }
}

/// Rotating left `n` times moves the first `n` matches, in order, to the
/// tail.
proof fn lemma_rot_left_n_subrange(r: Seq<MatchV>, n: int)
    requires
        0 <= n <= r.len(),
    ensures
        rot_left_n(r, n as nat) == r.subrange(n, r.len() as int) + r.subrange(0, n),
    decreases n,
{
    if n == 0 {
        assert(rot_left_n(r, 0) =~= r.subrange(0, r.len() as int) + r.subrange(0, 0));
    } else {
        lemma_rot_left_n_subrange(r, n - 1);
        let prev = r.subrange(n - 1, r.len() as int) + r.subrange(0, n - 1);
        assert(rot_left_n(r, n as nat) == rot_left(prev));
        assert(rot_left(prev) =~= r.subrange(n, r.len() as int) + r.subrange(0, n));
    }
}

/// A backward search stores exactly the reverse of the match list a
/// forward search over the same document and pattern stores.
pub proof fn lemma_reverse_search_reverses(s: StateV, pat: Seq<char>)
    ensures
        search_results_spec(s, pat, true) == search_results_spec(s, pat, false).reverse(),
{
}

/// Visiting the next match as many times as there are matches brings the
/// match list back to its original rotation, whatever the starting state.
pub proof fn lemma_next_result_cycles(s: StateV)
    ensures
        next_result_iter(s, s.results.len()).results == s.results,
{
    lemma_next_iter_results(s, s.results.len());
    lemma_rot_left_n_subrange(s.results, s.results.len() as int);
    assert(s.results.subrange(s.results.len() as int, s.results.len() as int) + s.results.subrange(
        0,
        s.results.len() as int,
    ) =~= s.results);
}

/// Visiting the next match and the previous one immediately after leaves
/// the whole state — the window top included — exactly as it was,
/// provided the session holds more than one match and the window stands
/// on the line of the most recently visited match, as it does right after
/// any next-match jump.
pub proof fn lemma_next_then_last_restores(s: StateV)
    requires
        state_wf(s),
        s.results.len() > 1,
        s.top == s.results[s.results.len() - 1].line,
    ensures
        last_result_spec(next_result_spec(s)) == s,
{
    let n = s.results.len() as int;
    let t = next_result_spec(s);
    assert(valid_match(s.lines, s.results[0]));
    assert(valid_match(s.lines, s.results[n - 1]));
    assert(t.results == rot_left(s.results));
    assert(t.results[n - 2] == s.results[n - 1]);
    let u = last_result_spec(t);
    assert(u.results =~= s.results);
    assert(u =~= s);
}

/// Rotating the match list left keeps every match inside the document.
proof fn lemma_rot_left_valid(doc: Seq<Seq<char>>, r: Seq<MatchV>)
    requires
        valid_matches(doc, r),
    ensures
        valid_matches(doc, rot_left(r)),
{
    assert forall|i: int| 0 <= i < rot_left(r).len() implies valid_match(
        doc,
        #[trigger] rot_left(r)[i],
    ) by {
        if i < r.len() - 1 {
            assert(rot_left(r)[i] == r[i + 1]);
        } else {
            assert(rot_left(r)[i] == r[0]);
        }
    }
}

/// Rotating the match list right keeps every match inside the document.
proof fn lemma_rot_right_valid(doc: Seq<Seq<char>>, r: Seq<MatchV>)
    requires
        valid_matches(doc, r),
    ensures
        valid_matches(doc, rot_right(r)),
{
    assert forall|i: int| 0 <= i < rot_right(r).len() implies valid_match(
        doc,
        #[trigger] rot_right(r)[i],
    ) by {
        if i == 0 {
            assert(rot_right(r)[i] == r[r.len() - 1]);
        } else {
            assert(rot_right(r)[i] == r[i - 1]);
        }
    }
}

/// Reversing the match list keeps every match inside the document.
proof fn lemma_reverse_valid(doc: Seq<Seq<char>>, r: Seq<MatchV>)
    requires
        valid_matches(doc, r),
    ensures
        valid_matches(doc, r.reverse()),
{
    assert forall|i: int| 0 <= i < r.reverse().len() implies valid_match(
        doc,
        #[trigger] r.reverse()[i],
    ) by {
        assert(r.reverse()[i] == r[r.len() - 1 - i]);
    }
}

/// Returns the smaller of two screen quantities.
fn imin(a: i32, b: i32) -> (r: i32)
    ensures
        r as int == min(a as int, b as int),
{
    if a < b {
        a
    } else {
        b
    }
}

impl WindowState {
    /// Opens the pager on a document, the window of `screen_height` rows
    /// and `screen_width` columns resting at the top.
    pub fn new(lines: Vec<String>, screen_height: i32, screen_width: i32) -> (s: WindowState)
        requires
            1 <= screen_height,
            3 <= screen_width,
            lines@.len() <= i32::MAX,
            forall|i: int|
                0 <= i < lines.deep_view().len() ==> (#[trigger] lines.deep_view()[i]).len()
                    <= i32::MAX,
        ensures
            s@ == (StateV {
                lines: lines.deep_view(),
                height: screen_height as int,
                width: screen_width as int,
                top: 0,
                bottom: min(screen_height as int, lines@.len() as int),
                len: lines@.len() as int,
                results: Seq::empty(),
                mode: ModeV::Viewing,
            }),
            state_wf(s@),
    {
        let content_len: i32 = lines.len() as i32;
        let content_bottom: i32 = imin(screen_height, content_len);
        let s = WindowState {
            lines,
            screen_height,
            screen_width,
            content_top: 0,
            content_bottom,
            content_len,
            search_results: Vec::new(),
            mode: Mode::Viewing,
        };
        proof {
            assert(s@ =~= StateV {
                lines: s.lines.deep_view(),
                height: screen_height as int,
                width: screen_width as int,
                top: 0,
                bottom: min(screen_height as int, s.lines@.len() as int),
                len: s.lines@.len() as int,
                results: Seq::empty(),
                mode: ModeV::Viewing,
            });
        }
        s
    }

    /// Jumps the window so that line `n` stands at the top, repainting in
    /// full; an `n` outside `[0, content_len]` changes nothing — the
    /// designed clamp, not an error.
    pub fn jump_to_line(self, n: &i32) -> (r: (WindowState, Vec<RenderOp>))
        requires
            state_wf(self@),
        ensures
            r.0@ == jump_spec(self@, *n as int),
            r.1.deep_view() == jump_ops(self@, *n as int),
            state_wf(r.0@),
    {
        if *n >= 0 && *n <= self.content_len {
            let sum: i64 = *n as i64 + self.screen_height as i64;
            let bottom64: i64 = if sum < self.content_len as i64 {
                sum
            } else {
                self.content_len as i64
            };
            let new_bottom: i32 = bottom64 as i32;
            let ops: Vec<RenderOp> = redraw(&self.lines, *n, new_bottom);
            let s = WindowState { content_top: *n, content_bottom: new_bottom, ..self };
            proof {
                assert(s@ =~= jump_spec(self@, *n as int));
            }
            (s, ops)
        } else {
            let ops: Vec<RenderOp> = Vec::new();
            proof {
                assert(ops.deep_view() =~= jump_ops(self@, *n as int));
            }
            (self, ops)
        }
    }

    /// Installs a freshly loaded document: the window resets to the top,
    /// the search session is discarded, and the window repaints in full.
    fn install_document(self, lines: Vec<String>) -> (r: (WindowState, Vec<RenderOp>))
        requires
            state_wf(self@),
            lines@.len() <= i32::MAX,
            forall|i: int|
                0 <= i < lines.deep_view().len() ==> (#[trigger] lines.deep_view()[i]).len()
                    <= i32::MAX,
        ensures
            r.0@ == install_spec(self@, lines.deep_view()),
            r.1.deep_view() == install_ops(self@, lines.deep_view()),
            state_wf(r.0@),
    {
        let content_len: i32 = lines.len() as i32;
        let content_bottom: i32 = imin(self.screen_height, content_len);
        let ops: Vec<RenderOp> = redraw(&lines, 0, content_bottom);
        let s = WindowState {
            lines,
            screen_height: self.screen_height,
            screen_width: self.screen_width,
            content_top: 0,
            content_bottom,
            content_len,
            search_results: Vec::new(),
            mode: Mode::Viewing,
        };
        proof {
            assert(s@ =~= install_spec(self@, s.lines.deep_view()));
        }
        (s, ops)
    }

    /// Replaces the document with the help text — one logical line holding
    /// the whole help block — resetting the window to the top.
    pub fn help_menu(self) -> (r: (WindowState, Vec<RenderOp>))
        requires
            state_wf(self@),
        ensures
            r.0@ == install_spec(self@, seq![help_text_v()]),
            r.1.deep_view() == install_ops(self@, seq![help_text_v()]),
            state_wf(r.0@),
    {
        let mut lines: Vec<String> = Vec::new();
        lines.push(help_text());
        proof {
            assert(lines.deep_view() =~= seq![help_text_v()]);
            crate::help::lemma_help_text_len();
        }
        self.install_document(lines)
    }

    /// Installs what an open-file attempt came back with: the file's own
    /// lines, or the one-line error document naming the path.  The window
    /// resets to the top either way.
    pub fn open_file(self, outcome: LoadOutcome) -> (r: (WindowState, Vec<RenderOp>))
        requires
            state_wf(self@),
            outcome_doc(outcome).len() <= i32::MAX,
            forall|i: int|
                0 <= i < outcome_doc(outcome).len() ==> (#[trigger] outcome_doc(outcome)[i]).len()
                    <= i32::MAX,
        ensures
            r.0@ == install_spec(self@, outcome_doc(outcome)),
            r.1.deep_view() == install_ops(self@, outcome_doc(outcome)),
            state_wf(r.0@),
    {
        let lines: Vec<String> = outcome_lines(outcome);
        self.install_document(lines)
    }

    /// Jumps to the line of the next search result, rotating the match
    /// list forward so the visited match moves to the tail, and
    /// highlights the matches now in view; with no session nothing
    /// happens.
    pub fn jump_to_next_search_result(self) -> (r: (WindowState, Vec<RenderOp>))
        requires
            state_wf(self@),
        ensures
            r.0@ == next_result_spec(self@),
            r.1.deep_view() == next_result_ops(self@),
            state_wf(r.0@),
    {
        if self.search_results.len() == 0 {
            let ops: Vec<RenderOp> = Vec::new();
            proof {
                assert(ops.deep_view() =~= next_result_ops(self@));
            }
            return (self, ops);
        }
        let ghost s0: StateV = self@;
        proof {
            assert(valid_match(s0.lines, s0.results[0]));
        }
        let jump_line: i32 = self.search_results[0].line as i32;
        let (mut s, mut ops) = self.jump_to_line(&jump_line);
        let head: SearchMatch = s.search_results.remove(0);
        s.search_results.push(head);
        proof {
            assert(s.search_results.deep_view() =~= rot_left(s0.results));
            assert(s@ =~= next_result_spec(s0));
            lemma_rot_left_valid(s0.lines, s0.results);
        }
        let mut hl: Vec<RenderOp> = highlight(
            &s.lines,
            &s.search_results,
            s.content_top,
            s.content_bottom,
        );
        ops.append(&mut hl);
        proof {
            assert(ops.deep_view() =~= next_result_ops(s0));
        }
        (s, ops)
    }

    /// Jumps to the line of the previously visited search result — the
    /// next-to-tail match — rotating the match list backward, and
    /// highlights the matches now in view.  A session of one match or
    /// none cannot go back, so nothing happens then.
    pub fn jump_to_last_search_result(self) -> (r: (WindowState, Vec<RenderOp>))
        requires
            state_wf(self@),
        ensures
            r.0@ == last_result_spec(self@),
            r.1.deep_view() == last_result_ops(self@),
            state_wf(r.0@),
    {
        if self.search_results.len() <= 1 {
            let ops: Vec<RenderOp> = Vec::new();
            proof {
                assert(ops.deep_view() =~= last_result_ops(self@));
            }
            return (self, ops);
        }
        let ghost s0: StateV = self@;
        let idx: usize = self.search_results.len() - 2;
        proof {
            assert(valid_match(s0.lines, s0.results[idx as int]));
        }
        let jump_line: i32 = self.search_results[idx].line as i32;
        let (mut s, mut ops) = self.jump_to_line(&jump_line);
        let tail_match: SearchMatch = match s.search_results.pop() {
            Some(m) => m,
            None => {
                proof {
                    assert(false);
                }
                SearchMatch { line: 0, start: 0, end: 0 }
            },
        };
        s.search_results.insert(0, tail_match);
        proof {
            assert(s.search_results.deep_view() =~= rot_right(s0.results));
            assert(s@ =~= last_result_spec(s0));
            lemma_rot_right_valid(s0.lines, s0.results);
        }
        let mut hl: Vec<RenderOp> = highlight(
            &s.lines,
            &s.search_results,
            s.content_top,
            s.content_bottom,
        );
        ops.append(&mut hl);
        proof {
            assert(ops.deep_view() =~= last_result_ops(s0));
        }
        (s, ops)
    }

    /// Emits the highlight repaint of every stored match that falls
    /// inside the current window, changing nothing.
    pub fn highlight_search_results(&self) -> (ops: Vec<RenderOp>)
        requires
            state_wf(self@),
        ensures
            ops.deep_view() == highlight_ops(
                self@.lines,
                self@.results,
                self@.top,
                self@.bottom,
                0,
            ),
    {
        highlight(&self.lines, &self.search_results, self.content_top, self.content_bottom)
    }

    /// Scans the current document for the pattern and stores the match
    /// list — reversed end to end for a backward search — as the new
    /// session, superseding any prior one, then jumps straight to the
    /// first match.
    pub fn search(self, pattern: &String, reverse: bool) -> (r: (WindowState, Vec<RenderOp>))
        requires
            state_wf(self@),
        ensures
            r.0@ == search_spec(self@, pattern@, reverse),
            r.1.deep_view() == search_ops(self@, pattern@, reverse),
            state_wf(r.0@),
    {
        let ghost s0: StateV = self@;
        let found: Vec<SearchMatch> = scan(&self.lines, pattern);
        let results: Vec<SearchMatch> = if reverse {
            reversed(&found)
        } else {
            found
        };
        proof {
            lemma_scan_ordered(s0.lines, pattern@);
            if reverse {
                lemma_reverse_valid(s0.lines, doc_scan(s0.lines, pattern@));
            }
        }
        let mut s = self;
        s.search_results = results;
        proof {
            assert(s@ =~= StateV { results: search_results_spec(s0, pattern@, reverse), ..s0 });
            assert(state_wf(s@));
        }
        s.jump_to_next_search_result()
    }

    /// Scrolls one line down, clamped at the document's end.
    fn step_line_down(self) -> (r: (WindowState, Vec<RenderOp>))
        requires
            state_wf(self@),
        ensures
            r.0@ == jump_spec(self@, self@.top + 1),
            r.1.deep_view() == jump_ops(self@, self@.top + 1),
            state_wf(r.0@),
    {
        if self.content_top == i32::MAX {
            let ops: Vec<RenderOp> = Vec::new();
            proof {
                assert(ops.deep_view() =~= jump_ops(self@, self@.top + 1));
            }
            (self, ops)
        } else {
            let target: i32 = self.content_top + 1;
            self.jump_to_line(&target)
        }
    }

    /// Scrolls one line up, clamped at the document's start.
    fn step_line_up(self) -> (r: (WindowState, Vec<RenderOp>))
        requires
            state_wf(self@),
        ensures
            r.0@ == jump_spec(self@, self@.top - 1),
            r.1.deep_view() == jump_ops(self@, self@.top - 1),
            state_wf(r.0@),
    {
        let target: i32 = self.content_top - 1;
        self.jump_to_line(&target)
    }

    /// Scrolls half a screen down, clamped at the document's end.
    fn step_half_down(self) -> (r: (WindowState, Vec<RenderOp>))
        requires
            state_wf(self@),
        ensures
            r.0@ == jump_spec(self@, min(self@.top + self@.height / 2, self@.len)),
            r.1.deep_view() == jump_ops(self@, min(self@.top + self@.height / 2, self@.len)),
            state_wf(r.0@),
    {
        let half: i32 = self.screen_height / 2;
        let sum: i64 = self.content_top as i64 + half as i64;
        let target64: i64 = if sum < self.content_len as i64 {
            sum
        } else {
            self.content_len as i64
        };
        let target: i32 = target64 as i32;
        self.jump_to_line(&target)
    }

    /// Scrolls half a screen up, clamped at the document's start.
    fn step_half_up(self) -> (r: (WindowState, Vec<RenderOp>))
        requires
            state_wf(self@),
        ensures
            r.0@ == jump_spec(self@, max(0, self@.top - self@.height / 2)),
            r.1.deep_view() == jump_ops(self@, max(0, self@.top - self@.height / 2)),
            state_wf(r.0@),
    {
        let half: i32 = self.screen_height / 2;
        let diff: i32 = self.content_top - half;
        let target: i32 = if diff < 0 {
            0
        } else {
            diff
        };
        self.jump_to_line(&target)
    }

    /// Enters the prompting mode for `kind`, moving the cursor to the
    /// input field at the bottom right of the screen.
    fn enter_prompt(self, kind: PromptKind) -> (r: (WindowState, Vec<RenderOp>))
        requires
            state_wf(self@),
        ensures
            r.0@ == enter_prompt_spec(self@, kind),
            r.1.deep_view() == enter_prompt_ops(self@),
            state_wf(r.0@),
    {
        let ghost s0: StateV = self@;
        let field_width: i32 = imin(20, self.screen_width);
        let prompt: Prompt = Prompt::new(field_width, self.screen_height, self.screen_width);
        let mut ops: Vec<RenderOp> = Vec::new();
        ops.push(RenderOp::MoveCursor {
            row: self.screen_height,
            col: self.screen_width - field_width,
        });
        ops.push(RenderOp::Refresh);
        let mut s = self;
        s.mode = Mode::Prompting { kind, prompt };
        proof {
            assert(s@ =~= enter_prompt_spec(s0, kind));
            assert(ops.deep_view() =~= enter_prompt_ops(s0));
        }
        (s, ops)
    }

    /// Handles one key event in the browsing mode.
    fn handle_viewing_key(self, key: KeyEvent) -> (r: (WindowState, Vec<RenderOp>, Effect))
        requires
            state_wf(self@),
            self@.mode is Viewing,
        ensures
            r.0@ == viewing_step_spec(self@, key).0,
            r.1.deep_view() == viewing_step_spec(self@, key).1,
            r.2.deep_view() == viewing_step_spec(self@, key).2,
            state_wf(r.0@),
    {
        match key {
            KeyEvent::Char(c) => {
                if c == 'q' {
                    let ops: Vec<RenderOp> = Vec::new();
                    proof {
                        assert(ops.deep_view() =~= Seq::<RenderOpV>::empty());
                    }
                    (self, ops, Effect::Quit)
                } else if c == 'g' {
                    let zero: i32 = 0;
                    let (s, ops) = self.jump_to_line(&zero);
                    (s, ops, Effect::Continue)
                } else if c == 'h' {
                    let (s, ops) = self.help_menu();
                    (s, ops, Effect::Continue)
                } else if c == 'j' {
                    let (s, ops) = self.step_line_down();
                    (s, ops, Effect::Continue)
                } else if c == 'k' {
                    let (s, ops) = self.step_line_up();
                    (s, ops, Effect::Continue)
                } else if c == 'd' {
                    let (s, ops) = self.step_half_down();
                    (s, ops, Effect::Continue)
                } else if c == 'u' {
                    let (s, ops) = self.step_half_up();
                    (s, ops, Effect::Continue)
                } else if c == 'o' {
                    let (s, ops) = self.enter_prompt(PromptKind::OpenFile);
                    (s, ops, Effect::Continue)
                } else if c == '/' {
                    let (s, ops) = self.enter_prompt(PromptKind::Search { reverse: false });
                    (s, ops, Effect::Continue)
                } else if c == '?' {
                    let (s, ops) = self.enter_prompt(PromptKind::Search { reverse: true });
                    (s, ops, Effect::Continue)
                } else if c == 'n' {
                    let (s, ops) = self.jump_to_next_search_result();
                    (s, ops, Effect::Continue)
                } else if c == 'N' {
                    let (s, ops) = self.jump_to_last_search_result();
                    (s, ops, Effect::Continue)
                } else {
                    let ops: Vec<RenderOp> = Vec::new();
                    proof {
                        assert(ops.deep_view() =~= Seq::<RenderOpV>::empty());
                    }
                    (self, ops, Effect::Continue)
                }
            },
            KeyEvent::Backspace => {
                let ops: Vec<RenderOp> = Vec::new();
                proof {
                    assert(ops.deep_view() =~= Seq::<RenderOpV>::empty());
                }
                (self, ops, Effect::Continue)
            },
            KeyEvent::Down => {
                let (s, ops) = self.step_line_down();
                (s, ops, Effect::Continue)
            },
            KeyEvent::Up => {
                let (s, ops) = self.step_line_up();
                (s, ops, Effect::Continue)
            },
            KeyEvent::PageDown => {
                let (s, ops) = self.step_half_down();
                (s, ops, Effect::Continue)
            },
            KeyEvent::PageUp => {
                let (s, ops) = self.step_half_up();
                (s, ops, Effect::Continue)
            },
            KeyEvent::Other => {
                let ops: Vec<RenderOp> = Vec::new();
                proof {
                    assert(ops.deep_view() =~= Seq::<RenderOpV>::empty());
                }
                (self, ops, Effect::Continue)
            },
        }
    }

    /// Handles one key event while prompting.
    fn handle_prompt_key(self, key: KeyEvent) -> (r: (WindowState, Vec<RenderOp>, Effect))
        requires
            state_wf(self@),
            !(self@.mode is Viewing),
        ensures
            r.0@ == step_spec(self@, key).0,
            r.1.deep_view() == step_spec(self@, key).1,
            r.2.deep_view() == step_spec(self@, key).2,
            state_wf(r.0@),
    {
        let ghost s0: StateV = self@;
        let WindowState {
            lines,
            screen_height,
            screen_width,
            content_top,
            content_bottom,
            content_len,
            search_results,
            mode,
        } = self;
        match mode {
            Mode::Prompting { kind, mut prompt } => {
                proof {
                    assert(s0.mode == ModeV::Prompting { kind, prompt: prompt@ });
                    assert(prompt_wf(prompt@));
                }
                match key {
                    KeyEvent::Char(c) => {
                        if c == '\n' {
                            let state = WindowState {
                                lines,
                                screen_height,
                                screen_width,
                                content_top,
                                content_bottom,
                                content_len,
                                search_results,
                                mode: Mode::Viewing,
                            };
                            proof {
                                assert(state@ =~= StateV { mode: ModeV::Viewing, ..s0 });
                            }
                            match kind {
                                PromptKind::OpenFile => {
                                    let ops: Vec<RenderOp> = Vec::new();
                                    proof {
                                        assert(ops.deep_view() =~= Seq::<RenderOpV>::empty());
                                    }
                                    (state, ops, Effect::LoadFile { path: prompt.buffer })
                                },
                                PromptKind::Search { reverse } => {
                                    let pattern: String = prompt.buffer;
                                    let (s, ops) = state.search(&pattern, reverse);
                                    (s, ops, Effect::Continue)
                                },
                            }
                        } else if c == '\u{7f}' || c == '\u{8f}' {
                            let ops: Vec<RenderOp> = prompt.backspace();
                            let state = WindowState {
                                lines,
                                screen_height,
                                screen_width,
                                content_top,
                                content_bottom,
                                content_len,
                                search_results,
                                mode: Mode::Prompting { kind, prompt },
                            };
                            proof {
                                assert(state@ =~= step_spec(s0, key).0);
                            }
                            (state, ops, Effect::Continue)
                        } else if prompt.remaining == i32::MIN {
                            let ops: Vec<RenderOp> = Vec::new();
                            let state = WindowState {
                                lines,
                                screen_height,
                                screen_width,
                                content_top,
                                content_bottom,
                                content_len,
                                search_results,
                                mode: Mode::Prompting { kind, prompt },
                            };
                            proof {
                                assert(state@ =~= s0);
                                assert(ops.deep_view() =~= Seq::<RenderOpV>::empty());
                            }
                            (state, ops, Effect::Continue)
                        } else {
                            let ops: Vec<RenderOp> = prompt.insert_char(c);
                            let state = WindowState {
                                lines,
                                screen_height,
                                screen_width,
                                content_top,
                                content_bottom,
                                content_len,
                                search_results,
                                mode: Mode::Prompting { kind, prompt },
                            };
                            proof {
                                assert(state@ =~= step_spec(s0, key).0);
                            }
                            (state, ops, Effect::Continue)
                        }
                    },
                    KeyEvent::Backspace => {
                        let ops: Vec<RenderOp> = prompt.backspace();
                        let state = WindowState {
                            lines,
                            screen_height,
                            screen_width,
                            content_top,
                            content_bottom,
                            content_len,
                            search_results,
                            mode: Mode::Prompting { kind, prompt },
                        };
                        proof {
                            assert(state@ =~= step_spec(s0, key).0);
                        }
                        (state, ops, Effect::Continue)
                    },
                    _ => {
                        let ops: Vec<RenderOp> = Vec::new();
                        let state = WindowState {
                            lines,
                            screen_height,
                            screen_width,
                            content_top,
                            content_bottom,
                            content_len,
                            search_results,
                            mode: Mode::Prompting { kind, prompt },
                        };
                        proof {
                            assert(state@ =~= s0);
                            assert(ops.deep_view() =~= Seq::<RenderOpV>::empty());
                        }
                        (state, ops, Effect::Continue)
                    },
                }
            },
            Mode::Viewing => {
                proof {
                    assert(false);
                }
                let ops: Vec<RenderOp> = Vec::new();
                let state = WindowState {
                    lines,
                    screen_height,
                    screen_width,
                    content_top,
                    content_bottom,
                    content_len,
                    search_results,
                    mode: Mode::Viewing,
                };
                (state, ops, Effect::Continue)
            },
        }
    }

    /// Handles one key event, yielding the new state, the screen work to
    /// perform, and what the caller must do next: keep going, quit, or
    /// load a file and hand the outcome to `open_file`.
    pub fn handle_key(self, key: KeyEvent) -> (r: (WindowState, Vec<RenderOp>, Effect))
        requires
            state_wf(self@),
        ensures
            r.0@ == step_spec(self@, key).0,
            r.1.deep_view() == step_spec(self@, key).1,
            r.2.deep_view() == step_spec(self@, key).2,
            state_wf(r.0@),
    {
        if matches!(&self.mode, Mode::Viewing) {
            self.handle_viewing_key(key)
        } else {
            self.handle_prompt_key(key)
        }
    }
}

} // verus!
