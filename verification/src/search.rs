//! The search engine: scanning a document for the non-overlapping,
//! left-to-right occurrences of a literal pattern.

use vstd::prelude::*;
use vstd::string::*;

verus! {

/// One located occurrence of the pattern: the line it is on and the
/// half-open span of character columns `[start, end)` it covers.
#[derive(Clone, Copy, Debug, PartialEq, Eq, Structural)]
pub struct SearchMatch {
    pub line: usize,
    pub start: usize,
    pub end: usize,
}

/// The mathematical counterpart of [`SearchMatch`], over unbounded integers.
pub ghost struct MatchV {
    pub line: int,
    pub start: int,
    pub end: int,
}

impl DeepView for SearchMatch {
    type V = MatchV;

    open spec fn deep_view(&self) -> MatchV {
        MatchV { line: self.line as int, start: self.start as int, end: self.end as int }
    }
}

/// The pattern occurs in `line` starting at character column `i`.
pub open spec fn occurs_at(line: Seq<char>, pat: Seq<char>, i: int) -> bool {
    &&& 0 <= i
    &&& i + pat.len() <= line.len()
    &&& forall|k: int| 0 <= k < pat.len() ==> line[i + k] == pat[k]
}

/// The non-overlapping, left-to-right matches of `pat` in the line with
/// index `li` and contents `line`, scanning from column `from` on: after a
/// match the scan resumes immediately past its end, and an empty pattern
/// matches nowhere.
pub open spec fn line_scan(line: Seq<char>, pat: Seq<char>, li: int, from: int) -> Seq<MatchV>
    decreases line.len() - from,
{
    if pat.len() == 0 || from + pat.len() > line.len() {
        Seq::empty()
    } else if occurs_at(line, pat, from) {
        seq![MatchV { line: li, start: from, end: from + pat.len() }]
            + line_scan(line, pat, li, from + pat.len())
    } else {
        line_scan(line, pat, li, from + 1)
    }
}

/// All matches of `pat` in the lines of `doc` from line `li` on, in
/// document order.
pub open spec fn doc_scan_from(doc: Seq<Seq<char>>, pat: Seq<char>, li: int) -> Seq<MatchV>
    decreases doc.len() - li,
{
    if li < 0 || li >= doc.len() {
        Seq::empty()
    } else {
        line_scan(doc[li], pat, li, 0) + doc_scan_from(doc, pat, li + 1)
    }
}

/// All matches of `pat` in `doc`: line order first, then left-to-right
/// order within a line.
pub open spec fn doc_scan(doc: Seq<Seq<char>>, pat: Seq<char>) -> Seq<MatchV> {
    doc_scan_from(doc, pat, 0)
}

/// Decides whether the pattern occurs at column `p` of `line`.
fn is_match_at(line: &str, pat: &str, p: usize) -> (b: bool)
    requires
        p + pat@.len() <= line@.len(),
        line@.len() <= usize::MAX,
    ensures
        b == occurs_at(line@, pat@, p as int),
{
    let pat_len: usize = pat.unicode_len();
    let mut j: usize = 0;
    while j < pat_len
        invariant
            pat_len == pat@.len(),
            p + pat_len <= line@.len(),
            line@.len() <= usize::MAX,
            j <= pat_len,
            forall|k: int| 0 <= k < j ==> line@[p + k] == pat@[k],
        decreases pat_len - j,
    {
        if line.get_char(p + j) != pat.get_char(j) {
            proof {
                assert(occurs_at(line@, pat@, p as int) ==> line@[p + j] == pat@[j as int]);
            }
            return false;
        }
        j += 1;
    }
    true
}

/// Scans the whole document for the pattern, yielding every match in
/// document order, then left-to-right order within a line.
pub fn scan(lines: &Vec<String>, pattern: &String) -> (r: Vec<SearchMatch>)
    ensures
        r.deep_view() == doc_scan(lines.deep_view(), pattern@),
{
    let mut r: Vec<SearchMatch> = Vec::new();
    let ghost docv: Seq<Seq<char>> = lines.deep_view();
    let ghost patv: Seq<char> = pattern@;
    let pat_len: usize = pattern.as_str().unicode_len();
    if pat_len == 0 {
        proof {
            lemma_doc_scan_from_empty_pattern(docv, patv, 0);
            assert(r.deep_view() =~= doc_scan(docv, patv));
        }
        return r;
    }
    let n: usize = lines.len();
    let mut li: usize = 0;
    proof {
        assert(r.deep_view() + doc_scan_from(docv, patv, 0) =~= doc_scan(docv, patv));
    }
    while li < n
        invariant
            pat_len == patv.len(),
            pat_len >= 1,
            docv == lines.deep_view(),
            patv == pattern@,
            n == lines.len(),
            li <= n,
            r.deep_view() + doc_scan_from(docv, patv, li as int) == doc_scan(docv, patv),
        decreases n - li,
    {
        let line: &String = &lines[li];
        let line_len: usize = line.as_str().unicode_len();
        let ghost linev: Seq<char> = docv[li as int];
        proof {
            assert(linev == line@);
            assert(doc_scan_from(docv, patv, li as int) == line_scan(linev, patv, li as int, 0)
                + doc_scan_from(docv, patv, li as int + 1));
            assert(r.deep_view() + line_scan(linev, patv, li as int, 0)
                + doc_scan_from(docv, patv, li as int + 1)
                =~= r.deep_view() + (line_scan(linev, patv, li as int, 0)
                    + doc_scan_from(docv, patv, li as int + 1)));
        }
        let mut p: usize = 0;
        while pat_len <= line_len && p <= line_len - pat_len
            invariant
                pat_len == patv.len(),
                pat_len >= 1,
                docv == lines.deep_view(),
                patv == pattern@,
                n == lines.len(),
                li < n,
                linev == line@,
                linev == docv[li as int],
                line_len == linev.len(),
                r.deep_view() + line_scan(linev, patv, li as int, p as int)
                    + doc_scan_from(docv, patv, li as int + 1) == doc_scan(docv, patv),
            decreases line_len - p,
        {
            let ghost old_r: Seq<MatchV> = r.deep_view();
            if is_match_at(line.as_str(), pattern.as_str(), p) {
                let m = SearchMatch { line: li, start: p, end: p + pat_len };
                proof {
                    assert(line_scan(linev, patv, li as int, p as int)
                        == seq![m.deep_view()] + line_scan(linev, patv, li as int, p + pat_len));
                }
                r.push(m);
                proof {
                    assert(r.deep_view() =~= old_r + seq![m.deep_view()]);
                    assert(old_r + (seq![m.deep_view()] + line_scan(linev, patv, li as int, p + pat_len))
                        + doc_scan_from(docv, patv, li as int + 1)
                        =~= (old_r + seq![m.deep_view()]) + line_scan(linev, patv, li as int, p + pat_len)
                            + doc_scan_from(docv, patv, li as int + 1));
                }
                p += pat_len;
            } else {
                proof {
                    assert(line_scan(linev, patv, li as int, p as int)
                        == line_scan(linev, patv, li as int, p + 1));
                }
                p += 1;
            }
        }
        proof {
            assert(line_scan(linev, patv, li as int, p as int) == Seq::<MatchV>::empty());
            assert(r.deep_view() + line_scan(linev, patv, li as int, p as int)
                + doc_scan_from(docv, patv, li as int + 1)
                =~= r.deep_view() + doc_scan_from(docv, patv, li as int + 1));
        }
        li += 1;
    }
    proof {
        assert(doc_scan_from(docv, patv, n as int) == Seq::<MatchV>::empty());
        assert(r.deep_view() + doc_scan_from(docv, patv, n as int) =~= r.deep_view());
    }
    r
}

/// The match lies inside the document: its line exists and its column span
/// is a non-empty range within that line.
pub open spec fn valid_match(doc: Seq<Seq<char>>, m: MatchV) -> bool {
    &&& 0 <= m.line < doc.len()
    &&& 0 <= m.start < m.end
    &&& m.end <= doc[m.line].len()
}

/// Every match of `s` lies inside the document.
pub open spec fn valid_matches(doc: Seq<Seq<char>>, s: Seq<MatchV>) -> bool {
    forall|i: int| 0 <= i < s.len() ==> valid_match(doc, #[trigger] s[i])
}

/// The matches all lie inside the document, are strictly ordered by
/// `(line, start)`, and do not overlap within a line.
pub open spec fn matches_ordered(doc: Seq<Seq<char>>, s: Seq<MatchV>) -> bool {
    &&& valid_matches(doc, s)
    &&& forall|i: int, j: int|
        0 <= i < j < s.len() ==> ((#[trigger] s[i]).line < (#[trigger] s[j]).line || (s[i].line
            == s[j].line && s[i].end <= s[j].start))
}

/// Every match found in one line carries that line's index, starts at or
/// after the column the scan began at, really occurs there, spans exactly
/// the pattern's length, and earlier matches end before later ones start.
proof fn lemma_line_scan_props(line: Seq<char>, pat: Seq<char>, li: int, from: int)
    ensures
        forall|i: int|
            0 <= i < line_scan(line, pat, li, from).len() ==> ((#[trigger] line_scan(
                line,
                pat,
                li,
                from,
            )[i]).line == li && from <= line_scan(line, pat, li, from)[i].start && occurs_at(
                line,
                pat,
                line_scan(line, pat, li, from)[i].start,
            ) && line_scan(line, pat, li, from)[i].end == line_scan(line, pat, li, from)[i].start
                + pat.len()),
        forall|i: int, j: int|
            0 <= i < j < line_scan(line, pat, li, from).len() ==> (#[trigger] line_scan(
                line,
                pat,
                li,
                from,
            )[i]).end <= (#[trigger] line_scan(line, pat, li, from)[j]).start,
    decreases line.len() - from,
{
    let s = line_scan(line, pat, li, from);
    if pat.len() == 0 || from + pat.len() > line.len() {
    } else if occurs_at(line, pat, from) {
        lemma_line_scan_props(line, pat, li, from + pat.len());
        let head = MatchV { line: li, start: from, end: from + pat.len() };
        let tail = line_scan(line, pat, li, from + pat.len());
        assert(s == seq![head] + tail);
        assert(s[0] == head);
        assert(forall|i: int| 1 <= i < s.len() ==> #[trigger] s[i] == tail[i - 1]);
        assert forall|i: int| 0 <= i < s.len() implies ((#[trigger] s[i]).line == li && from
            <= s[i].start && occurs_at(line, pat, s[i].start) && s[i].end == s[i].start
            + pat.len()) by {
            if i >= 1 {
                assert(s[i] == tail[i - 1]);
            }
        }
        assert forall|i: int, j: int| 0 <= i < j < s.len() implies (#[trigger] s[i]).end
            <= (#[trigger] s[j]).start by {
            assert(s[j] == tail[j - 1]);
            if i >= 1 {
                assert(s[i] == tail[i - 1]);
            } else {
                assert(from + pat.len() <= tail[j - 1].start);
            }
        }
    } else {
        lemma_line_scan_props(line, pat, li, from + 1);
        assert(s == line_scan(line, pat, li, from + 1));
    }
}

/// From line `li` on, the scan's matches lie inside the document, carry
/// line indices at or past `li`, and come strictly ordered by
/// `(line, start)` without overlap within a line.
proof fn lemma_doc_scan_from_props(doc: Seq<Seq<char>>, pat: Seq<char>, li: int)
    ensures
        matches_ordered(doc, doc_scan_from(doc, pat, li)),
        forall|i: int|
            0 <= i < doc_scan_from(doc, pat, li).len() ==> li <= (#[trigger] doc_scan_from(
                doc,
                pat,
                li,
            )[i]).line,
    decreases doc.len() - li,
{
    let s = doc_scan_from(doc, pat, li);
    if li < 0 || li >= doc.len() {
    } else {
        lemma_line_scan_props(doc[li], pat, li, 0);
        lemma_doc_scan_from_props(doc, pat, li + 1);
        let a = line_scan(doc[li], pat, li, 0);
        let b = doc_scan_from(doc, pat, li + 1);
        assert(s == a + b);
        assert(forall|i: int| 0 <= i < a.len() ==> #[trigger] s[i] == a[i]);
        assert(forall|i: int| a.len() <= i < s.len() ==> #[trigger] s[i] == b[i - a.len()]);
        if pat.len() > 0 {
            assert forall|i: int| 0 <= i < a.len() implies valid_match(doc, a[i]) by {
                assert(occurs_at(doc[li], pat, a[i].start));
            }
        }
    }
}

/// The scan's matches all lie inside the document, are strictly ordered by
/// `(line, start)` ascending, and do not overlap within a line.
pub proof fn lemma_scan_ordered(doc: Seq<Seq<char>>, pat: Seq<char>)
    ensures
        matches_ordered(doc, doc_scan(doc, pat)),
{
    lemma_doc_scan_from_props(doc, pat, 0);
}

/// Reverses a match list end to end.
pub fn reversed(v: &Vec<SearchMatch>) -> (r: Vec<SearchMatch>)
    ensures
        r.deep_view() == v.deep_view().reverse(),
{
    let mut r: Vec<SearchMatch> = Vec::new();
    let n: usize = v.len();
    let mut i: usize = 0;
    while i < n
        invariant
            n == v.len(),
            i <= n,
            r.deep_view().len() == i,
            forall|k: int| 0 <= k < i ==> #[trigger] r.deep_view()[k] == v.deep_view()[n - 1 - k],
        decreases n - i,
    {
        let ghost old_dv: Seq<MatchV> = r.deep_view();
        r.push(v[n - 1 - i]);
        proof {
            assert forall|k: int| 0 <= k < i + 1 implies #[trigger] r.deep_view()[k]
                == v.deep_view()[n - 1 - k] by {
                if k < i {
                    assert(r.deep_view()[k] == old_dv[k]);
                } else {
                    assert(r@[k] == v@[n - 1 - i]);
                }
            }
        }
        i += 1;
    }
    proof {
        assert(r.deep_view() =~= v.deep_view().reverse());
    }
    r
}

/// Crawls the document for every occurrence of the search term, as
/// `(line, start column, end column)` triples in document order, then
/// left-to-right order within a line.
pub fn search_scraper(lines: &Vec<String>, search_term: &String) -> (results: Vec<(i32, i32, i32)>)
    requires
        lines@.len() <= i32::MAX,
        forall|i: int| 0 <= i < lines@.len() ==> (#[trigger] lines@[i])@.len() <= i32::MAX,
    ensures
        ({
            let s = doc_scan(lines.deep_view(), search_term@);
            &&& results@.len() == s.len()
            &&& forall|i: int|
                0 <= i < s.len() ==> {
                    let t = #[trigger] results@[i];
                    t.0 == s[i].line && t.1 == s[i].start && t.2 == s[i].end
                }
        }),
{
    let ghost docv: Seq<Seq<char>> = lines.deep_view();
    let ghost s: Seq<MatchV> = doc_scan(docv, search_term@);
    proof {
        lemma_scan_ordered(docv, search_term@);
        assert(forall|i: int| 0 <= i < docv.len() ==> #[trigger] docv[i] == lines@[i]@);
    }
    let ms: Vec<SearchMatch> = scan(lines, search_term);
    let mut results: Vec<(i32, i32, i32)> = Vec::new();
    let n: usize = ms.len();
    let mut i: usize = 0;
    while i < n
        invariant
            n == ms.len(),
            i <= n,
            ms.deep_view() == s,
            s == doc_scan(lines.deep_view(), search_term@),
            matches_ordered(lines.deep_view(), s),
            lines@.len() <= i32::MAX,
            forall|k: int| 0 <= k < lines@.len() ==> (#[trigger] lines@[k])@.len() <= i32::MAX,
            forall|k: int| 0 <= k < lines.deep_view().len() ==> #[trigger] lines.deep_view()[k]
                == lines@[k]@,
            results@.len() == i,
            forall|k: int|
                0 <= k < i ==> {
                    let t = #[trigger] results@[k];
                    t.0 == s[k].line && t.1 == s[k].start && t.2 == s[k].end
                },
        decreases n - i,
    {
        let m: SearchMatch = ms[i];
        proof {
            assert(m.deep_view() == s[i as int]);
            assert(valid_match(lines.deep_view(), s[i as int]));
        }
        results.push((m.line as i32, m.start as i32, m.end as i32));
        i += 1;
    }
    results
}

/// An empty pattern matches nothing from any starting line, whatever the
/// document holds.
proof fn lemma_doc_scan_from_empty_pattern(doc: Seq<Seq<char>>, pat: Seq<char>, li: int)
    requires
        pat.len() == 0,
    ensures
        doc_scan_from(doc, pat, li) == Seq::<MatchV>::empty(),
    decreases doc.len() - li,
{
    if 0 <= li < doc.len() {
        lemma_doc_scan_from_empty_pattern(doc, pat, li + 1);
        assert(doc_scan_from(doc, pat, li) =~= Seq::<MatchV>::empty());
    }
}

/// An empty pattern yields an empty match list, whatever the document
/// holds.
pub proof fn lemma_scan_empty_pattern(doc: Seq<Seq<char>>, pat: Seq<char>)
    requires
        pat.len() == 0,
    ensures
        doc_scan(doc, pat) == Seq::<MatchV>::empty(),
{
    lemma_doc_scan_from_empty_pattern(doc, pat, 0);
}

} // verus!
