//! Search in the grid and in the scrollback.
use crate::pattern::{compile, compiled, escape, escaped, find_spans, match_spans};
use crate::term_core::{Cell, Grid, GridState};
use crate::text::{string_from_chars, trim_end, trimmed_end};
use vstd::prelude::*;

verus! {

#[derive(Debug, Clone, PartialEq, Eq)]
pub struct SearchMatch {
    /// Row index (negative = scrollback, 0+ = visible grid)
    pub row: i32,
    pub col_start: usize,
    pub col_end: usize,
}

/// The characters of a line of cells, a space for each NUL.
pub open spec fn line_text(line: Seq<Cell>) -> Seq<char> {
    Seq::new(
        line.len(),
        |c: int|
            if line[c].ch == '\0' {
                ' '
            } else {
                line[c].ch
            },
    )
}

/// The matches of `re` in the text of a line, on row `row`.
pub open spec fn line_matches(re: regex::Regex, line: Seq<Cell>, row: int) -> Seq<SearchMatch> {
    let spans = match_spans(re, trimmed_end(line_text(line)));
    Seq::new(
        spans.len(),
        |i: int| SearchMatch { row: row as i32, col_start: spans[i].0, col_end: spans[i].1 },
    )
}

/// The matches of `re` in the first `count` of `lines`, top to bottom, when
/// the first line is row `first`.
pub open spec fn lines_matches(
    re: regex::Regex,
    lines: Seq<Seq<Cell>>,
    first: int,
    count: int,
) -> Seq<SearchMatch>
    decreases count,
{
    if count <= 0 {
        Seq::empty()
    } else {
        lines_matches(re, lines, first, count - 1) + line_matches(
            re,
            lines[count - 1],
            first + count - 1,
        )
    }
}

/// The pattern that is searched for: the given one as a regular expression,
/// or one that matches it literally.
pub open spec fn search_pattern(pattern: Seq<char>, use_regex: bool) -> Seq<char> {
    if use_regex {
        pattern
    } else {
        escaped(pattern)
    }
}

/// The matches in the visible grid, top to bottom; none where the pattern
/// is not accepted.
pub open spec fn grid_matches(grid: GridState, pattern: Seq<char>, use_regex: bool) -> Seq<
    SearchMatch,
> {
    match compiled(search_pattern(pattern, use_regex)) {
        Some(re) => lines_matches(re, grid.cells, 0, grid.rows),
        None => Seq::empty(),
    }
}

/// The matches in the scrollback, oldest line first; the newest line is row
/// -1. None where the pattern is not accepted.
pub open spec fn scrollback_matches(grid: GridState, pattern: Seq<char>, use_regex: bool) -> Seq<
    SearchMatch,
> {
    match compiled(search_pattern(pattern, use_regex)) {
        Some(re) => lines_matches(
            re,
            grid.scrollback,
            -(grid.scrollback.len() as int),
            grid.scrollback.len() as int,
        ),
        None => Seq::empty(),
    }
}

fn text_of_line(line: &Vec<Cell>) -> (s: String)
    ensures
        s@ == trimmed_end(line_text(line@)),
{
    let mut chars: Vec<char> = Vec::with_capacity(line.len());
    let mut c: usize = 0;
    while c < line.len()
        invariant
            c <= line@.len(),
            chars@.len() == c,
            forall|i: int| 0 <= i < c ==> chars@[i] == line_text(line@)[i],
        decreases line.len() - c,
    {
        let ch = line[c].ch;
        chars.push(if ch == '\0' {
            ' '
        } else {
            ch
        });
        c += 1;
    }
    assert(chars@ =~= line_text(line@));
    trim_end(&mut chars);
    string_from_chars(&chars)
}

/// Extract text content from a grid row.
pub fn row_text(grid: &Grid, row: usize) -> (s: String)
    requires
        grid.wf(),
        row < grid.rows,
    ensures
        s@ == trimmed_end(line_text(grid@.cells[row as int])),
{
    text_of_line(&grid.cells[row])
}

fn search_lines(re: &regex::Regex, lines: &Vec<Vec<Cell>>, first: i32) -> (out: Vec<SearchMatch>)
    requires
        lines@.len() <= i32::MAX,
        first + lines@.len() <= i32::MAX,
    ensures
        out@ == lines_matches(
            *re,
            crate::term_core::lines_of(lines@),
            first as int,
            lines@.len() as int,
        ),
{
    let mut out: Vec<SearchMatch> = Vec::new();
    let mut r: usize = 0;
    let ghost all = crate::term_core::lines_of(lines@);
    while r < lines.len()
        invariant
            r <= lines@.len(),
            lines@.len() <= i32::MAX,
            first + lines@.len() <= i32::MAX,
            all == crate::term_core::lines_of(lines@),
            out@ == lines_matches(*re, all, first as int, r as int),
        decreases lines.len() - r,
    {
        let text = text_of_line(&lines[r]);
        let spans = find_spans(re, text.as_str());
        let row = first + r as i32;
        let ghost before = out@;
        let mut i: usize = 0;
        while i < spans.len()
            invariant
                i <= spans@.len(),
                r < lines@.len(),
                row == first + r,
                spans@ == match_spans(*re, trimmed_end(line_text(all[r as int]))),
                out@.len() == before.len() + i,
                forall|k: int| 0 <= k < before.len() ==> out@[k] == before[k],
                forall|k: int|
                    before.len() <= k < before.len() + i ==> #[trigger] out@[k] == line_matches(
                        *re,
                        all[r as int],
                        first + r,
                    )[k - before.len()],
            decreases spans.len() - i,
        {
            let span = spans[i];
            out.push(SearchMatch { row, col_start: span.0, col_end: span.1 });
            i += 1;
        }
        assert(out@ =~= before + line_matches(*re, all[r as int], first + r));
        r += 1;
    }
    out
}

fn compile_search(pattern: &str, use_regex: bool) -> (r: Option<regex::Regex>)
    ensures
        r == compiled(search_pattern(pattern@, use_regex)),
{
    if use_regex {
        compile(pattern)
    } else {
        let literal = escape(pattern);
        compile(literal.as_str())
    }
}

/// Search visible grid for a pattern. Returns matches sorted top-to-bottom.
pub fn search_grid(grid: &Grid, pattern: &str, use_regex: bool) -> (out: Vec<SearchMatch>)
    requires
        grid.wf(),
        grid.rows <= i32::MAX,
    ensures
        out@ == grid_matches(grid@, pattern@, use_regex),
{
    match compile_search(pattern, use_regex) {
        Some(re) => search_lines(&re, &grid.cells, 0),
        None => Vec::new(),
    }
}

/// Search scrollback buffer. Row indices are negative (most recent = -1).
pub fn search_scrollback(grid: &Grid, pattern: &str, use_regex: bool) -> (out: Vec<SearchMatch>)
    requires
        grid.wf(),
        grid.scrollback@.len() <= i32::MAX,
    ensures
        out@ == scrollback_matches(grid@, pattern@, use_regex),
{
    match compile_search(pattern, use_regex) {
        Some(re) => {
            let first = -(grid.scrollback.len() as i32);
            search_lines(&re, &grid.scrollback, first)
        },
        None => Vec::new(),
    }
}

/// Search both scrollback and visible grid.
pub fn search_all(grid: &Grid, pattern: &str, use_regex: bool) -> (out: Vec<SearchMatch>)
    requires
        grid.wf(),
        grid.rows <= i32::MAX,
        grid.scrollback@.len() <= i32::MAX,
    ensures
        out@ == scrollback_matches(grid@, pattern@, use_regex) + grid_matches(
            grid@,
            pattern@,
            use_regex,
        ),
{
    let mut results = search_scrollback(grid, pattern, use_regex);
    let mut visible = search_grid(grid, pattern, use_regex);
    results.append(&mut visible);
    results
}

} // verus!
