//! Clickable URLs in the grid.
use crate::pattern::{compile, compiled, find_spans, match_spans};
use crate::search::line_text;
use crate::term_core::{Grid, GridState};
use crate::text::{string_from_chars, string_from_utf8};
use vstd::prelude::*;
use vstd::utf8::{decode_utf8, encode_utf8, valid_utf8};

verus! {

/// The pattern of a URL: `http://` or `https://` and what follows up to
/// white space, a bracket, a control and a few other characters.
pub const URL_PATTERN: &'static str = "https?://[^\\s<>\\[\\]{}|\\\\^`\\x00-\\x1f]+";

#[derive(Debug, Clone, PartialEq, Eq)]
pub struct UrlMatch {
    pub row: usize,
    pub col_start: usize,
    pub col_end: usize,
    pub url: String,
}

/// The mathematical value of a [`UrlMatch`].
pub struct UrlFound {
    pub row: usize,
    pub col_start: usize,
    pub col_end: usize,
    pub url: Seq<char>,
}

impl View for UrlMatch {
    type V = UrlFound;

    open spec fn view(&self) -> UrlFound {
        UrlFound {
            row: self.row,
            col_start: self.col_start,
            col_end: self.col_end,
            url: self.url@,
        }
    }
}

/// The values of a sequence of matches.
pub open spec fn found_of(matches: Seq<UrlMatch>) -> Seq<UrlFound> {
    Seq::new(matches.len(), |i: int| matches[i]@)
}

/// Punctuation that ends a sentence rather than a URL: `. , ; : ! ? ) " '`.
pub open spec fn is_trailing(b: u8) -> bool {
    b == 0x2e || b == 0x2c || b == 0x3b || b == 0x3a || b == 0x21 || b == 0x3f || b == 0x29 || b
        == 0x22 || b == 0x27
}

/// Where the bytes `start..end` end once the trailing punctuation is taken
/// off.
pub open spec fn url_end(bytes: Seq<u8>, start: int, end: int) -> int
    decreases end - start,
{
    if end > start && 0 < end <= bytes.len() && is_trailing(bytes[end - 1]) {
        url_end(bytes, start, end - 1)
    } else {
        end
    }
}

/// The URL of a span of a row's text: the span without its trailing
/// punctuation. There is none where these bytes are not text by themselves.
pub open spec fn url_of(bytes: Seq<u8>, row: usize, span: (usize, usize)) -> Option<UrlFound> {
    let end = url_end(bytes, span.0 as int, span.1 as int);
    let part = bytes.subrange(span.0 as int, end);
    if span.0 <= span.1 <= bytes.len() && valid_utf8(part) {
        Some(UrlFound { row, col_start: span.0, col_end: end as usize, url: decode_utf8(part) })
    } else {
        None
    }
}

/// The URLs of the first `count` spans.
pub open spec fn urls_of(bytes: Seq<u8>, row: usize, spans: Seq<(usize, usize)>, count: int) -> Seq<
    UrlFound,
>
    decreases count,
{
    if count <= 0 {
        Seq::empty()
    } else {
        let before = urls_of(bytes, row, spans, count - 1);
        match url_of(bytes, row, spans[count - 1]) {
            Some(url) => before.push(url),
            None => before,
        }
    }
}

/// The URLs of a row, left to right.
pub open spec fn row_urls(grid: GridState, row: usize) -> Seq<UrlFound> {
    match compiled(URL_PATTERN@) {
        Some(re) => {
            let text = line_text(grid.cells[row as int]);
            let spans = match_spans(re, text);
            urls_of(encode_utf8(text), row, spans, spans.len() as int)
        },
        None => Seq::empty(),
    }
}

/// The URLs of the first `count` rows, top to bottom.
pub open spec fn grid_urls(grid: GridState, count: int) -> Seq<UrlFound>
    decreases count,
{
    if count <= 0 {
        Seq::empty()
    } else {
        grid_urls(grid, count - 1) + row_urls(grid, (count - 1) as usize)
    }
}

/// The first of the matches that covers column `col`.
pub open spec fn first_at(found: Seq<UrlFound>, col: usize, from: int) -> Option<Seq<char>>
    decreases found.len() - from,
{
    if from < 0 || from >= found.len() {
        None
    } else if found[from].col_start <= col < found[from].col_end {
        Some(found[from].url)
    } else {
        first_at(found, col, from + 1)
    }
}

fn trailing(b: u8) -> (t: bool)
    ensures
        t == is_trailing(b),
{
    b == 0x2e || b == 0x2c || b == 0x3b || b == 0x3a || b == 0x21 || b == 0x3f || b == 0x29 || b
        == 0x22 || b == 0x27
}

fn row_string(grid: &Grid, row: usize) -> (s: String)
    requires
        grid.wf(),
        row < grid.rows,
    ensures
        s@ == line_text(grid@.cells[row as int]),
{
    let line = &grid.cells[row];
    let mut chars: Vec<char> = Vec::with_capacity(line.len());
    let mut c: usize = 0;
    while c < line.len()
        invariant
            c <= line@.len(),
            chars@.len() == c,
            forall|i: int| 0 <= i < c ==> chars@[i] == line_text(line@)[i],
        decreases line.len() - c,
    {
        let ch = line[c].ch;
        chars.push(if ch == '\0' {
            ' '
        } else {
            ch
        });
        c += 1;
    }
    assert(chars@ =~= line_text(line@));
    string_from_chars(&chars)
}

fn url_from(bytes: &[u8], row: usize, span: (usize, usize)) -> (r: Option<UrlMatch>)
    ensures
        r is Some <==> url_of(bytes@, row, span) is Some,
        r matches Some(m) ==> Some(m@) == url_of(bytes@, row, span),
{
    let (start, end) = span;
    if start > end || end > bytes.len() {
        return None;
    }
    let mut stop: usize = end;
    while stop > start && trailing(bytes[stop - 1])
        invariant
            start <= stop <= end <= bytes@.len(),
            url_end(bytes@, start as int, stop as int) == url_end(
                bytes@,
                start as int,
                end as int,
            ),
        decreases stop,
    {
        stop -= 1;
    }
    let mut part: Vec<u8> = Vec::with_capacity(stop - start);
    let mut i: usize = start;
    while i < stop
        invariant
            start <= i <= stop <= bytes@.len(),
            part@ == bytes@.subrange(start as int, i as int),
        decreases stop - i,
    {
        part.push(bytes[i]);
        assert(part@ =~= bytes@.subrange(start as int, i + 1));
        i += 1;
    }
    match string_from_utf8(part) {
        Some(url) => Some(UrlMatch { row, col_start: start, col_end: stop, url }),
        None => None,
    }
}

/// Detect URLs in a single grid row.
pub fn detect_row(grid: &Grid, row: usize) -> (out: Vec<UrlMatch>)
    requires
        grid.wf(),
        row < grid.rows,
    ensures
        found_of(out@) == row_urls(grid@, row),
{
    let mut out: Vec<UrlMatch> = Vec::new();
    let re = match compile(URL_PATTERN) {
        Some(re) => re,
        None => {
            assert(found_of(out@) =~= Seq::<UrlFound>::empty());
            return out;
        },
    };
    let text = row_string(grid, row);
    let spans = find_spans(&re, text.as_str());
    let bytes = text.as_str().as_bytes();
    let mut i: usize = 0;
    assert(found_of(out@) =~= Seq::<UrlFound>::empty());
    while i < spans.len()
        invariant
            i <= spans@.len(),
            found_of(out@) == urls_of(bytes@, row, spans@, i as int),
        decreases spans.len() - i,
    {
        let ghost before = found_of(out@);
        match url_from(bytes, row, spans[i]) {
            Some(m) => {
                out.push(m);
                assert(found_of(out@) =~= before.push(m@));
            },
            None => {},
        }
        i += 1;
    }
    out
}

/// Detect all URLs in the visible grid.
pub fn detect_urls(grid: &Grid) -> (out: Vec<UrlMatch>)
    requires
        grid.wf(),
    ensures
        found_of(out@) == grid_urls(grid@, grid@.rows),
{
    let mut out: Vec<UrlMatch> = Vec::new();
    let mut r: usize = 0;
    assert(found_of(out@) =~= Seq::<UrlFound>::empty());
    while r < grid.rows()
        invariant
            grid.wf(),
            r <= grid.rows,
            found_of(out@) == grid_urls(grid@, r as int),
        decreases grid.rows - r,
    {
        let ghost before = found_of(out@);
        let mut found = detect_row(grid, r);
        let ghost added = found_of(found@);
        out.append(&mut found);
        assert(found_of(out@) =~= before + added);
        r += 1;
    }
    out
}

/// Check if a position (row, col) is inside a URL. Returns the URL if so.
pub fn url_at(grid: &Grid, row: usize, col: usize) -> (r: Option<String>)
    requires
        grid.wf(),
        row < grid.rows,
    ensures
        r is Some <==> first_at(row_urls(grid@, row), col, 0) is Some,
        r matches Some(url) ==> Some(url@) == first_at(row_urls(grid@, row), col, 0),
{
    let found = detect_row(grid, row);
    let mut i: usize = 0;
    while i < found.len()
        invariant
            i <= found@.len(),
            found_of(found@) == row_urls(grid@, row),
            first_at(row_urls(grid@, row), col, i as int) == first_at(
                row_urls(grid@, row),
                col,
                0,
            ),
        decreases found.len() - i,
    {
        assert(found_of(found@)[i as int] == found@[i as int]@);
        if col >= found[i].col_start && col < found[i].col_end {
            return Some(found[i].url.clone());
        }
        i += 1;
    }
    None
}

} // verus!
