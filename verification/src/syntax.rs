//! Syntax highlighting with tree-sitter: choosing a language by file
//! extension, parsing, and turning the captures of the highlight query on a
//! line into character ranges with a highlight kind.
use vstd::prelude::*;
use crossterm::style::{Color, ContentStyle, Stylize};
use ropey::Rope;
use tree_sitter::{
    Language, LanguageError, Parser, Query, QueryCursor, QueryError, StreamingIterator, Tree,
};
use vstd::utf8::encode_utf8;
use crate::rope_text::{
    byte_offset, char_index_from, char_index_of_byte, lemma_byte_offset_bound,
    lemma_encode_utf8_concat, lemma_line_start, line_count, line_len, line_start,
    rope_byte_to_char, rope_len_bytes, rope_len_chars, rope_len_lines, rope_line_to_byte,
    rope_text, rope_to_string,
};
use crate::text::{chars_equal, chars_of};

verus! {

/// `crossterm::style::ContentStyle`, how a piece of text is drawn.
#[verifier::external_type_specification]
#[verifier::external_body]
pub struct ExContentStyle(ContentStyle);

/// `tree_sitter::Parser`.
#[verifier::external_type_specification]
#[verifier::external_body]
pub struct ExParser(Parser);

/// `tree_sitter::Language`.
#[verifier::external_type_specification]
#[verifier::external_body]
pub struct ExLanguage(Language);

/// `tree_sitter::Query`.
#[verifier::external_type_specification]
#[verifier::external_body]
pub struct ExQuery(Query);

/// `tree_sitter::Tree`, a syntax tree.
#[verifier::external_type_specification]
#[verifier::external_body]
pub struct ExTree(Tree);

/// `tree_sitter::LanguageError`, a grammar built for another tree-sitter
/// version.
#[verifier::external_type_specification]
#[verifier::external_body]
pub struct ExLanguageError(LanguageError);

/// `tree_sitter::QueryError`, a query that does not compile.
#[verifier::external_type_specification]
#[verifier::external_body]
pub struct ExQueryError(QueryError);

/// The kinds of highlighted text.
#[derive(Debug, Clone, Copy, PartialEq, Eq, Structural)]
pub enum HighlightType {
    Keyword,
    String,
    Comment,
    Number,
    Function,
    FunctionMethod,
}

/// The terminal colours used for highlighting.
#[derive(Debug, Clone, Copy, PartialEq, Eq, Structural)]
pub enum HighlightColor {
    Blue,
    Green,
    Red,
    Yellow,
    DarkCyan,
}

/// The colour each kind is shown in.
pub open spec fn color_of(t: HighlightType) -> HighlightColor {
    match t {
        HighlightType::Keyword => HighlightColor::Blue,
        HighlightType::Comment => HighlightColor::Green,
        HighlightType::String => HighlightColor::Red,
        HighlightType::Number => HighlightColor::Yellow,
        HighlightType::Function => HighlightColor::DarkCyan,
        HighlightType::FunctionMethod => HighlightColor::Blue,
    }
}

/// The crossterm style `ContentStyle::new().with(color)` for the crossterm
/// colour named like `c`.
pub uninterp spec fn foreground_style(c: HighlightColor) -> ContentStyle;

/// The crossterm style that draws text in colour `c` and changes nothing
/// else (see `foreground_style`).
#[verifier::external_body]
fn style_for_color(c: HighlightColor) -> (s: ContentStyle)
    ensures
        s == foreground_style(c),
{
    let color = match c {
        HighlightColor::Blue => Color::Blue,
        HighlightColor::Green => Color::Green,
        HighlightColor::Red => Color::Red,
        HighlightColor::Yellow => Color::Yellow,
        HighlightColor::DarkCyan => Color::DarkCyan,
    };
    ContentStyle::new().with(color)
}

impl HighlightType {
    /// The terminal style text of this kind is drawn with.
    pub fn to_style(self) -> (s: ContentStyle)
        ensures
            s == foreground_style(color_of(self)),
    {
        style_for_color(self.color())
    }

    /// The colour this kind is shown in.
    pub fn color(self) -> (c: HighlightColor)
        ensures
            c == color_of(self),
    {
        match self {
            HighlightType::Keyword => HighlightColor::Blue,
            HighlightType::Comment => HighlightColor::Green,
            HighlightType::String => HighlightColor::Red,
            HighlightType::Number => HighlightColor::Yellow,
            HighlightType::Function => HighlightColor::DarkCyan,
            HighlightType::FunctionMethod => HighlightColor::Blue,
        }
    }
}

/// The highlight kind for a capture name of the highlight query, if it is
/// one that is shown.
pub open spec fn highlight_type_for(name: Seq<char>) -> Option<HighlightType> {
    if name == "keyword"@ {
        Some(HighlightType::Keyword)
    } else if name == "string"@ {
        Some(HighlightType::String)
    } else if name == "comment"@ {
        Some(HighlightType::Comment)
    } else if name == "number"@ {
        Some(HighlightType::Number)
    } else if name == "function"@ {
        Some(HighlightType::Function)
    } else if name == "function.method"@ {
        Some(HighlightType::FunctionMethod)
    } else {
        None
    }
}

/// Why a language could not be set up.
#[derive(Debug)]
pub enum SyntaxError {
    Language(LanguageError),
    Query(QueryError),
}

/// The byte where line `line` of `s` starts.
pub open spec fn line_start_byte(s: Seq<char>, line: nat) -> int {
    byte_offset(s, line_start(s, line))
}

/// The byte where line `line` of `s` ends: where the next line starts, or
/// the end of the text for the last line.
pub open spec fn line_end_byte(s: Seq<char>, line: nat) -> int {
    if line + 1 < line_count(s) {
        byte_offset(s, line_start(s, line + 1))
    } else {
        encode_utf8(s).len() as int
    }
}

/// `a - b`, or 0 when `b` is larger.
pub open spec fn minus_or_zero(a: int, b: int) -> int {
    if a >= b {
        a - b
    } else {
        0
    }
}

/// The highlight that a capture `(start byte, end byte, name index)` gives on
/// line `line` of `s`: none for a capture outside the line, past the text,
/// with an unknown name index or a name that is not shown; else its
/// character range relative to the start of the line, and its kind.
pub open spec fn capture_highlight(
    s: Seq<char>,
    line: nat,
    names: Seq<Seq<char>>,
    cap: (usize, usize, u32),
) -> Option<(usize, usize, HighlightType)> {
    let start_byte = cap.0 as int;
    let end_byte = cap.1 as int;
    let line_start_char = char_index_of_byte(s, line_start_byte(s, line));
    if end_byte <= line_start_byte(s, line) || start_byte >= line_end_byte(s, line) || cap.2
        >= names.len() || end_byte > encode_utf8(s).len() {
        None
    } else {
        match highlight_type_for(names[cap.2 as int]) {
            None => None,
            Some(t) => Some(
                (
                    minus_or_zero(char_index_of_byte(s, start_byte), line_start_char) as usize,
                    minus_or_zero(char_index_of_byte(s, end_byte), line_start_char) as usize,
                    t,
                ),
            ),
        }
    }
}

/// The highlights of the captures `caps`, in capture order.
pub open spec fn collect_highlights(
    s: Seq<char>,
    line: nat,
    names: Seq<Seq<char>>,
    caps: Seq<(usize, usize, u32)>,
) -> Seq<(usize, usize, HighlightType)>
    decreases caps.len(),
{
    if caps.len() == 0 {
        Seq::empty()
    } else {
        let rest = collect_highlights(s, line, names, caps.drop_last());
        match capture_highlight(s, line, names, caps.last()) {
            Some(h) => rest.push(h),
            None => rest,
        }
    }
}

/// Where an entry with start `key` goes in `sorted`: after every entry whose
/// start is at most `key`.
pub open spec fn insert_pos(sorted: Seq<(usize, usize, HighlightType)>, key: usize) -> int
    decreases sorted.len(),
{
    if sorted.len() == 0 {
        0
    } else if sorted.last().0 <= key {
        sorted.len() as int
    } else {
        insert_pos(sorted.drop_last(), key)
    }
}

/// `hs` stably sorted by start (entries with equal starts keep their order).
pub open spec fn sort_by_start(hs: Seq<(usize, usize, HighlightType)>) -> Seq<
    (usize, usize, HighlightType),
>
    decreases hs.len(),
{
    if hs.len() == 0 {
        hs
    } else {
        let sorted = sort_by_start(hs.drop_last());
        sorted.insert(insert_pos(sorted, hs.last().0), hs.last())
    }
}

/// The highlights of line `line` of `s` that the highlight query gives
/// over a parse of `source`: those of the captures reported within the
/// line's byte range (see `line_highlights`).
pub open spec fn line_highlights_over(
    source: Seq<char>,
    s: Seq<char>,
    line: nat,
    names: Seq<Seq<char>>,
) -> Seq<(usize, usize, HighlightType)> {
    line_highlights(
        s,
        line,
        names,
        highlight_captures(
            source,
            encode_utf8(s),
            line_start_byte(s, line) as usize,
            line_end_byte(s, line) as usize,
        ),
    )
}

/// `char_index_from` never goes back past where it starts, nor past the end
/// of the text when it starts within it.
proof fn lemma_char_index_from_bounds(s: Seq<char>, b: int, c: int)
    requires
        0 <= c,
    ensures
        c <= char_index_from(s, b, c),
        c <= s.len() ==> char_index_from(s, b, c) <= s.len(),
    decreases s.len() - c,
{
    if !(c >= s.len() || byte_offset(s, c + 1) > b) {
        lemma_char_index_from_bounds(s, b, c + 1);
    }
}

/// A later byte is in the same or a later character.
proof fn lemma_char_index_from_monotone(s: Seq<char>, b1: int, b2: int, c: int)
    requires
        0 <= c,
        b1 <= b2,
    ensures
        char_index_from(s, b1, c) <= char_index_from(s, b2, c),
    decreases s.len() - c,
{
    if c >= s.len() || byte_offset(s, c + 1) > b2 {
    } else if byte_offset(s, c + 1) > b1 {
        lemma_char_index_from_bounds(s, b2, c + 1);
    } else {
        lemma_char_index_from_monotone(s, b1, b2, c + 1);
    }
}

/// Where an entry with start `key` goes in a sorted `t`: after the entries
/// that start no later than `key`, before those that start after it.
proof fn lemma_insert_pos(t: Seq<(usize, usize, HighlightType)>, key: usize)
    requires
        forall|i: int, j: int| 0 <= i < j < t.len() ==> t[i].0 <= t[j].0,
    ensures
        0 <= insert_pos(t, key) <= t.len(),
        forall|i: int| 0 <= i < insert_pos(t, key) ==> t[i].0 <= key,
        forall|i: int| insert_pos(t, key) <= i < t.len() ==> t[i].0 > key,
    decreases t.len(),
{
    if t.len() > 0 {
        let p = insert_pos(t, key);
        if t.last().0 > key {
            let u = t.drop_last();
            lemma_insert_pos(u, key);
            assert forall|i: int| 0 <= i < p implies t[i].0 <= key by {
                assert(t[i] == u[i]);
            }
            assert forall|i: int| p <= i < t.len() implies t[i].0 > key by {
                if i < u.len() {
                    assert(t[i] == u[i]);
                }
            }
        } else {
            assert forall|i: int| 0 <= i < p implies t[i].0 <= key by {
                if i < t.len() - 1 {
                    assert(t[i].0 <= t[t.len() - 1].0);
                }
            }
        }
    }
}

/// A capture that starts no later than it ends gives a highlight that
/// starts no later than it ends.
proof fn lemma_capture_highlight_ordered(
    s: Seq<char>,
    line: nat,
    names: Seq<Seq<char>>,
    cap: (usize, usize, u32),
)
    requires
        s.len() <= usize::MAX,
        cap.0 <= cap.1,
        capture_highlight(s, line, names, cap) is Some,
    ensures
        ({
            let h = capture_highlight(s, line, names, cap)->0;
            h.0 <= h.1
        }),
{
    let lsc = char_index_of_byte(s, line_start_byte(s, line));
    let a = char_index_of_byte(s, cap.0 as int);
    let b = char_index_of_byte(s, cap.1 as int);
    lemma_char_index_from_monotone(s, cap.0 as int, cap.1 as int, 0);
    lemma_char_index_from_bounds(s, cap.1 as int, 0);
    lemma_char_index_from_bounds(s, cap.0 as int, 0);
    lemma_char_index_from_bounds(s, line_start_byte(s, line), 0);
    assert(0 <= minus_or_zero(a, lsc) <= minus_or_zero(b, lsc) <= s.len());
}

/// `sort_by_start` sorts by start, and keeps the entries: it has as many,
/// and each is one of the entries it was given.
proof fn lemma_sort_by_start(hs: Seq<(usize, usize, HighlightType)>)
    ensures
        sort_by_start(hs).len() == hs.len(),
        forall|i: int, j: int|
            0 <= i < j < sort_by_start(hs).len() ==> sort_by_start(hs)[i].0 <= sort_by_start(
                hs,
            )[j].0,
        forall|i: int|
            0 <= i < sort_by_start(hs).len() ==> exists|k: int|
                0 <= k < hs.len() && hs[k] == #[trigger] sort_by_start(hs)[i],
    decreases hs.len(),
{
    if hs.len() > 0 {
        let t = sort_by_start(hs.drop_last());
        let x = hs.last();
        lemma_sort_by_start(hs.drop_last());
        lemma_insert_pos(t, x.0);
        let p = insert_pos(t, x.0);
        let r = t.insert(p, x);
        assert(r == sort_by_start(hs));
        assert forall|i: int, j: int| 0 <= i < j < r.len() implies r[i].0 <= r[j].0 by {
            if j < p {
                assert(r[i] == t[i] && r[j] == t[j]);
            } else if j == p {
                assert(r[i] == t[i]);
            } else if i < p {
                assert(r[i] == t[i] && r[j] == t[j - 1]);
            } else if i == p {
                assert(r[j] == t[j - 1]);
            } else {
                assert(r[i] == t[i - 1] && r[j] == t[j - 1]);
            }
        }
        assert forall|i: int| 0 <= i < r.len() implies exists|k: int|
            0 <= k < hs.len() && hs[k] == #[trigger] r[i] by {
            if i < p {
                assert(r[i] == t[i]);
                let k = choose|k: int| 0 <= k < hs.drop_last().len() && hs.drop_last()[k] == t[i];
                assert(hs[k] == r[i]);
            } else if i == p {
                assert(hs[hs.len() - 1] == r[i]);
            } else {
                assert(r[i] == t[i - 1]);
                let k = choose|k: int|
                    0 <= k < hs.drop_last().len() && hs.drop_last()[k] == t[i - 1];
                assert(hs[k] == r[i]);
            }
        }
    }
}

/// Each collected highlight is the highlight of one of the captures.
proof fn lemma_collect_highlights(
    s: Seq<char>,
    line: nat,
    names: Seq<Seq<char>>,
    caps: Seq<(usize, usize, u32)>,
)
    ensures
        forall|i: int|
            #![trigger collect_highlights(s, line, names, caps)[i]]
            0 <= i < collect_highlights(s, line, names, caps).len() ==> exists|k: int|
                0 <= k < caps.len() && #[trigger] capture_highlight(s, line, names, caps[k])
                    == Some(collect_highlights(s, line, names, caps)[i]),
    decreases caps.len(),
{
    if caps.len() > 0 {
        let rest = collect_highlights(s, line, names, caps.drop_last());
        lemma_collect_highlights(s, line, names, caps.drop_last());
        let r = collect_highlights(s, line, names, caps);
        assert forall|i: int| #![trigger r[i]] 0 <= i < r.len() implies exists|k: int|
            0 <= k < caps.len() && #[trigger] capture_highlight(s, line, names, caps[k]) == Some(
                r[i],
            ) by {
            if i < rest.len() {
                assert(r[i] == rest[i]);
                let k = choose|k: int|
                    0 <= k < caps.drop_last().len() && #[trigger] capture_highlight(
                        s,
                        line,
                        names,
                        caps.drop_last()[k],
                    ) == Some(rest[i]);
                assert(caps[k] == caps.drop_last()[k]);
            } else {
                assert(capture_highlight(s, line, names, caps[caps.len() - 1]) == Some(r[i]));
            }
        }
    }
}

/// The highlights of a line come sorted by start; each is the highlight of
/// one of the captures (so its capture's byte range meets the line's and
/// its name is shown), and, for captures that start no later than they
/// end, each starts no later than it ends.
pub proof fn line_highlights_are_sorted_and_in_the_line(
    s: Seq<char>,
    line: nat,
    names: Seq<Seq<char>>,
    caps: Seq<(usize, usize, u32)>,
)
    requires
        s.len() <= usize::MAX,
        forall|i: int| 0 <= i < caps.len() ==> (#[trigger] caps[i]).0 <= caps[i].1,
    ensures
        forall|i: int, j: int|
            0 <= i < j < line_highlights(s, line, names, caps).len() ==> line_highlights(
                s,
                line,
                names,
                caps,
            )[i].0 <= line_highlights(s, line, names, caps)[j].0,
        forall|i: int|
            0 <= i < line_highlights(s, line, names, caps).len() ==> (#[trigger] line_highlights(
                s,
                line,
                names,
                caps,
            )[i]).0 <= line_highlights(s, line, names, caps)[i].1 && exists|k: int|
                0 <= k < caps.len() && #[trigger] capture_highlight(s, line, names, caps[k])
                    == Some(line_highlights(s, line, names, caps)[i]),
{
    let c = collect_highlights(s, line, names, caps);
    let r = line_highlights(s, line, names, caps);
    lemma_sort_by_start(c);
    lemma_collect_highlights(s, line, names, caps);
    assert forall|i: int| 0 <= i < r.len() implies (#[trigger] r[i]).0 <= r[i].1 && exists|k: int|
        0 <= k < caps.len() && #[trigger] capture_highlight(s, line, names, caps[k]) == Some(
            r[i],
        ) by {
        let m = choose|m: int| 0 <= m < c.len() && c[m] == r[i];
        let k = choose|k: int|
            0 <= k < caps.len() && #[trigger] capture_highlight(s, line, names, caps[k]) == Some(
                c[m],
            );
        lemma_capture_highlight_ordered(s, line, names, caps[k]);
    }
}

/// Each character adds at least one byte.
proof fn lemma_byte_offset_step(s: Seq<char>, k: int)
    requires
        0 <= k < s.len(),
    ensures
        byte_offset(s, k) < byte_offset(s, k + 1),
{
    assert(s.subrange(0, k + 1) =~= s.subrange(0, k) + seq![s[k]]);
    lemma_encode_utf8_concat(s.subrange(0, k), seq![s[k]]);
    assert(seq![s[k]].drop_first() =~= Seq::<char>::empty());
}

/// More characters take at least as many bytes.
proof fn lemma_byte_offset_monotone(s: Seq<char>, i: int, j: int)
    requires
        0 <= i <= j <= s.len(),
    ensures
        byte_offset(s, i) <= byte_offset(s, j),
    decreases j - i,
{
    if i < j {
        lemma_byte_offset_step(s, j - 1);
        lemma_byte_offset_monotone(s, i, j - 1);
    }
}

/// The first byte of character `i` belongs to character `i`.
proof fn lemma_char_index_of_offset(s: Seq<char>, i: int, c: int)
    requires
        0 <= c <= i <= s.len(),
    ensures
        char_index_from(s, byte_offset(s, i), c) == i,
    decreases i - c,
{
    if c < i {
        lemma_byte_offset_monotone(s, c + 1, i);
        lemma_char_index_of_offset(s, i, c + 1);
    } else if c < s.len() {
        lemma_byte_offset_step(s, c);
    }
}

/// Highlights are positioned within their line: each comes from a capture
/// whose byte range meets the line's, and its start and end are the
/// capture's first and last character positions counted from the first
/// character of the line (a capture that begins on an earlier line starts
/// at 0). A capture that ends within the line gives a highlight that ends
/// within it.
pub proof fn highlights_are_relative_to_their_line(
    s: Seq<char>,
    line: nat,
    names: Seq<Seq<char>>,
    caps: Seq<(usize, usize, u32)>,
)
    requires
        s.len() <= usize::MAX,
        line < line_count(s),
    ensures
        forall|i: int|
            #![trigger line_highlights(s, line, names, caps)[i]]
            0 <= i < line_highlights(s, line, names, caps).len() ==> exists|k: int|
                0 <= k < caps.len() && {
                    let h = line_highlights(s, line, names, caps)[i];
                    let cap = #[trigger] caps[k];
                    let first = line_start(s, line);
                    let a = char_index_of_byte(s, cap.0 as int);
                    let b = char_index_of_byte(s, cap.1 as int);
                    &&& byte_offset(s, first) < cap.1
                    &&& (cap.0 as int) < byte_offset(s, line_start(s, line + 1))
                    &&& cap.1 <= encode_utf8(s).len()
                    &&& cap.2 < names.len()
                    &&& highlight_type_for(names[cap.2 as int]) == Some(h.2)
                    &&& first + h.0 == if a >= first { a } else { first }
                    &&& first + h.1 == if b >= first { b } else { first }
                    &&& cap.1 <= byte_offset(s, line_start(s, line + 1)) ==> h.1 <= line_len(
                        s,
                        line,
                    )
                },
{
    let r = line_highlights(s, line, names, caps);
    let c = collect_highlights(s, line, names, caps);
    lemma_sort_by_start(c);
    lemma_collect_highlights(s, line, names, caps);
    lemma_line_start(s, line);
    lemma_line_start(s, line + 1);
    let first = line_start(s, line);
    let next = line_start(s, line + 1);
    lemma_char_index_of_offset(s, first, 0);
    lemma_char_index_of_offset(s, next, 0);
    assert(s.subrange(0, s.len() as int) =~= s);
    assert(line_end_byte(s, line) == byte_offset(s, next));
    assert forall|i: int| #![trigger r[i]] 0 <= i < r.len() implies exists|k: int|
        0 <= k < caps.len() && {
            let h = r[i];
            let cap = #[trigger] caps[k];
            let a = char_index_of_byte(s, cap.0 as int);
            let b = char_index_of_byte(s, cap.1 as int);
            &&& byte_offset(s, first) < cap.1
            &&& (cap.0 as int) < byte_offset(s, next)
            &&& cap.1 <= encode_utf8(s).len()
            &&& cap.2 < names.len()
            &&& highlight_type_for(names[cap.2 as int]) == Some(h.2)
            &&& first + h.0 == if a >= first { a } else { first }
            &&& first + h.1 == if b >= first { b } else { first }
            &&& cap.1 <= byte_offset(s, next) ==> h.1 <= line_len(s, line)
        } by {
        let m = choose|m: int| 0 <= m < c.len() && c[m] == r[i];
        let k = choose|k: int|
            0 <= k < caps.len() && #[trigger] capture_highlight(s, line, names, caps[k]) == Some(
                c[m],
            );
        let cap = caps[k];
        lemma_char_index_from_bounds(s, cap.0 as int, 0);
        lemma_char_index_from_bounds(s, cap.1 as int, 0);
        if cap.1 <= byte_offset(s, next) {
            lemma_char_index_from_monotone(s, cap.1 as int, byte_offset(s, next), 0);
        }
    }
}

/// The highlights of line `line` of `s` for the captures `caps`, sorted by
/// start.
pub open spec fn line_highlights(
    s: Seq<char>,
    line: nat,
    names: Seq<Seq<char>>,
    caps: Seq<(usize, usize, u32)>,
) -> Seq<(usize, usize, HighlightType)> {
    sort_by_start(collect_highlights(s, line, names, caps))
}

/// A tree-sitter parser, and whether it has been given a language.
pub struct LanguageParser {
    parser: Parser,
    language_set: Ghost<bool>,
}

impl LanguageParser {
    /// Whether the parser has been given a language.
    pub closed spec fn has_language(&self) -> bool {
        self.language_set@
    }
}

/// tree-sitter-rust's highlight query, compiled for the Rust grammar (the
/// only query the library builds).
pub struct HighlightQuery {
    query: Query,
}

/// A syntax tree, with the text it was parsed from.
pub struct SyntaxTree {
    tree: Tree,
    source: Ghost<Seq<char>>,
}

impl SyntaxTree {
    /// The text the tree was parsed from.
    pub closed spec fn source(&self) -> Seq<char> {
        self.source@
    }
}

/// The captures, each as (start byte, end byte, capture-name index) in the
/// order tree-sitter reports them, of tree-sitter-rust's highlight query
/// run over a Rust parse of `source`, matched against the bytes `text`
/// within the byte range `start..end`.
pub uninterp spec fn highlight_captures(source: Seq<char>, text: Seq<u8>, start: usize, end: usize) -> Seq<
    (usize, usize, u32),
>;

/// The captures of the highlight query over `tree` and `text` within the
/// byte range `start..end` (`QueryCursor::set_byte_range` and
/// `QueryCursor::matches`); see `highlight_captures`. Each capture is a
/// node's byte range, so it starts no later than it ends.
#[verifier::external_body]
fn query_captures(query: &HighlightQuery, tree: &SyntaxTree, text: &[u8], start: usize, end: usize) -> (caps:
    Vec<(usize, usize, u32)>)
    ensures
        caps@ == highlight_captures(tree.source(), text@, start, end),
        forall|i: int| 0 <= i < caps@.len() ==> (#[trigger] caps@[i]).0 <= caps@[i].1,
{
    let mut cursor = QueryCursor::new();
    cursor.set_byte_range(start..end);
    let mut caps = Vec::new();
    let mut matches = cursor.matches(&query.query, tree.tree.root_node(), text);
    while let Some(m) = matches.next() {
        for c in m.captures {
            caps.push((c.node.start_byte(), c.node.end_byte(), c.index));
        }
    }
    caps
}

/// A new `tree_sitter::Parser`, which has no language (`Parser::new`).
#[verifier::external_body]
fn new_parser() -> (p: LanguageParser)
    ensures
        !p.has_language(),
{
    LanguageParser { parser: Parser::new(), language_set: Ghost(false) }
}

/// The Rust grammar of `tree_sitter_rust`.
#[verifier::external_body]
fn rust_language() -> (l: Language) {
    tree_sitter_rust::LANGUAGE.into()
}

/// `Parser::set_language`: on success the parser has the language; a
/// grammar of an incompatible version is refused and leaves the parser as
/// it was. Whether the grammar is accepted is not stated.
#[verifier::external_body]
fn parser_set_language(p: &mut LanguageParser, l: &Language) -> (r: Result<(), LanguageError>)
    ensures
        r is Ok ==> final(p).has_language(),
        r is Err ==> final(p).has_language() == old(p).has_language(),
{
    p.parser.set_language(l)
}

/// `Query::new` with the highlight query of `tree_sitter_rust`; whether it
/// compiles is not stated.
#[verifier::external_body]
fn rust_highlights_query(l: &Language) -> (r: Result<HighlightQuery, QueryError>) {
    Query::new(l, tree_sitter_rust::HIGHLIGHTS_QUERY).map(|query| HighlightQuery { query })
}

/// `Query::capture_names`, copied; what they are depends on the query text
/// and is not stated.
#[verifier::external_body]
fn query_capture_names(q: &HighlightQuery) -> (names: Vec<String>) {
    q.query.capture_names().iter().map(|n| n.to_string()).collect()
}

/// `Parser::parse` of `text` with no earlier tree: a tree exactly when the
/// parser has a language (tree-sitter fails otherwise only on a timeout or
/// a cancellation flag, neither of which this library sets). The parser
/// keeps its language.
#[verifier::external_body]
fn parser_parse(p: &mut LanguageParser, text: &str) -> (t: Option<Tree>)
    ensures
        final(p).has_language() == old(p).has_language(),
        old(p).has_language() <==> t is Some,
{
    p.parser.parse(text, None)
}

/// The extension of the path written `path`, as `std::path::Path::extension`
/// finds it: the part of the file name after its last dot, if the name has
/// one that does not start it.
pub uninterp spec fn path_extension(path: Seq<char>) -> Option<Seq<char>>;

/// `Path::extension` of the path written `path` (see `path_extension`).
#[verifier::external_body]
fn extension_of(path: &str) -> (e: Option<String>)
    ensures
        e matches Some(x) ==> path_extension(path@) == Some(x@),
        e is None ==> path_extension(path@) is None,
{
    std::path::Path::new(path).extension().and_then(|e| e.to_str()).map(|e| e.to_owned())
}

/// The highlight kind for a capture name.
pub fn highlight_type_for_name(name: &str) -> (t: Option<HighlightType>)
    ensures
        t == highlight_type_for(name@),
{
    let v = chars_of(name);
    if chars_equal(v.as_slice(), chars_of("keyword").as_slice()) {
        Some(HighlightType::Keyword)
    } else if chars_equal(v.as_slice(), chars_of("string").as_slice()) {
        Some(HighlightType::String)
    } else if chars_equal(v.as_slice(), chars_of("comment").as_slice()) {
        Some(HighlightType::Comment)
    } else if chars_equal(v.as_slice(), chars_of("number").as_slice()) {
        Some(HighlightType::Number)
    } else if chars_equal(v.as_slice(), chars_of("function").as_slice()) {
        Some(HighlightType::Function)
    } else if chars_equal(v.as_slice(), chars_of("function.method").as_slice()) {
        Some(HighlightType::FunctionMethod)
    } else {
        None
    }
}

/// `sorted` with `h` inserted after every entry whose start is at most
/// `h`'s.
fn insert_sorted(sorted: &mut Vec<(usize, usize, HighlightType)>, h: (usize, usize, HighlightType))
    ensures
        final(sorted)@ == old(sorted)@.insert(insert_pos(old(sorted)@, h.0), h),
{
    let mut j = sorted.len();
    assert(sorted@.take(j as int) =~= sorted@);
    while j > 0 && sorted[j - 1].0 > h.0
        invariant
            j <= sorted@.len(),
            sorted@ == old(sorted)@,
            insert_pos(sorted@, h.0) == insert_pos(sorted@.take(j as int), h.0),
        decreases j,
    {
        assert(sorted@.take(j as int).drop_last() =~= sorted@.take(j - 1));
        j -= 1;
    }
    assert(insert_pos(sorted@.take(j as int), h.0) == j) by {
        if j > 0 {
            assert(sorted@.take(j as int).last() == sorted@[j - 1]);
        }
    }
    sorted.insert(j, h);
}

/// The highlights of line `line_idx` of the text of `rope` for the captures
/// `caps` reported by the highlight query (see `line_highlights`).
pub fn highlights_from_captures(
    rope: &Rope,
    line_idx: usize,
    names: &Vec<String>,
    caps: &Vec<(usize, usize, u32)>,
) -> (hs: Vec<(usize, usize, HighlightType)>)
    requires
        line_idx <= line_count(rope_text(*rope)),
    ensures
        hs@ == line_highlights(
            rope_text(*rope),
            line_idx as nat,
            names@.map_values(|n: String| n@),
            caps@,
        ),
{
    let ghost s = rope_text(*rope);
    let ghost name_views = names@.map_values(|n: String| n@);
    let lines = rope_len_lines(rope);
    let total_bytes = rope_len_bytes(rope);
    let first_byte = rope_line_to_byte(rope, line_idx);
    let end_byte = if line_idx < lines - 1 {
        rope_line_to_byte(rope, line_idx + 1)
    } else {
        total_bytes
    };
    proof {
        lemma_line_start(s, line_idx as nat);
        lemma_byte_offset_bound(s, line_start(s, line_idx as nat));
        if line_idx + 1 < line_count(s) {
            lemma_line_start(s, (line_idx + 1) as nat);
            lemma_byte_offset_bound(s, line_start(s, (line_idx + 1) as nat));
        }
    }
    let line_start_char = rope_byte_to_char(rope, first_byte);
    let mut collected: Vec<(usize, usize, HighlightType)> = Vec::new();
    let mut i: usize = 0;
    while i < caps.len()
        invariant
            i <= caps@.len(),
            s == rope_text(*rope),
            name_views == names@.map_values(|n: String| n@),
            line_idx <= line_count(s),
            total_bytes == encode_utf8(s).len(),
            first_byte == line_start_byte(s, line_idx as nat),
            end_byte == line_end_byte(s, line_idx as nat),
            line_start_char == char_index_of_byte(s, first_byte as int),
            end_byte <= total_bytes,
            collected@ == collect_highlights(s, line_idx as nat, name_views, caps@.take(i as int)),
        decreases caps.len() - i,
    {
        let cap = caps[i];
        assert(caps@.take(i + 1).drop_last() =~= caps@.take(i as int));
        if !(cap.1 <= first_byte || cap.0 >= end_byte || cap.2 as usize >= names.len()
            || cap.1 > total_bytes) {
            if let Some(t) = highlight_type_for_name(names[cap.2 as usize].as_str()) {
                let start_char = rope_byte_to_char(rope, cap.0);
                let end_char = rope_byte_to_char(rope, cap.1);
                let relative_start = if start_char >= line_start_char {
                    start_char - line_start_char
                } else {
                    0
                };
                let relative_end = if end_char >= line_start_char {
                    end_char - line_start_char
                } else {
                    0
                };
                collected.push((relative_start, relative_end, t));
            }
        }
        i += 1;
    }
    assert(caps@.take(i as int) =~= caps@);
    let mut sorted: Vec<(usize, usize, HighlightType)> = Vec::new();
    let mut k: usize = 0;
    while k < collected.len()
        invariant
            k <= collected@.len(),
            sorted@ == sort_by_start(collected@.take(k as int)),
        decreases collected.len() - k,
    {
        assert(collected@.take(k + 1).drop_last() =~= collected@.take(k as int));
        insert_sorted(&mut sorted, collected[k]);
        k += 1;
    }
    assert(collected@.take(k as int) =~= collected@);
    sorted
}

/// The state of a highlighter as its users see it: whether its parser has
/// a language, whether a highlight query is set up, and the names of the
/// query's captures.
pub struct HighlighterState {
    pub language_set: bool,
    pub highlighting: bool,
    pub names: Seq<Seq<char>>,
}

/// A tree-sitter parser with an optional language and highlight query.
pub struct SyntaxHighlighter {
    parser: LanguageParser,
    current_language: Option<Language>,
    query: Option<HighlightQuery>,
    highlight_names: Vec<String>,
}

impl View for SyntaxHighlighter {
    type V = HighlighterState;

    closed spec fn view(&self) -> HighlighterState {
        HighlighterState {
            language_set: self.parser.has_language(),
            highlighting: self.query is Some,
            names: self.highlight_names@.map_values(|n: String| n@),
        }
    }
}

impl SyntaxHighlighter {
    /// A highlighter with no language: nothing gets highlighted.
    pub fn new() -> (h: Self)
        ensures
            !h@.language_set,
            !h@.highlighting,
            h@.names == Seq::<Seq<char>>::empty(),
    {
        let h = Self {
            parser: new_parser(),
            current_language: None,
            query: None,
            highlight_names: Vec::new(),
        };
        assert(h@.names =~= Seq::<Seq<char>>::empty());
        h
    }

    /// Sets up the language for a file extension: `rs` gives the parser the
    /// Rust grammar and sets up its highlight query; any other extension
    /// leaves the highlighter as it is. A grammar that the parser refuses
    /// changes nothing; a query that does not compile leaves the grammar set
    /// and the query as it was.
    pub fn set_language_for_extension(&mut self, extension: &str) -> (r: Result<(), SyntaxError>)
        ensures
            extension@ != "rs"@ ==> r is Ok && final(self)@ == old(self)@,
            extension@ == "rs"@ && r is Ok ==> final(self)@.language_set
                && final(self)@.highlighting,
            r matches Err(SyntaxError::Language(_)) ==> final(self)@ == old(self)@,
            r matches Err(SyntaxError::Query(_)) ==> final(self)@ == (HighlighterState {
                language_set: true,
                ..old(self)@
            }),
    {
        if !chars_equal(chars_of(extension).as_slice(), chars_of("rs").as_slice()) {
            return Ok(());
        }
        let language = rust_language();
        if let Err(e) = parser_set_language(&mut self.parser, &language) {
            return Err(SyntaxError::Language(e));
        }
        let query = match rust_highlights_query(&language) {
            Ok(q) => q,
            Err(e) => {
                return Err(SyntaxError::Query(e));
            },
        };
        self.highlight_names = query_capture_names(&query);
        self.query = Some(query);
        self.current_language = Some(language);
        Ok(())
    }

    /// Sets up the language for the extension of the path written `path`
    /// (see `set_language_for_extension`); a path without an extension
    /// changes nothing.
    pub fn set_language_from_path(&mut self, path: &str) -> (r: Result<(), SyntaxError>)
        ensures
            path_extension(path@) != Some("rs"@) ==> r is Ok && final(self)@ == old(self)@,
            path_extension(path@) == Some("rs"@) && r is Ok ==> final(self)@.language_set
                && final(self)@.highlighting,
            r matches Err(SyntaxError::Language(_)) ==> final(self)@ == old(self)@,
            r matches Err(SyntaxError::Query(_)) ==> final(self)@ == (HighlighterState {
                language_set: true,
                ..old(self)@
            }),
    {
        match extension_of(path) {
            Some(extension) => self.set_language_for_extension(extension.as_str()),
            None => Ok(()),
        }
    }

    /// The highlights of line `line_idx` of the text of `rope`, given
    /// `tree`: none without a highlight query; else those of the captures
    /// the query reports over `tree` and the text within the line's byte
    /// range (see `line_highlights_over`).
    pub fn highlight_line(&self, rope: &Rope, line_idx: usize, tree: &SyntaxTree) -> (hs: Vec<
        (usize, usize, HighlightType),
    >)
        requires
            line_idx <= line_count(rope_text(*rope)),
        ensures
            !self@.highlighting ==> hs@ == Seq::<(usize, usize, HighlightType)>::empty(),
            self@.highlighting ==> hs@ == line_highlights_over(
                tree.source(),
                rope_text(*rope),
                line_idx as nat,
                self@.names,
            ),
            forall|i: int, j: int| 0 <= i < j < hs@.len() ==> hs@[i].0 <= hs@[j].0,
            forall|i: int| 0 <= i < hs@.len() ==> (#[trigger] hs@[i]).0 <= hs@[i].1,
    {
        let query = match &self.query {
            None => {
                return Vec::new();
            },
            Some(q) => q,
        };
        // The text fits in memory, so it has at most `usize::MAX` characters.
        let _chars = rope_len_chars(rope);
        let lines = rope_len_lines(rope);
        let start = rope_line_to_byte(rope, line_idx);
        let end = if line_idx < lines - 1 {
            rope_line_to_byte(rope, line_idx + 1)
        } else {
            rope_len_bytes(rope)
        };
        let text = rope_to_string(rope);
        let caps = query_captures(query, tree, text.as_str().as_bytes(), start, end);
        let hs = highlights_from_captures(rope, line_idx, &self.highlight_names, &caps);
        proof {
            line_highlights_are_sorted_and_in_the_line(
                rope_text(*rope),
                line_idx as nat,
                self@.names,
                caps@,
            );
        }
        hs
    }

    /// Parses `text` with the parser's language: a tree of `text` exactly
    /// when the parser has a language.
    pub fn parse(&mut self, text: &str) -> (t: Option<SyntaxTree>)
        ensures
            final(self)@ == old(self)@,
            old(self)@.language_set <==> t is Some,
            t matches Some(tree) ==> tree.source() == text@,
    {
        match parser_parse(&mut self.parser, text) {
            Some(tree) => Some(SyntaxTree { tree, source: Ghost(text@) }),
            None => None,
        }
    }
}

} // verus!
