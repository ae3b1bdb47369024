//! The `ropey::Rope` that holds a buffer's text: what its contents are, how
//! they divide into lines, and the rope operations the buffer uses.
use vstd::prelude::*;
use ropey::Rope;
use vstd::utf8::encode_utf8;

verus! {

/// `ropey::Rope`, a text held as a tree of UTF-8 chunks.
#[verifier::external_type_specification]
#[verifier::external_body]
pub struct ExRope(Rope);

/// The characters a rope holds, in order.
pub uninterp spec fn rope_text(r: Rope) -> Seq<char>;

/// The line breaks that ropey recognises with its default features: LF, VT,
/// FF, CR, NEL, LINE SEPARATOR and PARAGRAPH SEPARATOR (a CR directly
/// followed by LF counts as one break).
pub open spec fn is_line_break(c: char) -> bool {
    ||| c == '\n'
    ||| c == '\u{0B}'
    ||| c == '\u{0C}'
    ||| c == '\r'
    ||| c == '\u{85}'
    ||| c == '\u{2028}'
    ||| c == '\u{2029}'
}

/// Whether a new line starts at position `p` of `s`: `p` directly follows a
/// line break that is not the CR of a CR LF pair.
pub open spec fn starts_line(s: Seq<char>, p: int) -> bool {
    &&& 1 <= p <= s.len()
    &&& is_line_break(s[p - 1])
    &&& !(s[p - 1] == '\r' && p < s.len() && s[p] == '\n')
}

/// The index of the line that position `i` of `s` is on: the number of line
/// starts in `1..=i`.
pub open spec fn line_of(s: Seq<char>, i: int) -> nat
    decreases i,
{
    if i <= 0 {
        0
    } else {
        line_of(s, i - 1) + if starts_line(s, i) {
            1nat
        } else {
            0nat
        }
    }
}

/// The number of lines of `s` (a text ending in a line break has an empty
/// last line).
pub open spec fn line_count(s: Seq<char>) -> nat {
    line_of(s, s.len() as int) + 1
}

/// The first position from `p` on whose line index is at least `l`, or
/// `s.len()` when there is none.
pub open spec fn line_start_from(s: Seq<char>, l: nat, p: int) -> int
    decreases s.len() - p,
{
    if p >= s.len() || line_of(s, p) >= l {
        p
    } else {
        line_start_from(s, l, p + 1)
    }
}

/// The position where line `l` of `s` starts; `s.len()` for `l` one past
/// the last line.
pub open spec fn line_start(s: Seq<char>, l: nat) -> int {
    line_start_from(s, l, 0)
}

/// The number of characters of line `l`, its line break included.
pub open spec fn line_len(s: Seq<char>, l: nat) -> int {
    line_start(s, l + 1) - line_start(s, l)
}

/// The number of characters of line `l` without its line break.
pub open spec fn line_content_len(s: Seq<char>, l: nat) -> int {
    if l + 1 >= line_count(s) {
        s.len() - line_start(s, l)
    } else {
        let next = line_start(s, l + 1);
        if next - 2 >= line_start(s, l) && s[next - 1] == '\n' && s[next - 2] == '\r' {
            line_len(s, l) - 2
        } else {
            line_len(s, l) - 1
        }
    }
}

/// The number of UTF-8 bytes of the first `i` characters of `s`.
pub open spec fn byte_offset(s: Seq<char>, i: int) -> int {
    encode_utf8(s.subrange(0, i)).len() as int
}

/// The index of the character whose UTF-8 encoding holds byte `b` of `s`,
/// searched from character `c` on; `s.len()` for a byte past the last
/// character.
pub open spec fn char_index_from(s: Seq<char>, b: int, c: int) -> int
    decreases s.len() - c,
{
    if c >= s.len() || byte_offset(s, c + 1) > b {
        c
    } else {
        char_index_from(s, b, c + 1)
    }
}

/// The index of the character whose UTF-8 encoding holds byte `b` of `s`
/// (`s.len()` for the byte length).
pub open spec fn char_index_of_byte(s: Seq<char>, b: int) -> int {
    char_index_from(s, b, 0)
}

pub proof fn lemma_encode_utf8_concat(a: Seq<char>, b: Seq<char>)
    ensures
        encode_utf8(a + b) == encode_utf8(a) + encode_utf8(b),
    decreases a.len(),
{
    if a.len() == 0 {
        assert(a + b =~= b);
        assert(encode_utf8(a) + encode_utf8(b) =~= encode_utf8(b));
    } else {
        assert((a + b).drop_first() =~= a.drop_first() + b);
        lemma_encode_utf8_concat(a.drop_first(), b);
        assert((a + b)[0] == a[0]);
        assert(encode_utf8(a + b) =~= encode_utf8(a) + encode_utf8(b));
    }
}

/// The bytes before a character index are at most all the bytes.
pub proof fn lemma_byte_offset_bound(s: Seq<char>, i: int)
    requires
        0 <= i <= s.len(),
    ensures
        0 <= byte_offset(s, i) <= encode_utf8(s).len(),
{
    assert(s =~= s.subrange(0, i) + s.subrange(i, s.len() as int));
    lemma_encode_utf8_concat(s.subrange(0, i), s.subrange(i, s.len() as int));
}

pub proof fn lemma_line_of_monotone(s: Seq<char>, i: int, j: int)
    requires
        i <= j,
    ensures
        line_of(s, i) <= line_of(s, j),
    decreases j - i,
{
    if i < j {
        lemma_line_of_monotone(s, i, j - 1);
    }
}

pub proof fn lemma_line_of_step(s: Seq<char>, i: int)
    requires
        0 <= i,
    ensures
        line_of(s, i) <= line_of(s, i + 1) <= line_of(s, i) + 1,
        line_of(s, i + 1) == line_of(s, i) + 1 <==> starts_line(s, i + 1),
{
}

pub proof fn lemma_line_start_from(s: Seq<char>, l: nat, p: int, q: int)
    requires
        0 <= p <= q <= s.len(),
        line_of(s, q) >= l,
    ensures
        p <= line_start_from(s, l, p) <= q,
        line_of(s, line_start_from(s, l, p)) >= l,
        forall|r: int| p <= r < line_start_from(s, l, p) ==> line_of(s, r) < l,
    decreases s.len() - p,
{
    if !(p >= s.len() || line_of(s, p) >= l) {
        lemma_line_start_from(s, l, p + 1, q);
    }
}

pub proof fn lemma_line_start_past_end(s: Seq<char>, l: nat, p: int)
    requires
        0 <= p <= s.len(),
        l >= line_count(s),
    ensures
        line_start_from(s, l, p) == s.len(),
    decreases s.len() - p,
{
    lemma_line_of_monotone(s, p, s.len() as int);
    if p < s.len() {
        lemma_line_start_past_end(s, l, p + 1);
    }
}

/// Facts about where line `l` starts.
pub proof fn lemma_line_start(s: Seq<char>, l: nat)
    requires
        l <= line_count(s),
    ensures
        0 <= line_start(s, l) <= s.len(),
        l < line_count(s) ==> line_of(s, line_start(s, l)) == l,
        l == line_count(s) ==> line_start(s, l) == s.len(),
        l == 0 ==> line_start(s, l) == 0,
        l > 0 && l < line_count(s) ==> starts_line(s, line_start(s, l)),
        forall|r: int| 0 <= r < line_start(s, l) ==> line_of(s, r) < l,
{
    if l == line_count(s) {
        lemma_line_start_past_end(s, l, 0);
        lemma_line_start_from(s, (l - 1) as nat, 0, s.len() as int);
        assert forall|r: int| 0 <= r < line_start(s, l) implies line_of(s, r) < l by {
            lemma_line_of_monotone(s, r, s.len() as int);
        }
    } else {
        lemma_line_start_from(s, l, 0, s.len() as int);
        let p = line_start(s, l);
        if l > 0 {
            assert(p > 0);
            lemma_line_of_step(s, p - 1);
            assert(line_of(s, p - 1) < l);
        } else {
            assert(p == 0);
        }
    }
}

/// The line a position is on starts at or before it, and the next line
/// starts after it.
pub proof fn lemma_position_in_line(s: Seq<char>, c: int)
    requires
        0 <= c <= s.len(),
    ensures
        line_of(s, c) < line_count(s),
        line_start(s, line_of(s, c)) <= c,
        c < line_start(s, line_of(s, c) + 1) || (line_of(s, c) + 1 == line_count(s) && c
            == s.len()),
{
    lemma_line_of_monotone(s, c, s.len() as int);
    let l = line_of(s, c);
    lemma_line_start_from(s, l, 0, c);
    lemma_line_start(s, l + 1);
    if l + 1 < line_count(s) {
        let q = line_start(s, l + 1);
        if q <= c {
            lemma_line_of_monotone(s, q, c);
        }
    }
}

/// Line starts do not decrease with the line index.
pub proof fn lemma_line_start_monotone(s: Seq<char>, a: nat, b: nat)
    requires
        a <= b <= line_count(s),
    ensures
        line_start(s, a) <= line_start(s, b),
{
    lemma_line_start(s, a);
    lemma_line_start(s, b);
    if line_start(s, b) < line_start(s, a) {
        let q = line_start(s, b);
        if b < line_count(s) {
            assert(line_of(s, q) == b);
        } else {
            assert(q == s.len());
            lemma_line_of_monotone(s, line_start(s, a), s.len() as int);
        }
    }
}

/// A line's text without its break is no longer than the line.
pub proof fn lemma_line_content_len(s: Seq<char>, l: nat)
    requires
        l < line_count(s),
    ensures
        0 <= line_content_len(s, l) <= line_len(s, l),
        line_start(s, l) + line_content_len(s, l) <= s.len(),
{
    lemma_line_start(s, l);
    lemma_line_start(s, l + 1);
    lemma_line_start_monotone(s, l, l + 1);
    if l + 1 < line_count(s) {
        let next = line_start(s, l + 1);
        assert(starts_line(s, next));
        assert(next > line_start(s, l)) by {
            if next == line_start(s, l) {
                assert(line_of(s, next) == l + 1);
            }
        }
    }
}

/// An empty rope.
#[verifier::external_body]
pub(crate) fn rope_new() -> (r: Rope)
    ensures
        rope_text(r) == Seq::<char>::empty(),
{
    Rope::new()
}

/// `Rope::from(String)`: a rope holding the text of `s`.
#[verifier::external_body]
pub(crate) fn rope_from_string(s: String) -> (r: Rope)
    ensures
        rope_text(r) == s@,
{
    Rope::from(s)
}

/// `Rope::clone`: a rope with the same text.
#[verifier::external_body]
pub(crate) fn rope_clone(r: &Rope) -> (c: Rope)
    ensures
        rope_text(c) == rope_text(*r),
{
    r.clone()
}

/// `Rope::to_string` (through its `Display`, which writes every chunk in
/// order): the text of the rope.
#[verifier::external_body]
pub(crate) fn rope_to_string(r: &Rope) -> (s: String)
    ensures
        s@ == rope_text(*r),
{
    r.to_string()
}

/// `Rope::len_chars`: the number of characters.
#[verifier::external_body]
pub(crate) fn rope_len_chars(r: &Rope) -> (n: usize)
    ensures
        n == rope_text(*r).len(),
{
    r.len_chars()
}

/// `Rope::len_bytes`: the length of the text in UTF-8.
#[verifier::external_body]
pub(crate) fn rope_len_bytes(r: &Rope) -> (n: usize)
    ensures
        n == encode_utf8(rope_text(*r)).len(),
{
    r.len_bytes()
}

/// `Rope::len_lines`: the number of lines.
#[verifier::external_body]
pub(crate) fn rope_len_lines(r: &Rope) -> (n: usize)
    ensures
        n == line_count(rope_text(*r)),
{
    r.len_lines()
}

/// `Rope::insert_char`: puts `ch` at character index `idx`.
#[verifier::external_body]
pub(crate) fn rope_insert_char(r: &mut Rope, idx: usize, ch: char)
    requires
        idx <= rope_text(*old(r)).len(),
    ensures
        rope_text(*final(r)) == rope_text(*old(r)).insert(idx as int, ch),
{
    r.insert_char(idx, ch)
}

/// `Rope::remove(start..end)`: drops the characters from `start` up to (not
/// including) `end`.
#[verifier::external_body]
pub(crate) fn rope_remove(r: &mut Rope, start: usize, end: usize)
    requires
        start <= end <= rope_text(*old(r)).len(),
    ensures
        rope_text(*final(r)) == rope_text(*old(r)).subrange(0, start as int) + rope_text(
            *old(r),
        ).subrange(end as int, rope_text(*old(r)).len() as int),
{
    r.remove(start..end)
}

/// `Rope::char`: the character at index `idx`.
#[verifier::external_body]
pub(crate) fn rope_char(r: &Rope, idx: usize) -> (c: char)
    requires
        idx < rope_text(*r).len(),
    ensures
        c == rope_text(*r)[idx as int],
{
    r.char(idx)
}

/// `Rope::char_to_line`: the line that character index `idx` is on.
#[verifier::external_body]
pub(crate) fn rope_char_to_line(r: &Rope, idx: usize) -> (l: usize)
    requires
        idx <= rope_text(*r).len(),
    ensures
        l == line_of(rope_text(*r), idx as int),
{
    r.char_to_line(idx)
}

/// `Rope::line_to_char`: the character index where line `line` starts
/// (one past the end for the line after the last).
#[verifier::external_body]
pub(crate) fn rope_line_to_char(r: &Rope, line: usize) -> (c: usize)
    requires
        line <= line_count(rope_text(*r)),
    ensures
        c == line_start(rope_text(*r), line as nat),
{
    r.line_to_char(line)
}

/// `Rope::line(line).len_chars()`: the number of characters of line
/// `line`, its line break included.
#[verifier::external_body]
pub(crate) fn rope_line_len_chars(r: &Rope, line: usize) -> (n: usize)
    requires
        line < line_count(rope_text(*r)),
    ensures
        n == line_len(rope_text(*r), line as nat),
{
    r.line(line).len_chars()
}

/// `Rope::line_to_byte`: the byte index where line `line` starts.
#[verifier::external_body]
pub(crate) fn rope_line_to_byte(r: &Rope, line: usize) -> (b: usize)
    requires
        line <= line_count(rope_text(*r)),
    ensures
        b == byte_offset(rope_text(*r), line_start(rope_text(*r), line as nat)),
{
    r.line_to_byte(line)
}

/// `Rope::byte_to_char`: the index of the character that byte `byte`
/// belongs to (one past the end for the byte length).
#[verifier::external_body]
pub(crate) fn rope_byte_to_char(r: &Rope, byte: usize) -> (c: usize)
    requires
        byte <= encode_utf8(rope_text(*r)).len(),
    ensures
        c == char_index_of_byte(rope_text(*r), byte as int),
{
    r.byte_to_char(byte)
}

/// `Rope::chunks().count()`: how many chunks the rope keeps its text in.
/// How a text is cut into chunks depends on the history of edits, so nothing
/// is stated of the number.
#[verifier::external_body]
pub(crate) fn rope_chunk_count(r: &Rope) -> (n: usize) {
    r.chunks().count()
}

} // verus!
