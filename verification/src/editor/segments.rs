//! Cutting a line into the plain and highlighted pieces it is drawn in.
use vstd::prelude::*;
use crate::syntax::HighlightType;

verus! {

/// A piece of a line to draw: characters `start..end`, with the style of a
/// highlight or plain.
pub type Segment = (usize, usize, Option<HighlightType>);

/// The pieces of a line of `len` characters drawn with `hs` after
/// position `last_end`: the plain text before each highlight, the
/// highlight itself if it ends within the line, and the plain rest.
pub open spec fn segments_from(hs: Seq<(usize, usize, HighlightType)>, last_end: usize, len: usize) -> Seq<
    Segment,
>
    decreases hs.len(),
{
    if hs.len() == 0 {
        if last_end < len {
            seq![(last_end, len, None)]
        } else {
            Seq::empty()
        }
    } else {
        let (start, end, t) = hs[0];
        let plain: Seq<Segment> = if start > last_end {
            seq![(last_end, start, None)]
        } else {
            Seq::empty()
        };
        let styled: Seq<Segment> = if end <= len {
            seq![(start, end, Some(t))]
        } else {
            Seq::empty()
        };
        plain + styled + segments_from(hs.drop_first(), end, len)
    }
}

/// Whether drawing `hs` after `last_end` on a line of `len` characters
/// stays within the line: a plain piece must end within it and a drawn
/// highlight must not end before it starts.
pub open spec fn segments_fit(hs: Seq<(usize, usize, HighlightType)>, last_end: usize, len: usize) -> bool
    decreases hs.len(),
{
    hs.len() == 0 || ((hs[0].0 > last_end ==> hs[0].0 <= len) && (hs[0].1 <= len ==> hs[0].0
        <= hs[0].1) && segments_fit(hs.drop_first(), hs[0].1, len))
}

/// Whether drawing `hs` on a line of `len` characters stays within the
/// line (see `segments_fit`).
pub fn highlights_fit(len: usize, hs: &Vec<(usize, usize, HighlightType)>) -> (b: bool)
    ensures
        b == segments_fit(hs@, 0, len),
{
    let mut last_end: usize = 0;
    let mut i: usize = 0;
    assert(hs@.skip(0) =~= hs@);
    while i < hs.len()
        invariant
            i <= hs@.len(),
            segments_fit(hs@, 0, len) == segments_fit(hs@.skip(i as int), last_end, len),
        decreases hs.len() - i,
    {
        let (start, end, _) = hs[i];
        assert(hs@.skip(i as int)[0] == hs@[i as int]);
        assert(hs@.skip(i as int).drop_first() =~= hs@.skip(i + 1));
        if start > last_end && start > len {
            return false;
        }
        if end <= len && start > end {
            return false;
        }
        last_end = end;
        i += 1;
    }
    true
}

/// Cuts a line of `len` characters into the pieces that draw it with the
/// highlights `hs` (see `segments_from`).
pub fn highlight_segments(len: usize, hs: &Vec<(usize, usize, HighlightType)>) -> (r: Vec<Segment>)
    requires
        segments_fit(hs@, 0, len),
    ensures
        r@ == segments_from(hs@, 0, len),
{
    let mut r: Vec<Segment> = Vec::new();
    let mut last_end: usize = 0;
    let mut i: usize = 0;
    assert(hs@.skip(0) =~= hs@);
    while i < hs.len()
        invariant
            i <= hs@.len(),
            segments_fit(hs@.skip(i as int), last_end, len),
            r@ + segments_from(hs@.skip(i as int), last_end, len) == segments_from(hs@, 0, len),
        decreases hs.len() - i,
    {
        let (start, end, t) = hs[i];
        let ghost rest = hs@.skip(i as int);
        let ghost old_end = last_end;
        let ghost before = r@;
        assert(rest[0] == hs@[i as int]);
        assert(rest.drop_first() =~= hs@.skip(i + 1));
        if start > last_end {
            r.push((last_end, start, None));
        }
        if end <= len {
            r.push((start, end, Some(t)));
        }
        last_end = end;
        i += 1;
        assert(r@ + segments_from(hs@.skip(i as int), last_end, len) =~= before + segments_from(
            rest,
            old_end,
            len,
        ));
    }
    if last_end < len {
        r.push((last_end, len, None));
    }
    assert(hs@.skip(i as int) =~= Seq::<(usize, usize, HighlightType)>::empty());
    r
}

} // verus!
