//! The laws the framebuffer obeys, stated and proved once for all inputs.
//!
//! Each lemma relates a buffer before an operation to the buffer after it,
//! through the same spec functions the operations' own contracts use.

use vstd::prelude::*;
use crate::pixel::Color;
use crate::pixel::Pixel;
use crate::framebuffer::FrameBuf;
use crate::framebuffer::draw_all;
use crate::framebuffer::draw_one;
use crate::framebuffer::in_bounds;
use crate::framebuffer::lemma_index_in_range;
use crate::framebuffer::lemma_index_injective;
use crate::framebuffer::lemma_wf_facts;

verus! {

/// Drawing a single in-range write sets exactly the addressed cell to the
/// written color and leaves every other cell unchanged.
pub proof fn lemma_draw_single_in_range(before: FrameBuf, after: FrameBuf, p: Pixel)
    requires
        before.wf(),
        in_bounds(p.x as int, p.y as int, before.spec_width(), before.spec_height()),
        after.spec_width() == before.spec_width(),
        after.spec_height() == before.spec_height(),
        after@ == draw_all(before@, before.spec_width(), before.spec_height(), seq![p]),
    ensures
        after@.len() == before@.len(),
        after.cell(p.x as int, p.y as int) == p.color,
        forall|x: int, y: int|
            in_bounds(x, y, before.spec_width(), before.spec_height())
                && !(x == p.x as int && y == p.y as int)
                ==> after.cell(x, y) == before.cell(x, y),
{
    let w = before.spec_width();
    let h = before.spec_height();
    let s = before@;
    lemma_wf_facts(&before);
    assert(seq![p].drop_last() =~= Seq::<Pixel>::empty());
    assert(draw_all(s, w, h, Seq::<Pixel>::empty()) == s);
    assert(draw_all(s, w, h, seq![p]) == draw_one(s, w, h, p));
    lemma_index_in_range(p.x as int, p.y as int, w, h);
    assert forall|x: int, y: int|
        in_bounds(x, y, w, h) && !(x == p.x as int && y == p.y as int)
            implies after.cell(x, y) == before.cell(x, y) by {
        lemma_index_in_range(x, y, w, h);
        if y * w + x == p.y as int * w + p.x as int {
            lemma_index_injective(x, y, p.x as int, p.y as int, w, h);
        }
    }
}

/// Drawing a single write whose coordinates lie outside the grid leaves
/// every cell unchanged: the write is silently discarded.
pub proof fn lemma_draw_single_out_of_range(before: FrameBuf, after: FrameBuf, p: Pixel)
    requires
        !in_bounds(p.x as int, p.y as int, before.spec_width(), before.spec_height()),
        after@ == draw_all(before@, before.spec_width(), before.spec_height(), seq![p]),
    ensures
        after@ == before@,
{
    let w = before.spec_width();
    let h = before.spec_height();
    let s = before@;
    assert(seq![p].drop_last() =~= Seq::<Pixel>::empty());
    assert(draw_all(s, w, h, Seq::<Pixel>::empty()) == s);
    assert(draw_all(s, w, h, seq![p]) == draw_one(s, w, h, p));
}

/// Drawing two writes aimed at the same in-range coordinates, in order,
/// leaves the cell holding the second color: the last write wins.
pub proof fn lemma_last_write_wins(before: FrameBuf, after: FrameBuf, p1: Pixel, p2: Pixel)
    requires
        before.wf(),
        p1.x == p2.x,
        p1.y == p2.y,
        in_bounds(p2.x as int, p2.y as int, before.spec_width(), before.spec_height()),
        after.spec_width() == before.spec_width(),
        after.spec_height() == before.spec_height(),
        after@ == draw_all(before@, before.spec_width(), before.spec_height(), seq![p1, p2]),
    ensures
        after.cell(p2.x as int, p2.y as int) == p2.color,
{
    let w = before.spec_width();
    let h = before.spec_height();
    let s = before@;
    let ps = seq![p1, p2];
    lemma_wf_facts(&before);
    assert(ps.drop_last() =~= seq![p1]);
    assert(seq![p1].drop_last() =~= Seq::<Pixel>::empty());
    assert(draw_all(s, w, h, Seq::<Pixel>::empty()) == s);
    assert(draw_all(s, w, h, seq![p1]) == draw_one(s, w, h, p1));
    assert(draw_all(s, w, h, ps) == draw_one(draw_one(s, w, h, p1), w, h, p2));
    lemma_index_in_range(p2.x as int, p2.y as int, w, h);
}

/// A buffer whose every cell holds `c` — the state `clear(c)` leaves
/// behind — iterates as `width * height` copies of `c` in row-major order.
pub proof fn lemma_clear_then_iterate(fb: FrameBuf, c: Color)
    requires
        fb.wf(),
        fb@ == Seq::new(fb@.len(), |i: int| c),
    ensures
        fb.iter_seq().len() == fb.spec_width() * fb.spec_height(),
        forall|i: int| 0 <= i < fb.iter_seq().len() ==> fb.iter_seq()[i] == c,
{
    lemma_wf_facts(&fb);
}

/// A buffer whose every cell holds the default color — the state
/// `clear_black()` leaves behind — iterates as `width * height` default
/// (zero) pixels.
pub proof fn lemma_clear_black_then_iterate(fb: FrameBuf)
    requires
        fb.wf(),
        fb@ == Seq::new(fb@.len(), |i: int| Color(0u16)),
    ensures
        fb.iter_seq().len() == fb.spec_width() * fb.spec_height(),
        forall|i: int| 0 <= i < fb.iter_seq().len() ==> fb.iter_seq()[i] == Color(0u16),
{
    lemma_wf_facts(&fb);
}

/// Iterating twice in succession, with no mutation in between, yields two
/// identical sequences of `width * height` colors.
pub proof fn lemma_iterate_twice(fb: FrameBuf, first: Seq<Color>, second: Seq<Color>)
    requires
        fb.wf(),
        first == fb.iter_seq(),
        second == fb.iter_seq(),
    ensures
        first == second,
        first.len() == fb.spec_width() * fb.spec_height(),
{
    lemma_wf_facts(&fb);
}

} // verus!
