//! The framebuffer itself: a row-major grid of colors with draw, clear,
//! raw-word and iteration capabilities.

use vstd::prelude::*;
use crate::pixel::Color;
use crate::pixel::Pixel;

verus! {

/// Does `(x, y)` lie inside a `w`-by-`h` grid?
pub open spec fn in_bounds(x: int, y: int, w: int, h: int) -> bool {
    0 <= x < w && 0 <= y < h
}

/// The effect of one pixel write on row-major contents `s` of a `w`-by-`h`
/// grid: an in-range write updates its cell, an out-of-range write is
/// discarded.
pub open spec fn draw_one(s: Seq<Color>, w: int, h: int, p: Pixel) -> Seq<Color> {
    if in_bounds(p.x as int, p.y as int, w, h) {
        s.update(p.y as int * w + p.x as int, p.color)
    } else {
        s
    }
}

/// The effect of a sequence of pixel writes, applied in input order.
pub open spec fn draw_all(s: Seq<Color>, w: int, h: int, ps: Seq<Pixel>) -> Seq<Color>
    decreases ps.len(),
{
    if ps.len() == 0 {
        s
    } else {
        draw_one(draw_all(s, w, h, ps.drop_last()), w, h, ps.last())
    }
}

/// An in-range coordinate pair maps to a row-major index inside the grid.
pub(crate) proof fn lemma_index_in_range(x: int, y: int, w: int, h: int)
    requires
        in_bounds(x, y, w, h),
    ensures
        0 <= y * w + x < w * h,
{
    assert(0 <= y * w + x < w * h) by (nonlinear_arith)
        requires
            0 <= x < w,
            0 <= y < h;
}

/// Distinct in-range coordinate pairs map to distinct row-major indices.
pub(crate) proof fn lemma_index_injective(x1: int, y1: int, x2: int, y2: int, w: int, h: int)
    requires
        in_bounds(x1, y1, w, h),
        in_bounds(x2, y2, w, h),
        y1 * w + x1 == y2 * w + x2,
    ensures
        x1 == x2,
        y1 == y2,
{
    assert(x1 == x2 && y1 == y2) by (nonlinear_arith)
        requires
            0 <= x1 < w,
            0 <= y1 < h,
            0 <= x2 < w,
            0 <= y2 < h,
            y1 * w + x1 == y2 * w + x2;
}

/// A fixed-size framebuffer: `width * height` colors in row-major order.
///
/// The cell at column `x` of row `y` is `storage[y * width + x]`. The
/// dimensions are fixed at construction and never change afterwards.
pub struct FrameBuf {
    width: usize,
    height: usize,
    storage: Vec<Color>,
}

impl View for FrameBuf {
    type V = Seq<Color>;

    /// The buffer's contents in row-major order.
    closed spec fn view(&self) -> Seq<Color> {
        self.storage@
    }
}

impl FrameBuf {
    /// Both dimensions are positive and the storage covers the whole grid.
    /// Every buffer that can be constructed satisfies this: it is enforced
    /// as a type invariant.
    #[verifier::type_invariant]
    pub closed spec fn wf(&self) -> bool {
        &&& 1 <= self.width
        &&& 1 <= self.height
        &&& self.storage@.len() == self.width * self.height
    }

    /// The fixed number of columns.
    pub closed spec fn spec_width(&self) -> int {
        self.width as int
    }

    /// The fixed number of rows.
    pub closed spec fn spec_height(&self) -> int {
        self.height as int
    }

    /// The contents of the cell at column `x` of row `y`.
    pub open spec fn cell(&self, x: int, y: int) -> Color {
        self@[y * self.spec_width() + x]
    }

    /// A buffer of the given dimensions with every cell set to `fill`.
    pub fn new(width: usize, height: usize, fill: Color) -> (r: FrameBuf)
        requires
            1 <= width,
            1 <= height,
            width * height <= usize::MAX,
        ensures
            r.spec_width() == width,
            r.spec_height() == height,
            r@ == Seq::new((width * height) as nat, |i: int| fill),
    {
        let total: usize = width * height;
        let mut storage: Vec<Color> = Vec::new();
        let mut i: usize = 0;
        while i < total
            invariant
                i <= total,
                storage@ == Seq::new(i as nat, |j: int| fill),
            decreases total - i,
        {
            storage.push(fill);
            proof {
                assert(storage@ =~= Seq::new((i + 1) as nat, |j: int| fill));
            }
            i = i + 1;
        }
        FrameBuf { width, height, storage }
    }

    /// A buffer over a caller-supplied, fully populated pixel array.
    pub fn from_storage(width: usize, height: usize, storage: Vec<Color>) -> (r: FrameBuf)
        requires
            1 <= width,
            1 <= height,
            storage@.len() == width * height,
        ensures
            r.spec_width() == width,
            r.spec_height() == height,
            r@ == storage@,
    {
        FrameBuf { width, height, storage }
    }

    /// Applies each pixel write in input order: a write whose coordinates
    /// lie inside the grid replaces that cell, any other write is silently
    /// discarded. Later writes to a cell overwrite earlier ones.
    pub fn draw_iter(&mut self, pixels: &Vec<Pixel>)
        ensures
            final(self).spec_width() == old(self).spec_width(),
            final(self).spec_height() == old(self).spec_height(),
            final(self)@ == draw_all(
                old(self)@,
                old(self).spec_width(),
                old(self).spec_height(),
                pixels@,
            ),
    {
        proof {
            use_type_invariant(&*self);
        }
        let w = self.width;
        let h = self.height;
        let total: usize = self.storage.len();
        let ghost s0 = self@;
        let ghost ps = pixels@;
        let mut i: usize = 0;
        while i < pixels.len()
            invariant
                i <= pixels.len(),
                self.width == w,
                self.height == h,
                1 <= w,
                1 <= h,
                total == w * h,
                self@.len() == total,
                s0.len() == total,
                ps == pixels@,
                self@ == draw_all(s0, w as int, h as int, ps.take(i as int)),
            decreases pixels.len() - i,
        {
            let p = pixels[i];
            proof {
                assert(ps.take(i + 1).drop_last() =~= ps.take(i as int));
                assert(ps.take(i + 1).last() == ps[i as int]);
            }
            if p.x >= 0 && p.y >= 0 && (p.x as usize) < w && (p.y as usize) < h {
                proof {
                    lemma_index_in_range(p.x as int, p.y as int, w as int, h as int);
                }
                let idx: usize = (p.y as usize) * w + (p.x as usize);
                self.storage[idx] = p.color;
            }
            i = i + 1;
        }
        proof {
            assert(ps.take(pixels@.len() as int) =~= ps);
        }
    }

    /// Overwrites every cell with the given color.
    pub fn clear(&mut self, color: Color)
        ensures
            final(self).spec_width() == old(self).spec_width(),
            final(self).spec_height() == old(self).spec_height(),
            final(self)@ == Seq::new(old(self)@.len(), |i: int| color),
    {
        proof {
            use_type_invariant(&*self);
        }
        let w = self.width;
        let h = self.height;
        let total: usize = self.storage.len();
        let mut i: usize = 0;
        while i < total
            invariant
                i <= total,
                self.width == w,
                self.height == h,
                1 <= w,
                1 <= h,
                total == w * h,
                self@.len() == total,
                forall|j: int| 0 <= j < i ==> self@[j] == color,
            decreases total - i,
        {
            self.storage[i] = color;
            i = i + 1;
        }
        proof {
            assert(self@ =~= Seq::new(self@.len(), |i: int| color));
        }
    }

    /// Overwrites every cell with the default color (zero, black).
    pub fn clear_black(&mut self)
        ensures
            final(self).spec_width() == old(self).spec_width(),
            final(self).spec_height() == old(self).spec_height(),
            final(self)@ == Seq::new(old(self)@.len(), |i: int| Color(0u16)),
    {
        let black = Color::default();
        self.clear(black);
    }

    /// The fixed dimensions, as `(width, height)`.
    pub fn size(&self) -> (r: (usize, usize))
        ensures
            r.0 == self.spec_width(),
            r.1 == self.spec_height(),
    {
        (self.width, self.height)
    }

    /// The sequence of colors a fresh cursor yields: the row-major contents.
    pub open spec fn iter_seq(&self) -> Seq<Color> {
        self@
    }

    /// A fresh cursor over this buffer, starting at the first cell of the
    /// first row. Iterating never mutates the buffer, and each call starts
    /// a new pass.
    pub fn into_iter(&self) -> (r: FrameBufIntoIterator)
        ensures
            r.buf() == *self,
            r.pos() == 0,
    {
        FrameBufIntoIterator { fbuf: self, index: 0 }
    }

    /// All colors in row-major order, read through a fresh cursor.
    pub fn pixels(&self) -> (r: Vec<Color>)
        ensures
            r@ == self.iter_seq(),
    {
        let mut out: Vec<Color> = Vec::new();
        let mut it = self.into_iter();
        loop
            invariant
                it.buf() == *self,
                0 <= it.pos() <= self@.len(),
                out@ == self@.take(it.pos()),
            ensures
                out@ == self@,
            decreases self@.len() - it.pos(),
        {
            match it.next() {
                Some(c) => {
                    out.push(c);
                    proof {
                        assert(out@ =~= self@.take(it.pos()));
                    }
                },
                None => {
                    proof {
                        assert(self@.take(it.pos()) =~= self@);
                    }
                    break;
                },
            }
        }
        out
    }
}

/// What well-formedness says of the public view: the contents cover the
/// whole grid and both dimensions are positive.
pub proof fn lemma_wf_facts(fb: &FrameBuf)
    requires
        fb.wf(),
    ensures
        fb@.len() == fb.spec_width() * fb.spec_height(),
        1 <= fb.spec_width(),
        1 <= fb.spec_height(),
{
}

/// A cursor over a borrowed framebuffer, yielding its colors one cell at a
/// time in row-major order.
pub struct FrameBufIntoIterator<'a> {
    fbuf: &'a FrameBuf,
    index: usize,
}

impl<'a> FrameBufIntoIterator<'a> {
    /// The buffer this cursor walks.
    pub closed spec fn buf(&self) -> FrameBuf {
        *self.fbuf
    }

    /// How many colors this cursor has yielded so far.
    pub closed spec fn pos(&self) -> int {
        self.index as int
    }

    /// The next color in row-major order, or `None` once every cell has
    /// been yielded.
    pub fn next(&mut self) -> (r: Option<Color>)
        ensures
            final(self).buf() == old(self).buf(),
            old(self).pos() < old(self).buf().iter_seq().len() ==> {
                &&& r == Some(old(self).buf().iter_seq()[old(self).pos()])
                &&& final(self).pos() == old(self).pos() + 1
            },
            old(self).pos() >= old(self).buf().iter_seq().len() ==> {
                &&& r == None::<Color>
                &&& final(self).pos() == old(self).pos()
            },
    {
        if self.index >= self.fbuf.storage.len() {
            return None;
        }
        let c = self.fbuf.storage[self.index];
        self.index = self.index + 1;
        Some(c)
    }
}

} // verus!
