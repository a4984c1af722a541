//! The raw word view: the buffer's storage as 16-bit words for bulk
//! transfer to a display transport.

use vstd::prelude::*;
use crate::pixel::Color;
use crate::framebuffer::FrameBuf;

verus! {

/// Exposes a value's backing storage as 16-bit unsigned words.
pub trait AsWords {
    /// The words the storage holds, in storage order.
    spec fn words(&self) -> Seq<u16>;

    /// The backing storage as 16-bit words, one word per stored value, in
    /// the same order, with nothing added, dropped or reordered.
    fn as_words(&self) -> (r: Vec<u16>)
        ensures
            r@ == self.words(),
    ;
}

impl AsWords for FrameBuf {
    /// One word per cell in row-major order: the word of the cell's color.
    open spec fn words(&self) -> Seq<u16> {
        self@.map_values(|c: Color| c.0)
    }

    fn as_words(&self) -> (r: Vec<u16>) {
        let colors = self.pixels();
        let mut out: Vec<u16> = Vec::new();
        let mut i: usize = 0;
        while i < colors.len()
            invariant
                i <= colors.len(),
                colors@ == self@,
                out@ == self@.take(i as int).map_values(|c: Color| c.0),
            decreases colors.len() - i,
        {
            let c = colors[i];
            out.push(c.0);
            proof {
                assert(out@ =~= self@.take(i + 1).map_values(|c: Color| c.0));
            }
            i = i + 1;
        }
        proof {
            assert(self@.take(self@.len() as int) =~= self@);
            assert(out@ =~= self@.map_values(|c: Color| c.0));
        }
        out
    }
}

} // verus!
