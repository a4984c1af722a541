//! A fixed-size pixel framebuffer.
//!
//! A [`FrameBuf`] owns a contiguous row-major grid of pixel colors. Callers
//! draw into it through [`FrameBuf::draw_iter`] and [`FrameBuf::clear`],
//! read it back pixel by pixel through [`FrameBuf::into_iter`], and hand it
//! to a display transport as raw 16-bit words through [`AsWords`].

mod pixel;
mod framebuffer;
mod words;
mod laws;

pub use pixel::Color;
pub use pixel::Pixel;
pub use framebuffer::FrameBuf;
pub use framebuffer::FrameBufIntoIterator;
pub use framebuffer::draw_all;
pub use framebuffer::draw_one;
pub use framebuffer::in_bounds;
pub use framebuffer::lemma_wf_facts;
pub use words::AsWords;
pub use laws::lemma_draw_single_in_range;
pub use laws::lemma_draw_single_out_of_range;
pub use laws::lemma_last_write_wins;
pub use laws::lemma_clear_then_iterate;
pub use laws::lemma_clear_black_then_iterate;
pub use laws::lemma_iterate_twice;
