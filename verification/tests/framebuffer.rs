use framebuf::AsWords;
use framebuf::Color;
use framebuf::FrameBuf;
use framebuf::Pixel;

#[test]
fn size_reports_fixed_dimensions() {
    let fb = FrameBuf::new(5, 2, Color(0));
    assert_eq!(fb.size(), (5, 2));
}

#[test]
fn new_fills_with_given_color() {
    let fb = FrameBuf::new(3, 2, Color(11));
    let got = fb.pixels();
    assert_eq!(got.len(), 6);
    assert!(got.iter().all(|c| *c == Color(11)));
}

#[test]
fn from_storage_keeps_contents() {
    let fb = FrameBuf::from_storage(2, 2, vec![Color(1), Color(2), Color(3), Color(4)]);
    assert_eq!(fb.pixels(), vec![Color(1), Color(2), Color(3), Color(4)]);
}

#[test]
fn draw_in_range_sets_only_its_cell() {
    let mut fb = FrameBuf::new(3, 2, Color(7));
    fb.draw_iter(&vec![Pixel { x: 1, y: 1, color: Color(42) }]);
    assert_eq!(
        fb.pixels(),
        vec![Color(7), Color(7), Color(7), Color(7), Color(42), Color(7)],
    );
}

#[test]
fn draw_out_of_range_is_discarded() {
    let mut fb = FrameBuf::new(2, 2, Color(3));
    let before = fb.pixels();
    fb.draw_iter(&vec![
        Pixel { x: -1, y: 0, color: Color(9) },
        Pixel { x: 2, y: 0, color: Color(9) },
        Pixel { x: 0, y: -1, color: Color(9) },
        Pixel { x: 0, y: 2, color: Color(9) },
    ]);
    assert_eq!(fb.pixels(), before);
}

#[test]
fn draw_applies_writes_in_input_order() {
    let mut fb = FrameBuf::new(2, 2, Color(0));
    fb.draw_iter(&vec![
        Pixel { x: 1, y: 0, color: Color(5) },
        Pixel { x: 0, y: 1, color: Color(6) },
    ]);
    assert_eq!(fb.pixels(), vec![Color(0), Color(5), Color(6), Color(0)]);
}

#[test]
fn last_write_wins_on_one_cell() {
    let mut fb = FrameBuf::new(2, 2, Color(0));
    fb.draw_iter(&vec![
        Pixel { x: 1, y: 0, color: Color(1) },
        Pixel { x: 1, y: 0, color: Color(2) },
    ]);
    assert_eq!(fb.pixels(), vec![Color(0), Color(2), Color(0), Color(0)]);
}

#[test]
fn partially_off_buffer_drawing_drops_only_the_stray_write() {
    let mut fb = FrameBuf::new(2, 2, Color(0));
    fb.draw_iter(&vec![
        Pixel { x: 0, y: 0, color: Color(1) },
        Pixel { x: 1, y: 1, color: Color(2) },
        Pixel { x: 5, y: 5, color: Color(9) },
    ]);
    assert_eq!(fb.pixels(), vec![Color(1), Color(0), Color(0), Color(2)]);
}

#[test]
fn clear_fills_every_cell() {
    let mut fb = FrameBuf::new(4, 3, Color(0));
    fb.draw_iter(&vec![Pixel { x: 2, y: 1, color: Color(77) }]);
    fb.clear(Color(0x1234));
    let got = fb.pixels();
    assert_eq!(got.len(), 12);
    assert!(got.iter().all(|c| *c == Color(0x1234)));
}

#[test]
fn clear_black_fills_with_the_default_color() {
    let mut fb = FrameBuf::new(3, 3, Color(0xFFFF));
    fb.clear_black();
    let got = fb.pixels();
    assert_eq!(got.len(), 9);
    assert!(got.iter().all(|c| *c == Color::default()));
    assert!(got.iter().all(|c| *c == Color(0)));
}

#[test]
fn iterating_twice_yields_identical_sequences() {
    let mut fb = FrameBuf::new(3, 3, Color(0));
    fb.draw_iter(&vec![Pixel { x: 2, y: 0, color: Color(5) }]);
    let first = fb.pixels();
    let second = fb.pixels();
    assert_eq!(first.len(), 9);
    assert_eq!(first, second);
}

#[test]
fn cursor_walks_row_major_and_then_ends() {
    let fb = FrameBuf::from_storage(2, 2, vec![Color(1), Color(2), Color(3), Color(4)]);
    let mut it = fb.into_iter();
    assert_eq!(it.next(), Some(Color(1)));
    assert_eq!(it.next(), Some(Color(2)));
    assert_eq!(it.next(), Some(Color(3)));
    assert_eq!(it.next(), Some(Color(4)));
    assert_eq!(it.next(), None);
    assert_eq!(it.next(), None);
}

#[test]
fn each_cursor_starts_a_fresh_pass() {
    let fb = FrameBuf::from_storage(1, 2, vec![Color(8), Color(9)]);
    let mut first = fb.into_iter();
    assert_eq!(first.next(), Some(Color(8)));
    let mut second = fb.into_iter();
    assert_eq!(second.next(), Some(Color(8)));
    assert_eq!(first.next(), Some(Color(9)));
}

#[test]
fn words_match_colors_one_to_one_in_order() {
    let fb = FrameBuf::from_storage(2, 2, vec![Color(0xBEEF), Color(7), Color(0), Color(513)]);
    assert_eq!(fb.as_words(), vec![0xBEEF, 7, 0, 513]);
}

#[test]
fn one_by_one_buffer() {
    let mut fb = FrameBuf::new(1, 1, Color(4));
    assert_eq!(fb.size(), (1, 1));
    assert_eq!(fb.pixels(), vec![Color(4)]);
    fb.draw_iter(&vec![
        Pixel { x: 0, y: 0, color: Color(6) },
        Pixel { x: 1, y: 0, color: Color(7) },
    ]);
    assert_eq!(fb.pixels(), vec![Color(6)]);
}
