use roborace2023::font::Font;
use roborace2023::lcd::Lcd;

const BLACK: (u8, u8, u8) = (0, 0, 0);
const WHITE: (u8, u8, u8) = (255, 255, 255);

/// A font of glyphs two pixels wide and three high, in which the pixel in
/// column `x` and row `y` of the glyph `g` is set where `x + y + g` is even.
fn patterned_font() -> Font {
    let (width, height, count) = (2, 3, 96);
    let mut bytes = vec![0u8; width * height * count / 8];
    for y in 0..height {
        for g in 0..count {
            for x in 0..width {
                if (x + y + g) % 2 == 0 {
                    let pos = y * count * width + g * width + x;
                    bytes[pos / 8] |= 1 << (pos % 8);
                }
            }
        }
    }
    Font::new(Box::leak(bytes.into_boxed_slice()), width, height, 2, 2, count, ' ')
}

fn rows(lcd: &Lcd) -> Vec<String> {
    (0..lcd.height())
        .map(|y| {
            (0..lcd.width())
                .map(|x| match lcd.pixel(x, y) {
                    Some(BLACK) => '#',
                    Some(WHITE) => '.',
                    other => panic!("{:?}", other),
                })
                .collect()
        })
        .collect()
}

#[test]
fn a_new_screen_is_cleared() {
    let lcd = Lcd::new(5, 3, patterned_font()).unwrap();
    assert_eq!((lcd.width(), lcd.height()), (5, 3));
    assert_eq!(rows(&lcd), vec![".....", ".....", "....."]);
    assert_eq!(lcd.pixel(5, 0), None);
    assert_eq!(lcd.pixel(0, 3), None);
    assert_eq!(lcd.pixel(u32::MAX, u32::MAX), None);
    assert_eq!(lcd.font().width, 2);
}

#[test]
fn a_screen_may_be_empty_but_not_beyond_memory() {
    let empty = Lcd::new(0, 7, patterned_font()).unwrap();
    assert_eq!((empty.width(), empty.height()), (0, 7));
    assert_eq!(empty.pixel(0, 0), None);
    assert!(Lcd::new(u32::MAX, u32::MAX, patterned_font()).is_none());
    assert!(Lcd::new(1 << 31, 1 << 31, patterned_font()).is_none());
}

#[test]
fn a_glyph_is_drawn_into_its_cell() {
    let mut lcd = Lcd::new(6, 6, patterned_font()).unwrap();
    // '!' is glyph 1: set where x + y is odd.
    lcd.draw_char('!', 1, 1);
    assert_eq!(rows(&lcd), vec!["......", "......", "......", "...#..", "..#...", "...#.."]);
    // ' ' is glyph 0: set where x + y is even. It replaces what was there.
    lcd.draw_char(' ', 1, 1);
    assert_eq!(rows(&lcd), vec!["......", "......", "......", "..#...", "...#..", "..#..."]);
    lcd.draw_char('!', 0, 0);
    assert_eq!(rows(&lcd), vec![".#....", "#.....", ".#....", "..#...", "...#..", "..#..."]);
}

#[test]
fn a_character_without_a_glyph_clears_its_cell() {
    let mut lcd = Lcd::new(4, 3, patterned_font()).unwrap();
    lcd.draw_str("  ", 0, 0);
    assert_eq!(rows(&lcd), vec!["#.#.", ".#.#", "#.#."]);
    lcd.draw_char('\u{7}', 1, 0);
    assert_eq!(rows(&lcd), vec!["#...", ".#..", "#..."]);
}

#[test]
fn what_lies_beyond_the_screen_is_left_out() {
    let mut lcd = Lcd::new(3, 4, patterned_font()).unwrap();
    lcd.draw_char(' ', 1, 1);
    assert_eq!(rows(&lcd), vec!["...", "...", "...", "..#"]);
    lcd.draw_char(' ', 2, 0);
    lcd.draw_char(' ', 0, 2);
    lcd.draw_char(' ', 1_000_000, 1_000_000);
    assert_eq!(rows(&lcd), vec!["...", "...", "...", "..#"]);
}

#[test]
fn a_text_is_drawn_cell_after_cell() {
    let mut lcd = Lcd::new(7, 3, patterned_font()).unwrap();
    lcd.draw_str(" !!", 0, 0);
    assert_eq!(rows(&lcd), vec!["#..#.#.", ".##.#..", "#..#.#."]);
    let mut single = Lcd::new(7, 3, patterned_font()).unwrap();
    single.draw_char(' ', 0, 0);
    single.draw_char('!', 1, 0);
    single.draw_char('!', 2, 0);
    assert_eq!(rows(&single), rows(&lcd));
    lcd.draw_str("", 0, 0);
    assert_eq!(rows(&single), rows(&lcd));
}

#[test]
fn clearing_wipes_the_screen() {
    let mut lcd = Lcd::new(4, 3, patterned_font()).unwrap();
    lcd.draw_str("  ", 0, 0);
    lcd.clear();
    assert_eq!(rows(&lcd), vec!["....", "....", "...."]);
    assert_eq!((lcd.width(), lcd.height()), (4, 3));
}
