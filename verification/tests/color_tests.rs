use devtoolbox::color::{build_pixel_color, rgb_to_cmyk, PixelColor};
use devtoolbox::hexcode::parse_hex_color;

fn color(r: u8, g: u8, b: u8) -> PixelColor {
    match build_pixel_color(r, g, b) {
        Ok(color) => color,
        Err(error) => panic!("no colour: {}", error.message),
    }
}

#[test]
fn black_is_all_key() {
    assert_eq!(rgb_to_cmyk(0, 0, 0), (0, 0, 0, 100));
}

#[test]
fn white_has_no_ink() {
    assert_eq!(rgb_to_cmyk(255, 255, 255), (0, 0, 0, 0));
}

#[test]
fn red_is_magenta_and_yellow() {
    assert_eq!(rgb_to_cmyk(255, 0, 0), (0, 100, 100, 0));
}

#[test]
fn cmyk_of_a_dark_blue() {
    // max = 30: c = 20/30, m = 10/30, y = 0, k = 225/255
    assert_eq!(rgb_to_cmyk(10, 20, 30), (67, 33, 0, 88));
}

#[test]
fn cmyk_of_mid_grey() {
    // k = 127/255 = 49.8 %
    assert_eq!(rgb_to_cmyk(128, 128, 128), (0, 0, 0, 50));
}

#[test]
fn cmyk_tie_rounds_up() {
    // c = 2/16 = 12.5 %, k = 239/255 = 93.7 %
    assert_eq!(rgb_to_cmyk(14, 16, 16), (13, 0, 0, 94));
}

#[test]
fn cmyk_is_a_percentage_for_every_grey_and_primary() {
    for v in 0..=255u8 {
        for (r, g, b) in [(v, v, v), (v, 0, 0), (0, v, 0), (0, 0, v), (255, v, 0), (v, 255, 7)] {
            let (c, m, y, k) = rgb_to_cmyk(r, g, b);
            assert!(c <= 100 && m <= 100 && y <= 100 && k <= 100);
        }
    }
}

#[test]
fn texts_of_a_colour() {
    let c = color(10, 20, 30);
    assert_eq!(c.r(), 10);
    assert_eq!(c.g(), 20);
    assert_eq!(c.b(), 30);
    assert_eq!(c.hex(), "#0A141E");
    assert_eq!(c.rgb(), "rgb(10, 20, 30)");
    assert_eq!(c.cmyk(), "cmyk(67%, 33%, 0%, 88%)");
}

#[test]
fn texts_of_black_and_white() {
    let black = color(0, 0, 0);
    assert_eq!(black.hex(), "#000000");
    assert_eq!(black.rgb(), "rgb(0, 0, 0)");
    assert_eq!(black.cmyk(), "cmyk(0%, 0%, 0%, 100%)");
    let white = color(255, 255, 255);
    assert_eq!(white.hex(), "#FFFFFF");
    assert_eq!(white.rgb(), "rgb(255, 255, 255)");
    assert_eq!(white.cmyk(), "cmyk(0%, 0%, 0%, 0%)");
}

#[test]
fn hex_is_upper_case_and_zero_padded() {
    assert_eq!(color(0xAB, 0x0C, 0xF0).hex(), "#AB0CF0");
    assert_eq!(color(1, 2, 3).hex(), "#010203");
    assert_eq!(color(255, 0, 0).cmyk(), "cmyk(0%, 100%, 100%, 0%)");
}

#[test]
fn hex_reads_back_as_the_channels() {
    for v in 0..=255u8 {
        for (r, g, b) in [(v, 0, 255), (7, v, 200), (255 - v, 99, v)] {
            let written = color(r, g, b);
            let read = match parse_hex_color(written.hex()) {
                Ok(read) => read,
                Err(error) => panic!("not read back: {}", error.message),
            };
            assert_eq!((read.r(), read.g(), read.b()), (r, g, b));
            assert_eq!(read.hex(), written.hex());
        }
    }
}

#[test]
fn a_clone_is_the_same_colour() {
    let c = color(200, 100, 50);
    let d = c.clone();
    assert_eq!((d.r(), d.g(), d.b()), (200, 100, 50));
    assert_eq!(d.hex(), c.hex());
    assert_eq!(d.rgb(), c.rgb());
    assert_eq!(d.cmyk(), c.cmyk());
}
