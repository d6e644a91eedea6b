use devtoolbox::color::PixelColor;
use devtoolbox::error::{CaptureError, ErrorKind};
use devtoolbox::hexcode::{hex_byte_value, hex_digit_value, is_space_char, parse_hex_color};

fn channels(out: Result<PixelColor, CaptureError>) -> (u8, u8, u8) {
    match out {
        Ok(color) => (color.r(), color.g(), color.b()),
        Err(error) => panic!("no colour: {}", error.message),
    }
}

fn failure(out: Result<PixelColor, CaptureError>) -> (ErrorKind, String) {
    match out {
        Ok(color) => panic!("a colour: {}", color.hex()),
        Err(error) => (error.kind, error.message),
    }
}

#[test]
fn hex_with_and_without_hash() {
    assert_eq!(channels(parse_hex_color("#AABBCC")), (0xAA, 0xBB, 0xCC));
    assert_eq!(channels(parse_hex_color("AABBCC")), (0xAA, 0xBB, 0xCC));
}

#[test]
fn hex_in_lower_and_mixed_case() {
    assert_eq!(channels(parse_hex_color("#aabbcc")), (0xAA, 0xBB, 0xCC));
    assert_eq!(channels(parse_hex_color("0a1B2c")), (0x0A, 0x1B, 0x2C));
}

#[test]
fn hex_is_trimmed() {
    assert_eq!(channels(parse_hex_color("#102030\n")), (0x10, 0x20, 0x30));
    assert_eq!(channels(parse_hex_color(" \t#102030\r\n ")), (0x10, 0x20, 0x30));
    assert_eq!(channels(parse_hex_color("\u{00A0}#102030\u{3000}")), (0x10, 0x20, 0x30));
}

#[test]
fn hex_reads_six_digits_and_no_more() {
    assert_eq!(channels(parse_hex_color("#102030FF")), (0x10, 0x20, 0x30));
    assert_eq!(channels(parse_hex_color("102030 zz")), (0x10, 0x20, 0x30));
}

#[test]
fn hex_too_short() {
    assert_eq!(
        failure(parse_hex_color("#ABC\n")),
        (
            ErrorKind::MalformedCaptureOutput,
            "Formato hex inválido do hyprpicker: #ABC".to_string()
        )
    );
    assert_eq!(
        failure(parse_hex_color("")),
        (ErrorKind::MalformedCaptureOutput, "Formato hex inválido do hyprpicker: ".to_string())
    );
    assert_eq!(
        failure(parse_hex_color("  12345  ")),
        (
            ErrorKind::MalformedCaptureOutput,
            "Formato hex inválido do hyprpicker: 12345".to_string()
        )
    );
    assert_eq!(
        failure(parse_hex_color("#12345")),
        (
            ErrorKind::MalformedCaptureOutput,
            "Formato hex inválido do hyprpicker: #12345".to_string()
        )
    );
}

#[test]
fn hex_with_a_bad_digit_names_the_channel() {
    assert_eq!(
        failure(parse_hex_color("#G00000")),
        (
            ErrorKind::MalformedCaptureOutput,
            "Erro ao parsear R: invalid digit found in string".to_string()
        )
    );
    assert_eq!(
        failure(parse_hex_color("#00x000")),
        (
            ErrorKind::MalformedCaptureOutput,
            "Erro ao parsear G: invalid digit found in string".to_string()
        )
    );
    assert_eq!(
        failure(parse_hex_color("#00000-")),
        (
            ErrorKind::MalformedCaptureOutput,
            "Erro ao parsear B: invalid digit found in string".to_string()
        )
    );
}

#[test]
fn hex_strips_one_hash_only() {
    assert_eq!(failure(parse_hex_color("##AABBCC")).0, ErrorKind::MalformedCaptureOutput);
    assert_eq!(
        failure(parse_hex_color("##AABBCC")).1,
        "Erro ao parsear R: invalid digit found in string"
    );
}

#[test]
fn hex_takes_no_sign() {
    assert_eq!(
        failure(parse_hex_color("+A+B+C")).1,
        "Erro ao parsear R: invalid digit found in string"
    );
}

#[test]
fn hex_of_other_scripts_is_refused() {
    assert_eq!(failure(parse_hex_color("ééé")).0, ErrorKind::MalformedCaptureOutput);
    assert_eq!(failure(parse_hex_color("éééééé")).1, "Erro ao parsear R: invalid digit found in string");
}

#[test]
fn hex_digit_values() {
    assert_eq!(hex_digit_value('0'), Some(0));
    assert_eq!(hex_digit_value('9'), Some(9));
    assert_eq!(hex_digit_value('a'), Some(10));
    assert_eq!(hex_digit_value('f'), Some(15));
    assert_eq!(hex_digit_value('A'), Some(10));
    assert_eq!(hex_digit_value('F'), Some(15));
    for c in ['g', 'G', '/', ':', '@', '`', ' ', '#', '+', '-', 'é'] {
        assert_eq!(hex_digit_value(c), None);
    }
    assert_eq!(hex_byte_value('F', 'f'), Some(255));
    assert_eq!(hex_byte_value('1', '0'), Some(16));
    assert_eq!(hex_byte_value('0', 'g'), None);
    assert_eq!(hex_byte_value('x', '0'), None);
}

#[test]
fn white_space_is_that_of_std() {
    for code in 0u32..0x3100 {
        if let Some(c) = char::from_u32(code) {
            assert_eq!(is_space_char(c), c.is_whitespace(), "U+{:04X}", code);
        }
    }
}
