use devtoolbox::color::PixelColor;
use devtoolbox::error::{CaptureError, ErrorKind};
use devtoolbox::frame::{
    color_from_colorref, parse_bitmap_pixel, parse_image_pixel, parse_pixmap_pixel,
};

fn channels(out: Result<PixelColor, CaptureError>) -> (u8, u8, u8) {
    match out {
        Ok(color) => (color.r(), color.g(), color.b()),
        Err(error) => panic!("no colour: {}", error.message),
    }
}

fn failure(out: Result<PixelColor, CaptureError>) -> (ErrorKind, String) {
    match out {
        Ok(color) => panic!("a colour: {}", color.hex()),
        Err(error) => (error.kind, error.message),
    }
}

fn bitmap(len: usize, offset: u32) -> Vec<u8> {
    let mut data = vec![0u8; len];
    data[0] = b'B';
    data[1] = b'M';
    data[10..14].copy_from_slice(&offset.to_le_bytes());
    data
}

#[test]
fn bitmap_pixel_at_offset_54() {
    let mut data = bitmap(58, 54);
    data[54] = 0x10;
    data[55] = 0x20;
    data[56] = 0x30;
    assert_eq!(channels(parse_bitmap_pixel(&data)), (0x30, 0x20, 0x10));
}

#[test]
fn bitmap_offset_is_little_endian() {
    let mut data = bitmap(0x0203 + 3, 0x0203);
    data[0x0203] = 1;
    data[0x0204] = 2;
    data[0x0205] = 3;
    assert_eq!(data[10], 0x03);
    assert_eq!(data[11], 0x02);
    assert_eq!(channels(parse_bitmap_pixel(&data)), (3, 2, 1));
}

#[test]
fn bitmap_shorter_than_30_bytes() {
    for len in [0usize, 1, 14, 29] {
        let data = vec![0u8; len];
        assert_eq!(
            failure(parse_bitmap_pixel(&data)),
            (ErrorKind::MalformedCaptureOutput, "Arquivo BMP inválido".to_string())
        );
    }
}

#[test]
fn bitmap_of_30_bytes_with_pixel_inside() {
    let mut data = bitmap(30, 27);
    data[27] = 9;
    data[28] = 8;
    data[29] = 7;
    assert_eq!(channels(parse_bitmap_pixel(&data)), (7, 8, 9));
}

#[test]
fn bitmap_without_room_for_the_pixel() {
    let data = bitmap(56, 54);
    assert_eq!(
        failure(parse_bitmap_pixel(&data)),
        (ErrorKind::MalformedCaptureOutput, "Dados de pixel BMP inválidos".to_string())
    );
    let far = bitmap(40, 0xFFFF_FFFF);
    assert_eq!(
        failure(parse_bitmap_pixel(&far)),
        (ErrorKind::MalformedCaptureOutput, "Dados de pixel BMP inválidos".to_string())
    );
}

#[test]
fn pixmap_of_one_pixel() {
    let mut data = b"P6\n1 1\n255\n".to_vec();
    data.extend_from_slice(&[10, 20, 30]);
    assert_eq!(channels(parse_pixmap_pixel(&data)), (10, 20, 30));
}

#[test]
fn pixmap_pixel_may_hold_newline_bytes() {
    let mut data = b"P6\n2 1\n255\n".to_vec();
    data.extend_from_slice(&[10, 10, 10, 1, 2, 3]);
    assert_eq!(channels(parse_pixmap_pixel(&data)), (10, 10, 10));
}

#[test]
fn pixmap_with_fewer_than_three_newlines() {
    for data in [&b""[..], &b"P6"[..], &b"P6\n1 1\n255"[..], &b"P6\n1 1 255 abc"[..]] {
        assert_eq!(
            failure(parse_pixmap_pixel(data)),
            (ErrorKind::MalformedCaptureOutput, "Formato PPM inválido".to_string())
        );
    }
}

#[test]
fn pixmap_with_fewer_than_three_bytes_after_the_header() {
    for data in [&b"P6\n1 1\n255\n"[..], &b"P6\n1 1\n255\n\x01\x02"[..], &b"\n\n\n"[..]] {
        assert_eq!(
            failure(parse_pixmap_pixel(data)),
            (ErrorKind::MalformedCaptureOutput, "Formato PPM inválido".to_string())
        );
    }
}

#[test]
fn pixmap_of_newlines_only() {
    assert_eq!(channels(parse_pixmap_pixel(b"\n\n\n\n\n\n")), (10, 10, 10));
}

#[test]
fn image_buffer_is_blue_green_red() {
    assert_eq!(channels(parse_image_pixel(&[1, 2, 3, 0])), (3, 2, 1));
    assert_eq!(channels(parse_image_pixel(&[1, 2, 3])), (3, 2, 1));
}

#[test]
fn image_buffer_too_short() {
    for data in [&[][..], &[1u8][..], &[1u8, 2][..]] {
        assert_eq!(
            failure(parse_image_pixel(data)),
            (ErrorKind::MalformedCaptureOutput, "Dados de pixel inválidos".to_string())
        );
    }
}

#[test]
fn colorref_is_unpacked_as_bbggrr() {
    assert_eq!(channels(color_from_colorref(Some(0x0030_2010))), (0x10, 0x20, 0x30));
    assert_eq!(channels(color_from_colorref(Some(0))), (0, 0, 0));
    assert_eq!(channels(color_from_colorref(Some(0x00FF_FFFF))), (255, 255, 255));
    // the top byte is not a channel
    assert_eq!(channels(color_from_colorref(Some(0x7F01_0203))), (3, 2, 1));
}

#[test]
fn colorref_with_all_bits_set_is_out_of_bounds() {
    assert_eq!(
        failure(color_from_colorref(Some(0xFFFF_FFFF))),
        (
            ErrorKind::OutOfBoundsSample,
            "Falha ao capturar pixel (coordenada fora da tela)".to_string()
        )
    );
}

#[test]
fn no_device_context() {
    assert_eq!(
        failure(color_from_colorref(None)),
        (ErrorKind::DeviceAccessFailure, "Falha ao obter Device Context da tela".to_string())
    );
}
