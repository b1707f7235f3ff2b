use qr_decoder::decode_qr;

/// Renders `code` as an 8x-scaled gray PNG with a 4-module quiet zone,
/// applying `rewrite` to the module matrix first.
fn render_png(code: &qrcode::QrCode, rewrite: impl Fn(usize, usize, bool) -> bool) -> Vec<u8> {
    let w = code.width();
    let colors = code.to_colors();
    let scale = 8usize;
    let border = 4usize;
    let size = ((w + 2 * border) * scale) as u32;
    let mut img = image::GrayImage::from_pixel(size, size, image::Luma([255u8]));
    for y in 0..w {
        for x in 0..w {
            let dark = rewrite(x, y, colors[y * w + x] == qrcode::Color::Dark);
            if dark {
                for dy in 0..scale {
                    for dx in 0..scale {
                        img.put_pixel(
                            ((x + border) * scale + dx) as u32,
                            ((y + border) * scale + dy) as u32,
                            image::Luma([0u8]),
                        );
                    }
                }
            }
        }
    }
    let mut bytes: Vec<u8> = Vec::new();
    let mut cursor = std::io::Cursor::new(&mut bytes);
    img.write_to(&mut cursor, image::ImageFormat::Png).unwrap();
    bytes
}

fn qr_png(text: &str) -> Vec<u8> {
    let code = qrcode::QrCode::new(text.as_bytes()).unwrap();
    render_png(&code, |_, _, dark| dark)
}

#[test]
fn round_trip_single_symbol() {
    let text = "https://example.com/some/fairly/long/path?with=a&query=string";
    let bytes = qr_png(text);
    let decoded = decode_qr(&bytes);
    assert_eq!(decoded, Ok(String::from(text)));
}

#[test]
fn round_trip_short_text() {
    let bytes = qr_png("ok");
    assert_eq!(decode_qr(&bytes), Ok(String::from("ok")));
}

#[test]
fn unparsable_bytes_report_load_failure() {
    let bytes = b"this is certainly not an image container";
    let err = decode_qr(bytes).unwrap_err();
    assert!(
        err.starts_with("Failed to load image:"),
        "unexpected message: {}",
        err
    );
    assert!(err.len() > "Failed to load image:".len());
}

#[test]
fn empty_buffer_reports_load_failure() {
    let err = decode_qr(&[]).unwrap_err();
    assert!(err.starts_with("Failed to load image:"), "unexpected message: {}", err);
}

#[test]
fn blank_image_reports_no_grid_exactly() {
    let img = image::GrayImage::from_pixel(64, 64, image::Luma([255u8]));
    let mut bytes: Vec<u8> = Vec::new();
    let mut cursor = std::io::Cursor::new(&mut bytes);
    img.write_to(&mut cursor, image::ImageFormat::Png).unwrap();
    let err = decode_qr(&bytes).unwrap_err();
    assert_eq!(err, "No QR code found in image");
}

#[test]
fn corrupt_grid_reports_decode_failure() {
    // A low-error-correction symbol whose interior data modules are replaced
    // by a checkerboard: the finder patterns, timing, format and alignment
    // areas all lie in the border band that is kept, so the grid is still
    // located, but its codewords are garbage.
    let text = "a long payload so that the symbol grows well past version one, \
                leaving a large interior of pure data modules to corrupt";
    let code = qrcode::QrCode::with_error_correction_level(text.as_bytes(), qrcode::EcLevel::L)
        .unwrap();
    let w = code.width();
    assert!(w >= 29, "expected a larger symbol, got width {}", w);
    let bytes = render_png(&code, |x, y, dark| {
        if x >= 9 && x < w - 9 && y >= 9 && y < w - 9 {
            (x + y) % 2 == 0
        } else {
            dark
        }
    });
    let err = decode_qr(&bytes).unwrap_err();
    assert!(
        err.starts_with("Failed to decode QR:"),
        "unexpected message: {}",
        err
    );
}
