use qr_decoder::clipboard_name;
use qr_decoder::controller::ReadRequest;
use qr_decoder::paste::image_file_indices;
use qr_decoder::paste::ClipboardItem;
use qr_decoder::Msg;
use qr_decoder::QrDecoder;

fn qr_png(text: &str) -> Vec<u8> {
    let code = qrcode::QrCode::new(text.as_bytes()).unwrap();
    let w = code.width();
    let colors = code.to_colors();
    let scale = 8usize;
    let border = 4usize;
    let size = ((w + 2 * border) * scale) as u32;
    let mut img = image::GrayImage::from_pixel(size, size, image::Luma([255u8]));
    for y in 0..w {
        for x in 0..w {
            if colors[y * w + x] == qrcode::Color::Dark {
                for dy in 0..scale {
                    for dx in 0..scale {
                        img.put_pixel(
                            ((x + border) * scale + dx) as u32,
                            ((y + border) * scale + dy) as u32,
                            image::Luma([0u8]),
                        );
                    }
                }
            }
        }
    }
    let mut bytes: Vec<u8> = Vec::new();
    let mut cursor = std::io::Cursor::new(&mut bytes);
    img.write_to(&mut cursor, image::ImageFormat::Png).unwrap();
    bytes
}

fn item(kind: &str, mime: &str) -> ClipboardItem {
    ClipboardItem { kind: String::from(kind), mime: String::from(mime) }
}

#[test]
fn initial_state_shows_nothing() {
    let c = QrDecoder::new();
    assert!(c.success_text().is_none());
    assert!(c.failure_message().is_none());
    assert!(!c.overlay_shown());
}

#[test]
fn last_completed_wins_over_submission_order() {
    let mut c = QrDecoder::new();
    let (reqs_a, redraw_a) = c.update(Msg::Files(vec![String::from("a.png")]));
    assert_eq!(reqs_a.len(), 1);
    assert_eq!(reqs_a[0].index, 0);
    assert_eq!(reqs_a[0].name.as_str(), "a.png");
    assert!(!redraw_a);
    let (reqs_b, _) = c.update(Msg::Files(vec![String::from("b.png")]));
    assert_eq!(reqs_b.len(), 1);
    // b's read completes first, a's second: a's bytes decide the result.
    c.update(Msg::Loaded(String::from("b.png"), qr_png("beta")));
    assert_eq!(c.success_text().unwrap().as_str(), "beta");
    let (reqs, redraw) = c.update(Msg::Loaded(String::from("a.png"), qr_png("alpha")));
    assert!(reqs.is_empty());
    assert!(redraw);
    assert_eq!(c.success_text().unwrap().as_str(), "alpha");
}

#[test]
fn same_name_twice_last_processed_wins() {
    let mut c = QrDecoder::new();
    c.update(Msg::Files(vec![String::from("shot.png")]));
    c.update(Msg::Files(vec![String::from("shot.png")]));
    // Both reads still deliver; the one processed last is displayed.
    c.update(Msg::Loaded(String::from("shot.png"), qr_png("first")));
    assert_eq!(c.success_text().unwrap().as_str(), "first");
    c.update(Msg::Loaded(String::from("shot.png"), qr_png("second")));
    assert_eq!(c.success_text().unwrap().as_str(), "second");
}

#[test]
fn failed_decode_is_displayed_as_failure() {
    let mut c = QrDecoder::new();
    c.update(Msg::Files(vec![String::from("junk.bin")]));
    c.update(Msg::Loaded(String::from("junk.bin"), vec![1u8, 2, 3, 4]));
    assert!(c.success_text().is_none());
    let message = c.failure_message().unwrap();
    assert!(message.starts_with("Failed to load image:"), "unexpected: {}", message);
}

#[test]
fn overlay_follows_drag_and_survives_drop() {
    let mut c = QrDecoder::new();
    let (reqs, redraw) = c.update(Msg::DragOver(true));
    assert!(reqs.is_empty());
    assert!(redraw);
    assert!(c.overlay_shown());
    c.update(Msg::DragOver(false));
    assert!(!c.overlay_shown());
    // A drop with no intervening drag-leave: the flag keeps its last value.
    c.update(Msg::DragOver(true));
    c.update(Msg::Files(vec![String::from("dropped.png")]));
    assert!(c.overlay_shown());
}

#[test]
fn paste_with_two_image_items_submits_two_named_blobs() {
    let items = vec![
        item("file", "image/png"),
        item("file", "image/jpeg"),
        item("string", "text/plain"),
        item("file", "application/pdf"),
    ];
    let kept = image_file_indices(&items);
    assert_eq!(kept, vec![0, 1]);

    let mut c = QrDecoder::new();
    let (reqs, redraw) = c.update(Msg::Blobs(kept.len()));
    assert!(!redraw);
    let names: Vec<&str> = reqs.iter().map(|r: &ReadRequest| r.name.as_str()).collect();
    assert_eq!(names, vec!["clipboard_0", "clipboard_1"]);
    assert_eq!(reqs[0].index, 0);
    assert_eq!(reqs[1].index, 1);
}

#[test]
fn paste_keeps_only_image_files() {
    let items = vec![
        item("string", "image/png"),
        item("file", "text/html"),
        item("file", "imagery/fake"),
        item("file", "image/webp"),
    ];
    let kept = image_file_indices(&items);
    assert_eq!(kept, vec![3]);
    let none = image_file_indices(&Vec::new());
    assert!(none.is_empty());
}

#[test]
fn clipboard_names_count_from_zero() {
    assert_eq!(clipboard_name(0).as_str(), "clipboard_0");
    assert_eq!(clipboard_name(1).as_str(), "clipboard_1");
    assert_eq!(clipboard_name(10).as_str(), "clipboard_10");
    assert_eq!(clipboard_name(907).as_str(), "clipboard_907");
}

#[test]
fn empty_submission_starts_nothing() {
    let mut c = QrDecoder::new();
    let (reqs, redraw) = c.update(Msg::Files(Vec::new()));
    assert!(reqs.is_empty());
    assert!(!redraw);
    let (reqs, redraw) = c.update(Msg::Blobs(0));
    assert!(reqs.is_empty());
    assert!(!redraw);
    assert!(c.success_text().is_none());
    assert!(c.failure_message().is_none());
}

#[test]
fn completion_under_untracked_name_still_displays() {
    // A read that was overwritten in the bookkeeping still completes and its
    // completion is processed like any other.
    let mut c = QrDecoder::new();
    c.update(Msg::Loaded(String::from("never-submitted"), qr_png("late")));
    assert_eq!(c.success_text().unwrap().as_str(), "late");
}
