use clipoo::capture::{to_new_item, RawCapture};
use clipoo::image_file::image_file;
use clipoo::models::ClipboardItemType;

#[test]
fn single_file_preview_is_its_name() {
    let item = to_new_item(RawCapture::Files(vec!["/tmp/docs/report.pdf".to_string()]), None)
        .expect("file entry");
    assert_eq!(item.item_type, ClipboardItemType::File);
    assert_eq!(item.content, "/tmp/docs/report.pdf");
    assert_eq!(item.preview.as_deref(), Some("report.pdf"));
}

#[test]
fn several_files_preview_counts_them() {
    let paths = vec!["/a/one.txt".to_string(), "/b/two.txt".to_string(), "/c/three.txt".to_string()];
    let item = to_new_item(RawCapture::Files(paths), None).expect("file entry");
    assert_eq!(item.content, "/a/one.txt\n/b/two.txt\n/c/three.txt");
    assert_eq!(item.preview.as_deref(), Some("3 فایل"));
}

#[test]
fn twelve_files_preview_has_two_digits() {
    let paths: Vec<String> = (0..12).map(|i| format!("/f/{i}")).collect();
    let item = to_new_item(RawCapture::Files(paths), None).expect("file entry");
    assert_eq!(item.preview.as_deref(), Some("12 فایل"));
}

#[test]
fn no_files_no_entry() {
    assert!(to_new_item(RawCapture::Files(Vec::new()), None).is_none());
}

#[test]
fn image_needs_a_saved_path() {
    assert!(to_new_item(RawCapture::Image(vec![1, 2, 3]), None).is_none());
    let item = to_new_item(RawCapture::Image(vec![1, 2, 3]), Some("/img/x.png".to_string()))
        .expect("image entry");
    assert_eq!(item.item_type, ClipboardItemType::Image);
    assert_eq!(item.content, "/img/x.png");
    assert_eq!(item.preview.as_deref(), Some("تصویر"));
}

#[test]
fn blank_text_is_not_captured() {
    assert!(to_new_item(RawCapture::Text("  \n\t ".to_string()), None).is_none());
}

#[test]
fn text_keeps_its_blanks_and_is_classified_trimmed() {
    let item = to_new_item(RawCapture::Text("  https://example.com  ".to_string()), None)
        .expect("text entry");
    assert_eq!(item.item_type, ClipboardItemType::Url);
    assert_eq!(item.content, "  https://example.com  ");
    assert!(item.preview.is_none());
}

#[test]
fn stored_file_list_reads_back_as_the_same_paths() {
    let paths = vec!["/a/one.txt".to_string(), "C:\\dir\\two.txt".to_string(), "/c d/three".to_string()];
    let item = to_new_item(RawCapture::Files(paths.clone()), None).expect("file entry");
    assert_eq!(clipoo::write::file_list(&item.content), paths);
}

#[test]
fn classification_ignores_surrounding_blanks() {
    let code = "fn main() { let x = 1; }";
    assert_eq!(
        clipoo::classify::classify_text(&format!("\n  {code}\t ")),
        clipoo::classify::classify_text(code)
    );
}

fn small_png() -> Vec<u8> {
    let picture = image::RgbImage::from_pixel(3, 2, image::Rgb([200, 10, 30]));
    let mut out = std::io::Cursor::new(Vec::new());
    image::DynamicImage::ImageRgb8(picture)
        .write_to(&mut out, image::ImageFormat::Png)
        .expect("encode");
    out.into_inner()
}

#[test]
fn captured_image_is_reencoded_as_png_under_a_random_name() {
    let bytes = small_png();
    let file = image_file(&bytes).expect("image file");
    assert_eq!(file.file_name.len(), 40);
    assert!(file.file_name.ends_with(".png"));
    assert_eq!(file.file_name.as_bytes()[14], b'4');
    let decoded = image::load_from_memory(&file.png).expect("png");
    assert_eq!((decoded.width(), decoded.height()), (3, 2));
    assert_eq!(decoded.to_rgb8().get_pixel(1, 1), &image::Rgb([200, 10, 30]));

    let other = image_file(&bytes).expect("image file");
    assert_ne!(other.file_name, file.file_name);
}

#[test]
fn bytes_that_are_no_image_give_no_file() {
    assert!(image_file(b"not an image at all").is_none());
    assert!(image_file(&[]).is_none());
}

#[test]
fn single_plain_file_name_names_itself() {
    let item = to_new_item(RawCapture::Files(vec!["notes.txt".to_string()]), None).expect("file entry");
    assert_eq!(item.preview.as_deref(), Some("notes.txt"));
}

#[test]
fn a_root_path_gets_the_file_label() {
    let item = to_new_item(RawCapture::Files(vec!["/".to_string()]), None).expect("file entry");
    assert_eq!(item.content, "/");
    assert_eq!(item.preview.as_deref(), Some("فایل"));
    let trailing = to_new_item(RawCapture::Files(vec!["/home/u/docs/".to_string()]), None).expect("file entry");
    assert_eq!(trailing.preview.as_deref(), Some("docs"));
}

#[test]
fn a_captured_bitmap_is_stored_as_png() {
    let picture = image::RgbImage::from_pixel(2, 2, image::Rgb([1, 2, 3]));
    let mut out = std::io::Cursor::new(Vec::new());
    image::DynamicImage::ImageRgb8(picture)
        .write_to(&mut out, image::ImageFormat::Bmp)
        .expect("encode bmp");
    let bmp = out.into_inner();
    let file = image_file(&bmp).expect("image file");
    assert_eq!(image::guess_format(&file.png).expect("format"), image::ImageFormat::Png);
    assert_eq!(image::load_from_memory(&file.png).expect("png").to_rgb8().get_pixel(0, 1), &image::Rgb([1, 2, 3]));
}
