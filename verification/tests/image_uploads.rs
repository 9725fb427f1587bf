use image::{DynamicImage, ImageFormat};
use newfm::errors::AppError;
use newfm::ids::Uuid;
use newfm::uploads::{
    clamp_picture, delete_if_owned, is_image_field, is_oversized, normalize_image,
    read_image_field, render, store_image, stored_file, DecodeFailure,
};
use std::io::Cursor;

fn png(width: u32, height: u32) -> Vec<u8> {
    let mut out = Cursor::new(Vec::new());
    DynamicImage::new_rgba8(width, height).write_to(&mut out, ImageFormat::Png).unwrap();
    out.into_inner()
}

fn bad(message: &str) -> AppError {
    AppError::BadRequest(message.to_string())
}

#[test]
fn the_upload_has_a_name_or_a_file() {
    assert!(is_image_field(Some("image"), false));
    assert!(is_image_field(Some("photo"), true));
    assert!(is_image_field(None, true));
    assert!(!is_image_field(Some("photo"), false));
    assert!(!is_image_field(None, false));
}

#[test]
fn an_upload_must_have_content() {
    assert_eq!(read_image_field(Some(vec![1, 2])), Ok(vec![1, 2]));
    assert_eq!(read_image_field(Some(vec![])), Err(bad("uploaded file is empty")));
    assert_eq!(
        read_image_field(None),
        Err(bad("multipart body must contain an `image` file field"))
    );
}

#[test]
fn a_small_picture_keeps_its_size() {
    let file = normalize_image(&png(40, 30)).unwrap();
    assert_eq!(image::guess_format(&file).unwrap(), ImageFormat::Jpeg);
    let stored = image::load_from_memory(&file).unwrap();
    assert_eq!((stored.width(), stored.height()), (40, 30));
}

#[test]
fn a_large_picture_is_scaled_down() {
    let stored = image::load_from_memory(&normalize_image(&png(2048, 1024)).unwrap()).unwrap();
    assert_eq!((stored.width(), stored.height()), (1024, 512));
    let thin = clamp_picture(DynamicImage::new_rgb8(4000, 1));
    assert_eq!((thin.width(), thin.height()), (1024, 1));
    let exact = clamp_picture(DynamicImage::new_rgb8(1024, 1024));
    assert_eq!((exact.width(), exact.height()), (1024, 1024));
}

#[test]
fn no_picture_is_enlarged() {
    for (width, height) in [(1, 1), (300, 200), (1024, 7), (1500, 1500), (3000, 10), (12, 2048)] {
        let stored =
            image::load_from_memory(&normalize_image(&png(width, height)).unwrap()).unwrap();
        assert!(stored.width() <= width && stored.height() <= height);
        assert!(stored.width() <= 1024 && stored.height() <= 1024);
    }
    let wide = clamp_picture(DynamicImage::new_rgb8(2000, 500));
    assert_eq!((wide.width(), wide.height()), (1024, 256));
}

#[test]
fn what_is_no_picture_is_refused() {
    assert_eq!(
        normalize_image(&b"hello world".to_vec()),
        Err(bad("file is not a supported image"))
    );
    assert_eq!(normalize_image(&vec![]), Err(bad("file is not a supported image")));
    assert_eq!(render(Err(DecodeFailure::Unreadable)), Err(bad("could not read image")));
}

#[test]
fn sources_beyond_the_cap_are_refused() {
    assert!(normalize_image(&png(12_000, 1)).is_ok());
    assert_eq!(normalize_image(&png(12_001, 1)), Err(bad("file is not a supported image")));
}

#[test]
fn an_empty_picture_cannot_be_stored() {
    let result = render(Ok(DynamicImage::new_rgb8(0, 5)));
    assert!(matches!(result, Err(AppError::Internal(_))));
}

#[test]
fn pictures_beyond_the_limit_are_oversized() {
    assert!(is_oversized(1025, 1));
    assert!(is_oversized(1, 1025));
    assert!(!is_oversized(1024, 1024));
}

#[test]
fn files_are_stored_under_their_id() {
    let (name, url) = stored_file("https://fm", Uuid { bits: 0xab });
    assert_eq!(name, "00000000-0000-0000-0000-0000000000ab.jpg");
    assert_eq!(url, "https://fm/uploads/00000000-0000-0000-0000-0000000000ab.jpg");
}

#[test]
fn new_files_get_new_names() {
    let (one, url) = store_image("https://fm");
    let (other, _) = store_image("https://fm");
    assert_ne!(one, other);
    assert_eq!(url, format!("https://fm/uploads/{one}"));
    assert_eq!(one.len(), 40);
    // Version 4, RFC 4122 variant.
    assert_eq!(&one[14..15], "4");
    assert!(matches!(&one[19..20], "8" | "9" | "a" | "b"));
}

#[test]
fn a_replaced_upload_is_removed() {
    let (name, url) = store_image("https://fm");
    assert_eq!(delete_if_owned("https://fm", Some(&url)), Some(name));
}

#[test]
fn other_files_are_left_alone() {
    let removed = |url: &str| delete_if_owned("https://fm", Some(url));
    assert_eq!(delete_if_owned("https://fm", None), None);
    assert_eq!(removed("https://cdn.deezer.com/a.jpg"), None);
    assert_eq!(removed("https://fm/uploads/../etc/passwd"), None);
    assert_eq!(removed("https://fm/uploads/.."), None);
    assert_eq!(removed("https://fm/uploads/a\\b"), None);
    // Files of the same shape that other hosts have.
    let name = "00000000-0000-0000-0000-0000000000ab.jpg";
    assert_eq!(removed(&format!("https://fm/uploads/{name}")), Some(name.to_string()));
    assert_eq!(removed(&format!("https://cdn.example.org/uploads/{name}")), None);
    assert_eq!(removed(&format!("https://fm.example.org/uploads/{name}")), None);
    assert_eq!(removed(&format!("https://cdn.example.org/https://fm/uploads/{name}")), None);
}
