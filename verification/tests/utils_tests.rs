use genlib::date::{calculate_age, parse_date, Date};
use genlib::exif::{camera_info, parse_exif_datetime};
use genlib::file_ops::is_image_path;
use genlib::path::{is_image_file, sanitize_filename};

#[test]
fn test_parse_date() {
    assert_eq!(parse_date("2024-01-15"), Date::from_ymd_opt(2024, 1, 15));
    assert_eq!(parse_date("2024"), Date::from_ymd_opt(2024, 1, 1));
    assert_eq!(parse_date(""), None);
    assert_eq!(parse_date("invalid"), None);
}

#[test]
fn test_calculate_age() {
    let birth = Date::from_ymd_opt(1990, 6, 15).unwrap();
    let end = Date::from_ymd_opt(2024, 1, 1).unwrap();
    assert_eq!(calculate_age(&birth, &end), 33);

    let end2 = Date::from_ymd_opt(2024, 6, 15).unwrap();
    assert_eq!(calculate_age(&birth, &end2), 34);
}

#[test]
fn test_parse_exif_datetime() {
    let dt = parse_exif_datetime("2024:01:15 14:30:00");
    assert!(dt.is_some());
    let dt = dt.unwrap();
    assert_eq!(dt.year(), 2024);
    assert_eq!(dt.month(), 1);
    assert_eq!(dt.day(), 15);
    assert_eq!(dt.hour(), 14);
    assert_eq!(dt.minute(), 30);
}

#[test]
fn test_camera_info() {
    assert_eq!(camera_info(Some("Canon"), Some("EOS R5")), Some("Canon EOS R5".to_string()));

    // Test when model contains make
    assert_eq!(camera_info(Some("Canon"), Some("Canon EOS R5")), Some("Canon EOS R5".to_string()));
}

#[test]
fn test_is_image_path() {
    assert!(is_image_path("photo.jpg"));
    assert!(is_image_path("image.PNG"));
    assert!(is_image_path("picture.webp"));
    assert!(!is_image_path("document.pdf"));
    assert!(!is_image_path("notes.txt"));
}

#[test]
fn test_sanitize_filename() {
    assert_eq!(sanitize_filename("hello world"), "hello world");
    assert_eq!(sanitize_filename("hello/world"), "hello_world");
    assert_eq!(sanitize_filename("file:name"), "file_name");
    assert_eq!(sanitize_filename("test<>file"), "test__file");
}

#[test]
fn test_is_image_file() {
    assert!(is_image_file("photo.jpg"));
    assert!(is_image_file("image.PNG"));
    assert!(!is_image_file("document.pdf"));
}
