use genlib::date::{calculate_age, date_from_parses, filter_date_from, modified_time, parse_date, parse_filter_date, Date};
use genlib::exif::{found_exif_data, trim_quotes};
use genlib::file_ops::{filename_parts, first_free_name, get_file_extension, is_image_path, is_pdf_path, is_text_path};
use genlib::modals::document_upload::{dialog_title, save_button_label, DocumentUploadModal, ImportStatus};
use genlib::state::DocumentUploadMode;
use genlib::modals::resource_form::ResourceFormModal;
use genlib::path::{get_extension, is_image_file, is_pdf_file, is_text_file};

fn ymd(y: i32, m: u32, d: u32) -> Date {
    Date::from_ymd_opt(y, m, d).unwrap()
}

#[test]
fn age_counts_whole_years_across_leap_years() {
    assert_eq!(calculate_age(&ymd(2000, 3, 1), &ymd(2001, 3, 1)), 1);
    assert_eq!(calculate_age(&ymd(2000, 3, 1), &ymd(2001, 2, 28)), 0);
    assert_eq!(calculate_age(&ymd(1990, 6, 15), &ymd(2000, 6, 14)), 9);
    assert_eq!(calculate_age(&ymd(1990, 6, 15), &ymd(2000, 6, 15)), 10);
    assert_eq!(calculate_age(&ymd(2000, 2, 29), &ymd(2001, 2, 28)), 0);
    assert_eq!(calculate_age(&ymd(2000, 2, 29), &ymd(2001, 3, 1)), 1);
}

#[test]
fn modified_time_of_epoch_and_later() {
    let t = modified_time(0);
    assert_eq!((t.date.year(), t.date.month(), t.date.day()), (1970, 1, 1));
    assert_eq!((t.hour, t.minute, t.second), (0, 0, 0));
    let t = modified_time(86400 * 365 + 3661);
    assert_eq!((t.date.year(), t.date.month(), t.date.day()), (1971, 1, 1));
    assert_eq!((t.hour, t.minute, t.second), (1, 1, 1));
    let t = modified_time(1_700_000_000);
    assert_eq!((t.date.year(), t.date.month(), t.date.day()), (2023, 11, 14));
    assert_eq!((t.hour, t.minute, t.second), (22, 13, 20));
}

#[test]
fn modified_time_out_of_range_is_epoch() {
    let t = modified_time(u64::MAX / 2);
    assert_eq!((t.date.year(), t.date.month(), t.date.day()), (1970, 1, 1));
    assert_eq!((t.hour, t.minute, t.second), (0, 0, 0));
}

#[test]
fn date_from_parses_takes_first_result() {
    let parses = vec![None, Some(ymd(2024, 1, 15)), Some(ymd(1999, 9, 9))];
    let d = date_from_parses("x", &parses).unwrap();
    assert_eq!((d.year(), d.month(), d.day()), (2024, 1, 15));
}

#[test]
fn date_from_parses_falls_back_on_year() {
    let parses = vec![None, None, None, None, None];
    let d = date_from_parses("1850", &parses).unwrap();
    assert_eq!((d.year(), d.month(), d.day()), (1850, 1, 1));
    assert!(date_from_parses("185", &parses).is_none());
    assert!(date_from_parses("18500", &parses).is_none());
    assert!(date_from_parses("", &vec![Some(ymd(2024, 1, 15))]).is_none());
}

#[test]
fn parse_date_formats_in_order() {
    let d = parse_date(" 15/01/2024 ").unwrap();
    assert_eq!((d.year(), d.month(), d.day()), (2024, 1, 15));
    let d = parse_date("20240115").unwrap();
    assert_eq!((d.year(), d.month(), d.day()), (2024, 1, 15));
    assert!(parse_date("hello").is_none());
}

#[test]
fn filter_date_from_decides() {
    let d = filter_date_from("whatever", Some(ymd(2020, 5, 6))).unwrap();
    assert_eq!((d.year(), d.month(), d.day()), (2020, 5, 6));
    let d = filter_date_from("123", None).unwrap();
    assert_eq!((d.year(), d.month(), d.day()), (123, 1, 1));
    assert!(filter_date_from("", Some(ymd(2020, 5, 6))).is_none());
    assert!(filter_date_from("abc", None).is_none());
    let d = parse_filter_date("1900").unwrap();
    assert_eq!((d.year(), d.month(), d.day()), (1900, 1, 1));
}

#[test]
fn classification_of_paths_with_directories() {
    assert!(is_image_file("dir/photo.jpg"));
    assert!(is_image_file("/home/u/Bilder/IMG_01.PNG"));
    assert!(!is_image_file("dir.jpg/notes"));
    assert!(is_text_file("docs/README.MD"));
    assert!(is_pdf_file("a/b/scan.Pdf"));
    assert!(is_image_path("dir/photo.jpeg"));
    assert!(is_text_path("docs/README.MD"));
    assert!(is_pdf_path("x/scan.PDF"));
    assert!(!is_pdf_path("x/a.pdf.txt"));
    assert_eq!(get_extension("a/b/c.TAR.GZ"), Some("gz".to_string()));
    assert_eq!(get_file_extension("/x/.bashrc"), None);
    assert_eq!(get_file_extension("x/y/image.PNG"), Some("png".to_string()));
}

#[test]
fn filename_parts_of_a_path() {
    let (stem, ext) = filename_parts("/a/b/report.txt");
    assert_eq!(stem, "report");
    assert_eq!(ext, ".txt");
}

#[test]
fn selected_files_named_by_final_component() {
    let mut m = DocumentUploadModal::new();
    m.set_selected_files(vec!["/a/b/c.txt".to_string(), "plain.pdf".to_string()]);
    assert_eq!(m.selected_files.len(), 2);
    assert_eq!(m.selected_files[0].filename, "c.txt");
    assert_eq!(m.selected_files[1].filename, "plain.pdf");
    assert_eq!(m.selected_files[0].status, ImportStatus::Pending);
}

#[test]
fn record_imports_marks_each_file_once() {
    let mut m = DocumentUploadModal::new();
    m.set_selected_files(vec!["a.txt".to_string(), "b.txt".to_string(), "c.txt".to_string()]);
    m.record_imports(&vec![true, false, true]);
    assert_eq!(m.selected_files[0].status, ImportStatus::Done);
    assert_eq!(m.selected_files[1].status, ImportStatus::Failed);
    assert_eq!(m.selected_files[2].status, ImportStatus::Done);
    assert_eq!(m.selected_files[1].filename, "b.txt");
    assert_eq!(m.import_success_count, 2);
    assert_eq!(m.import_failed_count, 1);
}

#[test]
fn blank_name_check_keeps_other_fields() {
    let mut f = ResourceFormModal::new();
    f.name = "   ".to_string();
    f.resource_type_id = Some(1);
    f.directory_name = "kept".to_string();
    assert!(!f.check_required());
    assert_eq!(f.error_message, Some("Namn krävs".to_string()));
    assert_eq!(f.directory_name, "kept");
    assert_eq!(f.resource_type_id, Some(1));
}

#[test]
fn quotes_trimmed_at_both_ends() {
    assert_eq!(trim_quotes("\"Canon EOS\""), "Canon EOS");
    assert_eq!(trim_quotes("\"\"a\"b\"\""), "a\"b");
    assert_eq!(trim_quotes("\"\"\""), "");
    assert_eq!(trim_quotes("plain"), "plain");
    assert_eq!(trim_quotes(""), "");
}

#[test]
fn exif_data_found_only_with_date_camera_or_gps() {
    assert!(!found_exif_data(false, false, false));
    assert!(found_exif_data(true, false, false));
    assert!(found_exif_data(false, true, false));
    assert!(found_exif_data(false, false, true));
}

#[test]
fn classification_of_windows_style_paths() {
    assert!(is_image_file("C:\\Users\\x\\photo.JPG"));
    assert!(is_image_path("C:\\Users\\x\\photo.jpeg"));
    assert!(is_text_file("D:\\docs\\notes.md"));
    assert!(is_text_path("D:\\docs\\notes.Markdown"));
    assert!(is_pdf_file("C:scan.pdf"));
    assert!(is_pdf_path("E:\\a\\scan.PDF"));
    assert!(!is_image_file("C:\\a\\b.jpg.txt"));
    assert_eq!(get_extension("C:\\a\\b\\c.TAR.GZ"), Some("gz".to_string()));
    assert_eq!(get_file_extension("C:\\a\\b\\c.TXT"), Some("txt".to_string()));
}

#[test]
fn first_free_name_skips_existing() {
    let existing = vec!["a.txt".to_string(), "a_2.txt".to_string(), "other".to_string()];
    assert_eq!(first_free_name("a.txt", "a", ".txt", &existing), Some("a_3.txt".to_string()));
    assert_eq!(first_free_name("b.txt", "b", ".txt", &existing), Some("b.txt".to_string()));
    let mut all = vec!["c".to_string()];
    for i in 2..1000 {
        all.push(format!("c_{}", i));
    }
    assert_eq!(first_free_name("c", "c", "", &all), None);
}

#[test]
fn document_dialog_labels() {
    assert_eq!(save_button_label(DocumentUploadMode::Import, 1), "💾 Importera fil");
    assert_eq!(save_button_label(DocumentUploadMode::Import, 3), "💾 Importera 3 filer");
    assert_eq!(save_button_label(DocumentUploadMode::Import, 0), "💾 Importera 0 filer");
    assert_eq!(save_button_label(DocumentUploadMode::Create, 5), "💾 Skapa");
    assert_eq!(dialog_title(DocumentUploadMode::Import), "📥 Importera filer");
    assert_eq!(dialog_title(DocumentUploadMode::Create), "➕ Skapa dokument");
}
