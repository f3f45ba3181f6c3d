use genlib::date::{calculate_age, format_date, format_date_with_age, format_date_with_age_on, format_year, parse_filter_date, parse_iso_date, Date};
use genlib::error::AppError;
use genlib::exif::dimensions_string;
use genlib::file_ops::{candidate_filename, file_name_parts, filename_parts, normalize_separators, numbered_filename};
use genlib::lists::{contains_id, contains_u32};
use genlib::models::RelationshipType;
use genlib::modals::archive_modal::ArchiveModal;
use genlib::modals::confirm_dialog::ConfirmDialog;
use genlib::modals::document_upload::{relative_document_path, text_document_filename, UploadError};
use genlib::modals::gedcom_import::{GedcomImportModal, ImportPreview, ImportStep};
use genlib::modals::relationship_form::RelationshipFormModal;
use genlib::modals::resource_form::ResourceFormModal;
use genlib::ordering::text_gt;
use genlib::path::{file_name_extension, file_name_stem, get_extension, is_pdf_file, is_text_file};
use genlib::state::{status_expired, AppState, ConfirmAction, StatusType, View};
use genlib::text::{non_empty, parse_i32};
use genlib::theme::{rgb_channels, Colors};

#[test]
fn dates_are_written_as_iso() {
    let d = Date::from_ymd_opt(2024, 3, 9).unwrap();
    assert_eq!(format_date(&d), "2024-03-09");
    assert_eq!(format_year(&d), "2024");
    let ancient = Date::from_ymd_opt(-44, 3, 15).unwrap();
    assert_eq!(format_date(&ancient), "-0044-03-15");
    assert_eq!(Date::from_ymd_opt(2023, 2, 29), None);
    assert_eq!(Date::from_ymd_opt(2024, 2, 29).map(|d| d.ordinal()), Some(60));
}

#[test]
fn iso_and_filter_dates() {
    assert_eq!(parse_iso_date("1901-12-31"), Date::from_ymd_opt(1901, 12, 31));
    assert_eq!(parse_iso_date("1901-13-01"), None);
    assert_eq!(parse_filter_date(""), None);
    assert_eq!(parse_filter_date("1750"), Date::from_ymd_opt(1750, 1, 1));
    assert_eq!(parse_filter_date("-12"), Date::from_ymd_opt(-12, 1, 1));
    assert_eq!(parse_filter_date("17x0"), None);
}

#[test]
fn age_is_counted_in_whole_years() {
    let birth = Date::from_ymd_opt(2000, 2, 29).unwrap();
    let day_before = Date::from_ymd_opt(2001, 2, 28).unwrap();
    let birthday = Date::from_ymd_opt(2001, 3, 1).unwrap();
    assert_eq!(calculate_age(&birth, &birth), 0);
    // The day of the year decides: 28 February 2001 is day 59, before day 60.
    assert_eq!(calculate_age(&birth, &day_before), 0);
    assert_eq!(calculate_age(&birth, &birthday), 1);
    let today = Date::from_ymd_opt(2024, 1, 1).unwrap();
    let death = Date::from_ymd_opt(2010, 6, 1).unwrap();
    assert_eq!(format_date_with_age_on(&birth, Some(&death), &today), "2000-02-29 - 2010-06-01 (10 år)");
    assert_eq!(format_date_with_age_on(&birth, None, &today), "2000-02-29 (23 år)");
}

#[test]
fn text_helpers() {
    assert_eq!(non_empty("  a b "), Some("a b".to_string()));
    assert_eq!(non_empty(" \t "), None);
    assert_eq!(parse_i32("-2147483648"), Some(i32::MIN));
    assert_eq!(parse_i32("2147483648"), None);
    assert_eq!(parse_i32("+5"), Some(5));
    assert!(text_gt("b", "a"));
    assert!(text_gt("ab", "a"));
    assert!(!text_gt("a", "a"));
    assert!(!text_gt("a", "ab"));
    assert!(contains_id(&vec![3, 4], 4));
    assert!(!contains_u32(&vec![3, 4], 5));
}

#[test]
fn file_names() {
    assert_eq!(file_name_extension("archive.tar.gz"), Some("gz"));
    assert_eq!(file_name_extension(".bashrc"), None);
    assert_eq!(file_name_stem("archive.tar.gz"), "archive.tar");
    assert_eq!(get_extension("dir/Photo.JPG"), Some("jpg".to_string()));
    assert_eq!(get_extension("dir/noext"), None);
    assert!(is_text_file("notes.MD"));
    assert!(is_pdf_file("a/b.pdf"));
    assert_eq!(file_name_parts("test.txt"), ("test".to_string(), ".txt".to_string()));
    assert_eq!(filename_parts("sub/test.txt"), ("test".to_string(), ".txt".to_string()));
    assert_eq!(numbered_filename("test", ".txt", 2), "test_2.txt");
    assert_eq!(candidate_filename("test.txt", "test", ".txt", 0), Some("test.txt".to_string()));
    assert_eq!(candidate_filename("test.txt", "test", ".txt", 1), Some("test_2.txt".to_string()));
    assert_eq!(candidate_filename("test.txt", "test", ".txt", 998), Some("test_999.txt".to_string()));
    assert_eq!(candidate_filename("test.txt", "test", ".txt", 999), None);
    assert_eq!(normalize_separators("a\\b\\c.txt"), "a/b/c.txt");
}

#[test]
fn app_state_transitions() {
    let mut s = AppState::new();
    assert_eq!(s.current_view, View::Dashboard);
    s.navigate_to_person(3);
    assert_eq!((s.current_view, s.selected_person_id), (View::PersonDetail, Some(3)));
    s.show_confirm("Radera?", ConfirmAction::DeletePerson(3));
    assert!(s.show_confirm_dialog);
    s.close_confirm();
    assert!(!s.show_confirm_dialog);
    assert_eq!(s.confirm_dialog_action, None);
    assert_eq!(s.selected_person_id, Some(3));
    s.show_error("fel");
    assert_eq!(s.status_message.as_ref().unwrap().status_type, StatusType::Error);
    s.clear_old_status();
    assert!(s.status_message.is_some());
    assert!(!status_expired(5));
    assert!(status_expired(6));
}

#[test]
fn confirm_dialog_applies_the_outcome() {
    let mut s = AppState::new();
    s.navigate_to_person(3);
    s.show_confirm("Radera?", ConfirmAction::DeletePerson(3));
    assert_eq!(ConfirmDialog::confirm(&mut s, &Ok(())), Some(true));
    assert_eq!(s.current_view, View::PersonList);
    assert_eq!(s.selected_person_id, None);
    assert_eq!(s.status_message.as_ref().unwrap().text, "Person raderad");
    s.show_confirm("Radera?", ConfirmAction::DeleteDocument(9));
    assert_eq!(ConfirmDialog::confirm(&mut s, &Err("låst".to_string())), Some(true));
    assert_eq!(s.status_message.as_ref().unwrap().text, "Kunde inte radera: låst");
    s.show_confirm("Radera?", ConfirmAction::DeleteRelationship(2));
    assert_eq!(ConfirmDialog::cancel(&mut s), Some(false));
    assert!(!s.show_confirm_dialog);
}

#[test]
fn archive_needs_ok() {
    let mut m = ArchiveModal::new();
    m.confirm_text = " oK ".to_string();
    assert!(m.can_archive());
    m.confirm_text = "okej".to_string();
    assert!(!m.can_archive());
    m.archive_failed("disk");
    assert_eq!(m.error.as_deref(), Some("Arkivering misslyckades: disk"));
    let mut s = AppState::new();
    ArchiveModal::archive_done(&mut s, 42, "/a/b.zip");
    assert_eq!(s.current_view, View::SetupWizard);
    assert_eq!(s.status_message.as_ref().unwrap().text, "Projekt arkiverat! 42 filer sparade i /a/b.zip");
}

#[test]
fn document_upload_names() {
    assert_eq!(text_document_filename("anteckning", None), Ok("anteckning.txt".to_string()));
    assert_eq!(text_document_filename("brev.md", None), Ok("brev.md".to_string()));
    assert_eq!(text_document_filename("", Some("mall")), Ok("mall.txt".to_string()));
    assert_eq!(text_document_filename("", None), Err(UploadError::NoFilename));
    assert_eq!(UploadError::NoType.message(), "Ingen dokumenttyp vald");
    assert_eq!(relative_document_path("dokument/brev", "a.txt"), "dokument/brev/a.txt");
}

#[test]
fn gedcom_import_steps() {
    let mut m = GedcomImportModal::new();
    m.file_chosen("/x.ged", Err("trasig".to_string()));
    assert_eq!(m.step, ImportStep::SelectFile);
    assert_eq!(m.error.as_deref(), Some("Kunde inte läsa filen: trasig"));
    let preview = ImportPreview {
        total_individuals: 2,
        total_families: 1,
        new_persons: 2,
        existing_persons: 0,
        estimated_relations: 1,
        sample_persons: vec![],
    };
    m.file_chosen("/x.ged", Ok(preview));
    assert_eq!(m.step, ImportStep::Preview);
    m.start_import();
    m.import_finished(Err("db".to_string()));
    assert_eq!(m.step, ImportStep::Preview);
    assert_eq!(m.error.as_deref(), Some("Import misslyckades: db"));
    let mut s = AppState::new();
    m.step = ImportStep::Done;
    assert!(m.close_done(&mut s));
    assert_eq!(m.step, ImportStep::SelectFile);
    assert_eq!(s.status_message.as_ref().unwrap().text, "GEDCOM-import slutförd!");
}

#[test]
fn relationship_descriptions() {
    assert_eq!(
        RelationshipFormModal::description(RelationshipType::Parent, "Anna"),
        "Den valda personen är förälder till Anna"
    );
    assert_eq!(
        RelationshipFormModal::description(RelationshipType::Sibling, "Bo"),
        "Den valda personen är syskon med Bo"
    );
}

#[test]
fn resource_form_checks() {
    let mut f = ResourceFormModal::new();
    assert!(!f.check_required());
    assert_eq!(f.error_message.as_deref(), Some("Namn krävs"));
    f.name = "Kyrkan".to_string();
    assert!(!f.check_required());
    assert_eq!(f.error_message.as_deref(), Some("Välj en typ"));
    f.resource_type_id = Some(2);
    assert!(f.check_required());
    assert!(!f.check_coordinates(false, true));
    assert_eq!(f.error_message.as_deref(), Some("Ogiltigt latitudvärde"));
    assert!(!f.check_coordinates(true, false));
    assert_eq!(f.error_message.as_deref(), Some("Ogiltigt longitudvärde"));
    f.name_edited("kyrkan");
    assert_eq!(f.directory_name, "kyrkan");
    f.name = " Kyrkan ".to_string();
    f.information = "Byggd 1200".to_string();
    let r = f.resource_to_save(2, None, "kyrkan");
    assert_eq!(r.name, "Kyrkan");
    assert_eq!(r.information.as_deref(), Some("Byggd 1200"));
    assert_eq!(r.comment, None);
    let mut s = AppState::new();
    assert!(!f.save_finished(&mut s, false, Err("unik".to_string())));
    assert_eq!(f.error_message.as_deref(), Some("Fel: unik"));
    assert!(f.save_finished(&mut s, false, Ok(())));
    assert_eq!(s.status_message.as_ref().unwrap().text, "Resurs skapad");
    assert_eq!(ResourceFormModal::title(true), "Redigera resurs");
}

#[test]
fn error_messages() {
    assert_eq!(AppError::validation("tomt namn".to_string()).message(), "Valideringsfel: tomt namn");
    assert_eq!(AppError::not_found("person 3".to_string()).message(), "Hittades inte: person 3");
    assert_eq!(AppError::Io("nekad".to_string()).message(), "IO-fel: nekad");
    assert_eq!(AppError::other("x".to_string()).message(), "x");
    assert_eq!(dimensions_string(Some(4000), Some(3000)), Some("4000×3000".to_string()));
    assert_eq!(dimensions_string(None, Some(3000)), None);
}

#[test]
fn age_up_to_today() {
    let birth = Date::from_ymd_opt(1990, 6, 15).unwrap();
    let text = format_date_with_age(&birth, None);
    assert!(text.starts_with("1990-06-15 ("));
    assert!(text.ends_with(" år)"));
    let age: i32 = text["1990-06-15 (".len()..text.len() - " år)".len()].parse().unwrap();
    assert!(age >= 34);
    let death = Date::from_ymd_opt(2000, 6, 1).unwrap();
    assert_eq!(format_date_with_age(&birth, Some(&death)), "1990-06-15 - 2000-06-01 (9 år)");
}

#[test]
fn palette_channels() {
    assert_eq!(rgb_channels(Colors::PRIMARY), (59, 130, 246));
    assert_eq!(rgb_channels(Colors::TEXT_MUTED), (156, 163, 175));
    assert_eq!(rgb_channels(Colors::WARNING_BG), (254, 249, 195));
}

#[test]
fn status_expires_after_its_lifetime() {
    let mut s = AppState::new();
    s.expire_status(100);
    assert!(s.status_message.is_none());
    s.show_success("klart");
    s.expire_status(5);
    assert!(s.status_message.is_some());
    s.expire_status(6);
    assert!(s.status_message.is_none());
}
