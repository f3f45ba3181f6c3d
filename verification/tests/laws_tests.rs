use genlib::file_ops::numbered_filename;
use genlib::modals::document_upload::text_document_filename;
use genlib::modals::person_form::{PersonFormError, PersonFormModal};
use genlib::modals::relationship_form::RelationshipFormModal;
use genlib::path::sanitize_filename;
use genlib::state::{AppState, ConfirmAction, View};
use genlib::views::setup_wizard::{SetupWizardView, WizardStep};

#[test]
fn sanitized_names_are_safe_and_stable() {
    for name in ["a/b:c*d?e\"f<g>h|i", "  spaced  ", "ok.txt", "\u{1}ctrl"] {
        let once = sanitize_filename(name);
        assert_eq!(sanitize_filename(&once), once);
        assert!(!once.contains(['/', '\\', ':', '*', '?', '"', '<', '>', '|']));
        assert_eq!(once.trim(), once);
    }
}

#[test]
fn numbered_names_differ() {
    let names: Vec<String> = (2..20).map(|n| numbered_filename("bild", ".jpg", n)).collect();
    for i in 0..names.len() {
        for j in (i + 1)..names.len() {
            assert_ne!(names[i], names[j]);
        }
    }
}

#[test]
fn text_documents_get_an_extension() {
    for typed in ["brev", "brev.md", ".", "x.y.z"] {
        assert!(text_document_filename(typed, None).unwrap().contains('.'));
    }
}

#[test]
fn a_person_needs_a_name() {
    let mut m = PersonFormModal::new();
    m.form_data.directory_name = "dir".to_string();
    assert_eq!(m.validate().err(), Some(PersonFormError::NameMissing));
    m.form_data.surname = "Berg".to_string();
    m.form_data.birth_date = "1900-02-30".to_string();
    assert_eq!(m.validate().err(), Some(PersonFormError::InvalidBirthDate));
    m.form_data.birth_date = "1900-02-28".to_string();
    let v = m.validate().ok().unwrap();
    assert_eq!(v.firstname, None);
    assert_eq!(v.surname.as_deref(), Some("Berg"));
}

#[test]
fn the_current_person_is_never_offered() {
    let mut m = RelationshipFormModal::new();
    assert!(!m.is_listed(Some(3), 3, "Anna", "anna"));
    assert!(m.is_listed(Some(4), 3, "Bo", "bo"));
    m.search_query = "AN".to_string();
    assert!(m.is_listed(Some(4), 3, "Anna", "x"));
    assert!(!m.is_listed(Some(3), 3, "Anna", "anna"));
    assert!(!m.is_listed(Some(5), 3, "Bo", "bo"));
}

#[test]
fn closing_the_confirmation_keeps_the_rest() {
    let mut s = AppState::new();
    s.navigate(View::Backup);
    s.show_confirm("Radera?", ConfirmAction::DeleteRelationship(1));
    s.close_confirm();
    assert!(!s.show_confirm_dialog);
    assert_eq!(s.confirm_dialog_action, None);
    assert_eq!(s.current_view, View::Backup);
}

#[test]
fn wizard_back_undoes_next() {
    let mut w = SetupWizardView::new();
    w.media_path = "/m".to_string();
    w.next();
    assert_eq!(w.step, WizardStep::Backup);
    w.back();
    assert_eq!(w.step, WizardStep::Media);
    assert_eq!(w.media_path, "/m");
}
