use genlib::date::Date;
use genlib::models::{ChecklistTemplateItem, DocumentType, Person, PersonChecklistItem, Resource, ResourceType};
use genlib::shortcuts::{KeyboardShortcut, ShortcutManager, ShortcutMap, ShortcutModifiers};
use genlib::state::{AppState, ConfirmAction, StatusType, View};
use genlib::views::backup_view::{BackupOperation, BackupView, RestorePreview, RestoreResult};
use genlib::views::checklist_search::{ChecklistSearchResult, ChecklistSearchView};
use genlib::views::checklist_templates::{first_template, ChecklistTemplatesView};
use genlib::views::dashboard::{count_text, owner_label, size_unit, DashboardView, SizeUnit};
use genlib::views::document_templates::DocumentTemplatesView;
use genlib::views::document_viewer::{DocumentViewerState, LoadFailure};
use genlib::views::family_tree::{format_years, FamilyTreeState};
use genlib::views::filters::{tri_state_text, DateBound};
use genlib::views::person_detail::{image_type_id, import_outcome, imported_image_path, PersonDetailState};
use genlib::views::person_list::{search_field_label, PersonListView, SearchField};
use genlib::views::project_selector::{safe_project_dir_name, Project, ProjectAction, ProjectSelectorView};
use genlib::views::reports::ReportsView;
use genlib::views::resource_detail::{relative_file_path, sync_candidates, sync_summary, upload_subdirectory, ResourceDetailState};
use genlib::views::resource_list::ResourceListView;
use genlib::views::settings::{CaptureOutcome, SettingsView};
use genlib::views::setup_wizard::{SetupWizardView, WizardStep};
use genlib::widgets::checklist_panel::ChecklistPanel;
use genlib::widgets::image_gallery::{counter_label, starts_new_row, GalleryImage, GalleryState};
use std::collections::HashSet;

fn person(id: i64, first: Option<&str>, sur: Option<&str>) -> Person {
    Person {
        id: Some(id),
        firstname: first.map(|s| s.to_string()),
        surname: sur.map(|s| s.to_string()),
        birth_date: None,
        death_date: None,
        age: None,
        directory_name: format!("p{}", id),
        profile_image_path: None,
    }
}

fn item(id: i64, done: bool, order: i32) -> PersonChecklistItem {
    PersonChecklistItem {
        id: Some(id),
        person_id: 1,
        template_item_id: None,
        title: format!("t{}", id),
        is_completed: done,
        sort_order: order,
    }
}

fn status_text(state: &AppState) -> String {
    state.status_message.as_ref().unwrap().text.clone()
}

fn status_kind(state: &AppState) -> StatusType {
    state.status_message.as_ref().unwrap().status_type
}

#[test]
fn persons_sorted_by_surname_then_firstname() {
    let mut v = PersonListView::new();
    let persons = vec![
        person(1, Some("Karl"), Some("Svensson")),
        person(2, Some("Anna"), Some("Andersson")),
        person(3, Some("Berit"), Some("Svensson")),
        person(4, Some("Olle"), None),
        person(5, None, Some("Andersson")),
    ];
    v.loaded(persons, HashSet::new(), None);
    let ids: Vec<i64> = v.persons_cache.iter().map(|p| p.id.unwrap()).collect();
    assert_eq!(ids, vec![4, 5, 2, 3, 1]);
    assert!(!v.needs_refresh);
    assert_eq!(v.count_label(), "5 personer");
}

#[test]
fn persons_with_equal_names_keep_their_order() {
    let mut v = PersonListView::new();
    let persons = vec![
        person(7, Some("Eva"), Some("Berg")),
        person(3, Some("Eva"), Some("Berg")),
        person(5, Some("Eva"), Some("Berg")),
    ];
    v.loaded(persons, HashSet::new(), None);
    let ids: Vec<i64> = v.persons_cache.iter().map(|p| p.id.unwrap()).collect();
    assert_eq!(ids, vec![7, 3, 5]);
}

#[test]
fn person_order_uses_unicode_order_of_names() {
    let mut v = PersonListView::new();
    let persons = vec![
        person(1, None, Some("Öberg")),
        person(2, None, Some("Zetterberg")),
        person(3, None, Some("Åberg")),
        person(4, None, Some("Ab")),
        person(5, None, Some("A")),
    ];
    v.loaded(persons, HashSet::new(), None);
    let ids: Vec<i64> = v.persons_cache.iter().map(|p| p.id.unwrap()).collect();
    // String order is byte order: Å (U+00C5) before Ö (U+00D6), both after Z.
    assert_eq!(ids, vec![5, 4, 2, 3, 1]);
}

#[test]
fn person_list_filters() {
    let mut v = PersonListView::new();
    assert_eq!(v.advanced_label(), "⏷ Fler filter");
    v.edit_date(DateBound::BirthAfter, "1900".to_string());
    assert_eq!(v.filter.dates.birth_after, Date::from_ymd_opt(1900, 1, 1));
    assert_eq!(v.advanced_label(), "⏷ Filter aktiva");
    v.edit_date(DateBound::DeathBefore, "2000-02-30".to_string());
    assert_eq!(v.filter.dates.death_before, None);
    v.reset_advanced();
    assert!(!v.filter.has_advanced_filters());
    assert_eq!(v.filter.dates.birth_after_str, "");
    v.filter.has_documents = Some(false);
    assert!(v.filter.has_advanced_filters());
    assert_eq!(tri_state_text(None), "Alla");
    assert_eq!(tri_state_text(Some(true)), "Har");
    assert_eq!(tri_state_text(Some(false)), "Saknar");
    assert_eq!(search_field_label(SearchField::Surname), "Efternamn");
}

#[test]
fn person_list_click_and_bookmarks() {
    let mut v = PersonListView::new();
    let mut b = HashSet::new();
    b.insert(2);
    let mut p2 = person(2, Some("A"), Some("B"));
    p2.profile_image_path = Some("persons/p2/bilder/x.jpg".to_string());
    v.loaded(vec![person(1, Some("A"), Some("A")), p2], b, Some("/media".to_string()));
    assert!(!v.is_bookmarked(&v.persons_cache[0]));
    assert!(v.is_bookmarked(&v.persons_cache[1]));
    let mut state = AppState::new();
    assert!(PersonListView::person_clicked(&mut state, &v.persons_cache[1]));
    assert_eq!(state.selected_person_id, Some(2));
    let mut unsaved = person(9, None, None);
    unsaved.id = None;
    assert!(!PersonListView::person_clicked(&mut state, &unsaved));
    let todo = v.profile_images_to_load(&vec![]);
    assert_eq!(todo, vec![(2, "persons/p2/bilder/x.jpg".to_string())]);
    assert!(v.profile_images_to_load(&vec![2]).is_empty());
}

#[test]
fn checklist_items_open_first_then_sort_order() {
    let mut p = ChecklistPanel::new();
    assert!(p.needs_reload(1));
    let items = vec![item(1, true, 1), item(2, false, 5), item(3, false, 2), item(4, true, 0), item(5, false, 2)];
    p.loaded(1, items, (2, 5), vec![]);
    let ids: Vec<i64> = p.items.iter().map(|i| i.id.unwrap()).collect();
    assert_eq!(ids, vec![3, 5, 2, 4, 1]);
    assert!(!p.needs_reload(1));
    assert!(p.needs_reload(2));
    assert_eq!(p.progress_label(), Some("2/5".to_string()));
    assert!(!p.all_done());
}

#[test]
fn checklist_panel_offers_tasks_not_added() {
    let mut p = ChecklistPanel::new();
    let tasks = vec![
        ChecklistTemplateItem { id: Some(10), template_id: 1, title: "Födelse".to_string(), sort_order: 1 },
        ChecklistTemplateItem { id: Some(11), template_id: 1, title: "Död".to_string(), sort_order: 2 },
        ChecklistTemplateItem { id: None, template_id: 1, title: "Ny".to_string(), sort_order: 3 },
    ];
    p.loaded(1, vec![], (0, 0), tasks);
    assert_eq!(p.progress_label(), None);
    assert_eq!(p.tasks_to_offer(&vec![11]), vec![0, 2]);
    let created = ChecklistPanel::item_from_template(1, &p.available_tasks[1]);
    assert_eq!(created.template_item_id, Some(11));
    assert_eq!(created.title, "Död");
    assert!(!created.is_completed);
    p.toggle_add_form();
    assert!(p.show_add_form);
    let mut state = AppState::new();
    p.task_added(&mut state, "Död");
    assert_eq!(status_text(&state), "\"Död\" tillagd");
    assert!(p.needs_refresh);
}

#[test]
fn checklist_search_rows_and_stats() {
    let mut v = ChecklistSearchView::new();
    let mk = |id: i64, person: i64, done: bool| ChecklistSearchResult {
        item: PersonChecklistItem { id: Some(id), person_id: person, template_item_id: None, title: "t".to_string(), is_completed: done, sort_order: 0 },
        person_name: format!("P{}", person),
    };
    v.loaded(vec![mk(1, 1, false), mk(2, 1, true), mk(3, 1, false), mk(4, 2, true), mk(5, 3, false)]);
    assert_eq!(v.stats_label(), "5 uppgifter (2 klara, 3 visas)");
    let rows: Vec<(usize, bool)> = v.rows().iter().map(|r| (r.index, r.person_heading)).collect();
    assert_eq!(rows, vec![(0, true), (2, false), (4, true)]);
    v.show_completed = true;
    assert_eq!(v.stats_label(), "5 uppgifter (2 klara, 5 visas)");
    let rows: Vec<(usize, bool)> = v.rows().iter().map(|r| (r.index, r.person_heading)).collect();
    assert_eq!(rows, vec![(0, true), (1, false), (2, false), (3, true), (4, true)]);
}

#[test]
fn backup_messages() {
    let mut v = BackupView::new();
    let mut state = AppState::new();
    v.start_create();
    assert_eq!(v.operation, BackupOperation::Creating);
    v.backup_created(&mut state, Ok((12, "3.4 MB".to_string())));
    assert_eq!(status_text(&state), "Backup skapad! 12 filer, 3.4 MB");
    assert_eq!(v.operation, BackupOperation::Idle);
    v.backup_created(&mut state, Err("disk full".to_string()));
    assert_eq!(v.error.as_deref(), Some("Kunde inte skapa backup: disk full"));
    v.backup_deleted(&mut state, Err("nej".to_string()));
    assert_eq!(v.error.as_deref(), Some("Kunde inte radera: nej"));
    v.restore_chosen("/b/x.zip".to_string(), Err("trasig".to_string()));
    assert_eq!(v.selected_backup, None);
    assert_eq!(v.error.as_deref(), Some("Kunde inte läsa backup: trasig"));
    let preview = RestorePreview { file_count: 3, size_text: "1 KB".to_string(), has_database: true, has_media: false };
    v.restore_chosen("/b/x.zip".to_string(), Ok(preview));
    assert!(v.shows_preview());
    v.request_restore();
    assert!(v.confirm_restore);
    assert_eq!(v.restore_request(), Some(("/b/x.zip".to_string(), true, true)));
    v.restore_finished(&mut state, Ok(RestoreResult { files_restored: 7, database_restored: true }));
    assert_eq!(status_text(&state), "7 filer återställda. Databasen återställd - starta om applikationen för full effekt.");
    assert_eq!(v.selected_backup, None);
    assert!(v.needs_refresh);
    assert!(!v.confirm_restore);
}

#[test]
fn backup_restore_needs_a_part() {
    let mut v = BackupView::new();
    v.restore_db = false;
    v.restore_media = false;
    assert!(!v.can_restore());
    v.request_restore();
    assert!(!v.confirm_restore);
    let mut state = AppState::new();
    v.restore_finished(&mut state, Ok(RestoreResult { files_restored: 1, database_restored: false }));
    assert!(state.status_message.is_none());
    v.selected_backup = Some("b".to_string());
    v.restore_finished(&mut state, Err("fel".to_string()));
    assert_eq!(v.error.as_deref(), Some("Återställning misslyckades: fel"));
    v.selected_backup = Some("b".to_string());
    v.restore_finished(&mut state, Ok(RestoreResult { files_restored: 2, database_restored: false }));
    assert_eq!(status_text(&state), "2 filer återställda");
}

#[test]
fn checklist_templates_add_and_edit() {
    let mut v = ChecklistTemplatesView::new();
    v.new_item_title = "  Leta i kyrkböcker ".to_string();
    assert!(v.item_to_add().is_none());
    v.loaded(Some(4), vec![]);
    let added = v.item_to_add().unwrap();
    assert_eq!(added.title, "Leta i kyrkböcker");
    assert_eq!(added.template_id, 4);
    assert_eq!(added.sort_order, 0);
    let mut state = AppState::new();
    v.item_added(&mut state);
    assert_eq!(v.new_item_title, "");
    assert_eq!(status_text(&state), "Uppgift tillagd");
    let it = ChecklistTemplateItem { id: Some(8), template_id: 4, title: "Gammal".to_string(), sort_order: 6 };
    v.start_edit(&it);
    assert!(v.is_editing(&it));
    v.edit_item_title = "   ".to_string();
    assert!(v.edited_item(&it).is_none());
    v.edit_item_title = " Ny ".to_string();
    let u = v.edited_item(&it).unwrap();
    assert_eq!((u.id, u.title.as_str(), u.sort_order), (Some(8), "Ny", 6));
    assert_eq!(first_template(&vec![Some(3), Some(9)]), Some(Some(3)));
    assert_eq!(first_template(&vec![]), None);
}

#[test]
fn dashboard_labels() {
    let mut d = DashboardView::new();
    d.stats_loaded(10, 20, 5, 2048, (3, 8));
    assert_eq!(d.tasks_label(), "5 / 8");
    assert_eq!(count_text(-4), "-4");
    assert_eq!(owner_label("  Anna Berg "), "(Anna Berg)");
    assert_eq!(size_unit(1023), SizeUnit::Bytes);
    assert_eq!(size_unit(1024), SizeUnit::Kilobytes);
    assert_eq!(size_unit(1024 * 1024), SizeUnit::Megabytes);
    assert_eq!(size_unit(1024 * 1024 * 1024), SizeUnit::Gigabytes);
}

#[test]
fn document_templates_validation() {
    let mut v = DocumentTemplatesView::new();
    v.open_new_form();
    assert_eq!(v.form_title(), "Ny dokumenttyp");
    assert_eq!(v.save_button_text(), "➕ Skapa");
    assert!(v.document_type_to_save().is_none());
    assert_eq!(v.error_message.as_deref(), Some("Namn krävs"));
    v.form_name = " Personbevis ".to_string();
    assert!(v.document_type_to_save().is_none());
    assert_eq!(v.error_message.as_deref(), Some("Målkatalog krävs"));
    v.form_target_directory = "dokument/personbevis ".to_string();
    v.form_default_filename = "  ".to_string();
    v.form_description = " Från Skatteverket".to_string();
    let dt = v.document_type_to_save().unwrap();
    assert_eq!(dt.id, None);
    assert_eq!(dt.name, "Personbevis");
    assert_eq!(dt.target_directory, "dokument/personbevis");
    assert_eq!(dt.default_filename, None);
    assert_eq!(dt.description.as_deref(), Some("Från Skatteverket"));
    v.save_finished(Err("låst".to_string()));
    assert_eq!(v.error_message.as_deref(), Some("Kunde inte spara: låst"));
    v.save_finished(Ok(()));
    assert!(!v.show_form);
    assert!(v.needs_refresh);
    v.delete_finished(Err("används".to_string()));
    assert_eq!(v.error_message.as_deref(), Some("Kunde inte ta bort: används"));
    let stored = DocumentType { id: Some(2), name: "Bilder".to_string(), target_directory: "bilder".to_string(), default_filename: None, description: None };
    v.open_edit_form(2, &stored);
    assert_eq!(v.form_title(), "Redigera dokumenttyp");
    assert_eq!(v.save_button_text(), "💾 Spara");
    assert_eq!(v.form_default_filename, "");
}

#[test]
fn project_selector_actions() {
    let mut v = ProjectSelectorView::new();
    v.ensure_form_when_empty(0);
    assert!(v.show_new_form);
    v.new_form.name = "Min Släkt".to_string();
    v.new_form.name_changed("/home/a/Genlib/min_slakt");
    assert_eq!(v.new_form.directory, "/home/a/Genlib/min_slakt");
    assert_eq!(safe_project_dir_name("Min Släkt"), "min_släkt");
    assert_eq!(safe_project_dir_name(""), "nytt_projekt");
    v.new_form.description = " test ".to_string();
    match v.create_action() {
        Some(ProjectAction::CreateNew { name, description, directory }) => {
            assert_eq!(name, "Min Släkt");
            assert_eq!(description, "test");
            assert_eq!(directory, "/home/a/Genlib/min_slakt");
        }
        _ => panic!("expected a new project"),
    }
    assert!(!v.show_new_form);
    let p = Project { id: "p1".to_string(), name: "Släkten".to_string(), description: String::new(), directory: "/x".to_string(), is_default: true, created_at: "2024".to_string() };
    assert_eq!(ProjectSelectorView::name_label(&p), "⭐ Släkten");
    assert!(ProjectSelectorView::set_default_action(&p).is_none());
    v.start_rename(&p);
    assert!(v.is_renaming(&p));
    v.rename_buffer = "  ".to_string();
    assert!(v.finish_rename(&p).is_none());
    assert!(!v.is_renaming(&p));
    v.start_rename(&p);
    v.rename_buffer = " Nytt namn ".to_string();
    match v.finish_rename(&p) {
        Some(ProjectAction::Rename(id, name)) => {
            assert_eq!(id, "p1");
            assert_eq!(name, "Nytt namn");
        }
        _ => panic!("expected a rename"),
    }
    assert!(!ProjectSelectorView::shows_delete_button(1));
    v.request_delete(&p);
    assert!(v.is_confirming_delete(&p));
    assert!(matches!(v.confirm_delete(&p), ProjectAction::Delete(ref id) if id == "p1"));
    v.reset();
    assert!(!v.show_new_form);
}

#[test]
fn reports_messages() {
    let mut v = ReportsView::new();
    v.stats_loaded(10, 7, 4, 30);
    let s = v.stats_cache.as_ref().unwrap();
    assert_eq!(s.deceased_persons, 3);
    let mut state = AppState::new();
    v.export_done(&mut state, "10 personer", "/tmp/p.json");
    assert_eq!(v.last_result.as_deref(), Some("10 personer sparad till /tmp/p.json"));
    v.export_failed(&mut state, "nekad");
    assert_eq!(status_text(&state), "Export misslyckades: nekad");
    assert_eq!(status_kind(&state), StatusType::Error);
    assert_eq!(v.description(), "Exporterar alla personer med namn, datum, ålder och anteckningar.");
}

#[test]
fn resource_list_type_filter_label() {
    let mut v = ResourceListView::new();
    let types = vec![
        ResourceType { id: Some(1), name: "Kyrka".to_string(), directory_name: "kyrkor".to_string() },
        ResourceType { id: Some(2), name: "Arkiv".to_string(), directory_name: "arkiv".to_string() },
    ];
    v.loaded(Some(types), None);
    assert_eq!(v.type_filter_label(), "Alla typer");
    v.set_type_filter(Some(2));
    assert_eq!(v.type_filter_label(), "Arkiv");
    v.set_type_filter(Some(9));
    assert_eq!(v.type_filter_label(), "Alla");
    v.search_query = "  Uppsala ".to_string();
    assert_eq!(v.query(), "Uppsala");
}

#[test]
fn setup_wizard_steps() {
    let mut w = SetupWizardView::new();
    assert_eq!(w.step_title(), "Steg 1: Media-katalog");
    w.media_path = "   ".to_string();
    w.next();
    assert_eq!(w.step, WizardStep::Media);
    assert_eq!(w.error_message.as_deref(), Some("Välj en media-katalog först."));
    w.media_path = " /media ".to_string();
    w.next();
    assert_eq!(w.step, WizardStep::Backup);
    assert_eq!(w.step_title(), "Steg 2: Backup-katalog");
    assert!(!w.finish_requested());
    assert_eq!(w.error_message.as_deref(), Some("Välj en backup-katalog först."));
    w.back();
    assert_eq!(w.step, WizardStep::Media);
    assert_eq!(w.error_message, None);
    w.next();
    w.backup_path = "/backup".to_string();
    assert!(w.finish_requested());
    assert_eq!(w.config_to_save(), ("/media".to_string(), "/backup".to_string()));
    let mut state = AppState::new();
    w.finished(&mut state);
    assert_eq!(w.step, WizardStep::Done);
    assert_eq!(w.step_title(), "Steg 3: Klar");
    assert_eq!(status_text(&state), "Setup klar");
    SetupWizardView::go_to_dashboard(&mut state);
    assert_eq!(state.current_view, View::Dashboard);
}

fn sc(key: u32, ctrl: bool) -> KeyboardShortcut {
    KeyboardShortcut { key, modifiers: ShortcutModifiers { ctrl_or_cmd: ctrl, shift: false, alt: false } }
}

#[test]
fn settings_capture_warns_about_conflicts() {
    let mut v = SettingsView::new();
    let mut defaults = ShortcutMap::new();
    defaults.insert(1, sc(70, true));
    defaults.insert(2, sc(78, true));
    v.load_shortcuts(&defaults);
    assert!(v.is_default(1, &defaults));
    v.start_capture(2);
    assert!(v.is_capturing());
    let conflict = v.shortcuts.action_using(sc(70, true), 2);
    assert_eq!(conflict, Some(1));
    let labels = vec!["Ny person".to_string(), "Sök".to_string(), "Ny anteckning".to_string()];
    let r = v.captured(Some(sc(70, true)), 27, &labels, "Ctrl+F");
    assert_eq!(r, CaptureOutcome::Bound);
    assert_eq!(v.conflict_warning.as_deref(), Some("Varning: Sök använder redan Ctrl+F"));
    assert_eq!(v.shortcuts.get(2), Some(sc(70, true)));
    assert!(!v.is_default(2, &defaults));
    v.start_capture(1);
    assert_eq!(v.captured(Some(sc(27, false)), 27, &labels, "Esc"), CaptureOutcome::Cancelled);
    assert!(!v.is_capturing());
    assert!(v.restore_default(2, &defaults));
    assert_eq!(v.shortcuts.get(2), Some(sc(78, true)));
    let mut state = AppState::new();
    v.reset_all(&mut state, &defaults);
    assert_eq!(status_text(&state), "Genvägar återställda till standard");
    v.save_finished(Err("skrivskyddad".to_string()));
    assert_eq!(v.status_message.as_deref(), Some("Fel: skrivskyddad"));
    v.save_finished(Ok(()));
    assert_eq!(v.status_message.as_deref(), Some("Inställningar sparade!"));
}

#[test]
fn shortcut_manager_checks_input() {
    let mut map = ShortcutMap::new();
    map.insert(1, sc(70, true));
    map.insert(9, sc(27, false));
    let m = ShortcutManager::new(map);
    let actions = vec![1, 9];
    let none = ShortcutModifiers { ctrl_or_cmd: false, shift: false, alt: false };
    let ctrl = ShortcutModifiers { ctrl_or_cmd: true, shift: false, alt: false };
    assert_eq!(m.check(&actions, false, false, &vec![70], ctrl, 9, 27), Some(1));
    assert_eq!(m.check(&actions, false, false, &vec![70], none, 9, 27), None);
    assert_eq!(m.check(&actions, true, false, &vec![70], ctrl, 9, 27), None);
    assert_eq!(m.check(&actions, false, true, &vec![70], ctrl, 9, 27), None);
    assert_eq!(m.check(&actions, false, true, &vec![27], none, 9, 27), Some(9));
    assert_eq!(m.shortcut_hint(1), Some(sc(70, true)));
    assert_eq!(m.shortcut_hint(5), None);
}

#[test]
fn family_tree_years_and_clicks() {
    let mut p = person(1, Some("A"), Some("B"));
    assert_eq!(format_years(&p), "");
    p.birth_date = Date::from_ymd_opt(1850, 3, 2);
    assert_eq!(format_years(&p), "f. 1850");
    p.death_date = Date::from_ymd_opt(1921, 12, 24);
    assert_eq!(format_years(&p), "1850 - 1921");
    p.birth_date = None;
    assert_eq!(format_years(&p), "d. 1921");
    p.death_date = Date::from_ymd_opt(812, 1, 1);
    assert_eq!(format_years(&p), "d. 0812");

    let mut t = FamilyTreeState::new();
    assert_eq!(t.generations, 3);
    t.set_generations(9);
    assert_eq!(t.generations, 5);
    t.set_generations(0);
    assert_eq!(t.generations, 1);
    t.built(4);
    assert!(!t.needs_rebuild(4));
    let mut state = AppState::new();
    assert!(!t.canvas_clicked(&mut state, Some(4), None, Some(4)));
    assert!(t.canvas_clicked(&mut state, Some(4), None, Some(6)));
    assert_eq!(t.focus_person_id, Some(6));
    assert!(!t.canvas_clicked(&mut state, Some(6), Some(8), Some(8)));
    assert_eq!(state.selected_person_id, Some(8));
    assert_eq!(state.current_view, View::PersonDetail);
    assert!(!t.set_person(6));
    assert!(t.set_person(7));
}

#[test]
fn person_detail_images() {
    let types = vec![
        DocumentType { id: Some(1), name: "Brev".to_string(), target_directory: "dokument/brev".to_string(), default_filename: None, description: None },
        DocumentType { id: Some(2), name: "Foto".to_string(), target_directory: "bilder/foton".to_string(), default_filename: None, description: None },
        DocumentType { id: Some(3), name: "Bild".to_string(), target_directory: "bilder".to_string(), default_filename: None, description: None },
    ];
    assert_eq!(image_type_id(&types), Some(2));
    assert_eq!(image_type_id(&vec![]), None);
    assert_eq!(import_outcome(3), Ok(3));
    assert_eq!(import_outcome(0), Err("Inga bilder kunde importeras".to_string()));
    assert_eq!(imported_image_path("a.jpg"), "bilder/a.jpg");

    let mut v = PersonDetailState::new();
    let mut state = AppState::new();
    v.images_imported(&mut state, Ok(2));
    assert_eq!(status_text(&state), "2 bild(er) importerade");
    v.images_imported(&mut state, Err("x".to_string()));
    assert_eq!(status_text(&state), "Import misslyckades: x");
    PersonDetailState::confirm_delete_person(&mut state, 5, "Anna Berg");
    assert_eq!(state.confirm_dialog_message, "Vill du verkligen radera Anna Berg?");
    assert_eq!(state.confirm_dialog_action, Some(ConfirmAction::DeletePerson(5)));
    let action = genlib::widgets::image_gallery::GalleryAction {
        set_profile_image: Some("bilder/a.jpg".to_string()),
        delete_image: Some((12, "b.jpg".to_string())),
        open_document: None,
    };
    let profile = PersonDetailState::gallery_action(&mut state, &action, "anna_berg");
    assert_eq!(profile.as_deref(), Some("persons/anna_berg/bilder/a.jpg"));
    assert_eq!(state.confirm_dialog_message, "Vill du radera bilden \"b.jpg\"? Filen tas bort permanent.");
    assert_eq!(PersonDetailState::document_group_label(None, 4), "Okategoriserade (4)");
    PersonDetailState::documents_synced(&mut state, Ok((false, String::new())));
    assert_eq!(status_text(&state), "Inga ändringar");
    assert_eq!(status_kind(&state), StatusType::Info);
}

#[test]
fn resource_sync_and_upload_names() {
    assert_eq!(sync_summary(0, 0), "");
    assert_eq!(sync_summary(3, 0), "3 tillagd(a)");
    assert_eq!(sync_summary(0, 2), "2 fel");
    assert_eq!(sync_summary(3, 2), "3 tillagd(a), 2 fel");
    let existing = vec!["bilder/a.jpg".to_string()];
    let found = vec!["a.jpg".to_string(), "sub/b.jpg".to_string()];
    assert_eq!(sync_candidates(&existing, "bilder", &found), vec!["bilder/sub/b.jpg".to_string()]);
    assert_eq!(upload_subdirectory(true), "bilder");
    assert_eq!(upload_subdirectory(false), "dokument");
    assert_eq!(relative_file_path("dokument", "x.pdf"), "dokument/x.pdf");

    let mut v = ResourceDetailState::new();
    v.open_address_form();
    v.new_addr_street = " Storgatan 1 ".to_string();
    v.new_addr_city = "   ".to_string();
    let a = v.address_to_save(7);
    assert_eq!(a.street.as_deref(), Some("Storgatan 1"));
    assert_eq!(a.city, None);
    let mut state = AppState::new();
    v.address_saved(&mut state, Ok(()));
    assert!(!v.show_add_address);
    assert_eq!(v.new_addr_street, "");
    assert_eq!(status_text(&state), "Adress sparad");
    let r = Resource { id: Some(7), name: "Kyrkan".to_string(), resource_type_id: 1, information: None, comment: None, directory_name: "kyrkan".to_string() };
    v.loaded(Some(r), None, vec![], vec![]);
    assert!(!v.needs_reload(7));
    assert_eq!(v.type_dir(), "");
}

#[test]
fn document_viewer_tags_and_failures() {
    let mut v = DocumentViewerState::new();
    assert!(v.needs_load(3));
    v.load_failed(3, LoadFailure::NotFound);
    assert_eq!(v.error_message.as_deref(), Some("Dokument hittades inte"));
    v.load_failed(3, LoadFailure::FileMissing("/m/x.txt".to_string()));
    assert_eq!(v.error_message.as_deref(), Some("Filen finns inte: /m/x.txt"));
    v.loaded(3, &Some("släkt, brev".to_string()));
    assert_eq!(v.edit_tags, "släkt, brev");
    assert!(!v.needs_load(3));
    v.edit_tags = "  ".to_string();
    assert_eq!(v.tags_to_save(), None);
    v.edit_tags = " a ".to_string();
    assert_eq!(v.tags_to_save().as_deref(), Some(" a "));
    assert_eq!(DocumentViewerState::tags_display(&None), "(inga taggar)");
    v.text_edited();
    v.text_saved(Err("nekad".to_string()));
    assert!(v.text_modified);
    assert_eq!(v.error_message.as_deref(), Some("Kunde inte spara: nekad"));
    v.text_saved(Ok(()));
    assert!(!v.text_modified);
}

#[test]
fn gallery_lightbox_steps_through_images() {
    let mut g = GalleryState::new();
    let img = |id: i64| GalleryImage { id: Some(id), filename: format!("{}.jpg", id), relative_path: format!("bilder/{}.jpg", id) };
    g.loaded(1, Some("anna".to_string()), vec![img(10), img(20), img(30)]);
    assert_eq!(g.image_count(), 3);
    g.select(20);
    let pos = g.lightbox_position(20).unwrap();
    assert_eq!((pos.index, pos.prev_id, pos.next_id), (1, Some(10), Some(30)));
    let first = g.lightbox_position(10).unwrap();
    assert_eq!((first.index, first.prev_id, first.next_id), (0, None, Some(20)));
    assert!(g.lightbox_done(20, false, Some(30), false));
    assert_eq!(g.selected_image, Some(30));
    assert!(!g.lightbox_done(30, false, None, true));
    assert_eq!(g.selected_image, None);
    let mut action = g.begin_show();
    g.finish_show(&mut action);
    assert_eq!(action.open_document, Some(30));
    assert!(g.lightbox_position(99).is_none());
    assert_eq!(counter_label(1, 3), "2 / 3");
    assert_eq!(g.image_path_parts("bilder/1.jpg"), vec!["persons".to_string(), "anna".to_string(), "bilder/1.jpg".to_string()]);
    assert!(starts_new_row(4, 4));
    assert!(!starts_new_row(0, 4));
}

#[test]
fn sorting_a_sorted_list_keeps_it() {
    let mut p = ChecklistPanel::new();
    let items = vec![item(1, false, 1), item(2, false, 1), item(3, true, 0), item(4, true, 2)];
    p.loaded(1, items, (2, 4), vec![]);
    let first: Vec<i64> = p.items.iter().map(|i| i.id.unwrap()).collect();
    let again: Vec<PersonChecklistItem> = p.items.drain(..).collect();
    p.loaded(1, again, (2, 4), vec![]);
    let second: Vec<i64> = p.items.iter().map(|i| i.id.unwrap()).collect();
    assert_eq!(first, vec![1, 2, 3, 4]);
    assert_eq!(first, second);
}

#[test]
fn settings_capture_without_conflict_clears_warning() {
    let mut v = SettingsView::new();
    let mut defaults = ShortcutMap::new();
    defaults.insert(0, sc(78, true));
    defaults.insert(1, sc(70, true));
    v.load_shortcuts(&defaults);
    let labels = vec!["Ny person".to_string(), "Sök".to_string()];
    v.start_capture(1);
    assert_eq!(v.captured(Some(sc(78, true)), 27, &labels, "Ctrl+N"), CaptureOutcome::Bound);
    assert_eq!(v.conflict_warning.as_deref(), Some("Varning: Ny person använder redan Ctrl+N"));
    v.start_capture(1);
    assert_eq!(v.captured(Some(sc(71, true)), 27, &labels, "Ctrl+G"), CaptureOutcome::Bound);
    assert_eq!(v.conflict_warning, None);
    assert_eq!(v.shortcuts.get(1), Some(sc(71, true)));
}
