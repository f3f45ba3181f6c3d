pub mod filters;
pub mod person_list;
pub mod checklist_search;
pub mod backup_view;
pub mod checklist_templates;
pub mod dashboard;
pub mod document_templates;
pub mod project_selector;
pub mod reports;
pub mod resource_list;
pub mod setup_wizard;
pub mod settings;
pub mod family_tree;
pub mod person_detail;
pub mod resource_detail;
pub mod document_viewer;
