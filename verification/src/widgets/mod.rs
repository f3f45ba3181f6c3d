pub mod checklist_panel;
pub mod image_gallery;
