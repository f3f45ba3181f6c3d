//! The project selector: the cards of the registered projects, renaming,
//! removing, and the form of a new project.

use vstd::prelude::*;
use vstd::string::*;
use vstd::view::View as _;
use crate::text::{owned, push_char, push_str, str_equals, str_is_blank, to_lowercase, trim};

verus! {

/// A registered genealogy project.
pub struct Project {
    pub id: String,
    pub name: String,
    pub description: String,
    /// The project directory, written for display.
    pub directory: String,
    pub is_default: bool,
    pub created_at: String,
}

/// What the user asked of the project registry.
pub enum ProjectAction {
    Open(String),
    /// The project id and its new name.
    Rename(String, String),
    /// Remove the project from the list (its files stay).
    Delete(String),
    SetDefault(String),
    CreateNew { name: String, description: String, directory: String },
}

/// The fields of the new-project form.
pub struct NewProjectForm {
    pub name: String,
    pub description: String,
    pub directory: String,
    pub error: Option<String>,
}

/// An empty new-project form.
pub open spec fn form_is_clear(f: NewProjectForm) -> bool {
    &&& f.name@ == Seq::<char>::empty()
    &&& f.description@ == Seq::<char>::empty()
    &&& f.directory@ == Seq::<char>::empty()
    &&& f.error is None
}

impl NewProjectForm {
    /// An empty form.
    pub fn new() -> (f: NewProjectForm)
        ensures
            form_is_clear(f),
    {
        NewProjectForm {
            name: String::new(),
            description: String::new(),
            directory: String::new(),
            error: None,
        }
    }

    /// Empties the form.
    pub fn clear(&mut self)
        ensures
            form_is_clear(*final(self)),
    {
        *self = NewProjectForm::new();
    }

    /// The name was edited: a non-empty name puts the directory suggested for
    /// it in the directory field.
    pub fn name_changed(&mut self, suggested_dir: &str)
        ensures
            old(self).name@.len() > 0 ==> final(self).directory@ == suggested_dir@,
            old(self).name@.len() == 0 ==> final(self).directory == old(self).directory,
            final(self).name == old(self).name,
            final(self).description == old(self).description,
    {
        if self.name.unicode_len() > 0 {
            self.directory = owned(suggested_dir);
        }
    }

    /// A project can be made once name and directory are not blank.
    pub fn can_create(&self) -> (r: bool)
        ensures
            r == (!crate::text::is_blank(self.name@) && !crate::text::is_blank(self.directory@)),
    {
        !str_is_blank(self.name.as_str()) && !str_is_blank(self.directory.as_str())
    }
}

/// Spaces become underscores.
pub open spec fn underscored(s: Seq<char>) -> Seq<char> {
    s.map_values(|c: char| if c == ' ' { '_' } else { c })
}

/// The name of the project directory that a picked folder gets: the project
/// name in lower case with underscores for spaces, or "nytt_projekt" for no
/// name.
pub open spec fn project_dir_name(name: Seq<char>) -> Seq<char> {
    if name.len() == 0 {
        "nytt_projekt"@
    } else {
        underscored(crate::text::lowercase(name))
    }
}

/// The directory name below a picked folder.
pub fn safe_project_dir_name(name: &str) -> (r: String)
    ensures
        r@ == project_dir_name(name@),
{
    if name.unicode_len() == 0 {
        return owned("nytt_projekt");
    }
    let lower = to_lowercase(name);
    let n = lower.as_str().unicode_len();
    let mut r = String::new();
    let mut i: usize = 0;
    while i < n
        invariant
            n == lower@.len(),
            i <= n,
            r@ == underscored(lower@.subrange(0, i as int)),
        decreases n - i,
    {
        let c = lower.as_str().get_char(i);
        let d = if c == ' ' {
            '_'
        } else {
            c
        };
        push_char(&mut r, d);
        assert(underscored(lower@.subrange(0, i + 1)) =~= underscored(
            lower@.subrange(0, i as int),
        ).push(d));
        i = i + 1;
    }
    assert(lower@.subrange(0, n as int) =~= lower@);
    r
}

/// The project selector.
pub struct ProjectSelectorView {
    pub show_new_form: bool,
    pub new_form: NewProjectForm,
    /// The project whose name is being edited.
    pub renaming_id: Option<String>,
    pub rename_buffer: String,
    /// The project whose removal waits for confirmation.
    pub confirm_delete_id: Option<String>,
}

/// The selector as it starts: the form closed and empty, nothing pending.
pub open spec fn is_reset(v: ProjectSelectorView) -> bool {
    &&& !v.show_new_form
    &&& form_is_clear(v.new_form)
    &&& v.renaming_id is None
    &&& v.rename_buffer@ == Seq::<char>::empty()
    &&& v.confirm_delete_id is None
}

/// Whether an optional id is the given one.
fn is_id(current: &Option<String>, id: &str) -> (r: bool)
    ensures
        r == (current matches Some(c) && c@ == id@),
{
    match current {
        Some(c) => str_equals(c.as_str(), id),
        None => false,
    }
}

impl ProjectSelectorView {
    /// The selector as it starts.
    pub fn new() -> (v: ProjectSelectorView)
        ensures
            is_reset(v),
    {
        ProjectSelectorView {
            show_new_form: false,
            new_form: NewProjectForm::new(),
            renaming_id: None,
            rename_buffer: String::new(),
            confirm_delete_id: None,
        }
    }

    /// Back to the start: the form closed and empty, nothing pending.
    pub fn reset(&mut self)
        ensures
            is_reset(*final(self)),
    {
        self.show_new_form = false;
        self.new_form.clear();
        self.renaming_id = None;
        self.rename_buffer = String::new();
        self.confirm_delete_id = None;
    }

    /// With no project registered the form of a new project opens, empty.
    pub fn ensure_form_when_empty(&mut self, project_count: usize)
        ensures
            project_count == 0 && !old(self).show_new_form ==> final(self).show_new_form
                && form_is_clear(final(self).new_form),
            !(project_count == 0 && !old(self).show_new_form) ==> *final(self) == *old(self),
    {
        if project_count == 0 && !self.show_new_form {
            self.show_new_form = true;
            self.new_form.clear();
        }
    }

    /// The new-project button opens an empty form.
    pub fn open_new_form(&mut self)
        ensures
            final(self).show_new_form,
            form_is_clear(final(self).new_form),
            final(self).renaming_id == old(self).renaming_id,
    {
        self.show_new_form = true;
        self.new_form.clear();
    }

    /// The heading of the form; the first project gets its own.
    pub fn form_title(is_first_project: bool) -> (r: &'static str)
        ensures
            is_first_project ==> r@ == "Skapa ditt första projekt"@,
            !is_first_project ==> r@ == "Nytt projekt"@,
    {
        if is_first_project {
            "Skapa ditt första projekt"
        } else {
            "Nytt projekt"
        }
    }

    /// The name on a project's card; the default project is starred.
    pub fn name_label(project: &Project) -> (r: String)
        ensures
            project.is_default ==> r@ == "⭐ "@ + project.name@,
            !project.is_default ==> r@ == project.name@,
    {
        if project.is_default {
            let mut t = owned("⭐ ");
            push_str(&mut t, project.name.as_str());
            t
        } else {
            project.name.clone()
        }
    }

    /// Whether the project's name is being edited.
    pub fn is_renaming(&self, project: &Project) -> (r: bool)
        ensures
            r == (self.renaming_id matches Some(id) && id@ == project.id@),
    {
        is_id(&self.renaming_id, project.id.as_str())
    }

    /// Starts editing a project's name, from the name it has.
    pub fn start_rename(&mut self, project: &Project)
        ensures
            final(self).renaming_id matches Some(id) && id@ == project.id@,
            final(self).rename_buffer@ == project.name@,
            final(self).show_new_form == old(self).show_new_form,
    {
        self.renaming_id = Some(project.id.clone());
        self.rename_buffer = project.name.clone();
    }

    /// Enter or the check button ends the edit; a name that is not blank is
    /// asked for, trimmed.
    pub fn finish_rename(&mut self, project: &Project) -> (r: Option<ProjectAction>)
        ensures
            final(self).renaming_id is None,
            crate::text::is_blank(old(self).rename_buffer@) ==> r is None,
            !crate::text::is_blank(old(self).rename_buffer@) ==> (r matches Some(
                ProjectAction::Rename(id, name),
            ) && id@ == project.id@ && name@ == crate::text::trimmed(old(self).rename_buffer@)),
    {
        let new_name = trim(self.rename_buffer.as_str());
        let r = if new_name.unicode_len() > 0 {
            Some(ProjectAction::Rename(project.id.clone(), owned(new_name)))
        } else {
            None
        };
        self.renaming_id = None;
        r
    }

    /// The cancel button of the name edit.
    pub fn cancel_rename(&mut self)
        ensures
            final(self).renaming_id is None,
            final(self).rename_buffer == old(self).rename_buffer,
    {
        self.renaming_id = None;
    }

    /// Whether the project's removal waits for confirmation.
    pub fn is_confirming_delete(&self, project: &Project) -> (r: bool)
        ensures
            r == (self.confirm_delete_id matches Some(id) && id@ == project.id@),
    {
        is_id(&self.confirm_delete_id, project.id.as_str())
    }

    /// The remove button, shown only while more than one project is
    /// registered.
    pub fn shows_delete_button(project_count: usize) -> (r: bool)
        ensures
            r == (project_count > 1),
    {
        project_count > 1
    }

    /// The remove button asks for confirmation.
    pub fn request_delete(&mut self, project: &Project)
        ensures
            final(self).confirm_delete_id matches Some(id) && id@ == project.id@,
            final(self).renaming_id == old(self).renaming_id,
    {
        self.confirm_delete_id = Some(project.id.clone());
    }

    /// The confirmation removes the project from the list.
    pub fn confirm_delete(&mut self, project: &Project) -> (r: ProjectAction)
        ensures
            r matches ProjectAction::Delete(id) && id@ == project.id@,
            final(self).confirm_delete_id is None,
    {
        self.confirm_delete_id = None;
        ProjectAction::Delete(project.id.clone())
    }

    /// The cancel button of the confirmation.
    pub fn cancel_delete(&mut self)
        ensures
            final(self).confirm_delete_id is None,
            final(self).renaming_id == old(self).renaming_id,
    {
        self.confirm_delete_id = None;
    }

    /// The open button.
    pub fn open_action(project: &Project) -> (r: ProjectAction)
        ensures
            r matches ProjectAction::Open(id) && id@ == project.id@,
    {
        ProjectAction::Open(project.id.clone())
    }

    /// The star button, shown for projects other than the default one.
    pub fn set_default_action(project: &Project) -> (r: Option<ProjectAction>)
        ensures
            project.is_default ==> r is None,
            !project.is_default ==> (r matches Some(ProjectAction::SetDefault(id)) && id@
                == project.id@),
    {
        if project.is_default {
            None
        } else {
            Some(ProjectAction::SetDefault(project.id.clone()))
        }
    }

    /// The create button, enabled once name and directory are not blank: it asks
    /// for the project with the fields trimmed, and the form closes empty.
    pub fn create_action(&mut self) -> (r: Option<ProjectAction>)
        ensures
            !(!crate::text::is_blank(old(self).new_form.name@) && !crate::text::is_blank(
                old(self).new_form.directory@,
            )) ==> r is None && *final(self) == *old(self),
            !crate::text::is_blank(old(self).new_form.name@) && !crate::text::is_blank(
                old(self).new_form.directory@,
            ) ==> (r matches Some(ProjectAction::CreateNew { name, description, directory })
                && name@ == crate::text::trimmed(old(self).new_form.name@) && description@
                == crate::text::trimmed(old(self).new_form.description@) && directory@
                == crate::text::trimmed(old(self).new_form.directory@))
                && !final(self).show_new_form && form_is_clear(final(self).new_form),
    {
        if !self.new_form.can_create() {
            return None;
        }
        let name = owned(trim(self.new_form.name.as_str()));
        let description = owned(trim(self.new_form.description.as_str()));
        let directory = owned(trim(self.new_form.directory.as_str()));
        self.show_new_form = false;
        self.new_form.clear();
        Some(ProjectAction::CreateNew { name, description, directory })
    }

    /// The cancel button of the form, which the first project does not have.
    pub fn cancel_new_form(&mut self, is_first_project: bool)
        ensures
            !is_first_project ==> !final(self).show_new_form && form_is_clear(final(self).new_form),
            is_first_project ==> *final(self) == *old(self),
    {
        if !is_first_project {
            self.show_new_form = false;
            self.new_form.clear();
        }
    }
}

} // verus!
