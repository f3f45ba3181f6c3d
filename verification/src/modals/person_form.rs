//! The form that creates or edits a person.

use vstd::prelude::*;
use vstd::string::*;
use vstd::view::View as _;
use crate::date;
use crate::date::{parse_iso_date, Date};
use crate::models::Person;
use crate::state;
use crate::state::PersonFormData;
use crate::text::owned;

verus! {

/// Why the person form cannot be saved.
#[derive(Debug, Clone, Copy, PartialEq, Eq, Structural)]
pub enum PersonFormError {
    NameMissing,
    DirectoryMissing,
    InvalidBirthDate,
    InvalidDeathDate,
}

/// The text shown for an error.
pub open spec fn person_form_error_text(e: PersonFormError) -> Seq<char> {
    match e {
        PersonFormError::NameMissing => "Minst förnamn eller efternamn krävs"@,
        PersonFormError::DirectoryMissing => "Katalognamn krävs"@,
        PersonFormError::InvalidBirthDate => "Ogiltigt födelsedatum (använd YYYY-MM-DD)"@,
        PersonFormError::InvalidDeathDate => "Ogiltigt dödsdatum (använd YYYY-MM-DD)"@,
    }
}

impl PersonFormError {
    /// The text shown for this error.
    pub fn message(&self) -> (r: String)
        ensures
            r@ == person_form_error_text(*self),
    {
        match self {
            PersonFormError::NameMissing => owned("Minst förnamn eller efternamn krävs"),
            PersonFormError::DirectoryMissing => owned("Katalognamn krävs"),
            PersonFormError::InvalidBirthDate => owned("Ogiltigt födelsedatum (använd YYYY-MM-DD)"),
            PersonFormError::InvalidDeathDate => owned("Ogiltigt dödsdatum (använd YYYY-MM-DD)"),
        }
    }
}

/// The values of a form that passed its checks.
pub struct ValidPersonForm {
    pub firstname: Option<String>,
    pub surname: Option<String>,
    pub birth_date: Option<Date>,
    pub death_date: Option<Date>,
    pub directory_name: String,
}

/// An optional date field: empty is no date, otherwise a `YYYY-MM-DD` date.
pub open spec fn optional_date_field(s: Seq<char>) -> Option<Option<(int, int, int)>> {
    if s.len() == 0 {
        Some(None)
    } else {
        match date::iso_date(s) {
            Some(d) => Some(Some(d)),
            None => None,
        }
    }
}

/// The first check of the form that fails, in the order the form checks them.
pub open spec fn first_form_error(f: PersonFormData) -> Option<PersonFormError> {
    if f.firstname@.len() == 0 && f.surname@.len() == 0 {
        Some(PersonFormError::NameMissing)
    } else if f.directory_name@.len() == 0 {
        Some(PersonFormError::DirectoryMissing)
    } else if optional_date_field(f.birth_date@) is None {
        Some(PersonFormError::InvalidBirthDate)
    } else if optional_date_field(f.death_date@) is None {
        Some(PersonFormError::InvalidDeathDate)
    } else {
        None
    }
}

/// The optional text of a field: `None` when it is empty.
pub open spec fn optional_text(s: Seq<char>) -> Option<Seq<char>> {
    if s.len() == 0 {
        None
    } else {
        Some(s)
    }
}

/// The view of an optional string.
pub open spec fn opt_string_view(s: Option<String>) -> Option<Seq<char>> {
    match s {
        Some(t) => Some(t@),
        None => None,
    }
}

/// The view of an optional date.
pub open spec fn opt_date_value(d: Option<Date>) -> Option<(int, int, int)> {
    match d {
        Some(x) => Some(x@),
        None => None,
    }
}

fn optional_string(s: &String) -> (r: Option<String>)
    ensures
        opt_string_view(r) == optional_text(s@),
{
    if s.as_str().unicode_len() == 0 {
        None
    } else {
        Some(s.clone())
    }
}

fn optional_date(s: &String) -> (r: Option<Option<Date>>)
    ensures
        match optional_date_field(s@) {
            Some(v) => r matches Some(x) && opt_date_value(x) == v,
            None => r is None,
        },
{
    if s.as_str().unicode_len() == 0 {
        Some(None)
    } else {
        match parse_iso_date(s.as_str()) {
            Some(d) => Some(Some(d)),
            None => None,
        }
    }
}

/// The state of the person form.
pub struct PersonFormModal {
    pub form_data: PersonFormData,
    pub error_message: Option<String>,
    /// Whether the directory name follows the names as they are typed.
    pub auto_generate_dir: bool,
}

impl PersonFormModal {
    /// An empty form that derives the directory name from the names.
    pub fn new() -> (m: PersonFormModal)
        ensures
            state::is_empty_person_form(m.form_data),
            m.error_message is None,
            m.auto_generate_dir,
    {
        PersonFormModal {
            form_data: PersonFormData::default(),
            error_message: None,
            auto_generate_dir: true,
        }
    }

    /// Back to an empty form.
    pub fn reset(&mut self)
        ensures
            state::is_empty_person_form(final(self).form_data),
            final(self).error_message is None,
            final(self).auto_generate_dir,
    {
        self.form_data.clear();
        self.error_message = None;
        self.auto_generate_dir = true;
    }

    /// Whether the stored person is to be loaded into the form: the form is
    /// shown for an existing person and not yet filled in.
    pub fn needs_loading(&self, show_person_form: bool, editing_person_id: Option<i64>) -> (r: bool)
        ensures
            r == (show_person_form && editing_person_id is Some
                && self.form_data.directory_name@.len() == 0),
    {
        show_person_form && editing_person_id.is_some()
            && self.form_data.directory_name.as_str().unicode_len() == 0
    }

    /// Fills the form from a stored person, whose directory name then no
    /// longer follows the names.
    pub fn load_person(&mut self, person: &Person)
        ensures
            final(self).form_data.firstname@ == state::text_or_empty(person.firstname),
            final(self).form_data.surname@ == state::text_or_empty(person.surname),
            final(self).form_data.birth_date@ == state::date_or_empty(person.birth_date),
            final(self).form_data.death_date@ == state::date_or_empty(person.death_date),
            final(self).form_data.directory_name@ == person.directory_name@,
            !final(self).auto_generate_dir,
            final(self).error_message == old(self).error_message,
    {
        self.form_data = PersonFormData::from_person(person);
        self.auto_generate_dir = false;
    }

    /// The user edited the directory name: it no longer follows the names.
    pub fn directory_edited(&mut self)
        ensures
            !final(self).auto_generate_dir,
            final(self).form_data == old(self).form_data,
    {
        self.auto_generate_dir = false;
    }

    /// Whether a change of the names regenerates the directory name: only for
    /// a new person whose directory name still follows the names.
    pub fn regenerates_directory(&self, name_changed: bool, editing_person_id: Option<i64>) -> (r: bool)
        ensures
            r == (name_changed && self.auto_generate_dir && editing_person_id is None),
    {
        name_changed && self.auto_generate_dir && editing_person_id.is_none()
    }

    /// The checks of the form, in order: a first or last name, a directory
    /// name, and dates that are empty or `YYYY-MM-DD`.  Passing them, the
    /// values to store: empty names as absent.
    pub fn validate(&self) -> (r: Result<ValidPersonForm, PersonFormError>)
        ensures
            match first_form_error(self.form_data) {
                Some(e) => r == Err::<ValidPersonForm, PersonFormError>(e),
                None => r matches Ok(v) && {
                    &&& opt_string_view(v.firstname) == optional_text(self.form_data.firstname@)
                    &&& opt_string_view(v.surname) == optional_text(self.form_data.surname@)
                    &&& Some(opt_date_value(v.birth_date)) == optional_date_field(
                        self.form_data.birth_date@,
                    )
                    &&& Some(opt_date_value(v.death_date)) == optional_date_field(
                        self.form_data.death_date@,
                    )
                    &&& v.directory_name@ == self.form_data.directory_name@
                },
            },
    {
        let f = &self.form_data;
        if f.firstname.as_str().unicode_len() == 0 && f.surname.as_str().unicode_len() == 0 {
            return Err(PersonFormError::NameMissing);
        }
        if f.directory_name.as_str().unicode_len() == 0 {
            return Err(PersonFormError::DirectoryMissing);
        }
        let birth_date = match optional_date(&f.birth_date) {
            Some(d) => d,
            None => {
                return Err(PersonFormError::InvalidBirthDate);
            },
        };
        let death_date = match optional_date(&f.death_date) {
            Some(d) => d,
            None => {
                return Err(PersonFormError::InvalidDeathDate);
            },
        };
        Ok(
            ValidPersonForm {
                firstname: optional_string(&f.firstname),
                surname: optional_string(&f.surname),
                birth_date,
                death_date,
                directory_name: f.directory_name.clone(),
            },
        )
    }

    /// Shows why saving failed.
    pub fn save_failed(&mut self, message: &str)
        ensures
            final(self).error_message matches Some(m) && m@ == message@,
            final(self).form_data == old(self).form_data,
            final(self).auto_generate_dir == old(self).auto_generate_dir,
    {
        self.error_message = Some(owned(message));
    }
}

/// A form with neither a first nor a last name is never accepted, whatever its
/// other fields hold.
pub proof fn law_name_required(f: PersonFormData)
    requires
        f.firstname@.len() == 0,
        f.surname@.len() == 0,
    ensures
        first_form_error(f) == Some(PersonFormError::NameMissing),
{
}

/// A form that is accepted has a directory name and dates that read as
/// `YYYY-MM-DD` or are empty.
pub proof fn law_accepted_form_is_complete(f: PersonFormData)
    requires
        first_form_error(f) is None,
    ensures
        f.directory_name@.len() > 0,
        f.firstname@.len() > 0 || f.surname@.len() > 0,
        f.birth_date@.len() == 0 || date::iso_date(f.birth_date@) is Some,
        f.death_date@.len() == 0 || date::iso_date(f.death_date@) is Some,
{
}

/// A date field of the form: empty is accepted as no date; a text that chrono
/// reads as `%Y-%m-%d` is accepted as that very date; any other text is
/// refused.
pub proof fn law_date_field_keeps_date(s: Seq<char>)
    ensures
        s.len() == 0 ==> optional_date_field(s) == Some(None::<(int, int, int)>),
        s.len() > 0 && date::chrono_parsed(s, "%Y-%m-%d"@) is Some ==> optional_date_field(s)
            == Some(Some(date::chrono_parsed(s, "%Y-%m-%d"@)->0)),
        s.len() > 0 && date::chrono_parsed(s, "%Y-%m-%d"@) is None ==> optional_date_field(s) is None,
{
}

/// A form that passes its checks stores each date field as the date it reads
/// as `%Y-%m-%d`, and an empty field as no date.
pub proof fn law_accepted_dates_are_stored(f: PersonFormData, v: ValidPersonForm)
    requires
        first_form_error(f) is None,
        Some(opt_date_value(v.birth_date)) == optional_date_field(f.birth_date@),
        Some(opt_date_value(v.death_date)) == optional_date_field(f.death_date@),
    ensures
        f.birth_date@.len() > 0 ==> opt_date_value(v.birth_date) == date::chrono_parsed(
            f.birth_date@,
            "%Y-%m-%d"@,
        ) && v.birth_date is Some,
        f.birth_date@.len() == 0 ==> v.birth_date is None,
        f.death_date@.len() > 0 ==> opt_date_value(v.death_date) == date::chrono_parsed(
            f.death_date@,
            "%Y-%m-%d"@,
        ) && v.death_date is Some,
        f.death_date@.len() == 0 ==> v.death_date is None,
{
}

} // verus!
