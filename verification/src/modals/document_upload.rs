//! The dialog that adds documents to a person: it imports files or creates a
//! text document.

use vstd::prelude::*;
use vstd::string::*;
use vstd::view::View as _;
use crate::models::DocumentType;
use crate::path::final_component;
use crate::state::DocumentUploadMode;
use crate::theme::Icons;
use crate::text;
use crate::text::{owned, push_char, push_decimal, push_str, str_has_char};

verus! {

/// How the import of one file went.
#[derive(Debug, Clone, Copy, PartialEq, Eq, Structural)]
pub enum ImportStatus {
    Pending,
    Done,
    Failed,
}

/// A file chosen for import.
pub struct ImportFileEntry {
    pub path: String,
    pub filename: String,
    pub status: ImportStatus,
}

/// Why adding documents cannot go on.
#[derive(Debug, Clone, Copy, PartialEq, Eq, Structural)]
pub enum UploadError {
    NoFiles,
    NoType,
    AllFailed,
    NoContent,
    NoFilename,
}

/// The text shown for an error.
pub open spec fn upload_error_text(e: UploadError) -> Seq<char> {
    match e {
        UploadError::NoFiles => "Inga filer valda"@,
        UploadError::NoType => "Ingen dokumenttyp vald"@,
        UploadError::AllFailed => "Alla importer misslyckades"@,
        UploadError::NoContent => "Inget textinnehåll"@,
        UploadError::NoFilename => "Inget filnamn angivet"@,
    }
}

impl UploadError {
    /// The text shown for this error.
    pub fn message(&self) -> (r: String)
        ensures
            r@ == upload_error_text(*self),
    {
        match self {
            UploadError::NoFiles => owned("Inga filer valda"),
            UploadError::NoType => owned("Ingen dokumenttyp vald"),
            UploadError::AllFailed => owned("Alla importer misslyckades"),
            UploadError::NoContent => owned("Inget textinnehåll"),
            UploadError::NoFilename => owned("Inget filnamn angivet"),
        }
    }
}

/// The state of the document dialog.
pub struct DocumentUploadModal {
    pub selected_files: Vec<ImportFileEntry>,
    pub selected_type_id: Option<i64>,
    pub text_content: String,
    pub text_filename: String,
    /// Whether the user typed the file name (then a template does not replace it).
    pub filename_manually_edited: bool,
    pub document_types: Vec<DocumentType>,
    pub needs_refresh: bool,
    pub error_message: Option<String>,
    pub uploading: bool,
    pub import_success_count: usize,
    pub import_failed_count: usize,
}

/// The first position in `types` of the type with id `id`.
pub open spec fn is_first_type_index(types: Seq<DocumentType>, id: i64, k: int) -> bool {
    &&& 0 <= k < types.len()
    &&& types[k].id == Some(id)
    &&& forall|j: int| 0 <= j < k ==> types[j].id != Some(id)
}

/// The title of the document dialog in each mode.
pub fn dialog_title(mode: DocumentUploadMode) -> (r: String)
    ensures
        mode == DocumentUploadMode::Import ==> r@ == Icons::IMPORT@ + " Importera filer"@,
        mode == DocumentUploadMode::Create ==> r@ == Icons::ADD@ + " Skapa dokument"@,
{
    match mode {
        DocumentUploadMode::Import => {
            let mut t = owned(Icons::IMPORT);
            push_str(&mut t, " Importera filer");
            t
        },
        DocumentUploadMode::Create => {
            let mut t = owned(Icons::ADD);
            push_str(&mut t, " Skapa dokument");
            t
        },
    }
}

/// The label of the save button: one file, a number of files, or the
/// creation of a text document.
pub open spec fn save_label_text(import: bool, count: nat) -> Seq<char> {
    if !import {
        Icons::SAVE@ + " Skapa"@
    } else if count == 1 {
        Icons::SAVE@ + " Importera fil"@
    } else {
        Icons::SAVE@ + " Importera "@ + text::decimal(count) + " filer"@
    }
}

/// The label of the dialog's save button, for `count` chosen files.
pub fn save_button_label(mode: DocumentUploadMode, count: usize) -> (r: String)
    ensures
        r@ == save_label_text(mode == DocumentUploadMode::Import, count as nat),
{
    match mode {
        DocumentUploadMode::Create => {
            let mut t = owned(Icons::SAVE);
            push_str(&mut t, " Skapa");
            t
        },
        DocumentUploadMode::Import => {
            let mut t = owned(Icons::SAVE);
            if count == 1 {
                push_str(&mut t, " Importera fil");
            } else {
                push_str(&mut t, " Importera ");
                push_decimal(&mut t, count as u64);
                push_str(&mut t, " filer");
            }
            t
        },
    }
}

/// How many of the outcomes are successes.
pub open spec fn count_true(s: Seq<bool>) -> int
    decreases s.len(),
{
    if s.len() == 0 {
        0
    } else {
        count_true(s.drop_last()) + if s.last() {
            1int
        } else {
            0int
        }
    }
}

/// No type in `types` has id `id`.
pub open spec fn has_no_type(types: Seq<DocumentType>, id: i64) -> bool {
    forall|j: int| 0 <= j < types.len() ==> types[j].id != Some(id)
}

/// A document type with a non-empty default file name.
pub open spec fn has_default_name(t: DocumentType) -> bool {
    t.default_filename matches Some(f) && f@.len() > 0
}

/// Whether the selected type, found first in `types`, has a non-empty default
/// file name.
pub open spec fn selected_has_default(types: Seq<DocumentType>, selected: Option<i64>) -> bool {
    match selected {
        Some(id) => exists|k: int|
            is_first_type_index(types, id, k) && has_default_name(#[trigger] types[k]),
        None => false,
    }
}

/// The reset state of the dialog's inputs.
pub open spec fn is_reset(m: DocumentUploadModal) -> bool {
    &&& m.selected_files@.len() == 0
    &&& m.selected_type_id is None
    &&& m.text_content@ == Seq::<char>::empty()
    &&& m.text_filename@ == Seq::<char>::empty()
    &&& !m.filename_manually_edited
    &&& m.error_message is None
    &&& !m.uploading
    &&& m.import_success_count == 0
    &&& m.import_failed_count == 0
}

/// Whether the dialog's save button is enabled in `mode`.
pub open spec fn can_save_spec(m: DocumentUploadModal, mode: DocumentUploadMode) -> bool {
    match mode {
        DocumentUploadMode::Import => m.selected_files@.len() > 0 && m.selected_type_id is Some
            && !m.uploading,
        DocumentUploadMode::Create => m.text_content@.len() > 0 && m.selected_type_id is Some
            && !m.uploading && (m.text_filename@.len() > 0 || selected_has_default(
            m.document_types@,
            m.selected_type_id,
        )),
    }
}

/// The message after a successful import of `s` files with `f` failures.
pub open spec fn import_message_text(s: nat, f: nat) -> Seq<char> {
    if f > 0 {
        text::decimal(s) + " filer importerade, "@ + text::decimal(f) + " misslyckades"@
    } else if s == 1 {
        "Fil importerad!"@
    } else {
        text::decimal(s) + " filer importerade!"@
    }
}

/// The file name that a text document is saved under: the typed name, else
/// the type's default name; `.txt` is added to a name without a dot.
pub open spec fn text_document_name(typed: Seq<char>, default_name: Option<Seq<char>>) -> Option<Seq<char>> {
    let base = if typed.len() > 0 {
        Some(typed)
    } else {
        default_name
    };
    match base {
        Some(b) => Some(
            if b.contains('.') {
                b
            } else {
                b + ".txt"@
            },
        ),
        None => None,
    }
}

/// The path of a document relative to the person's directory.
pub open spec fn relative_document_path_text(target: Seq<char>, name: Seq<char>) -> Seq<char> {
    target + seq!['/'] + name
}

/// `"{target_directory}/{file_name}"`.
pub fn relative_document_path(target_directory: &str, file_name: &str) -> (r: String)
    ensures
        r@ == relative_document_path_text(target_directory@, file_name@),
{
    let mut r = owned(target_directory);
    push_char(&mut r, '/');
    push_str(&mut r, file_name);
    assert(r@ =~= relative_document_path_text(target_directory@, file_name@));
    r
}

/// The file name of a new text document, or why there is none.
pub fn text_document_filename(typed: &str, default_name: Option<&str>) -> (r: Result<String, UploadError>)
    ensures
        match text_document_name(
            typed@,
            match default_name {
                Some(d) => Some(d@),
                None => None,
            },
        ) {
            Some(n) => r matches Ok(x) && x@ == n,
            None => r == Err::<String, UploadError>(UploadError::NoFilename),
        },
{
    let base: &str = if typed.unicode_len() > 0 {
        typed
    } else {
        match default_name {
            Some(d) => d,
            None => {
                return Err(UploadError::NoFilename);
            },
        }
    };
    if str_has_char(base, '.') {
        Ok(owned(base))
    } else {
        let mut r = owned(base);
        push_str(&mut r, ".txt");
        Ok(r)
    }
}

/// A text document is always saved under a name with a dot.
pub proof fn law_text_document_name_has_dot(typed: Seq<char>, default_name: Option<Seq<char>>)
    ensures
        text_document_name(typed, default_name) matches Some(n) ==> n.contains('.'),
{
    let base = if typed.len() > 0 {
        Some(typed)
    } else {
        default_name
    };
    if let Some(b) = base {
        if !b.contains('.') {
            let n = b + ".txt"@;
            assert(".txt"@ == seq!['.', 't', 'x', 't']) by {
                reveal_strlit(".txt");
            }
            assert(n[b.len() as int] == '.');
        }
    }
}

impl DocumentUploadModal {
    /// An empty dialog whose document types are still to be loaded.
    pub fn new() -> (m: DocumentUploadModal)
        ensures
            is_reset(m),
            m.document_types@.len() == 0,
            m.needs_refresh,
    {
        DocumentUploadModal {
            selected_files: Vec::new(),
            selected_type_id: None,
            text_content: String::new(),
            text_filename: String::new(),
            filename_manually_edited: false,
            document_types: Vec::new(),
            needs_refresh: true,
            error_message: None,
            uploading: false,
            import_success_count: 0,
            import_failed_count: 0,
        }
    }

    /// Back to the state in which the dialog opens; the loaded document types
    /// stay.
    pub fn reset(&mut self)
        ensures
            is_reset(*final(self)),
            final(self).document_types == old(self).document_types,
            final(self).needs_refresh == old(self).needs_refresh,
    {
        self.selected_files = Vec::new();
        self.selected_type_id = None;
        self.text_content = String::new();
        self.text_filename = String::new();
        self.filename_manually_edited = false;
        self.error_message = None;
        self.uploading = false;
        self.import_success_count = 0;
        self.import_failed_count = 0;
    }

    /// The position of the selected type among the loaded types, if any.
    pub fn selected_type_index(&self) -> (r: Option<usize>)
        ensures
            match self.selected_type_id {
                Some(id) => match r {
                    Some(k) => is_first_type_index(self.document_types@, id, k as int),
                    None => has_no_type(self.document_types@, id),
                },
                None => r is None,
            },
    {
        let id = match self.selected_type_id {
            Some(id) => id,
            None => {
                return None;
            },
        };
        let n = self.document_types.len();
        let mut k: usize = 0;
        while k < n
            invariant
                n == self.document_types@.len(),
                k <= n,
                self.selected_type_id == Some(id),
                forall|j: int| 0 <= j < k ==> self.document_types@[j].id != Some(id),
            decreases n - k,
        {
            if self.document_types[k].id == Some(id) {
                return Some(k);
            }
            k = k + 1;
        }
        None
    }

    /// Whether the selected type has a non-empty default file name.
    pub fn template_has_default_filename(&self) -> (r: bool)
        ensures
            r == selected_has_default(self.document_types@, self.selected_type_id),
    {
        match self.selected_type_index() {
            Some(k) => {
                let r = match &self.document_types[k].default_filename {
                    Some(f) => f.as_str().unicode_len() > 0,
                    None => false,
                };
                proof {
                    let types = self.document_types@;
                    let id = self.selected_type_id->0;
                    if selected_has_default(types, self.selected_type_id) {
                        let k2 = choose|k2: int|
                            is_first_type_index(types, id, k2) && has_default_name(#[trigger] types[k2]);
                        assert(k2 == k as int);
                    }
                    if r {
                        assert(is_first_type_index(types, id, k as int));
                    }
                }
                r
            },
            None => false,
        }
    }

    /// Whether the save button is enabled.
    pub fn can_save(&self, mode: DocumentUploadMode) -> (r: bool)
        ensures
            r == can_save_spec(*self, mode),
    {
        match mode {
            DocumentUploadMode::Import => self.selected_files.len() > 0
                && self.selected_type_id.is_some() && !self.uploading,
            DocumentUploadMode::Create => {
                let typed = self.text_filename.as_str().unicode_len() > 0;
                self.text_content.as_str().unicode_len() > 0 && self.selected_type_id.is_some()
                    && !self.uploading && (typed || self.template_has_default_filename())
            },
        }
    }

    /// The user chose the document type `type_id`, whose default file name is
    /// `default_filename`: a changed type fills in its default name unless the
    /// user typed a name.
    pub fn choose_type(&mut self, type_id: i64, default_filename: Option<&str>)
        ensures
            final(self).selected_type_id == Some(type_id),
            (old(self).selected_type_id != Some(type_id) && !old(self).filename_manually_edited
                && default_filename is Some) ==> final(self).text_filename@ == default_filename->0@,
            !(old(self).selected_type_id != Some(type_id) && !old(self).filename_manually_edited
                && default_filename is Some) ==> final(self).text_filename@
                == old(self).text_filename@,
            final(self).filename_manually_edited == old(self).filename_manually_edited,
            final(self).selected_files@ == old(self).selected_files@,
            final(self).text_content@ == old(self).text_content@,
    {
        let type_changed = self.selected_type_id != Some(type_id);
        self.selected_type_id = Some(type_id);
        if type_changed && !self.filename_manually_edited {
            match default_filename {
                Some(d) => {
                    self.text_filename = owned(d);
                },
                None => {},
            }
        }
    }

    /// The user edited the file name field: a non-empty name counts as typed.
    pub fn filename_edited(&mut self)
        ensures
            final(self).filename_manually_edited == (old(self).filename_manually_edited
                || old(self).text_filename@.len() > 0),
            final(self).text_filename@ == old(self).text_filename@,
    {
        if self.text_filename.as_str().unicode_len() > 0 {
            self.filename_manually_edited = true;
        }
    }

    /// The user chose files to import.  Each is pending, under its final path
    /// component as its name (`unknown` where the path has none).
    pub fn set_selected_files(&mut self, paths: Vec<String>)
        ensures
            final(self).selected_files@.len() == paths@.len(),
            forall|i: int|
                0 <= i < paths@.len() ==> (#[trigger] final(self).selected_files@[i]).path@
                    == paths@[i]@ && final(self).selected_files@[i].status == ImportStatus::Pending
                    && final(self).selected_files@[i].filename@.len() > 0,
            forall|i: int|
                0 <= i < paths@.len() && crate::path::known_file_name(paths@[i]@) is Some ==> (
                #[trigger] final(self).selected_files@[i]).filename@ == crate::path::known_file_name(
                    paths@[i]@,
                )->0,
            final(self).error_message is None,
    {
        let mut entries: Vec<ImportFileEntry> = Vec::new();
        let n = paths.len();
        let mut i: usize = 0;
        while i < n
            invariant
                n == paths@.len(),
                i <= n,
                entries@.len() == i,
                forall|j: int|
                    0 <= j < i ==> (#[trigger] entries@[j]).path@ == paths@[j]@ && entries@[j].status
                        == ImportStatus::Pending && entries@[j].filename@.len() > 0,
                forall|j: int|
                    0 <= j < i && crate::path::known_file_name(paths@[j]@) is Some ==> (
                    #[trigger] entries@[j]).filename@ == crate::path::known_file_name(
                        paths@[j]@,
                    )->0,
            decreases n - i,
        {
            let p = paths[i].clone();
            let filename = match final_component(p.as_str()) {
                Some(name) => name,
                None => owned("unknown"),
            };
            proof {
                reveal_strlit("unknown");
            }
            entries.push(ImportFileEntry { path: p, filename, status: ImportStatus::Pending });
            i = i + 1;
        }
        self.selected_files = entries;
        self.error_message = None;
    }

    /// Starts the import of the chosen files as the given type; refuses with
    /// no files or no type.
    pub fn begin_import(&mut self) -> (r: Result<i64, UploadError>)
        ensures
            old(self).selected_files@.len() == 0 ==> r == Err::<i64, UploadError>(UploadError::NoFiles)
                && *final(self) == *old(self),
            old(self).selected_files@.len() > 0 && old(self).selected_type_id is None ==> r == Err::<
                i64,
                UploadError,
            >(UploadError::NoType) && *final(self) == *old(self),
            old(self).selected_files@.len() > 0 && old(self).selected_type_id is Some ==> {
                &&& r == Ok::<i64, UploadError>(old(self).selected_type_id->0)
                &&& *final(self) == (DocumentUploadModal {
                    uploading: true,
                    import_success_count: 0,
                    import_failed_count: 0,
                    ..*old(self)
                })
            },
    {
        if self.selected_files.len() == 0 {
            return Err(UploadError::NoFiles);
        }
        let type_id = match self.selected_type_id {
            Some(t) => t,
            None => {
                return Err(UploadError::NoType);
            },
        };
        self.uploading = true;
        self.import_success_count = 0;
        self.import_failed_count = 0;
        Ok(type_id)
    }

    /// Records how the import of file `i` went.
    pub fn record_import(&mut self, i: usize, ok: bool)
        requires
            i < old(self).selected_files@.len(),
            old(self).import_success_count < usize::MAX,
            old(self).import_failed_count < usize::MAX,
        ensures
            final(self).selected_files@.len() == old(self).selected_files@.len(),
            final(self).selected_files@[i as int].status == (if ok {
                ImportStatus::Done
            } else {
                ImportStatus::Failed
            }),
            final(self).selected_files@[i as int].path == old(self).selected_files@[i as int].path,
            final(self).selected_files@[i as int].filename == old(
                self,
            ).selected_files@[i as int].filename,
            forall|j: int|
                0 <= j < old(self).selected_files@.len() && j != i ==> final(self).selected_files@[j]
                    == old(self).selected_files@[j],
            final(self).import_success_count == old(self).import_success_count + (if ok {
                1int
            } else {
                0int
            }),
            final(self).import_failed_count == old(self).import_failed_count + (if ok {
                0int
            } else {
                1int
            }),
            final(self).uploading == old(self).uploading,
    {
        let status = if ok {
            ImportStatus::Done
        } else {
            ImportStatus::Failed
        };
        let mut files: Vec<ImportFileEntry> = Vec::new();
        std::mem::swap(&mut files, &mut self.selected_files);
        let mut entry = files.remove(i);
        entry.status = status;
        files.insert(i, entry);
        self.selected_files = files;
        if ok {
            self.import_success_count = self.import_success_count + 1;
        } else {
            self.import_failed_count = self.import_failed_count + 1;
        }
    }

    /// Records how the import of every chosen file went, `outcomes[i]` telling
    /// whether file `i` was imported: each file is marked once, and the
    /// counters grow by the successes and the failures.
    pub fn record_imports(&mut self, outcomes: &Vec<bool>)
        requires
            outcomes@.len() == old(self).selected_files@.len(),
            old(self).import_success_count + outcomes@.len() <= usize::MAX,
            old(self).import_failed_count + outcomes@.len() <= usize::MAX,
        ensures
            final(self).selected_files@.len() == old(self).selected_files@.len(),
            forall|i: int|
                0 <= i < outcomes@.len() ==> (#[trigger] final(self).selected_files@[i]).status == (
                if outcomes@[i] {
                    ImportStatus::Done
                } else {
                    ImportStatus::Failed
                }) && final(self).selected_files@[i].path == old(self).selected_files@[i].path
                    && final(self).selected_files@[i].filename == old(self).selected_files@[i].filename,
            final(self).import_success_count == old(self).import_success_count + count_true(
                outcomes@,
            ),
            final(self).import_failed_count == old(self).import_failed_count + outcomes@.len()
                - count_true(outcomes@),
            final(self).uploading == old(self).uploading,
    {
        let n = outcomes.len();
        let mut i: usize = 0;
        while i < n
            invariant
                n == outcomes@.len(),
                i <= n,
                self.selected_files@.len() == n,
                old(self).selected_files@.len() == n,
                0 <= count_true(outcomes@.take(i as int)) <= i,
                self.import_success_count == old(self).import_success_count + count_true(
                    outcomes@.take(i as int),
                ),
                self.import_failed_count == old(self).import_failed_count + i - count_true(
                    outcomes@.take(i as int),
                ),
                old(self).import_success_count + n <= usize::MAX,
                old(self).import_failed_count + n <= usize::MAX,
                self.uploading == old(self).uploading,
                forall|j: int|
                    0 <= j < i ==> (#[trigger] self.selected_files@[j]).status == (if outcomes@[j] {
                        ImportStatus::Done
                    } else {
                        ImportStatus::Failed
                    }) && self.selected_files@[j].path == old(self).selected_files@[j].path
                        && self.selected_files@[j].filename == old(self).selected_files@[j].filename,
                forall|j: int|
                    i <= j < n ==> #[trigger] self.selected_files@[j] == old(self).selected_files@[j],
            decreases n - i,
        {
            proof {
                assert(outcomes@.take(i + 1).drop_last() =~= outcomes@.take(i as int));
            }
            self.record_import(i, outcomes[i]);
            i = i + 1;
        }
        proof {
            assert(outcomes@.take(n as int) =~= outcomes@);
        }
    }

    /// Ends the import: it failed when no file was imported.
    pub fn finish_import(&mut self) -> (r: Result<(), UploadError>)
        ensures
            !final(self).uploading,
            r is Ok <==> old(self).import_success_count > 0,
            r is Err ==> r == Err::<(), UploadError>(UploadError::AllFailed),
            final(self).import_success_count == old(self).import_success_count,
            final(self).import_failed_count == old(self).import_failed_count,
            final(self).selected_files@ == old(self).selected_files@,
    {
        self.uploading = false;
        if self.import_success_count == 0 {
            Err(UploadError::AllFailed)
        } else {
            Ok(())
        }
    }

    /// The checks before a text document is created: there is text, and a type.
    pub fn check_text_document(&self) -> (r: Result<i64, UploadError>)
        ensures
            self.text_content@.len() == 0 ==> r == Err::<i64, UploadError>(UploadError::NoContent),
            self.text_content@.len() > 0 && self.selected_type_id is None ==> r == Err::<
                i64,
                UploadError,
            >(UploadError::NoType),
            self.text_content@.len() > 0 && self.selected_type_id is Some ==> r == Ok::<
                i64,
                UploadError,
            >(self.selected_type_id->0),
    {
        if self.text_content.as_str().unicode_len() == 0 {
            return Err(UploadError::NoContent);
        }
        match self.selected_type_id {
            Some(t) => Ok(t),
            None => Err(UploadError::NoType),
        }
    }

    /// The success message after the save in `mode`.
    pub fn success_message(&self, mode: DocumentUploadMode) -> (r: String)
        ensures
            mode == DocumentUploadMode::Create ==> r@ == "Dokument skapat!"@,
            mode == DocumentUploadMode::Import ==> r@ == import_message_text(
                self.import_success_count as nat,
                self.import_failed_count as nat,
            ),
    {
        match mode {
            DocumentUploadMode::Create => owned("Dokument skapat!"),
            DocumentUploadMode::Import => {
                if self.import_failed_count > 0 {
                    let mut m = String::new();
                    push_decimal(&mut m, self.import_success_count as u64);
                    push_str(&mut m, " filer importerade, ");
                    push_decimal(&mut m, self.import_failed_count as u64);
                    push_str(&mut m, " misslyckades");
                    assert(m@ =~= import_message_text(
                        self.import_success_count as nat,
                        self.import_failed_count as nat,
                    ));
                    m
                } else if self.import_success_count == 1 {
                    owned("Fil importerad!")
                } else {
                    let mut m = String::new();
                    push_decimal(&mut m, self.import_success_count as u64);
                    push_str(&mut m, " filer importerade!");
                    assert(m@ =~= import_message_text(
                        self.import_success_count as nat,
                        self.import_failed_count as nat,
                    ));
                    m
                }
            },
        }
    }
}

} // verus!
