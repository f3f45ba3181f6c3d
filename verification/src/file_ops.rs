//! The computing side of the file operations: classifying paths, deriving new
//! file names and normalising relative paths.  Reading and writing the disk is
//! done by the application around the library.

use vstd::prelude::*;
use vstd::string::*;
use crate::path;
use crate::path::{final_component, file_name_stem, file_name_extension, FileKind};
use crate::text;
use crate::text::{owned, push_char, push_signed_decimal, push_str};

verus! {

/// Whether `path` names an image (jpg, jpeg, png, gif, webp, bmp), by its
/// extension in any case.
pub fn is_image_path(path: &str) -> (r: bool)
    ensures
        r ==> path::is_kind_of_some_name(FileKind::Image),
        path::extension_is_determined(path@) ==> r == (path::kind_of_extension(
            path::path_lower_extension(path@),
        ) == FileKind::Image),
{
    path::is_image_file(path)
}

/// Whether `path` names a text file (txt, md, markdown), by its extension in
/// any case.
pub fn is_text_path(path: &str) -> (r: bool)
    ensures
        r ==> path::is_kind_of_some_name(FileKind::Text),
        path::extension_is_determined(path@) ==> r == (path::kind_of_extension(
            path::path_lower_extension(path@),
        ) == FileKind::Text),
{
    path::is_text_file(path)
}

/// Whether `path` names a PDF file, by its extension in any case.
pub fn is_pdf_path(path: &str) -> (r: bool)
    ensures
        r ==> path::is_kind_of_some_name(FileKind::Pdf),
        path::extension_is_determined(path@) ==> r == (path::kind_of_extension(
            path::path_lower_extension(path@),
        ) == FileKind::Pdf),
{
    path::is_pdf_file(path)
}

/// The extension of the file that `path` names, in lower case.
pub fn get_file_extension(path: &str) -> (r: Option<String>)
    ensures
        r matches Some(e) ==> path::is_extension_of_some_name(e@) && path::is_lowered_extension(e@),
        path::extension_is_determined(path@) ==> path::opt_chars(r) == path::path_lower_extension(
            path@,
        ),
{
    path::get_extension(path)
}

/// The stem of a file name and its extension with the dot (or nothing).
pub open spec fn name_parts(name: Seq<char>) -> (Seq<char>, Seq<char>) {
    (
        path::name_stem(name),
        match path::name_extension(name) {
            Some(e) => seq!['.'] + e,
            None => Seq::empty(),
        },
    )
}

/// The stem and the dotted extension of a file name that holds no separator.
pub fn file_name_parts(name: &str) -> (r: (String, String))
    ensures
        (r.0@, r.1@) == name_parts(name@),
{
    let stem = owned(file_name_stem(name));
    let mut ext = String::new();
    match file_name_extension(name) {
        Some(e) => {
            push_char(&mut ext, '.');
            push_str(&mut ext, e);
            assert(ext@ =~= seq!['.'] + e@);
        },
        None => {
            assert(ext@ =~= Seq::<char>::empty());
        },
    }
    (stem, ext)
}

/// The stem and the dotted extension that `unique_filename` numbers a name
/// with: those of the final component of `filename`, or the whole of
/// `filename` and no extension where it has no final component.
pub fn filename_parts(filename: &str) -> (r: (String, String))
    ensures
        (r.0@, r.1@) == (filename@, Seq::<char>::empty()) || exists|n: Seq<char>|
            n.len() > 0 && #[trigger] name_parts(n) == (r.0@, r.1@),
        path::known_file_name(filename@) is Some ==> (r.0@, r.1@) == name_parts(
            path::known_file_name(filename@)->0,
        ),
{
    match final_component(filename) {
        Some(name) => {
            let r = file_name_parts(name.as_str());
            assert(name_parts(name@) == (r.0@, r.1@));
            r
        },
        None => {
            let e = String::new();
            (owned(filename), e)
        },
    }
}

/// A numbered variant of a file name: `{stem}_{n}{extension}`.
pub open spec fn numbered_name(stem: Seq<char>, extension: Seq<char>, n: int) -> Seq<char> {
    stem + seq!['_'] + text::signed_decimal(n) + extension
}

/// The file name `{stem}_{n}{extension}`.
pub fn numbered_filename(stem: &str, extension: &str, n: i64) -> (r: String)
    ensures
        r@ == numbered_name(stem@, extension@, n as int),
{
    let mut out = owned(stem);
    push_char(&mut out, '_');
    push_signed_decimal(&mut out, n);
    push_str(&mut out, extension);
    assert(out@ =~= numbered_name(stem@, extension@, n as int));
    out
}

/// The first number that `unique_filename` tries after the name itself.
pub const FIRST_NUMBER: i64 = 2;

/// The number after the last one that `unique_filename` tries before it falls
/// back on the time stamp.
pub const END_NUMBER: i64 = 1000;

/// The candidate names of `unique_filename`, in the order tried: the name itself
/// (attempt 0), then the numbers 2 to 999 (attempts 1 to 998).
pub open spec fn candidate_name(filename: Seq<char>, stem: Seq<char>, extension: Seq<char>, attempt: int) -> Option<Seq<char>> {
    if attempt == 0 {
        Some(filename)
    } else if 1 <= attempt < END_NUMBER - FIRST_NUMBER + 1 {
        Some(numbered_name(stem, extension, attempt + FIRST_NUMBER - 1))
    } else {
        None
    }
}

/// The candidate name for the given attempt, or `None` when the numbered names
/// are used up and the time stamp is to be used.
pub fn candidate_filename(filename: &str, stem: &str, extension: &str, attempt: u32) -> (r: Option<String>)
    ensures
        match candidate_name(filename@, stem@, extension@, attempt as int) {
            Some(c) => r matches Some(x) && x@ == c,
            None => r is None,
        },
{
    if attempt == 0 {
        Some(owned(filename))
    } else if attempt < 999 {
        Some(numbered_filename(stem, extension, attempt as i64 + 1))
    } else {
        None
    }
}

/// The texts of a list of names.
pub open spec fn names_view(names: Seq<String>) -> Seq<Seq<char>> {
    names.map_values(|n: String| n@)
}

/// Whether `name` is among `names`.
pub fn name_is_listed(names: &Vec<String>, name: &str) -> (r: bool)
    ensures
        r == names_view(names@).contains(name@),
{
    let mut i: usize = 0;
    while i < names.len()
        invariant
            i <= names@.len(),
            forall|j: int| 0 <= j < i ==> names@[j]@ != name@,
        decreases names.len() - i,
    {
        if text::str_equals(names[i].as_str(), name) {
            assert(names_view(names@)[i as int] == name@);
            return true;
        }
        i = i + 1;
    }
    assert forall|j: int| 0 <= j < names_view(names@).len() implies names_view(names@)[j] != name@ by {
        assert(names_view(names@)[j] == names@[j]@);
    }
    false
}

/// The first candidate name of `unique_filename` that is not among the names
/// `existing` already in the directory: the name itself, else `{stem}_2`,
/// `{stem}_3` and so on up to 999 with the extension; `None` where all of
/// them are taken and the time stamp is to be used.
pub fn first_free_name(filename: &str, stem: &str, extension: &str, existing: &Vec<String>) -> (r: Option<String>)
    ensures
        match r {
            Some(x) => exists|a: int|
                0 <= a < END_NUMBER - FIRST_NUMBER + 1 && #[trigger] candidate_name(
                    filename@,
                    stem@,
                    extension@,
                    a,
                ) == Some(x@) && !names_view(existing@).contains(x@) && forall|b: int|
                    0 <= b < a ==> names_view(existing@).contains(
                        candidate_name(filename@, stem@, extension@, b)->0,
                    ),
            None => forall|b: int|
                0 <= b < END_NUMBER - FIRST_NUMBER + 1 ==> names_view(existing@).contains(
                    #[trigger] candidate_name(filename@, stem@, extension@, b)->0,
                ),
        },
{
    let mut attempt: u32 = 0;
    while attempt < 999
        invariant
            attempt <= 999,
            forall|b: int|
                0 <= b < attempt ==> names_view(existing@).contains(
                    #[trigger] candidate_name(filename@, stem@, extension@, b)->0,
                ),
        decreases 999 - attempt,
    {
        let c = candidate_filename(filename, stem, extension, attempt);
        match c {
            Some(x) => {
                if !name_is_listed(existing, x.as_str()) {
                    return Some(x);
                }
            },
            None => {},
        }
        attempt = attempt + 1;
    }
    None
}

/// A relative path with each `\` replaced by `/`.
pub open spec fn forward_slashed(s: Seq<char>) -> Seq<char> {
    s.map_values(|c: char| if c == '\\' { '/' } else { c })
}

/// Replaces each `\` of a relative path by `/`.
pub fn normalize_separators(s: &str) -> (r: String)
    ensures
        r@ == forward_slashed(s@),
{
    let n = s.unicode_len();
    let mut out = String::new();
    let mut i: usize = 0;
    while i < n
        invariant
            n == s@.len(),
            i <= n,
            out@ == forward_slashed(s@.subrange(0, i as int)),
        decreases n - i,
    {
        let c = s.get_char(i);
        let d = if c == '\\' {
            '/'
        } else {
            c
        };
        push_char(&mut out, d);
        assert(s@.subrange(0, i + 1) =~= s@.subrange(0, i as int).push(c));
        assert(forward_slashed(s@.subrange(0, i + 1)) =~= forward_slashed(s@.subrange(0, i as int)).push(d));
        i = i + 1;
    }
    assert(s@.subrange(0, n as int) =~= s@);
    out
}

/// Numbered names of one stem and extension differ for different numbers.
pub proof fn law_numbered_names_distinct(stem: Seq<char>, extension: Seq<char>, a: nat, b: nat)
    requires
        a != b,
    ensures
        numbered_name(stem, extension, a as int) != numbered_name(stem, extension, b as int),
{
    let x = numbered_name(stem, extension, a as int);
    let y = numbered_name(stem, extension, b as int);
    text::lemma_decimal_injective(a, b);
    if x == y {
        let k: int = stem.len() as int + 1;
        assert(text::signed_decimal(a as int) == text::decimal(a));
        assert(text::signed_decimal(b as int) == text::decimal(b));
        text::lemma_decimal_len(a);
        text::lemma_decimal_len(b);
        let da = text::decimal(a);
        let db = text::decimal(b);
        if da.len() == db.len() {
            assert(x.subrange(k, k + da.len()) =~= da);
            assert(y.subrange(k, k + db.len()) =~= db);
        } else {
            assert(x.len() == k + da.len() + extension.len());
            assert(y.len() == k + db.len() + extension.len());
        }
    }
}

} // verus!
