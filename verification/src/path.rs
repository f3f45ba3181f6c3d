//! File names and paths: making a name safe for the file system, and
//! recognising images, text files and PDF files by their extension.

use vstd::prelude::*;
use vstd::string::*;
use crate::text;
use crate::text::{
    char_is_control, owned, push_char, str_equals, to_lowercase, trim,
};

verus! {

/// Characters that a file name on some supported platform cannot hold.
pub open spec fn is_reserved_in_file_name(c: char) -> bool {
    c == '/' || c == '\\' || c == ':' || c == '*' || c == '?' || c == '"' || c == '<' || c == '>'
        || c == '|'
}

/// The replacement of one character of a file name.
pub open spec fn safe_char(c: char) -> char {
    if is_reserved_in_file_name(c) || text::is_control(c) {
        '_'
    } else {
        c
    }
}

/// A character that `sanitize_filename` keeps as it is.
pub open spec fn is_safe_char(c: char) -> bool {
    !is_reserved_in_file_name(c) && !text::is_control(c)
}

/// Every character of `s` replaced by its safe form.
pub open spec fn safe_chars(s: Seq<char>) -> Seq<char> {
    s.map_values(|c: char| safe_char(c))
}

/// The file name that `sanitize_filename` makes of `name`.
pub open spec fn sanitized_file_name(name: Seq<char>) -> Seq<char> {
    text::trimmed(safe_chars(name))
}

/// Replaces each reserved or control character by `_`, then removes leading and
/// trailing white space.
pub fn sanitize_filename(name: &str) -> (r: String)
    ensures
        r@ == sanitized_file_name(name@),
{
    let n = name.unicode_len();
    let mut mapped = String::new();
    let mut i: usize = 0;
    while i < n
        invariant
            n == name@.len(),
            i <= n,
            mapped@ == safe_chars(name@.subrange(0, i as int)),
        decreases n - i,
    {
        let c = name.get_char(i);
        let d = if char_is_control(c) || c == '/' || c == '\\' || c == ':' || c == '*' || c == '?'
            || c == '"' || c == '<' || c == '>' || c == '|' {
            '_'
        } else {
            c
        };
        push_char(&mut mapped, d);
        assert(name@.subrange(0, i + 1) =~= name@.subrange(0, i as int).push(c));
        assert(safe_chars(name@.subrange(0, i + 1)) =~= safe_chars(name@.subrange(0, i as int)).push(d));
        i = i + 1;
    }
    assert(name@.subrange(0, n as int) =~= name@);
    owned(trim(mapped.as_str()))
}

/// A sanitized file name holds no reserved and no control character, and it
/// neither begins nor ends with white space.
pub proof fn law_sanitized_name_is_safe(name: Seq<char>)
    ensures
        forall|i: int|
            0 <= i < sanitized_file_name(name).len() ==> is_safe_char(
                #[trigger] sanitized_file_name(name)[i],
            ),
        sanitized_file_name(name) == text::trimmed(sanitized_file_name(name)),
{
    let m = safe_chars(name);
    text::lemma_trimmed_shape(m);
    let t = sanitized_file_name(name);
    let a = choose|a: int| 0 <= a && a + t.len() <= m.len() && #[trigger] m.subrange(a, a + t.len()) == t;
    assert forall|i: int| 0 <= i < t.len() implies is_safe_char(#[trigger] t[i]) by {
        assert(t[i] == m[a + i]);
        assert(m[a + i] == safe_char(name[a + i]));
    }
    text::lemma_trimmed_idempotent(m);
}

/// `sanitize_filename` replaces exactly the characters `/`, backslash, `:`,
/// `*`, `?`, `"`, `<`, `>`, `|` and the control characters (U+0000 to U+001F
/// and U+007F to U+009F) by `_`, keeps every other character in its place, and
/// then removes the white space around the name.
pub proof fn law_sanitize_replaces_only_reserved(name: Seq<char>)
    ensures
        sanitized_file_name(name) == text::trimmed(
            Seq::new(
                name.len(),
                |i: int|
                    {
                        let c = name[i];
                        if c == '/' || (c as u32) == 92 || c == ':' || c == '*' || c == '?' || c
                            == '"' || c == '<' || c == '>' || c == '|' || (c as u32) <= 0x1F || (
                        0x7F <= (c as u32) && (c as u32) <= 0x9F) {
                            '_'
                        } else {
                            c
                        }
                    },
            ),
        ),
{
    let m = Seq::new(
        name.len(),
        |i: int|
            {
                let c = name[i];
                if c == '/' || (c as u32) == 92 || c == ':' || c == '*' || c == '?' || c == '"' || c
                    == '<' || c == '>' || c == '|' || (c as u32) <= 0x1F || (0x7F <= (c as u32) && (
                c as u32) <= 0x9F) {
                    '_'
                } else {
                    c
                }
            },
    );
    assert(safe_chars(name) =~= m);
}

/// A name without reserved or control characters comes back only trimmed of
/// the white space around it: every other character, `.` among them, stays.
pub proof fn law_sanitize_keeps_ordinary_names(name: Seq<char>)
    requires
        forall|i: int|
            0 <= i < name.len() ==> {
                let c = #[trigger] name[i];
                !(c == '/' || (c as u32) == 92 || c == ':' || c == '*' || c == '?' || c == '"' || c
                    == '<' || c == '>' || c == '|' || (c as u32) <= 0x1F || (0x7F <= (c as u32)
                    && (c as u32) <= 0x9F))
            },
    ensures
        sanitized_file_name(name) == text::trimmed(name),
{
    assert(safe_chars(name) =~= name);
}

/// Sanitizing a sanitized file name changes nothing.
pub proof fn law_sanitize_idempotent(name: Seq<char>)
    ensures
        sanitized_file_name(sanitized_file_name(name)) == sanitized_file_name(name),
{
    let t = sanitized_file_name(name);
    law_sanitized_name_is_safe(name);
    assert(safe_chars(t) =~= t);
}

/// The index of the last `.` in `name`, or -1 when there is none.
pub open spec fn last_dot(name: Seq<char>) -> int
    decreases name.len(),
{
    if name.len() == 0 {
        -1
    } else if name.last() == '.' {
        name.len() - 1
    } else {
        last_dot(name.drop_last())
    }
}

/// The name `..`.
pub open spec fn is_parent_name(name: Seq<char>) -> bool {
    name == seq!['.', '.']
}

/// The extension of a file name, without its dot: what follows the last `.`,
/// unless there is no `.`, the only `.` begins the name, or the name is `..`.
pub open spec fn name_extension(name: Seq<char>) -> Option<Seq<char>> {
    let k = last_dot(name);
    if is_parent_name(name) || k <= 0 {
        None
    } else {
        Some(name.subrange(k + 1, name.len() as int))
    }
}

/// The stem of a file name: what precedes the last `.`, or the whole name where
/// `name_extension` finds no extension.
pub open spec fn name_stem(name: Seq<char>) -> Seq<char> {
    let k = last_dot(name);
    if is_parent_name(name) || k <= 0 {
        name
    } else {
        name.subrange(0, k)
    }
}

proof fn lemma_last_dot_bounds(name: Seq<char>)
    ensures
        -1 <= last_dot(name) < name.len(),
        last_dot(name) >= 0 ==> name[last_dot(name)] == '.',
        forall|j: int| last_dot(name) < j < name.len() ==> name[j] != '.',
    decreases name.len(),
{
    if name.len() > 0 && name.last() != '.' {
        lemma_last_dot_bounds(name.drop_last());
        assert forall|j: int| last_dot(name) < j < name.len() implies name[j] != '.' by {
            if j < name.len() - 1 {
                assert(name.drop_last()[j] == name[j]);
            }
        }
    }
}

/// A file name with an extension is its stem, a `.` and the extension, where
/// the stem is not empty and the extension holds no `.`; a name without an
/// extension is `..` or has no `.` after its first character, and is its own
/// stem.
pub proof fn law_name_splits_at_last_dot(n: Seq<char>)
    ensures
        name_extension(n) is Some ==> n =~= name_stem(n) + seq!['.'] + name_extension(n)->0
            && name_stem(n).len() > 0 && !name_extension(n)->0.contains('.'),
        name_extension(n) is None ==> name_stem(n) == n && (n == seq!['.', '.'] || forall|i: int|
            0 < i < n.len() ==> n[i] != '.'),
{
    lemma_last_dot_bounds(n);
    let k = last_dot(n);
    if name_extension(n) is Some {
        let x = name_extension(n)->0;
        assert forall|i: int| 0 <= i < x.len() implies x[i] != '.' by {
            assert(x[i] == n[k + 1 + i]);
        }
    }
}

/// The index of the last `.` in `name`, if any.
fn find_last_dot(name: &str) -> (r: Option<usize>)
    ensures
        match r {
            Some(k) => last_dot(name@) == k as int,
            None => last_dot(name@) == -1,
        },
{
    let n = name.unicode_len();
    let mut j: usize = n;
    assert(name@.subrange(0, n as int) =~= name@);
    while j > 0
        invariant
            n == name@.len(),
            j <= n,
            last_dot(name@) == last_dot(name@.subrange(0, j as int)),
        decreases j,
    {
        if name.get_char(j - 1) == '.' {
            return Some(j - 1);
        }
        assert(name@.subrange(0, j as int).drop_last() =~= name@.subrange(0, j - 1));
        j = j - 1;
    }
    None
}

fn is_parent_name_exec(name: &str) -> (r: bool)
    ensures
        r == is_parent_name(name@),
{
    if name.unicode_len() != 2 {
        return false;
    }
    let r = name.get_char(0) == '.' && name.get_char(1) == '.';
    if r {
        assert(name@ =~= seq!['.', '.']);
    }
    r
}

/// The extension of a file name (not of a whole path), as `name_extension`
/// describes it.
pub fn file_name_extension(name: &str) -> (r: Option<&str>)
    ensures
        match name_extension(name@) {
            Some(x) => r matches Some(e) && e@ == x,
            None => r is None,
        },
{
    if is_parent_name_exec(name) {
        return None;
    }
    match find_last_dot(name) {
        None => None,
        Some(k) => {
            if k == 0 {
                None
            } else {
                let n = name.unicode_len();
                proof {
                    lemma_last_dot_bounds(name@);
                }
                Some(name.substring_char(k + 1, n))
            }
        },
    }
}

/// The stem of a file name (not of a whole path), as `name_stem` describes it.
pub fn file_name_stem(name: &str) -> (r: &str)
    ensures
        r@ == name_stem(name@),
{
    if is_parent_name_exec(name) {
        return name;
    }
    match find_last_dot(name) {
        None => name,
        Some(k) => {
            if k == 0 {
                name
            } else {
                proof {
                    lemma_last_dot_bounds(name@);
                }
                name.substring_char(0, k)
            }
        },
    }
}

/// A path that is a single plain file name: not empty, not `.` or `..`, and
/// without `/`, a backslash or `:`, the characters that separate components or start a
/// prefix on some platform.
pub open spec fn plain_file_name(s: Seq<char>) -> bool {
    &&& s.len() > 0
    &&& s != "."@
    &&& s != ".."@
    &&& forall|i: int| 0 <= i < s.len() ==> !is_path_special(#[trigger] s[i])
}

/// `/`, the backslash (code 92) and `:`.
pub open spec fn is_path_special(c: char) -> bool {
    c == '/' || c == ':' || (c as u32) == 92
}

/// The index of the last `/` in `s`, or -1 where it has none.
pub open spec fn last_slash(s: Seq<char>) -> int
    decreases s.len(),
{
    if s.len() == 0 {
        -1
    } else if s.last() == '/' {
        s.len() - 1
    } else {
        last_slash(s.drop_last())
    }
}

/// The final component of a path whose components are separated by `/`
/// alone: what follows the last `/`, where that is a plain file name, the path
/// holds no backslash and no `:`, and it does not start with two `/`.  `/`
/// separates components on every platform; a backslash separates them, and a
/// `:` or two leading separators start a prefix, on some platforms only, so
/// paths that hold them are left out.
pub open spec fn known_file_name(s: Seq<char>) -> Option<Seq<char>> {
    let n = s.subrange(last_slash(s) + 1, s.len() as int);
    if plain_file_name(n) && (forall|i: int|
        0 <= i < s.len() ==> #[trigger] s[i] != ':' && (s[i] as u32) != 92) && !(s.len() >= 2
        && s[0] == '/' && s[1] == '/') {
        Some(n)
    } else {
        None
    }
}

/// The last `/` of a path lies within it, and nothing after it is a `/`.
pub proof fn lemma_last_slash(s: Seq<char>)
    ensures
        -1 <= last_slash(s) < s.len(),
        last_slash(s) >= 0 ==> s[last_slash(s)] == '/',
        forall|i: int| last_slash(s) < i < s.len() ==> s[i] != '/',
    decreases s.len(),
{
    if s.len() > 0 && s.last() != '/' {
        let t = s.drop_last();
        lemma_last_slash(t);
        assert forall|i: int| last_slash(s) < i < s.len() implies s[i] != '/' by {
            if i < t.len() {
                assert(t[i] == s[i]);
            }
        }
    }
}

/// A plain file name is its own final component.
pub proof fn lemma_plain_name_is_known(s: Seq<char>)
    requires
        plain_file_name(s),
    ensures
        known_file_name(s) == Some(s),
{
    lemma_last_slash(s);
    if last_slash(s) >= 0 {
        assert(!is_path_special(s[last_slash(s)]));
    }
    assert(s.subrange(0, s.len() as int) =~= s);
    assert forall|i: int| 0 <= i < s.len() implies #[trigger] s[i] != ':' && (s[i] as u32) != 92 by {
        assert(!is_path_special(s[i]));
    }
    if s.len() >= 2 {
        assert(!is_path_special(s[0]));
    }
}

/// `/` or the backslash (code 92): the characters that separate components
/// on some platform.
pub open spec fn is_separator_char(c: char) -> bool {
    c == '/' || (c as u32) == 92
}

/// `/`, the backslash or `:`: the characters after which a final component
/// may begin on some platform.
pub open spec fn is_segment_break(c: char) -> bool {
    is_separator_char(c) || c == ':'
}

/// The index of the last `/`, backslash or `:` in `s`, or -1 where it has none.
pub open spec fn last_break(s: Seq<char>) -> int
    decreases s.len(),
{
    if s.len() == 0 {
        -1
    } else if is_segment_break(s.last()) {
        s.len() - 1
    } else {
        last_break(s.drop_last())
    }
}

/// What follows the last `/`, backslash or `:` of `s`.
pub open spec fn last_segment(s: Seq<char>) -> Seq<char> {
    s.subrange(last_break(s) + 1, s.len() as int)
}

/// A path whose final component, on every platform, ends with its last
/// segment: that segment is not empty, not `.` and not `..`, and the path does
/// not start with two separators (which begin a network or device prefix on
/// some platform).
pub open spec fn ends_in_segment(s: Seq<char>) -> bool {
    let t = last_segment(s);
    &&& t.len() > 0
    &&& t != seq!['.']
    &&& t != seq!['.', '.']
    &&& !(s.len() >= 2 && is_separator_char(s[0]) && is_separator_char(s[1]))
}

/// `t` is a final part of `n`.
pub open spec fn ends_with(n: Seq<char>, t: Seq<char>) -> bool {
    t.len() <= n.len() && n.subrange(n.len() - t.len(), n.len() as int) == t
}

/// Calls `Path::file_name` on `path` and returns the final component as a
/// string.  A final component is never empty.  Where `known_file_name` gives
/// the final component, `file_name` returns it: the last component of such a
/// path is that normal file name on every platform.  Where the path ends in a
/// segment as `ends_in_segment` describes, `file_name` returns a component
/// that ends with that segment: on Unix the text after the last `/`; on
/// Windows, where `/` and the backslash separate and a drive prefix `X:` may
/// begin the path, the text after the last separator or prefix; the
/// documentation of `Path::components` and `Path::file_name` says so.  Which
/// component a path with other prefixes gives depends on the platform, so
/// nothing more is claimed.
#[verifier::external_body]
pub(crate) fn final_component(path: &str) -> (r: Option<String>)
    ensures
        r matches Some(n) ==> n@.len() > 0,
        known_file_name(path@) is Some ==> r is Some && r->0@ == known_file_name(path@)->0,
        ends_in_segment(path@) ==> r is Some && ends_with(r->0@, last_segment(path@)),
{
    std::path::Path::new(path).file_name().map(|n| n.to_string_lossy().into_owned())
}

/// Extensions of image files, in lower case.
pub open spec fn is_image_extension(e: Seq<char>) -> bool {
    e == "jpg"@ || e == "jpeg"@ || e == "png"@ || e == "gif"@ || e == "webp"@ || e == "bmp"@
}

/// Extensions of text files, in lower case.
pub open spec fn is_text_extension(e: Seq<char>) -> bool {
    e == "txt"@ || e == "md"@ || e == "markdown"@
}

/// The extension of PDF files, in lower case.
pub open spec fn is_pdf_extension(e: Seq<char>) -> bool {
    e == "pdf"@
}

/// The lower-case extension of a file name.
pub open spec fn lower_extension(name: Seq<char>) -> Option<Seq<char>> {
    match name_extension(name) {
        Some(x) => Some(text::lowercase(x)),
        None => None,
    }
}

/// The kinds of file that the application shows in its own way.
pub enum FileKind {
    Image,
    Text,
    Pdf,
    Other,
}

/// The kind of a file with the given lower-case extension.
pub open spec fn kind_of_extension(e: Option<Seq<char>>) -> FileKind {
    match e {
        Some(x) => if is_image_extension(x) {
            FileKind::Image
        } else if is_text_extension(x) {
            FileKind::Text
        } else if is_pdf_extension(x) {
            FileKind::Pdf
        } else {
            FileKind::Other
        },
        None => FileKind::Other,
    }
}

/// The kind of a file with the given file name.
pub open spec fn kind_of_name(name: Seq<char>) -> FileKind {
    kind_of_extension(lower_extension(name))
}

/// `e` is the lower case of `x`, as `str::to_lowercase` computes it; for
/// ASCII text that is `A` to `Z` made `a` to `z`.
pub open spec fn lowered_from(e: Seq<char>, x: Seq<char>) -> bool {
    &&& e == text::lowercase(x)
    &&& text::is_ascii_text(x) ==> e == x.map_values(|c: char| text::ascii_lower_char(c))
}

/// `e` is the lower case of an extension: of a text without a `.`.
pub open spec fn is_lowered_extension(e: Seq<char>) -> bool {
    exists|x: Seq<char>| !x.contains('.') && #[trigger] lowered_from(e, x)
}

/// The extension of a file name holds no `.`.
pub proof fn lemma_extension_has_no_dot(name: Seq<char>)
    requires
        name_extension(name) is Some,
    ensures
        !name_extension(name)->0.contains('.'),
{
    lemma_last_dot_bounds(name);
    let k = last_dot(name);
    let x = name_extension(name)->0;
    assert forall|i: int| 0 <= i < x.len() implies x[i] != '.' by {
        assert(x[i] == name[k + 1 + i]);
    }
}

/// An ASCII extension in lower case holds no `.` and is its own lower case.
pub proof fn law_ascii_extension_lowered(x: Seq<char>)
    requires
        text::is_ascii_text(x),
        !x.contains('.'),
    ensures
        !x.map_values(|c: char| text::ascii_lower_char(c)).contains('.'),
        x.map_values(|c: char| text::ascii_lower_char(c)).map_values(
            |c: char| text::ascii_lower_char(c),
        ) == x.map_values(|c: char| text::ascii_lower_char(c)),
{
    let e = x.map_values(|c: char| text::ascii_lower_char(c));
    assert forall|i: int| 0 <= i < e.len() implies e[i] != '.' by {
        assert(x[i] != '.');
    }
    assert(e.map_values(|c: char| text::ascii_lower_char(c)) =~= e);
}

/// The lower-case extension of a file name.
pub fn lower_file_name_extension(name: &str) -> (r: Option<String>)
    ensures
        match lower_extension(name@) {
            Some(x) => r matches Some(e) && e@ == x,
            None => r is None,
        },
        r matches Some(e) ==> is_lowered_extension(e@),
{
    match file_name_extension(name) {
        Some(e) => {
            let l = to_lowercase(e);
            proof {
                lemma_extension_has_no_dot(name@);
                assert(lowered_from(l@, e@));
            }
            Some(l)
        },
        None => None,
    }
}

/// The kind of file that a lower-case extension denotes.
pub fn extension_kind(e: Option<&str>) -> (k: FileKind)
    ensures
        k == kind_of_extension(
            match e {
                Some(x) => Some(x@),
                None => None,
            },
        ),
{
    match e {
        None => FileKind::Other,
        Some(x) => {
            if str_equals(x, "jpg") || str_equals(x, "jpeg") || str_equals(x, "png") || str_equals(
                x,
                "gif",
            ) || str_equals(x, "webp") || str_equals(x, "bmp") {
                FileKind::Image
            } else if str_equals(x, "txt") || str_equals(x, "md") || str_equals(x, "markdown") {
                FileKind::Text
            } else if str_equals(x, "pdf") {
                FileKind::Pdf
            } else {
                FileKind::Other
            }
        },
    }
}

/// The kind of a file with the given file name (not a whole path).
pub fn file_name_kind(name: &str) -> (k: FileKind)
    ensures
        k == kind_of_name(name@),
{
    match lower_file_name_extension(name) {
        Some(e) => extension_kind(Some(e.as_str())),
        None => extension_kind(None),
    }
}

/// Some non-empty file name has the lower-case extension `e`.
pub open spec fn is_extension_of_some_name(e: Seq<char>) -> bool {
    exists|n: Seq<char>| n.len() > 0 && #[trigger] lower_extension(n) == Some(e)
}

/// Some non-empty file name is of kind `k`.
pub open spec fn is_kind_of_some_name(k: FileKind) -> bool {
    exists|n: Seq<char>| n.len() > 0 && #[trigger] kind_of_name(n) == k
}

/// The optional characters of an optional string.
pub open spec fn opt_chars(s: Option<String>) -> Option<Seq<char>> {
    match s {
        Some(t) => Some(t@),
        None => None,
    }
}

/// The extension of `path` is the same on every platform: the path is a
/// plain `/`-separated path (`known_file_name`), or it ends in a segment
/// (`ends_in_segment`) that has an extension of its own, which is then the
/// extension of the final component, whichever that is.
pub open spec fn extension_is_determined(s: Seq<char>) -> bool {
    known_file_name(s) is Some || (ends_in_segment(s) && name_extension(last_segment(s)) is Some)
}

/// The extension of `path`, where `extension_is_determined` holds.
pub open spec fn path_extension(s: Seq<char>) -> Option<Seq<char>> {
    if known_file_name(s) is Some {
        name_extension(known_file_name(s)->0)
    } else {
        name_extension(last_segment(s))
    }
}

/// The lower-case extension of `path`, where `extension_is_determined` holds.
pub open spec fn path_lower_extension(s: Seq<char>) -> Option<Seq<char>> {
    match path_extension(s) {
        Some(x) => Some(text::lowercase(x)),
        None => None,
    }
}

/// Where a name ends with a text that has a `.`, its last `.` is that text's.
proof fn lemma_last_dot_of_suffix(n: Seq<char>, t: Seq<char>)
    requires
        ends_with(n, t),
        last_dot(t) >= 0,
    ensures
        last_dot(n) == n.len() - t.len() + last_dot(t),
    decreases t.len(),
{
    let off = n.len() - t.len();
    assert(n[n.len() - 1] == n.subrange(off, n.len() as int)[t.len() - 1]);
    if t.last() != '.' {
        let n2 = n.drop_last();
        let t2 = t.drop_last();
        assert(n2.subrange(n2.len() - t2.len(), n2.len() as int) =~= t2) by {
            assert forall|i: int| 0 <= i < t2.len() implies n2.subrange(
                n2.len() - t2.len(),
                n2.len() as int,
            )[i] == t2[i] by {
                assert(n.subrange(off, n.len() as int)[i] == t[i]);
            }
        }
        lemma_last_dot_of_suffix(n2, t2);
    }
}

/// Where a name ends with a text that has an extension, the name has the same
/// extension.
proof fn lemma_extension_of_suffix(n: Seq<char>, t: Seq<char>)
    requires
        ends_with(n, t),
        name_extension(t) is Some,
    ensures
        name_extension(n) == name_extension(t),
{
    lemma_last_dot_bounds(t);
    lemma_last_dot_of_suffix(n, t);
    let off = n.len() - t.len();
    let kt = last_dot(t);
    let kn = last_dot(n);
    if is_parent_name(n) {
        assert(t.len() >= 2);
        assert(t.len() == 2);
        assert(t =~= n);
    }
    assert(n.subrange(kn + 1, n.len() as int) =~= t.subrange(kt + 1, t.len() as int)) by {
        assert forall|i: int| 0 <= i < t.len() - kt - 1 implies #[trigger] n.subrange(
            kn + 1,
            n.len() as int,
        )[i] == t.subrange(kt + 1, t.len() as int)[i] by {
            assert(n.subrange(off, n.len() as int)[kt + 1 + i] == t[kt + 1 + i]);
        }
    }
}

/// The lower-case extension of the final component of `path`.
pub fn get_extension(path: &str) -> (r: Option<String>)
    ensures
        r matches Some(e) ==> is_extension_of_some_name(e@) && is_lowered_extension(e@),
        extension_is_determined(path@) ==> opt_chars(r) == path_lower_extension(path@),
{
    match final_component(path) {
        None => None,
        Some(name) => {
            let r = lower_file_name_extension(name.as_str());
            proof {
                if r is Some {
                    assert(lower_extension(name@) == Some(r->0@));
                }
                if known_file_name(path@) is None && extension_is_determined(path@) {
                    lemma_extension_of_suffix(name@, last_segment(path@));
                }
            }
            r
        },
    }
}

/// The kind of the file that `path` names, by the kind of its lower-case
/// extension.
fn path_kind(path: &str) -> (k: FileKind)
    ensures
        k == FileKind::Other || is_kind_of_some_name(k),
        extension_is_determined(path@) ==> k == kind_of_extension(path_lower_extension(path@)),
{
    let e = get_extension(path);
    match e {
        None => extension_kind(None),
        Some(x) => {
            let k = extension_kind(Some(x.as_str()));
            proof {
                let n = choose|n: Seq<char>| n.len() > 0 && #[trigger] lower_extension(n) == Some(x@);
                assert(kind_of_name(n) == k);
            }
            k
        },
    }
}

/// Whether `path` names an image (jpg, jpeg, png, gif, webp, bmp).
pub fn is_image_file(path: &str) -> (r: bool)
    ensures
        r ==> is_kind_of_some_name(FileKind::Image),
        extension_is_determined(path@) ==> r == (kind_of_extension(path_lower_extension(path@))
            == FileKind::Image),
{
    match path_kind(path) {
        FileKind::Image => true,
        _ => false,
    }
}

/// Whether `path` names a text file (txt, md, markdown).
pub fn is_text_file(path: &str) -> (r: bool)
    ensures
        r ==> is_kind_of_some_name(FileKind::Text),
        extension_is_determined(path@) ==> r == (kind_of_extension(path_lower_extension(path@))
            == FileKind::Text),
{
    match path_kind(path) {
        FileKind::Text => true,
        _ => false,
    }
}

/// Whether `path` names a PDF file.
pub fn is_pdf_file(path: &str) -> (r: bool)
    ensures
        r ==> is_kind_of_some_name(FileKind::Pdf),
        extension_is_determined(path@) ==> r == (kind_of_extension(path_lower_extension(path@))
            == FileKind::Pdf),
{
    match path_kind(path) {
        FileKind::Pdf => true,
        _ => false,
    }
}

/// A file is an image, a text file or a PDF exactly when its lower-case
/// extension is one of that kind's extensions.
pub proof fn law_kind_by_extension(n: Seq<char>)
    ensures
        (kind_of_name(n) == FileKind::Image) == (lower_extension(n) is Some && is_image_extension(
            lower_extension(n)->0,
        )),
        (kind_of_name(n) == FileKind::Text) == (lower_extension(n) is Some && is_text_extension(
            lower_extension(n)->0,
        )),
        (kind_of_name(n) == FileKind::Pdf) == (lower_extension(n) is Some && is_pdf_extension(
            lower_extension(n)->0,
        )),
{
    if lower_extension(n) is Some {
        lemma_extension_kinds_disjoint(lower_extension(n)->0);
    }
}

/// The image extensions are `jpg`, `jpeg`, `png`, `gif`, `webp` and `bmp`, the
/// text extensions `txt`, `md` and `markdown`, and the PDF extension `pdf`;
/// every other extension, and no extension, is of no particular kind.
pub proof fn law_extension_kinds(e: Seq<char>)
    ensures
        (e == "jpg"@ || e == "jpeg"@ || e == "png"@ || e == "gif"@ || e == "webp"@ || e == "bmp"@)
            <==> kind_of_extension(Some(e)) == FileKind::Image,
        (e == "txt"@ || e == "md"@ || e == "markdown"@) <==> kind_of_extension(Some(e))
            == FileKind::Text,
        e == "pdf"@ <==> kind_of_extension(Some(e)) == FileKind::Pdf,
        kind_of_extension(None) == FileKind::Other,
{
    lemma_extension_kinds_disjoint(e);
}

/// No extension is of two kinds.
proof fn lemma_extension_kinds_disjoint(e: Seq<char>)
    ensures
        is_text_extension(e) ==> !is_image_extension(e),
        is_pdf_extension(e) ==> !is_image_extension(e) && !is_text_extension(e),
{
    reveal_strlit("jpg");
    reveal_strlit("jpeg");
    reveal_strlit("png");
    reveal_strlit("gif");
    reveal_strlit("webp");
    reveal_strlit("bmp");
    reveal_strlit("txt");
    reveal_strlit("md");
    reveal_strlit("markdown");
    reveal_strlit("pdf");
    if e.len() >= 2 {
        assert(e[0] == e[0] && e[1] == e[1]);
    }
    if e == "txt"@ {
        assert(e[0] == 't');
    }
    if e == "pdf"@ {
        assert(e[0] == 'p' && e[1] == 'd');
    }
}

} // verus!
