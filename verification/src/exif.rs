//! What the image details show of a photo's EXIF data: when it was taken, the
//! camera, and the image size.  Reading the EXIF fields from the file, and the
//! fields held as floating-point numbers, belong to the code around.

use vstd::prelude::*;
use vstd::string::*;
use vstd::view::View as _;
use chrono::{Datelike, Timelike};
use crate::date::{valid_ymd, Date};
use crate::text::{owned, push_decimal, push_str, str_contains, to_lowercase};

verus! {

/// The date and time that `NaiveDateTime::parse_from_str` reads from `s` with
/// `format`, as year, month, day, hour, minute and second, or `None` where it
/// reports an error.
pub uninterp spec fn chrono_parsed_datetime(s: Seq<char>, format: Seq<char>) -> Option<
    (int, int, int, int, int, int),
>;

/// Calls `NaiveDateTime::parse_from_str`.  Its result is named
/// `chrono_parsed_datetime`; the date of a result is a valid date.
#[verifier::external_body]
fn chrono_parse_datetime(s: &str, format: &str) -> (r: Option<(i32, u32, u32, u32, u32, u32)>)
    ensures
        match r {
            Some((y, mo, d, h, mi, se)) => chrono_parsed_datetime(s@, format@) == Some(
                (y as int, mo as int, d as int, h as int, mi as int, se as int),
            ) && valid_ymd(y as int, mo as int, d as int),
            None => chrono_parsed_datetime(s@, format@) is None,
        },
{
    chrono::NaiveDateTime::parse_from_str(s, format).ok().map(
        |t| (t.year(), t.month(), t.day(), t.hour(), t.minute(), t.second()),
    )
}

/// A moment: a date and a time of day.
pub struct ExifDateTime {
    pub date: Date,
    pub hour: u32,
    pub minute: u32,
    pub second: u32,
}

impl ExifDateTime {
    pub fn year(&self) -> (r: i32)
        ensures
            r as int == self.date@.0,
    {
        self.date.year()
    }

    pub fn month(&self) -> (r: u32)
        ensures
            r as int == self.date@.1,
    {
        self.date.month()
    }

    pub fn day(&self) -> (r: u32)
        ensures
            r as int == self.date@.2,
    {
        self.date.day()
    }

    pub fn hour(&self) -> (r: u32)
        ensures
            r == self.hour,
    {
        self.hour
    }

    pub fn minute(&self) -> (r: u32)
        ensures
            r == self.minute,
    {
        self.minute
    }
}

/// The EXIF date format, `YYYY:MM:DD HH:MM:SS`.
pub const EXIF_DATETIME_FORMAT: &'static str = "%Y:%m:%d %H:%M:%S";

/// Reads an EXIF date and time, such as `2024:01:15 14:30:00`.
pub fn parse_exif_datetime(s: &str) -> (r: Option<ExifDateTime>)
    ensures
        match chrono_parsed_datetime(s@, EXIF_DATETIME_FORMAT@) {
            Some(v) => r matches Some(t) && t.date@ == (v.0, v.1, v.2) && t.hour == v.3 && t.minute
                == v.4 && t.second == v.5,
            None => r is None,
        },
{
    match chrono_parse_datetime(s, EXIF_DATETIME_FORMAT) {
        Some((y, mo, d, h, mi, se)) => match Date::from_ymd_opt(y, mo, d) {
            Some(date) => Some(ExifDateTime { date, hour: h, minute: mi, second: se }),
            None => None,
        },
        None => None,
    }
}

/// The camera as shown: make and model, or the model alone where it names the
/// make already (ignoring case), or whichever of the two is known.
pub open spec fn camera_text(make: Option<Seq<char>>, model: Option<Seq<char>>) -> Option<Seq<char>> {
    match (make, model) {
        (Some(a), Some(m)) => if crate::text::occurs_in(
            crate::text::lowercase(a),
            crate::text::lowercase(m),
        ) {
            Some(m)
        } else {
            Some(a + seq![' '] + m)
        },
        (None, Some(m)) => Some(m),
        (Some(a), None) => Some(a),
        (None, None) => None,
    }
}

/// The optional characters of an optional string.
pub open spec fn opt_chars(s: Option<&str>) -> Option<Seq<char>> {
    match s {
        Some(t) => Some(t@),
        None => None,
    }
}

/// The camera line of the image details.
pub fn camera_info(make: Option<&str>, model: Option<&str>) -> (r: Option<String>)
    ensures
        match camera_text(opt_chars(make), opt_chars(model)) {
            Some(t) => r matches Some(x) && x@ == t,
            None => r is None,
        },
{
    match (make, model) {
        (Some(a), Some(m)) => {
            let la = to_lowercase(a);
            let lm = to_lowercase(m);
            if str_contains(lm.as_str(), la.as_str()) {
                Some(owned(m))
            } else {
                let mut t = owned(a);
                crate::text::push_char(&mut t, ' ');
                push_str(&mut t, m);
                Some(t)
            }
        },
        (None, Some(m)) => Some(owned(m)),
        (Some(a), None) => Some(owned(a)),
        (None, None) => None,
    }
}

/// The image size as shown: `width×height`, where both are known.
pub fn dimensions_string(width: Option<u32>, height: Option<u32>) -> (r: Option<String>)
    ensures
        (width is Some && height is Some) ==> (r matches Some(t) && t@ == crate::text::decimal(
            width->0 as nat,
        ) + seq!['×'] + crate::text::decimal(height->0 as nat)),
        !(width is Some && height is Some) ==> r is None,
{
    match (width, height) {
        (Some(w), Some(h)) => {
            let mut t = String::new();
            push_decimal(&mut t, w as u64);
            crate::text::push_char(&mut t, '×');
            push_decimal(&mut t, h as u64);
            Some(t)
        },
        _ => None,
    }
}

/// `s` without its leading `"` characters.
pub open spec fn strip_leading_quotes(s: Seq<char>) -> Seq<char>
    decreases s.len(),
{
    if s.len() > 0 && s[0] == '"' {
        strip_leading_quotes(s.drop_first())
    } else {
        s
    }
}

/// `s` without its trailing `"` characters.
pub open spec fn strip_trailing_quotes(s: Seq<char>) -> Seq<char>
    decreases s.len(),
{
    if s.len() > 0 && s.last() == '"' {
        strip_trailing_quotes(s.drop_last())
    } else {
        s
    }
}

/// `s` without the `"` characters at either end, as `trim_matches('"')`
/// leaves it.
pub open spec fn quotes_trimmed(s: Seq<char>) -> Seq<char> {
    strip_trailing_quotes(strip_leading_quotes(s))
}

/// A text field of the EXIF data as shown, with the quotes around it removed.
pub fn trim_quotes(s: &str) -> (r: String)
    ensures
        r@ == quotes_trimmed(s@),
{
    let n = s.unicode_len();
    let mut i: usize = 0;
    assert(s@.subrange(0, n as int) =~= s@);
    while i < n && s.get_char(i) == '"'
        invariant
            n == s@.len(),
            i <= n,
            strip_leading_quotes(s@) == strip_leading_quotes(s@.subrange(i as int, n as int)),
        decreases n - i,
    {
        assert(s@.subrange(i as int, n as int).drop_first() =~= s@.subrange(i + 1, n as int));
        i = i + 1;
    }
    let ghost lead = s@.subrange(i as int, n as int);
    assert(strip_leading_quotes(s@) == lead);
    let mut j: usize = n;
    assert(s@.subrange(i as int, j as int) =~= lead);
    while j > i && s.get_char(j - 1) == '"'
        invariant
            n == s@.len(),
            i <= j <= n,
            strip_trailing_quotes(lead) == strip_trailing_quotes(s@.subrange(i as int, j as int)),
        decreases j - i,
    {
        assert(s@.subrange(i as int, j as int).drop_last() =~= s@.subrange(i as int, j - 1));
        j = j - 1;
    }
    owned(s.substring_char(i, j))
}

/// Whether anything worth showing was found in a photo's EXIF data: a date
/// taken, a camera model or a GPS latitude.
pub fn found_exif_data(has_date_taken: bool, has_camera_model: bool, has_gps_latitude: bool) -> (r: bool)
    ensures
        r == (has_date_taken || has_camera_model || has_gps_latitude),
{
    !(!has_date_taken && !has_camera_model && !has_gps_latitude)
}

} // verus!
