//! Turning a raw clipboard capture into a history entry to store.
use vstd::prelude::*;

use crate::classify::{classify, classify_chars};
use crate::models::{ClipboardItemType, NewClipboardItem};
use crate::text::{
    append_chars, chars_of, contains, has_char, join, join_exec, string_from, trim, trim_chars,
    views,
};

verus! {

/// What was read from the clipboard.
pub enum RawCapture {
    Files(Vec<String>),
    Image(Vec<u8>),
    Text(String),
}

/// The character sequences of a list of strings.
pub open spec fn string_views(v: Seq<String>) -> Seq<Seq<char>> {
    v.map_values(|s: String| s@)
}

pub open spec fn digit(d: nat) -> char {
    if d == 0 {
        '0'
    } else if d == 1 {
        '1'
    } else if d == 2 {
        '2'
    } else if d == 3 {
        '3'
    } else if d == 4 {
        '4'
    } else if d == 5 {
        '5'
    } else if d == 6 {
        '6'
    } else if d == 7 {
        '7'
    } else if d == 8 {
        '8'
    } else {
        '9'
    }
}

/// The decimal notation of `n`, without leading zeros.
pub open spec fn decimal(n: nat) -> Seq<char>
    decreases n,
{
    if n < 10 {
        seq![digit(n)]
    } else {
        decimal(n / 10).push(digit(n % 10))
    }
}

fn digit_char(d: usize) -> (c: char)
    requires
        d < 10,
    ensures
        c == digit(d as nat),
{
    if d == 0 {
        '0'
    } else if d == 1 {
        '1'
    } else if d == 2 {
        '2'
    } else if d == 3 {
        '3'
    } else if d == 4 {
        '4'
    } else if d == 5 {
        '5'
    } else if d == 6 {
        '6'
    } else if d == 7 {
        '7'
    } else if d == 8 {
        '8'
    } else {
        '9'
    }
}

pub fn decimal_chars(n: usize) -> (r: Vec<char>)
    ensures
        r@ == decimal(n as nat),
    decreases n,
{
    if n < 10 {
        let r = vec![digit_char(n)];
        assert(r@ =~= seq![digit(n as nat)]);
        r
    } else {
        let mut r = decimal_chars(n / 10);
        r.push(digit_char(n % 10));
        r
    }
}

/// The preview of a file capture: the file's name (or the word for "file") for
/// one file, else the count followed by that word.
pub open spec fn file_preview(count: nat, name: Option<Seq<char>>) -> Seq<char> {
    if count == 1 {
        match name {
            Some(n) => n,
            None => "فایل"@,
        }
    } else {
        decimal(count) + " فایل"@
    }
}

/// `r` is the entry that `to_new_item` builds for `capture`, where `name` is the
/// final path component of a lone file.
pub open spec fn item_for_capture(
    capture: RawCapture,
    image_path: Option<String>,
    name: Option<Seq<char>>,
    r: Option<NewClipboardItem>,
) -> bool {
    match capture {
        RawCapture::Files(paths) => if paths.len() > 0 {
            &&& r is Some
            &&& r->0.item_type == ClipboardItemType::File
            &&& r->0.content@ == join(string_views(paths@), seq!['\n'])
            &&& r->0.preview is Some
            &&& r->0.preview->0@ == file_preview(paths.len() as nat, name)
        } else {
            r is None
        },
        RawCapture::Image(_) => match image_path {
            Some(path) => {
                &&& r is Some
                &&& r->0.item_type == ClipboardItemType::Image
                &&& r->0.content == path
                &&& r->0.preview is Some
                &&& r->0.preview->0@ == "تصویر"@
            },
            None => r is None,
        },
        RawCapture::Text(text) => if trim(text@).len() == 0 {
            r is None
        } else {
            &&& r is Some
            &&& r->0.item_type == classify(trim(text@))
            &&& r->0.content == text
            &&& r->0.preview is None
        },
    }
}

/// The characters of an optional string.
pub open spec fn opt_view(o: Option<String>) -> Option<Seq<char>> {
    match o {
        Some(s) => Some(s@),
        None => None,
    }
}

/// A path that names a single file by itself: not empty, neither `.` nor `..`,
/// and without `/`, a backslash or `:` (the characters that separate components or
/// start a drive or share prefix on any platform).
pub open spec fn plain_name(path: Seq<char>) -> bool {
    &&& path.len() > 0
    &&& !has_char(path, '/')
    &&& !has_char(path, '\\')
    &&& !has_char(path, ':')
    &&& path != seq!['.']
    &&& path != seq!['.', '.']
}

/// A character that may follow the final component: a separator on some
/// platform, or a dot (`.` components after the last name are skipped).
pub open spec fn is_separator_or_dot(c: char) -> bool {
    c == '/' || c == '\\' || c == '.'
}

/// A Windows verbatim path (`\\?\` first), in which only a backslash separates.
pub open spec fn is_verbatim(path: Seq<char>) -> bool {
    path.len() >= 4 && path.take(4) == seq!['\\', '\\', '?', '\\']
}

/// A path that starts with two separators, as the Windows share and device
/// prefixes do.
pub open spec fn starts_with_two_separators(path: Seq<char>) -> bool {
    &&& path.len() >= 2
    &&& (path[0] == '/' || path[0] == '\\')
    &&& (path[1] == '/' || path[1] == '\\')
}

/// `name` stands at the end of `path`: it starts the path or follows a
/// separator or a drive's `:`, and only separators and dots come after it.
pub open spec fn ends_path(path: Seq<char>, name: Seq<char>) -> bool {
    exists|k: int|
        #![trigger path.subrange(k, k + name.len())]
        {
            &&& 0 <= k
            &&& k + name.len() <= path.len()
            &&& path.subrange(k, k + name.len()) == name
            &&& (k == 0 || path[k - 1] == '/' || path[k - 1] == '\\' || path[k - 1] == ':')
            &&& forall|j: int| k + name.len() <= j < path.len() ==> is_separator_or_dot(#[trigger] path[j])
        }
}

/// What holds of the final component of `path` on every platform:
/// - a name is non-empty and stands at the end of the path; it holds no `/`,
///   unless the path is verbatim, and then it holds no backslash;
/// - a plain name is its own final component;
/// - a path that ends in a character other than a separator, a dot or `:`, and
///   does not start with two separators, has a final component.
pub open spec fn file_name_fits(path: Seq<char>, name: Option<Seq<char>>) -> bool {
    &&& (name matches Some(n) ==> {
        &&& n.len() > 0
        &&& ends_path(path, n)
        &&& (!has_char(n, '/') || (is_verbatim(path) && !has_char(n, '\\')))
    })
    &&& (plain_name(path) ==> name == Some(path))
    &&& (path.len() > 0 && !is_separator_or_dot(path.last()) && path.last() != ':'
        && !starts_with_two_separators(path) ==> name is Some)
}

/// `std::path::Path::file_name`, as text: the final component of `path` when it
/// is a normal one (`Path::components`), none when the path ends in `..` or has
/// no such component. By the `std::path` documentation: components are
/// separated by `/`, and on Windows also by a backslash except in verbatim
/// (`\\?\`) paths; repeated separators, a trailing separator and `.`
/// components after the first are skipped; on Windows a path may start with a
/// drive (`C:`) or with a prefix of two separators (shares, devices, verbatim
/// paths). What holds whichever rules apply is stated (see `file_name_fits`).
#[verifier::external_body]
fn path_file_name(path: &str) -> (r: Option<String>)
    ensures
        file_name_fits(path@, opt_view(r)),
{
    let name = std::path::Path::new(path).file_name()?;
    name.to_str().map(str::to_string)
}

fn string_list_views(v: &Vec<String>) -> (r: Vec<Vec<char>>)
    ensures
        views(r@) == string_views(v@),
{
    let mut r: Vec<Vec<char>> = Vec::new();
    let mut i: usize = 0;
    while i < v.len()
        invariant
            i <= v.len(),
            views(r@) == string_views(v@).take(i as int),
        decreases v.len() - i,
    {
        let ghost before = views(r@);
        let c = chars_of(v[i].as_str());
        let ghost cv = c@;
        r.push(c);
        i = i + 1;
        assert(views(r@) =~= before.push(cv));
        assert(views(r@) =~= string_views(v@).take(i as int));
    }
    assert(string_views(v@).take(v.len() as int) =~= string_views(v@));
    r
}

/// The entry for `capture`, given the final path component `first_name` of the
/// first file (used when the capture is a single file).
pub fn new_item_with_name(
    capture: RawCapture,
    image_path: Option<String>,
    first_name: Option<String>,
) -> (r: Option<NewClipboardItem>)
    ensures
        item_for_capture(capture, image_path, opt_view(first_name), r),
{
    match capture {
        RawCapture::Files(paths) => {
            if paths.len() == 0 {
                return None;
            }
            let preview = if paths.len() == 1 {
                match first_name {
                    Some(n) => n,
                    None => "فایل".to_string(),
                }
            } else {
                let mut p = decimal_chars(paths.len());
                append_chars(&mut p, &chars_of(" فایل"));
                string_from(&p)
            };
            let newline = vec!['\n'];
            assert(newline@ =~= seq!['\n']);
            let content = string_from(&join_exec(&string_list_views(&paths), &newline));
            Some(
                NewClipboardItem {
                    item_type: ClipboardItemType::File,
                    content,
                    preview: Some(preview),
                },
            )
        },
        RawCapture::Image(_) => match image_path {
            Some(content) => Some(
                NewClipboardItem {
                    item_type: ClipboardItemType::Image,
                    content,
                    preview: Some("تصویر".to_string()),
                },
            ),
            None => None,
        },
        RawCapture::Text(text) => {
            let trimmed = trim_chars(&chars_of(text.as_str()));
            if trimmed.len() == 0 {
                return None;
            }
            Some(
                NewClipboardItem {
                    item_type: classify_chars(&trimmed),
                    content: text,
                    preview: None,
                },
            )
        },
    }
}

/// The entry to store for `capture`: files become one entry listing their paths,
/// an image becomes an entry for the file it was saved to (none when it was not
/// saved), and text that is not blank becomes an entry of its class.
pub fn to_new_item(capture: RawCapture, image_path: Option<String>) -> (r: Option<
    NewClipboardItem,
>)
    ensures
        match capture {
            RawCapture::Files(paths) => exists|name: Option<Seq<char>>|
                (paths.len() == 1 ==> file_name_fits(paths[0]@, name)) && item_for_capture(
                    capture,
                    image_path,
                    name,
                    r,
                ),
            _ => item_for_capture(capture, image_path, None, r),
        },
{
    let first_name = match &capture {
        RawCapture::Files(paths) => if paths.len() == 1 {
            path_file_name(paths[0].as_str())
        } else {
            None
        },
        _ => None,
    };
    let ghost name = opt_view(first_name);
    let ghost c = capture;
    let ghost ip = image_path;
    let r = new_item_with_name(capture, image_path, first_name);
    proof {
        if let RawCapture::Files(paths) = c {
            assert((paths.len() == 1 ==> file_name_fits(paths[0]@, name)) && item_for_capture(
                c,
                ip,
                name,
                r,
            ));
        }
    }
    r
}

} // verus!
