//! The records that the clipboard history stores and hands out.
use vstd::prelude::*;

use crate::fts::chars_eq;
use crate::text::chars_of;

verus! {

/// What kind of content a history entry holds.
#[derive(Debug, Clone, Copy, PartialEq, Eq, Structural)]
pub enum ClipboardItemType {
    Text,
    Image,
    File,
    Url,
    Code,
}

/// The name under which a type is stored.
pub open spec fn stored_type_name(t: ClipboardItemType) -> Seq<char> {
    match t {
        ClipboardItemType::Text => "text"@,
        ClipboardItemType::Image => "image"@,
        ClipboardItemType::File => "file"@,
        ClipboardItemType::Url => "url"@,
        ClipboardItemType::Code => "code"@,
    }
}

/// The type stored under `name`, if any.
pub open spec fn parse_type(name: Seq<char>) -> Option<ClipboardItemType> {
    if name == "text"@ {
        Some(ClipboardItemType::Text)
    } else if name == "image"@ {
        Some(ClipboardItemType::Image)
    } else if name == "file"@ {
        Some(ClipboardItemType::File)
    } else if name == "url"@ {
        Some(ClipboardItemType::Url)
    } else if name == "code"@ {
        Some(ClipboardItemType::Code)
    } else {
        None
    }
}

fn str_eq(a: &str, b: &str) -> (r: bool)
    ensures
        r == (a@ == b@),
{
    chars_eq(&chars_of(a), &chars_of(b))
}

impl ClipboardItemType {
    pub fn as_str(self) -> (r: &'static str)
        ensures
            r@ == stored_type_name(self),
    {
        match self {
            ClipboardItemType::Text => "text",
            ClipboardItemType::Image => "image",
            ClipboardItemType::File => "file",
            ClipboardItemType::Url => "url",
            ClipboardItemType::Code => "code",
        }
    }

    pub fn parse(value: &str) -> (r: Option<Self>)
        ensures
            r == parse_type(value@),
    {
        if str_eq(value, "text") {
            Some(ClipboardItemType::Text)
        } else if str_eq(value, "image") {
            Some(ClipboardItemType::Image)
        } else if str_eq(value, "file") {
            Some(ClipboardItemType::File)
        } else if str_eq(value, "url") {
            Some(ClipboardItemType::Url)
        } else if str_eq(value, "code") {
            Some(ClipboardItemType::Code)
        } else {
            None
        }
    }
}

/// Parsing the stored name of a type gives the type back.
pub proof fn law_type_name_round_trip(t: ClipboardItemType)
    ensures
        parse_type(stored_type_name(t)) == Some(t),
{
    reveal_strlit("text");
    reveal_strlit("image");
    reveal_strlit("file");
    reveal_strlit("url");
    reveal_strlit("code");
    assert("text"@[0] != "image"@[0] && "text"@[0] != "file"@[0] && "text"@[0] != "url"@[0]
        && "text"@[0] != "code"@[0]);
    assert("image"@[0] != "file"@[0] && "image"@[0] != "url"@[0] && "image"@[0] != "code"@[0]);
    assert("file"@[0] != "url"@[0] && "file"@[0] != "code"@[0]);
    assert("url"@[0] != "code"@[0]);
}

/// Which entries a listing or a search shows.
#[derive(Debug, Clone, Copy, PartialEq, Eq, Structural)]
pub enum ClipboardFilter {
    All,
    Text,
    Image,
    File,
    Url,
    Pinned,
}

/// The name under which a filter is handed to the store.
pub open spec fn filter_name(f: ClipboardFilter) -> Seq<char> {
    match f {
        ClipboardFilter::All => "all"@,
        ClipboardFilter::Text => "text"@,
        ClipboardFilter::Image => "image"@,
        ClipboardFilter::File => "file"@,
        ClipboardFilter::Url => "url"@,
        ClipboardFilter::Pinned => "pinned"@,
    }
}

pub fn filter_sql(filter: ClipboardFilter) -> (r: &'static str)
    ensures
        r@ == filter_name(filter),
{
    match filter {
        ClipboardFilter::All => "all",
        ClipboardFilter::Text => "text",
        ClipboardFilter::Image => "image",
        ClipboardFilter::File => "file",
        ClipboardFilter::Url => "url",
        ClipboardFilter::Pinned => "pinned",
    }
}

/// One entry of the clipboard history.
#[derive(Debug, Clone)]
pub struct ClipboardItem {
    pub id: String,
    pub item_type: ClipboardItemType,
    pub content: String,
    pub normalized_content: String,
    pub preview: String,
    pub pinned: bool,
    pub created_at: i64,
}

/// A capture that is about to be stored.
#[derive(Debug, Clone)]
pub struct NewClipboardItem {
    pub item_type: ClipboardItemType,
    pub content: String,
    pub preview: Option<String>,
}

/// The file that an image entry's content names; none for other entries.
pub fn stored_image_path(item: &ClipboardItem) -> (r: Option<&String>)
    ensures
        r is Some <==> item.item_type == ClipboardItemType::Image,
        r matches Some(p) ==> *p == item.content,
{
    match item.item_type {
        ClipboardItemType::Image => Some(&item.content),
        _ => None,
    }
}

/// What storing a capture did.
#[derive(Debug, Clone)]
pub enum SaveOutcome {
    Inserted(ClipboardItem),
    Duplicate,
}

/// The user's settings.
#[derive(Debug, Clone, Copy, PartialEq, Eq, Structural)]
pub struct AppSettings {
    pub launch_on_startup: bool,
    pub enable_monitoring: bool,
    pub max_history_size: u32,
}

impl Default for AppSettings {
    fn default() -> (r: Self)
        ensures
            r.launch_on_startup,
            r.enable_monitoring,
            r.max_history_size == 10_000,
    {
        AppSettings { launch_on_startup: true, enable_monitoring: true, max_history_size: 10_000 }
    }
}

} // verus!
