//! Storing, listing, searching, pinning and evicting clipboard history entries.
use vstd::prelude::*;

use rusqlite::Connection;

use crate::db::error::{DbError, DbResult};
use crate::db::sql::{
    bind_values, error_message, execute, invalid_type_error, is_uuid_v4_text, millis_since_epoch,
    new_uuid, query_i64, query_item_rows, query_texts, ItemRow,
};
use crate::fts::{match_query, to_match_query};
use crate::models::{
    filter_name, filter_sql, parse_type, stored_type_name, ClipboardFilter, ClipboardItem, ClipboardItemType,
    NewClipboardItem, SaveOutcome,
};
use crate::persian::{normalize, normalize_persian};
use crate::text::{chars_of, contains, contains_str, copy_range, string_from, trim, trim_chars};

verus! {

pub const DEFAULT_LIMIT: u32 = 100;

pub const PREVIEW_CHARS: usize = 240;

pub const LATEST_NORMALIZED_SQL: &'static str =
    "SELECT normalized_content FROM clipboard_items ORDER BY created_at DESC, rowid DESC LIMIT 1";

pub const INSERT_SQL: &'static str =
    "INSERT INTO clipboard_items (id, type, content, normalized_content, preview, pinned, created_at)
     VALUES (?1, ?2, ?3, ?4, ?5, ?6, ?7)";

pub const LIST_SQL: &'static str =
    "SELECT id, type, content, normalized_content, preview, pinned, created_at
     FROM clipboard_items
     WHERE (?1 = 'all')
        OR (?1 = 'pinned' AND pinned = 1)
        OR (?1 = type)
     ORDER BY created_at DESC, rowid DESC
     LIMIT ?2";

pub const SEARCH_SQL: &'static str =
    "SELECT i.id, i.type, i.content, i.normalized_content, i.preview, i.pinned, i.created_at
     FROM clipboard_items_fts
     JOIN clipboard_items AS i ON i.rowid = clipboard_items_fts.rowid
     WHERE clipboard_items_fts MATCH ?1
       AND (
            ?2 = 'all'
            OR (?2 = 'pinned' AND i.pinned = 1)
            OR ?2 = i.type
       )
     ORDER BY i.created_at DESC, i.rowid DESC
     LIMIT ?3";

pub const SET_PINNED_SQL: &'static str = "UPDATE clipboard_items SET pinned = ?2 WHERE id = ?1";

pub const GET_SQL: &'static str =
    "SELECT id, type, content, normalized_content, preview, pinned, created_at
     FROM clipboard_items WHERE id = ?1";

pub const DELETE_SQL: &'static str = "DELETE FROM clipboard_items WHERE id = ?1";

pub const CLEAR_SQL: &'static str = "DELETE FROM clipboard_items";

pub const COUNT_SQL: &'static str = "SELECT COUNT(*) FROM clipboard_items";

pub const OLDEST_UNPINNED_SQL: &'static str =
    "SELECT id, type, content, normalized_content, preview, pinned, created_at
     FROM clipboard_items
     WHERE pinned = 0
     ORDER BY created_at ASC, rowid ASC
     LIMIT ?1";

pub const EVICT_SQL: &'static str =
    "DELETE FROM clipboard_items
     WHERE id IN (
        SELECT id FROM clipboard_items
        WHERE pinned = 0
        ORDER BY created_at ASC, rowid ASC
        LIMIT ?1
     )";

/// The number of entries a listing or search returns at most: the given limit
/// (100 when none is given), and at least 1.
pub open spec fn effective_limit(limit: Option<u32>) -> u32 {
    let l = match limit {
        Some(l) => l,
        None => DEFAULT_LIMIT,
    };
    if l < 1 {
        1
    } else {
        l
    }
}

pub fn limit_or_default(limit: Option<u32>) -> (r: u32)
    ensures
        r == effective_limit(limit),
{
    let l = match limit {
        Some(l) => l,
        None => DEFAULT_LIMIT,
    };
    if l < 1 {
        1
    } else {
        l
    }
}

/// The preview of a text: its first 240 characters.
pub open spec fn preview_of(content: Seq<char>) -> Seq<char> {
    if content.len() <= PREVIEW_CHARS {
        content
    } else {
        content.take(PREVIEW_CHARS as int)
    }
}

pub fn make_preview(content: &str) -> (r: String)
    ensures
        r@ == preview_of(content@),
{
    let chars = chars_of(content);
    if chars.len() <= PREVIEW_CHARS {
        string_from(&chars)
    } else {
        let head = copy_range(&chars, 0, PREVIEW_CHARS);
        assert(head@ =~= chars@.take(PREVIEW_CHARS as int));
        string_from(&head)
    }
}

/// `item` is the entry read from `row`.
pub open spec fn item_from_row(item: ClipboardItem, row: ItemRow) -> bool {
    &&& parse_type(row.1@) == Some(item.item_type)
    &&& item.id == row.0
    &&& item.content == row.2
    &&& item.normalized_content == row.3
    &&& item.preview == row.4
    &&& item.pinned == (row.5 != 0)
    &&& item.created_at == row.6
}

/// Reads one row; a row with an unknown type name is an error.
pub fn map_item(row: &ItemRow) -> (r: DbResult<ClipboardItem>)
    ensures
        match r {
            Ok(item) => item_from_row(item, *row),
            Err(e) => parse_type(row.1@) is None && e is Sqlite,
        },
{
    match ClipboardItemType::parse(row.1.as_str()) {
        Some(item_type) => Ok(
            ClipboardItem {
                id: row.0.clone(),
                item_type,
                content: row.2.clone(),
                normalized_content: row.3.clone(),
                preview: row.4.clone(),
                pinned: row.5 != 0,
                created_at: row.6,
            },
        ),
        None => Err(DbError::Sqlite(invalid_type_error())),
    }
}

/// Reads all rows in order; the first row with an unknown type name makes it an error.
pub fn items_from_rows(rows: &Vec<ItemRow>) -> (r: DbResult<Vec<ClipboardItem>>)
    ensures
        match r {
            Ok(items) => items.len() == rows.len() && forall|i: int|
                0 <= i < rows.len() ==> item_from_row(#[trigger] items[i], rows[i]),
            Err(e) => e is Sqlite && exists|i: int|
                0 <= i < rows.len() && (#[trigger] parse_type(rows[i].1@)) is None,
        },
{
    let mut items: Vec<ClipboardItem> = Vec::new();
    let mut i: usize = 0;
    while i < rows.len()
        invariant
            i <= rows.len(),
            items.len() == i,
            forall|j: int| 0 <= j < i ==> item_from_row(#[trigger] items[j], rows[j]),
        decreases rows.len() - i,
    {
        match map_item(&rows[i]) {
            Ok(item) => items.push(item),
            Err(e) => {
                assert(parse_type(rows[i as int].1@) is None);
                return Err(e);
            },
        }
        i = i + 1;
    }
    Ok(items)
}

/// Whether the newest stored normalized text (the first of `latest`) equals `normalized`.
pub fn latest_matches(latest: &Vec<String>, normalized: &str) -> (r: bool)
    ensures
        r == (latest.len() > 0 && latest[0]@ == normalized@),
{
    if latest.len() == 0 {
        return false;
    }
    crate::fts::chars_eq(&chars_of(latest[0].as_str()), &chars_of(normalized))
}

/// `item` is the new entry for `new_item`: same type and text, the normalized
/// text, the given preview or the first 240 characters of the text, not pinned.
pub open spec fn new_entry_fits(item: ClipboardItem, new_item: NewClipboardItem) -> bool {
    &&& item.item_type == new_item.item_type
    &&& item.content == new_item.content
    &&& item.normalized_content@ == normalize(new_item.content@)
    &&& item.preview@ == match new_item.preview {
        Some(p) => p@,
        None => preview_of(new_item.content@),
    }
    &&& !item.pinned
}

/// What storing `new_item` comes to, given the normalized texts read newest first
/// (`latest`): none (a duplicate) exactly when the newest one equals the
/// capture's normalized text, otherwise the new entry with `id` and `created_at`.
pub fn insert_outcome(latest: &Vec<String>, new_item: NewClipboardItem, id: String, created_at: i64) -> (r:
    Option<ClipboardItem>)
    ensures
        r is None <==> (latest.len() > 0 && latest[0]@ == normalize(new_item.content@)),
        r matches Some(item) ==> {
            &&& new_entry_fits(item, new_item)
            &&& item.id == id
            &&& item.created_at == created_at
        },
{
    let normalized_content = normalize_persian(new_item.content.as_str());
    if latest_matches(latest, normalized_content.as_str()) {
        return None;
    }
    let preview = match new_item.preview {
        Some(p) => p,
        None => make_preview(new_item.content.as_str()),
    };
    Some(
        ClipboardItem {
            id,
            item_type: new_item.item_type,
            preview,
            content: new_item.content,
            normalized_content,
            pinned: false,
            created_at,
        },
    )
}

/// Once a capture is stored, a capture with the same normalized text (the same
/// text, or one that differs only in letter forms the normalization folds) read
/// against it as the newest entry is a duplicate.
pub proof fn law_stored_capture_repeats_as_duplicate(
    item: ClipboardItem,
    stored: NewClipboardItem,
    later: NewClipboardItem,
    latest: Seq<String>,
)
    requires
        new_entry_fits(item, stored),
        normalize(later.content@) == normalize(stored.content@),
        latest.len() > 0,
        latest[0] == item.normalized_content,
    ensures
        latest.len() > 0 && latest[0]@ == normalize(later.content@),
{
}

/// An error message that the full-text index gives for a query it cannot parse.
pub open spec fn is_fts_query_message(message: Seq<char>) -> bool {
    contains(message, "fts5"@) || contains(message, "no such column"@)
}

pub fn is_fts_query_error(message: &str) -> (r: bool)
    ensures
        r == is_fts_query_message(message@),
{
    let m = chars_of(message);
    contains_str(&m, "fts5") || contains_str(&m, "no such column")
}

/// What a search gives when running its index query failed with `error`, whose
/// message is `message`: no entries when the index could not parse the query,
/// otherwise the error.
pub fn search_failure(error: rusqlite::Error, message: &str) -> (r: DbResult<Vec<ClipboardItem>>)
    ensures
        is_fts_query_message(message@) ==> (r matches Ok(items) && items.len() == 0),
        !is_fts_query_message(message@) ==> r == Err::<Vec<ClipboardItem>, DbError>(
            DbError::Sqlite(error),
        ),
{
    if is_fts_query_error(message) {
        Ok(Vec::new())
    } else {
        Err(DbError::Sqlite(error))
    }
}

/// What a search does before asking the store.
pub enum SearchPlan {
    /// Run the index query.
    Match(String),
    /// The search text is blank: list the entries instead.
    ListAll,
    /// Nothing searchable is left: no entries.
    NoResults,
}

pub open spec fn plan_is(plan: SearchPlan, query: Seq<char>) -> bool {
    match match_query(query) {
        Some(q) => plan matches SearchPlan::Match(m) && m@ == q,
        None => if trim(query).len() == 0 {
            plan is ListAll
        } else {
            plan is NoResults
        },
    }
}

pub fn search_plan(query: &str) -> (r: SearchPlan)
    ensures
        plan_is(r, query@),
{
    match to_match_query(query) {
        Some(m) => SearchPlan::Match(m),
        None => {
            let t = trim_chars(&chars_of(query));
            if t.len() == 0 {
                SearchPlan::ListAll
            } else {
                SearchPlan::NoResults
            }
        },
    }
}

/// A timestamp from clock milliseconds: the milliseconds as a signed 64-bit
/// number (keeping the low 64 bits), and 0 when the clock is before the epoch.
pub open spec fn timestamp_of(ms: Option<u128>) -> i64 {
    match ms {
        Some(m) => m as i64,
        None => 0,
    }
}

pub fn timestamp_from_millis(ms: Option<u128>) -> (r: i64)
    ensures
        r == timestamp_of(ms),
{
    match ms {
        Some(m) => {
            #[verifier::truncate]
            (m as i64)
        },
        None => 0,
    }
}

/// Clock milliseconds as a signed number; 0 when the clock is before the epoch.
pub(crate) fn now_millis() -> i64 {
    timestamp_from_millis(millis_since_epoch())
}

/// The flag as it is stored: 1 or 0.
pub open spec fn flag_value(b: bool) -> i64 {
    if b {
        1
    } else {
        0
    }
}

pub fn flag_of(b: bool) -> (r: i64)
    ensures
        r == flag_value(b),
{
    if b {
        1
    } else {
        0
    }
}

/// The number of entries over the history limit (the limit counts as at least 1).
pub open spec fn overflow_of(count: i64, max_history_size: u32) -> int {
    let m = if max_history_size < 1 {
        1
    } else {
        max_history_size as int
    };
    if count - m < i64::MIN {
        i64::MIN as int
    } else {
        count - m
    }
}

pub fn overflow(count: i64, max_history_size: u32) -> (r: i64)
    ensures
        r == overflow_of(count, max_history_size),
{
    let m: i64 = if max_history_size < 1 {
        1
    } else {
        max_history_size as i64
    };
    if count < i64::MIN + m {
        i64::MIN
    } else {
        count - m
    }
}

/// The entry read from the first of `rows`; `NotFound` when there are none.
pub fn first_item(rows: &Vec<ItemRow>) -> (r: DbResult<ClipboardItem>)
    ensures
        rows.len() == 0 ==> r matches Err(DbError::NotFound),
        rows.len() > 0 ==> match r {
            Ok(item) => item_from_row(item, rows[0]),
            Err(e) => parse_type(rows[0].1@) is None && e is Sqlite,
        },
{
    if rows.len() == 0 {
        Err(DbError::NotFound)
    } else {
        map_item(&rows[0])
    }
}

/// `NotFound` when a statement changed no row, success otherwise.
pub fn require_changed(changed: usize) -> (r: DbResult<()>)
    ensures
        changed == 0 ==> r matches Err(DbError::NotFound),
        changed != 0 ==> r is Ok,
{
    if changed == 0 {
        Err(DbError::NotFound)
    } else {
        Ok(())
    }
}

/// How many of the oldest unpinned entries to evict, given the number of stored
/// entries: none when the store is within the limit.
pub fn eviction_count(count: i64, max_history_size: u32) -> (r: Option<i64>)
    ensures
        r is None <==> overflow_of(count, max_history_size) <= 0,
        r matches Some(n) ==> n == overflow_of(count, max_history_size),
{
    let over = overflow(count, max_history_size);
    if over <= 0 {
        None
    } else {
        Some(over)
    }
}

/// The entries to evict, read from the oldest unpinned rows: none when no row was
/// read (then nothing is deleted), otherwise the entries of all the rows in
/// order; an unknown type name in a row is an error.
pub fn eviction_victims(rows: &Vec<ItemRow>) -> (r: DbResult<Option<Vec<ClipboardItem>>>)
    ensures
        rows.len() == 0 ==> r matches Ok(None),
        rows.len() > 0 ==> match r {
            Ok(Some(items)) => items.len() == rows.len() && forall|i: int|
                0 <= i < rows.len() ==> item_from_row(#[trigger] items[i], rows[i]),
            Ok(None) => false,
            Err(e) => e is Sqlite && exists|i: int|
                0 <= i < rows.len() && (#[trigger] parse_type(rows[i].1@)) is None,
        },
{
    match items_from_rows(rows) {
        Ok(items) => if items.len() == 0 {
            Ok(None)
        } else {
            Ok(Some(items))
        },
        Err(e) => Err(e),
    }
}

/// Whether `item` is shown under `filter`: every entry under `All`, the pinned
/// ones under `Pinned`, and under a type filter those of that type.
pub open spec fn shown_under(item: ClipboardItem, filter: ClipboardFilter) -> bool {
    match filter {
        ClipboardFilter::All => true,
        ClipboardFilter::Pinned => item.pinned,
        ClipboardFilter::Text => item.item_type == ClipboardItemType::Text,
        ClipboardFilter::Image => item.item_type == ClipboardItemType::Image,
        ClipboardFilter::File => item.item_type == ClipboardItemType::File,
        ClipboardFilter::Url => item.item_type == ClipboardItemType::Url,
    }
}

pub fn is_shown_under(item: &ClipboardItem, filter: ClipboardFilter) -> (r: bool)
    ensures
        r == shown_under(*item, filter),
{
    match filter {
        ClipboardFilter::All => true,
        ClipboardFilter::Pinned => item.pinned,
        ClipboardFilter::Text => item.item_type == ClipboardItemType::Text,
        ClipboardFilter::Image => item.item_type == ClipboardItemType::Image,
        ClipboardFilter::File => item.item_type == ClipboardItemType::File,
        ClipboardFilter::Url => item.item_type == ClipboardItemType::Url,
    }
}

/// The entries of `items` shown under `filter`, in order.
pub open spec fn shown_entries(items: Seq<ClipboardItem>, filter: ClipboardFilter) -> Seq<
    ClipboardItem,
>
    decreases items.len(),
{
    if items.len() == 0 {
        seq![]
    } else {
        let earlier = shown_entries(items.drop_last(), filter);
        if shown_under(items.last(), filter) {
            earlier.push(items.last())
        } else {
            earlier
        }
    }
}

/// The first `n` items of `s` (all of them when there are fewer).
pub open spec fn first_n(s: Seq<ClipboardItem>, n: nat) -> Seq<ClipboardItem> {
    if s.len() <= n {
        s
    } else {
        s.take(n as int)
    }
}

/// Every entry kept by a filter is shown under it.
proof fn lemma_shown_entries(items: Seq<ClipboardItem>, filter: ClipboardFilter)
    ensures
        forall|i: int|
            0 <= i < shown_entries(items, filter).len() ==> shown_under(
                #[trigger] shown_entries(items, filter)[i],
                filter,
            ),
    decreases items.len(),
{
    if items.len() > 0 {
        let earlier = shown_entries(items.drop_last(), filter);
        lemma_shown_entries(items.drop_last(), filter);
        assert forall|i: int| 0 <= i < shown_entries(items, filter).len() implies shown_under(
            #[trigger] shown_entries(items, filter)[i],
            filter,
        ) by {
            if i < earlier.len() {
                assert(shown_entries(items, filter)[i] == earlier[i]);
            }
        }
    }
}

/// What a listing gives from the entries read: those shown under `filter`, in the
/// order read, at most `limit` of them.
pub fn listing(items: Vec<ClipboardItem>, filter: ClipboardFilter, limit: u32) -> (r: Vec<
    ClipboardItem,
>)
    ensures
        r@ == first_n(shown_entries(items@, filter), limit as nat),
        r.len() <= limit,
        forall|i: int| 0 <= i < r.len() ==> shown_under(#[trigger] r@[i], filter),
{
    let ghost orig = items@;
    let mut v = items;
    let mut i: usize = 0;
    let ghost mut j: int = 0;
    assert(orig.take(0) =~= Seq::<ClipboardItem>::empty());
    assert(v@ =~= shown_entries(orig.take(0), filter) + orig.skip(0));
    while i < v.len()
        invariant
            0 <= j <= orig.len(),
            i == shown_entries(orig.take(j), filter).len(),
            v@ == shown_entries(orig.take(j), filter) + orig.skip(j),
        decreases v.len() - i,
    {
        let ghost kept = shown_entries(orig.take(j), filter);
        assert(orig.take(j + 1).drop_last() =~= orig.take(j));
        assert(orig.take(j + 1).last() == orig[j]);
        assert(v@[i as int] == orig[j]);
        if is_shown_under(&v[i], filter) {
            i = i + 1;
            proof {
                assert(shown_entries(orig.take(j + 1), filter) == kept.push(orig[j]));
                assert(v@ =~= kept.push(orig[j]) + orig.skip(j + 1));
                j = j + 1;
            }
        } else {
            v.remove(i);
            proof {
                assert(shown_entries(orig.take(j + 1), filter) == kept);
                assert(v@ =~= kept + orig.skip(j + 1));
                j = j + 1;
            }
        }
    }
    proof {
        assert(orig.skip(j).len() == 0);
        assert(orig.take(j) =~= orig);
        assert(v@ =~= shown_entries(orig, filter));
        lemma_shown_entries(orig, filter);
    }
    let n = limit as usize;
    if n < v.len() {
        v.truncate(n);
    }
    proof {
        let kept = shown_entries(orig, filter);
        assert(v@ == first_n(kept, limit as nat));
        assert forall|k: int| 0 <= k < v.len() implies shown_under(#[trigger] v@[k], filter) by {
            assert(v@[k] == kept[k]);
        }
    }
    v
}

/// The parameters that pin or unpin an entry: its id, then the flag.
pub fn pin_params(id: &str, pinned: bool) -> (r: (Vec<String>, Vec<i64>))
    ensures
        text_views(r.0@) == seq![id@],
        r.1@ == seq![flag_value(pinned)],
{
    let texts = vec![id.to_string()];
    let ints = vec![flag_of(pinned)];
    assert(text_views(texts@) =~= seq![id@]);
    assert(ints@ =~= seq![flag_value(pinned)]);
    (texts, ints)
}

/// The character sequences of a list of strings.
pub open spec fn text_views(v: Seq<String>) -> Seq<Seq<char>> {
    v.map_values(|s: String| s@)
}

/// The parameters of a listing: the filter's name, then the effective limit.
pub fn list_params(filter: ClipboardFilter, limit: Option<u32>) -> (r: (Vec<String>, Vec<i64>))
    ensures
        text_views(r.0@) == seq![filter_name(filter)],
        r.1@ == seq![effective_limit(limit) as i64],
{
    let texts = vec![filter_sql(filter).to_string()];
    let ints = vec![limit_or_default(limit) as i64];
    assert(text_views(texts@) =~= seq![filter_name(filter)]);
    assert(ints@ =~= seq![effective_limit(limit) as i64]);
    (texts, ints)
}

/// The parameters of a search: the index query and the filter's name, then the
/// effective limit.
pub fn search_params(match_text: String, filter: ClipboardFilter, limit: Option<u32>) -> (r: (
    Vec<String>,
    Vec<i64>,
))
    ensures
        text_views(r.0@) == seq![match_text@, filter_name(filter)],
        r.1@ == seq![effective_limit(limit) as i64],
{
    let ghost m = match_text@;
    let texts = vec![match_text, filter_sql(filter).to_string()];
    let ints = vec![limit_or_default(limit) as i64];
    assert(text_views(texts@) =~= seq![m, filter_name(filter)]);
    assert(ints@ =~= seq![effective_limit(limit) as i64]);
    (texts, ints)
}

/// The parameters that store an entry: id, type name, text, normalized text and
/// preview, then the pinned flag and the creation time.
pub fn insert_params(item: &ClipboardItem) -> (r: (Vec<String>, Vec<i64>))
    ensures
        text_views(r.0@) == seq![
            item.id@,
            stored_type_name(item.item_type),
            item.content@,
            item.normalized_content@,
            item.preview@,
        ],
        r.1@ == seq![flag_value(item.pinned), item.created_at as i64],
{
    let texts = vec![
        item.id.clone(),
        item.item_type.as_str().to_string(),
        item.content.clone(),
        item.normalized_content.clone(),
        item.preview.clone(),
    ];
    let ints = vec![flag_of(item.pinned), item.created_at];
    assert(text_views(texts@) =~= seq![
        item.id@,
        stored_type_name(item.item_type),
        item.content@,
        item.normalized_content@,
        item.preview@,
    ]);
    assert(ints@ =~= seq![flag_value(item.pinned), item.created_at as i64]);
    (texts, ints)
}

pub struct ClipboardRepository<'a> {
    conn: &'a Connection,
}

impl<'a> ClipboardRepository<'a> {
    /// The connection the repository reads and writes.
    pub closed spec fn connection(&self) -> &'a Connection {
        self.conn
    }

    pub fn new(conn: &'a Connection) -> (r: Self)
        ensures
            r.connection() == conn,
    {
        ClipboardRepository { conn }
    }

    /// Stores a capture unless its normalized text equals that of the newest entry
    /// (see `insert_outcome`, which decides from the newest normalized text read).
    /// A new entry gets a random id, the given preview or the first 240 characters
    /// of its text, is not pinned, and is stamped with the clock.
    pub fn insert(&self, new_item: NewClipboardItem) -> (r: DbResult<SaveOutcome>)
        ensures
            r matches Ok(SaveOutcome::Inserted(item)) ==> {
                &&& new_entry_fits(item, new_item)
                &&& is_uuid_v4_text(item.id@)
            },
            r matches Err(e) ==> e is Sqlite,
    {
        let latest = match query_texts(
            self.conn,
            LATEST_NORMALIZED_SQL,
            bind_values(Vec::new(), Vec::new()),
        ) {
            Ok(v) => v,
            Err(e) => return Err(DbError::Sqlite(e)),
        };
        let id = new_uuid();
        let created_at = now_millis();
        let item = match insert_outcome(&latest, new_item, id, created_at) {
            None => return Ok(SaveOutcome::Duplicate),
            Some(item) => item,
        };
        let (texts, ints) = insert_params(&item);
        match execute(self.conn, INSERT_SQL, bind_values(texts, ints)) {
            Ok(_) => Ok(SaveOutcome::Inserted(item)),
            Err(e) => Err(DbError::Sqlite(e)),
        }
    }

    /// Whether `normalized_content` equals the normalized text of the newest entry.
    pub fn is_consecutive_duplicate(&self, normalized_content: &str) -> (r: DbResult<bool>)
        ensures
            r matches Err(e) ==> e is Sqlite,
    {
        match query_texts(self.conn, LATEST_NORMALIZED_SQL, bind_values(Vec::new(), Vec::new())) {
            Ok(latest) => Ok(latest_matches(&latest, normalized_content)),
            Err(e) => Err(DbError::Sqlite(e)),
        }
    }

    /// The newest entries under `filter`, at most `effective_limit(limit)` of them.
    pub fn list(&self, filter: ClipboardFilter, limit: Option<u32>) -> (r: DbResult<
        Vec<ClipboardItem>,
    >)
        ensures
            r matches Ok(items) ==> {
                &&& items.len() <= effective_limit(limit)
                &&& forall|i: int| 0 <= i < items.len() ==> shown_under(#[trigger] items[i], filter)
            },
            r matches Err(e) ==> e is Sqlite,
    {
        let (texts, ints) = list_params(filter, limit);
        match query_item_rows(self.conn, LIST_SQL, bind_values(texts, ints)) {
            Ok(Ok(rows)) => match items_from_rows(&rows) {
                Ok(items) => Ok(listing(items, filter, limit_or_default(limit))),
                Err(e) => Err(e),
            },
            Ok(Err(e)) | Err(e) => Err(DbError::Sqlite(e)),
        }
    }

    /// The newest entries under `filter` that match the search text. A blank text
    /// lists the entries; a text with nothing searchable left finds nothing; a
    /// query that the index cannot parse finds nothing (see `search_failure`).
    pub fn search(&self, query: &str, filter: ClipboardFilter, limit: Option<u32>) -> (r: DbResult<
        Vec<ClipboardItem>,
    >)
        ensures
            match_query(query@) is None && trim(query@).len() != 0 ==> (r matches Ok(items)
                && items.len() == 0),
            r matches Ok(items) ==> {
                &&& items.len() <= effective_limit(limit)
                &&& forall|i: int| 0 <= i < items.len() ==> shown_under(#[trigger] items[i], filter)
            },
            r matches Err(e) ==> e is Sqlite,
    {
        let match_text = match search_plan(query) {
            SearchPlan::Match(m) => m,
            SearchPlan::ListAll => return self.list(filter, limit),
            SearchPlan::NoResults => return Ok(Vec::new()),
        };
        let (texts, ints) = search_params(match_text, filter, limit);
        match query_item_rows(self.conn, SEARCH_SQL, bind_values(texts, ints)) {
            Err(e) => Err(DbError::Sqlite(e)),
            Ok(Ok(rows)) => match items_from_rows(&rows) {
                Ok(items) => Ok(listing(items, filter, limit_or_default(limit))),
                Err(e) => Err(e),
            },
            Ok(Err(e)) => {
                let message = error_message(&e);
                search_failure(e, message.as_str())
            },
        }
    }

    /// Pins or unpins an entry and reads it back; `NotFound` when no entry has `id`,
    /// or when the entry read back does not carry the flag just set.
    pub fn set_pinned(&self, id: &str, pinned: bool) -> (r: DbResult<ClipboardItem>)
        ensures
            r matches Ok(item) ==> item.id@ == id@ && item.pinned == pinned,
            r matches Err(e) ==> (e is Sqlite || e is NotFound),
    {
        let (texts, ints) = pin_params(id, pinned);
        match execute(self.conn, SET_PINNED_SQL, bind_values(texts, ints)) {
            Err(e) => Err(DbError::Sqlite(e)),
            Ok(changed) => match require_changed(changed) {
                Ok(()) => match self.get(id) {
                    Ok(item) => if item.pinned == pinned {
                        Ok(item)
                    } else {
                        Err(DbError::NotFound)
                    },
                    Err(e) => Err(e),
                },
                Err(e) => Err(e),
            },
        }
    }

    /// The entry with `id`; `NotFound` when there is none.
    pub fn get(&self, id: &str) -> (r: DbResult<ClipboardItem>)
        ensures
            r matches Ok(item) ==> item.id@ == id@,
            r matches Err(e) ==> (e is Sqlite || e is NotFound),
    {
        let texts = vec![id.to_string()];
        match query_item_rows(self.conn, GET_SQL, bind_values(texts, Vec::new())) {
            Ok(Ok(rows)) => match first_item(&rows) {
                Ok(item) => if crate::fts::chars_eq(&chars_of(item.id.as_str()), &chars_of(id)) {
                    Ok(item)
                } else {
                    Err(DbError::NotFound)
                },
                Err(e) => Err(e),
            },
            Ok(Err(e)) | Err(e) => Err(DbError::Sqlite(e)),
        }
    }

    /// Deletes the entry with `id`; `NotFound` when there is none.
    pub fn delete(&self, id: &str) -> (r: DbResult<()>)
        ensures
            r matches Err(e) ==> (e is Sqlite || e is NotFound),
    {
        let texts = vec![id.to_string()];
        match execute(self.conn, DELETE_SQL, bind_values(texts, Vec::new())) {
            Err(e) => Err(DbError::Sqlite(e)),
            Ok(changed) => require_changed(changed),
        }
    }

    /// Deletes every entry, giving how many there were.
    pub fn clear(&self) -> (r: DbResult<usize>)
        ensures
            r matches Err(e) ==> e is Sqlite,
    {
        match execute(self.conn, CLEAR_SQL, bind_values(Vec::new(), Vec::new())) {
            Ok(n) => Ok(n),
            Err(e) => Err(DbError::Sqlite(e)),
        }
    }

    /// The number of stored entries.
    pub fn count(&self) -> (r: DbResult<i64>)
        ensures
            r matches Err(e) ==> e is Sqlite,
    {
        match query_i64(self.conn, COUNT_SQL) {
            Ok(n) => Ok(n),
            Err(e) => Err(DbError::Sqlite(e)),
        }
    }

    /// Deletes the oldest unpinned entries that exceed the history limit and gives
    /// them back; nothing is deleted when the store is within the limit.
    pub fn enforce_max_history(&self, max_history_size: u32) -> (r: DbResult<Vec<ClipboardItem>>)
        ensures
            r matches Err(e) ==> e is Sqlite,
    {
        let count = match self.count() {
            Ok(n) => n,
            Err(e) => return Err(e),
        };
        let over = match eviction_count(count, max_history_size) {
            None => return Ok(Vec::new()),
            Some(n) => n,
        };
        let victims = match query_item_rows(
            self.conn,
            OLDEST_UNPINNED_SQL,
            bind_values(Vec::new(), vec![over]),
        ) {
            Ok(Ok(rows)) => match eviction_victims(&rows) {
                Ok(Some(items)) => items,
                Ok(None) => return Ok(Vec::new()),
                Err(e) => return Err(e),
            },
            Ok(Err(e)) | Err(e) => return Err(DbError::Sqlite(e)),
        };
        match execute(self.conn, EVICT_SQL, bind_values(Vec::new(), vec![over])) {
            Ok(_) => Ok(victims),
            Err(e) => Err(DbError::Sqlite(e)),
        }
    }
}

} // verus!
