use std::time::Instant;

use clipoo::db::clipboard_repo::{
    eviction_count, eviction_victims, first_item, insert_outcome, require_changed, search_failure,
    timestamp_from_millis,
};
use clipoo::db::migrate::pending_migrations;
use clipoo::db::schema::{FTS_PREFIX_SQL, INIT_SCHEMA_SQL};
use clipoo::db::sql::ItemRow;
use clipoo::db::{ClipboardRepository, Database, DbError, SettingsRepository};
use clipoo::models::{AppSettings, ClipboardFilter, ClipboardItemType, NewClipboardItem, SaveOutcome};
use clipoo::persian::normalize_persian;

fn save_text(db: &Database, content: &str) -> SaveOutcome {
    db.write(|conn| {
        ClipboardRepository::new(conn).insert(NewClipboardItem {
            item_type: ClipboardItemType::Text,
            content: content.to_string(),
            preview: None,
        })
    })
    .expect("insert should succeed")
}

#[test]
fn persian_variants_share_one_search_result_set() {
    let db = Database::open_in_memory().expect("memory db");
    assert!(matches!(save_text(&db, "کتاب"), SaveOutcome::Inserted(_)));
    assert!(matches!(save_text(&db, "مسئول"), SaveOutcome::Inserted(_)));
    assert!(matches!(save_text(&db, "می"), SaveOutcome::Inserted(_)));

    let searches = ["كتاب", "مسول", "مي"];
    for query in searches {
        let results = db
            .read(|conn| ClipboardRepository::new(conn).search(query, ClipboardFilter::All, None))
            .expect("search should succeed");
        assert_eq!(results.len(), 1, "query {query} should match exactly one item");
    }
}

#[test]
fn zwnj_and_spaced_phrases_match() {
    let db = Database::open_in_memory().expect("memory db");
    assert!(matches!(save_text(&db, "خانه من"), SaveOutcome::Inserted(_)));

    let results = db
        .read(|conn| ClipboardRepository::new(conn).search("خانه‌من", ClipboardFilter::All, None))
        .expect("search should succeed");

    assert_eq!(results.len(), 1);
    assert_eq!(results[0].content, "خانه من");
    assert_eq!(results[0].normalized_content, normalize_persian("خانه‌من"));
}

#[test]
fn consecutive_duplicates_use_normalized_text() {
    let db = Database::open_in_memory().expect("memory db");
    assert!(matches!(save_text(&db, "کتاب"), SaveOutcome::Inserted(_)));
    assert!(matches!(save_text(&db, "كتاب"), SaveOutcome::Duplicate));
    let count = db.read(|conn| ClipboardRepository::new(conn).count()).expect("count");
    assert_eq!(count, 1);
}

#[test]
fn clear_permanently_deletes_rows() {
    let db = Database::open_in_memory().expect("memory db");
    assert!(matches!(save_text(&db, "یک"), SaveOutcome::Inserted(_)));
    assert!(matches!(save_text(&db, "دو"), SaveOutcome::Inserted(_)));

    let deleted = db.write(|conn| ClipboardRepository::new(conn).clear()).expect("clear");
    assert_eq!(deleted, 2);

    let count = db.read(|conn| ClipboardRepository::new(conn).count()).expect("count");
    assert_eq!(count, 0);

    let leftover = db
        .read(|conn| ClipboardRepository::new(conn).search("یک", ClipboardFilter::All, None))
        .expect("search after clear");
    assert!(leftover.is_empty());
}

#[test]
fn settings_round_trip() {
    let db = Database::open_in_memory().expect("memory db");
    let updated = db
        .write(|conn| {
            SettingsRepository::new(conn).update(&AppSettings {
                launch_on_startup: false,
                enable_monitoring: true,
                max_history_size: 250,
            })
        })
        .expect("update settings");

    assert!(!updated.launch_on_startup);
    assert!(updated.enable_monitoring);
    assert_eq!(updated.max_history_size, 250);
}

#[test]
fn newest_items_are_returned_first() {
    let db = Database::open_in_memory().expect("memory db");
    save_text(&db, "اول");
    save_text(&db, "دوم");

    let items = db
        .read(|conn| ClipboardRepository::new(conn).list(ClipboardFilter::All, None))
        .expect("list");

    assert_eq!(items[0].content, "دوم");
    assert_eq!(items[1].content, "اول");
}

#[test]
fn evicts_oldest_unpinned_when_over_limit() {
    let db = Database::open_in_memory().expect("memory db");
    save_text(&db, "a");
    save_text(&db, "b");
    save_text(&db, "c");

    let first_id = db
        .read(|conn| ClipboardRepository::new(conn).list(ClipboardFilter::All, None))
        .expect("list")
        .into_iter()
        .last()
        .expect("first inserted")
        .id;

    db.write(|conn| {
        ClipboardRepository::new(conn).set_pinned(&first_id, true)?;
        ClipboardRepository::new(conn).enforce_max_history(2)
    })
    .expect("evict");

    let items = db
        .read(|conn| ClipboardRepository::new(conn).list(ClipboardFilter::All, None))
        .expect("list after evict");

    assert_eq!(items.len(), 2);
    assert!(items.iter().any(|item| item.id == first_id && item.pinned));
}

#[test]
fn prefix_query_finds_persian_word() {
    let db = Database::open_in_memory().expect("memory db");
    save_text(&db, "کتابخانه");
    save_text(&db, "میز");

    let results = db
        .read(|conn| ClipboardRepository::new(conn).search("کتا", ClipboardFilter::All, None))
        .expect("search");

    assert_eq!(results.len(), 1);
    assert_eq!(results[0].content, "کتابخانه");
}

#[test]
fn multi_word_search_requires_all_terms() {
    let db = Database::open_in_memory().expect("memory db");
    save_text(&db, "hello world from clipoo");
    save_text(&db, "hello there");

    let results = db
        .read(|conn| {
            ClipboardRepository::new(conn).search("hello world", ClipboardFilter::All, None)
        })
        .expect("search");

    assert_eq!(results.len(), 1);
    assert_eq!(results[0].content, "hello world from clipoo");
}

#[test]
fn search_returns_newest_matches_first() {
    let db = Database::open_in_memory().expect("memory db");
    save_text(&db, "alpha match");
    save_text(&db, "beta match");

    let results = db
        .read(|conn| ClipboardRepository::new(conn).search("match", ClipboardFilter::All, None))
        .expect("search");

    assert_eq!(results[0].content, "beta match");
    assert_eq!(results[1].content, "alpha match");
}

#[test]
fn search_respects_type_filter() {
    let db = Database::open_in_memory().expect("memory db");
    save_text(&db, "https://example.com/docs");
    db.write(|conn| {
        ClipboardRepository::new(conn).insert(NewClipboardItem {
            item_type: ClipboardItemType::Url,
            content: "https://example.com/app".to_string(),
            preview: None,
        })
    })
    .expect("insert url");

    let results = db
        .read(|conn| ClipboardRepository::new(conn).search("example", ClipboardFilter::Url, None))
        .expect("search");

    assert_eq!(results.len(), 1);
    assert_eq!(results[0].item_type, ClipboardItemType::Url);
}

#[test]
fn search_stays_under_50ms_at_50k_rows() {
    let db = Database::open_in_memory().expect("memory db");
    db.write(|conn| {
        let mut stmt = conn
            .prepare(
                "INSERT INTO clipboard_items (id, type, content, normalized_content, preview, pinned, created_at)
                 VALUES (?1, 'text', ?2, ?3, ?4, 0, ?5)",
            )
            .map_err(DbError::Sqlite)?;
        let base_time = 1_700_000_000_000i64;
        for index in 0..50_000i64 {
            let content = format!("row-{index:05} clipboard sample کتاب");
            let normalized = normalize_persian(&content);
            stmt.execute((
                uuid::Uuid::new_v4().to_string(),
                content.clone(),
                normalized,
                content,
                base_time + index,
            ))
            .map_err(DbError::Sqlite)?;
        }
        Ok(())
    })
    .expect("bulk insert");

    let _ = db.read(|conn| ClipboardRepository::new(conn).search("warm", ClipboardFilter::All, Some(10)));

    let started = Instant::now();
    let results = db
        .read(|conn| {
            ClipboardRepository::new(conn).search("row-49999", ClipboardFilter::All, Some(50))
        })
        .expect("search");
    let elapsed = started.elapsed();

    assert_eq!(results.len(), 1);
    assert_eq!(results[0].content, "row-49999 clipboard sample کتاب");
    assert!(elapsed.as_millis() < 50, "search took {}ms", elapsed.as_millis());
}

#[test]
fn operator_only_search_returns_no_rows() {
    let db = Database::open_in_memory().expect("memory db");
    save_text(&db, "hello");

    let results = db
        .read(|conn| ClipboardRepository::new(conn).search("***", ClipboardFilter::All, None))
        .expect("search");

    assert!(results.is_empty());
}

#[test]
fn first_item_reads_the_first_row() {
    let none: Vec<ItemRow> = Vec::new();
    assert!(matches!(first_item(&none), Err(DbError::NotFound)));

    let rows: Vec<ItemRow> = vec![
        ("a".to_string(), "url".to_string(), "https://x.ir".to_string(), "https://x.ir".to_string(), "p".to_string(), 1, 42),
        ("b".to_string(), "text".to_string(), "t".to_string(), "t".to_string(), "t".to_string(), 0, 7),
    ];
    let item = first_item(&rows).expect("first row");
    assert_eq!(item.id, "a");
    assert_eq!(item.item_type, ClipboardItemType::Url);
    assert_eq!(item.content, "https://x.ir");
    assert_eq!(item.preview, "p");
    assert!(item.pinned);
    assert_eq!(item.created_at, 42);

    let bad: Vec<ItemRow> =
        vec![("c".to_string(), "sound".to_string(), String::new(), String::new(), String::new(), 0, 1)];
    match first_item(&bad) {
        Err(DbError::Sqlite(e)) => assert!(e.to_string().contains("invalid clipboard type")),
        other => panic!("expected a database error, got {:?}", other),
    }
}

#[test]
fn no_changed_row_is_not_found() {
    assert!(matches!(require_changed(0), Err(DbError::NotFound)));
    assert!(require_changed(1).is_ok());
    assert!(require_changed(5).is_ok());
}

#[test]
fn timestamps_from_clock_milliseconds() {
    assert_eq!(timestamp_from_millis(Some(1_700_000_000_123)), 1_700_000_000_123);
    assert_eq!(timestamp_from_millis(None), 0);
    assert_eq!(timestamp_from_millis(Some((1u128 << 64) + 7)), 7);
}

#[test]
fn insert_outcome_decides_duplicates_on_normalized_text() {
    let capture = |content: &str| NewClipboardItem {
        item_type: ClipboardItemType::Text,
        content: content.to_string(),
        preview: None,
    };
    let first = insert_outcome(&Vec::new(), capture("کتاب"), "id-1".to_string(), 10).expect("new entry");
    assert_eq!(first.id, "id-1");
    assert_eq!(first.created_at, 10);
    assert_eq!(first.content, "کتاب");
    assert_eq!(first.preview, "کتاب");
    assert!(!first.pinned);

    let latest = vec![first.normalized_content.clone()];
    assert!(insert_outcome(&latest, capture("\u{643}\u{62a}\u{627}\u{628}"), "id-2".to_string(), 11).is_none());

    let other = insert_outcome(&latest, capture("قلم"), "id-3".to_string(), 12).expect("new entry");
    assert_eq!(other.normalized_content, normalize_persian("قلم"));
    assert_eq!(other.created_at, 12);
}

#[test]
fn eviction_only_over_the_limit() {
    assert_eq!(eviction_count(5, 3), Some(2));
    assert_eq!(eviction_count(3, 3), None);
    assert_eq!(eviction_count(0, 10), None);
    assert_eq!(eviction_count(5, 0), Some(4));
    assert_eq!(eviction_count(i64::MIN, 7), None);
}

#[test]
fn eviction_victims_are_the_rows_read() {
    let none: Vec<ItemRow> = Vec::new();
    assert!(matches!(eviction_victims(&none), Ok(None)));
    let rows: Vec<ItemRow> = vec![
        ("old".to_string(), "text".to_string(), "a".to_string(), "a".to_string(), "a".to_string(), 0, 1),
        ("older".to_string(), "file".to_string(), "b".to_string(), "b".to_string(), "b".to_string(), 0, 2),
    ];
    let victims = eviction_victims(&rows).expect("rows").expect("victims");
    assert_eq!(victims.len(), 2);
    assert_eq!(victims[0].id, "old");
    assert_eq!(victims[1].item_type, ClipboardItemType::File);
    let bad: Vec<ItemRow> =
        vec![("x".to_string(), "video".to_string(), String::new(), String::new(), String::new(), 0, 1)];
    assert!(matches!(eviction_victims(&bad), Err(DbError::Sqlite(_))));
}

#[test]
fn pending_migrations_are_the_unrecorded_ones_in_order() {
    assert_eq!(pending_migrations(&vec![]), vec![(1, INIT_SCHEMA_SQL), (2, FTS_PREFIX_SQL)]);
    assert_eq!(pending_migrations(&vec![1]), vec![(2, FTS_PREFIX_SQL)]);
    assert_eq!(pending_migrations(&vec![2]), vec![(1, INIT_SCHEMA_SQL)]);
    assert_eq!(pending_migrations(&vec![2, 1, 7]), vec![]);
}

#[test]
fn unparsable_index_queries_find_nothing() {
    let parse = search_failure(rusqlite::Error::InvalidQuery, "fts5: syntax error near \"*\"");
    assert!(matches!(parse, Ok(ref v) if v.is_empty()));
    let column = search_failure(rusqlite::Error::InvalidQuery, "no such column: foo");
    assert!(matches!(column, Ok(ref v) if v.is_empty()));
    let other = search_failure(rusqlite::Error::InvalidQuery, "disk I/O error");
    assert!(matches!(other, Err(DbError::Sqlite(rusqlite::Error::InvalidQuery))));
}
