use clipoo::db::clipboard_repo::{
    is_fts_query_error, items_from_rows, limit_or_default, make_preview, overflow, search_plan,
    SearchPlan,
};
use clipoo::db::settings_repo::{settings_from_row, update_values};
use clipoo::db::{Database, DbError};
use clipoo::models::{filter_sql, AppSettings, ClipboardFilter, ClipboardItemType, NewClipboardItem, SaveOutcome};
use clipoo::text::char_is_whitespace;

#[test]
fn type_names_round_trip() {
    for t in [
        ClipboardItemType::Text,
        ClipboardItemType::Image,
        ClipboardItemType::File,
        ClipboardItemType::Url,
        ClipboardItemType::Code,
    ] {
        assert_eq!(ClipboardItemType::parse(t.as_str()), Some(t));
    }
    assert_eq!(ClipboardItemType::Code.as_str(), "code");
    assert_eq!(ClipboardItemType::parse("Text"), None);
    assert_eq!(ClipboardItemType::parse(""), None);
}

#[test]
fn filter_names() {
    assert_eq!(filter_sql(ClipboardFilter::All), "all");
    assert_eq!(filter_sql(ClipboardFilter::Pinned), "pinned");
    assert_eq!(filter_sql(ClipboardFilter::Url), "url");
}

#[test]
fn default_settings() {
    let s = AppSettings::default();
    assert!(s.launch_on_startup);
    assert!(s.enable_monitoring);
    assert_eq!(s.max_history_size, 10_000);
}

#[test]
fn user_messages() {
    assert_eq!(DbError::NotFound.to_user_message(), "مورد پیدا نشد");
    assert_eq!(DbError::Unavailable.to_user_message(), "ذخیره‌سازی در دسترس نیست");
    assert_eq!(DbError::Poisoned.to_user_message(), "خطا در پایگاه داده");
}

#[test]
fn limits_and_overflow() {
    assert_eq!(limit_or_default(None), 100);
    assert_eq!(limit_or_default(Some(0)), 1);
    assert_eq!(limit_or_default(Some(7)), 7);
    assert_eq!(overflow(3, 2), 1);
    assert_eq!(overflow(3, 0), 2);
    assert_eq!(overflow(1, 5), -4);
    assert_eq!(overflow(i64::MIN, 5), i64::MIN);
}

#[test]
fn preview_takes_240_characters() {
    let long: String = "ک".repeat(300);
    assert_eq!(make_preview(&long).chars().count(), 240);
    assert_eq!(make_preview("short"), "short");
}

#[test]
fn rows_with_unknown_types_are_errors() {
    let good = ("id".to_string(), "url".to_string(), "c".to_string(), "c".to_string(), "p".to_string(), 3, 9);
    let items = items_from_rows(&vec![good.clone()]).expect("rows");
    assert_eq!(items[0].item_type, ClipboardItemType::Url);
    assert!(items[0].pinned);
    assert_eq!(items[0].created_at, 9);
    let bad = ("id".to_string(), "movie".to_string(), "c".to_string(), "c".to_string(), "p".to_string(), 0, 9);
    assert!(matches!(items_from_rows(&vec![good, bad]), Err(DbError::Sqlite(_))));
}

#[test]
fn search_plans() {
    assert!(matches!(search_plan("   "), SearchPlan::ListAll));
    assert!(matches!(search_plan("***"), SearchPlan::NoResults));
    match search_plan("Hello") {
        SearchPlan::Match(q) => assert_eq!(q, "Hello*"),
        _ => panic!("expected a query"),
    }
}

#[test]
fn fts_error_messages() {
    assert!(is_fts_query_error("fts5: syntax error near \".\""));
    assert!(is_fts_query_error("no such column: com"));
    assert!(!is_fts_query_error("database is locked"));
}

#[test]
fn settings_rows() {
    let s = settings_from_row((0, 5, 12));
    assert!(!s.launch_on_startup);
    assert!(s.enable_monitoring);
    assert_eq!(s.max_history_size, 12);
    let v = update_values(&AppSettings { launch_on_startup: true, enable_monitoring: false, max_history_size: 0 });
    assert_eq!(v, vec![1, 0, 1]);
}

#[test]
fn whitespace_matches_std() {
    for u in 0u32..=0x3100 {
        if let Some(c) = char::from_u32(u) {
            assert_eq!(char_is_whitespace(c), c.is_whitespace(), "U+{u:04X}");
        }
    }
    assert_eq!(char_is_whitespace('\u{FEFF}'), '\u{FEFF}'.is_whitespace());
}

#[test]
fn inserted_items_get_uuid_ids_and_eviction_returns_victims() {
    let db = Database::open_in_memory().expect("memory db");
    let (outcome, evicted) = db
        .save_clipboard_item(NewClipboardItem {
            item_type: ClipboardItemType::Text,
            content: "متن اول".to_string(),
            preview: None,
        })
        .expect("save");
    assert!(evicted.is_empty());
    let item = match outcome {
        SaveOutcome::Inserted(item) => item,
        SaveOutcome::Duplicate => panic!("new text"),
    };
    assert_eq!(item.id.len(), 36);
    assert_eq!(item.id.as_bytes()[14], b'4');
    assert_eq!(item.normalized_content, "متناول");
    assert_eq!(item.preview, "متن اول");

    db.write(|conn| {
        clipoo::db::SettingsRepository::new(conn).update(&AppSettings {
            launch_on_startup: true,
            enable_monitoring: true,
            max_history_size: 1,
        })
    })
    .expect("limit");
    let (_, evicted) = db
        .save_clipboard_item(NewClipboardItem {
            item_type: ClipboardItemType::Image,
            content: "/img/second.png".to_string(),
            preview: Some("تصویر".to_string()),
        })
        .expect("second save");
    assert_eq!(evicted.len(), 1);
    assert_eq!(evicted[0].content, "متن اول");
    let (again, evicted) = db
        .save_clipboard_item(NewClipboardItem {
            item_type: ClipboardItemType::Image,
            content: "/img/second.png".to_string(),
            preview: Some("تصویر".to_string()),
        })
        .expect("duplicate save");
    assert!(matches!(again, SaveOutcome::Duplicate));
    assert!(evicted.is_empty());
}

#[test]
fn pin_get_delete_and_not_found() {
    let db = Database::open_in_memory().expect("memory db");
    let id = match db.save_clipboard_item(NewClipboardItem {
        item_type: ClipboardItemType::Text,
        content: "pin me".to_string(),
        preview: None,
    }) {
        Ok((SaveOutcome::Inserted(item), _)) => item.id,
        _ => panic!("insert"),
    };
    let pinned = db
        .write(|conn| clipoo::db::ClipboardRepository::new(conn).set_pinned(&id, true))
        .expect("pin");
    assert!(pinned.pinned);
    let listed = db
        .read(|conn| clipoo::db::ClipboardRepository::new(conn).list(ClipboardFilter::Pinned, None))
        .expect("pinned list");
    assert_eq!(listed.len(), 1);
    db.write(|conn| clipoo::db::ClipboardRepository::new(conn).delete(&id)).expect("delete");
    assert!(matches!(
        db.read(|conn| clipoo::db::ClipboardRepository::new(conn).get(&id)),
        Err(DbError::NotFound)
    ));
    assert!(matches!(
        db.write(|conn| clipoo::db::ClipboardRepository::new(conn).delete(&id)),
        Err(DbError::NotFound)
    ));
    assert!(matches!(
        db.write(|conn| clipoo::db::ClipboardRepository::new(conn).set_pinned("missing", true)),
        Err(DbError::NotFound)
    ));
}

#[test]
fn error_descriptions() {
    assert_eq!(DbError::NotFound.message(), "item not found");
    assert_eq!(DbError::Unavailable.message(), "storage unavailable");
    assert_eq!(DbError::Poisoned.message(), "database lock poisoned");
}
