use clipoo::fts::{to_match_query, to_prefix_query};

#[test]
fn rejects_empty_tokens() {
    assert_eq!(to_prefix_query(""), None);
    assert_eq!(to_prefix_query("***"), None);
}

#[test]
fn appends_prefix_wildcard() {
    assert_eq!(to_prefix_query("کتاب").as_deref(), Some("کتاب*"));
}

#[test]
fn builds_and_or_query_for_multiple_words() {
    let query = to_match_query("hello world").expect("query");
    assert!(query.contains("AND"), "{query}");
    assert!(query.contains("OR"), "{query}");
    assert!(query.contains("hello*"), "{query}");
    assert!(query.contains("world*"), "{query}");
    assert!(query.contains("helloworld*"), "{query}");
}

#[test]
fn ignores_fts_operators() {
    assert_eq!(to_match_query("\"\" ** ((("), None);
    assert!(to_match_query("کتاب +").is_some());
    let hyphenated = to_match_query("row-49999").expect("hyphen query");
    assert!(!hyphenated.contains('-'), "{hyphenated}");
    assert!(hyphenated.contains("49999*"), "{hyphenated}");
}

#[test]
fn compound_persian_stays_one_prefix_token() {
    assert_eq!(to_match_query("خانه‌من").as_deref(), Some("خانهمن*"));
}

#[test]
fn reserved_words_are_not_queries() {
    assert_eq!(to_prefix_query("and"), None);
    assert_eq!(to_prefix_query("Or"), None);
    assert_eq!(to_prefix_query("NOT"), None);
    assert_eq!(to_prefix_query("near"), None);
    assert_eq!(to_prefix_query("nearby").as_deref(), Some("nearby*"));
    assert_eq!(to_prefix_query("(a)").as_deref(), Some("a*"));
}

#[test]
fn exact_query_shapes() {
    assert_eq!(
        to_match_query("hello world").as_deref(),
        Some("(hello* AND world*) OR helloworld*")
    );
    assert_eq!(to_match_query("hello hello").as_deref(), Some("hellohello*"));
    assert_eq!(to_match_query("   ").as_deref(), None);
    assert_eq!(to_match_query("--").as_deref(), None);
    assert_eq!(to_match_query("row-49999").as_deref(), Some("(row* AND 49999*) OR row49999*"));
    assert_eq!(to_match_query("and or").as_deref(), Some("andor*"));
    assert_eq!(to_match_query("a b and").as_deref(), Some("(a* AND b*) OR aband*"));
}

#[test]
fn single_word_uses_the_whole_text_query() {
    assert_eq!(to_match_query("  كتاب  ").as_deref(), Some("کتاب*"));
}

#[test]
fn letter_forms_give_the_same_query() {
    assert_eq!(to_match_query("كتاب مي"), to_match_query("کتاب می"));
    assert_eq!(to_match_query("مسئول-أ"), to_match_query("مسئول-ا"));
}

#[test]
fn blank_and_operator_only_texts_give_no_query() {
    assert_eq!(to_match_query(" - ( ) : ^ { } [ ] + \" * "), None);
}

#[test]
fn padding_and_hyphens_do_not_change_the_query() {
    let raw = "کتاب-خانه مدرسه";
    let padded = format!(" \t{raw}\n");
    assert_eq!(to_match_query(&padded), to_match_query(raw));
    assert_eq!(to_match_query(&raw.replace('-', " ")), to_match_query(raw));
    assert_eq!(to_match_query("-abc-"), to_match_query("abc"));
    assert_eq!(to_match_query(" - "), None);
}
