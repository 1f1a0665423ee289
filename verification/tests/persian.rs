use clipoo::persian::normalize_persian;

#[test]
fn maps_arabic_yeh_to_persian_yeh() {
    assert_eq!(normalize_persian("مي"), normalize_persian("می"));
    assert_eq!(normalize_persian("می"), "می");
}

#[test]
fn maps_arabic_kaf_to_persian_kaf() {
    assert_eq!(normalize_persian("كتاب"), normalize_persian("کتاب"));
    assert_eq!(normalize_persian("کتاب"), "کتاب");
}

#[test]
fn folds_hamza_so_masool_matches() {
    assert_eq!(normalize_persian("مسئول"), normalize_persian("مسول"));
    assert_eq!(normalize_persian("مسول"), "مسول");
}

#[test]
fn removes_zwnj_and_spaces_for_compound_words() {
    assert_eq!(normalize_persian("خانه من"), normalize_persian("خانه‌من"));
}

#[test]
fn leaves_the_original_string_untouched() {
    let original = "كتاب می‌شود";
    let snapshot = original.to_string();
    let _ = normalize_persian(original);
    assert_eq!(original, snapshot);
    assert_ne!(normalize_persian(original), original);
}

#[test]
fn folds_alef_forms_and_waw_with_hamza() {
    assert_eq!(normalize_persian("\u{0623}\u{0625}\u{0622}\u{0624}"), "\u{0627}\u{0627}\u{0627}\u{0648}");
}

#[test]
fn drops_diacritics_tatweel_and_zero_width_characters() {
    assert_eq!(normalize_persian("ك\u{064E}ـتاب\u{200B}\u{FEFF}\u{0670}\u{0610}\u{06D6}"), "کتاب");
    assert_eq!(normalize_persian("a\tb\nc\u{3000}d"), "abcd");
}

#[test]
fn normalizing_twice_changes_nothing() {
    let samples = ["كتاب می‌شود", "hello world", "مسئول  ", "\u{0623}ـ"];
    for s in samples {
        let once = normalize_persian(s);
        assert_eq!(normalize_persian(&once), once);
    }
}

#[test]
fn normalization_splits_over_concatenation() {
    let a = "كتاب ";
    let b = "مسئول";
    let joined = format!("{a}{b}");
    assert_eq!(normalize_persian(&joined), format!("{}{}", normalize_persian(a), normalize_persian(b)));
}
