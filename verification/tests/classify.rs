use clipoo::classify::classify_text;
use clipoo::models::ClipboardItemType;

#[test]
fn detects_urls() {
    assert_eq!(classify_text("https://example.com/path"), ClipboardItemType::Url);
    assert_eq!(classify_text("www.example.com"), ClipboardItemType::Url);
}

#[test]
fn detects_code() {
    let snippet = "fn main() {\n    println!(\"hi\");\n}";
    assert_eq!(classify_text(snippet), ClipboardItemType::Code);
}

#[test]
fn keeps_persian_sentences_as_text() {
    assert_eq!(classify_text("این یک جمله معمولی فارسی است."), ClipboardItemType::Text);
}

#[test]
fn does_not_treat_sentences_with_www_inside_as_url() {
    assert_eq!(classify_text("see www.example.com for details"), ClipboardItemType::Text);
}

#[test]
fn url_schemes_ignore_ascii_case_and_surrounding_blanks() {
    assert_eq!(classify_text("  HTTPS://Example.com  "), ClipboardItemType::Url);
    assert_eq!(classify_text("mailto:someone@example.com"), ClipboardItemType::Url);
    assert_eq!(classify_text("ftp://host/file"), ClipboardItemType::Url);
    assert_eq!(classify_text("file:///tmp/a"), ClipboardItemType::Url);
    assert_eq!(classify_text("example.com"), ClipboardItemType::Text);
}

#[test]
fn short_texts_are_never_code() {
    // Under 8 bytes even with two keywords.
    assert_eq!(classify_text("=>:="), ClipboardItemType::Text);
    assert_eq!(classify_text("let x;"), ClipboardItemType::Text);
}

#[test]
fn one_keyword_needs_braces_semicolon_or_indentation() {
    assert_eq!(classify_text("let value = 5;"), ClipboardItemType::Code);
    assert_eq!(classify_text("please return soon"), ClipboardItemType::Text);
    assert_eq!(classify_text("return value\n\tnext"), ClipboardItemType::Code);
    assert_eq!(classify_text("import this and that"), ClipboardItemType::Text);
    assert_eq!(classify_text("import os\nfrom x import y"), ClipboardItemType::Code);
}

#[test]
fn braces_with_two_semicolons_over_two_lines_are_code() {
    assert_eq!(classify_text("{ a = 1;\n b = 2; }"), ClipboardItemType::Code);
    assert_eq!(classify_text("{ a = 1; b = 2; }"), ClipboardItemType::Text);
}

#[test]
fn multibyte_text_counts_bytes_for_the_length_floor() {
    // Four Persian letters are eight bytes: long enough to be considered.
    assert_eq!(classify_text("=> := کک"), ClipboardItemType::Code);
}
