//! Heuristic classification of captured text as a link, source code or plain text.
use vstd::prelude::*;

use crate::models::ClipboardItemType;
use crate::text::{
    chars_of, contains, contains_str, count_char, count_char_exec, has_char, has_char_exec,
    is_white_space, law_trim_idempotent, lines, lines_of, lower_seq, starts_with, starts_with_str, to_ascii_lower, trim,
    trim_chars, utf8_len, utf8_len_below, views, char_is_whitespace,
};

verus! {

/// Fragments whose presence suggests source code.
pub open spec fn code_keywords() -> Seq<Seq<char>> {
    seq![
        "function "@,
        "fn "@,
        "func "@,
        "def "@,
        "class "@,
        "import "@,
        "from "@,
        "const "@,
        "let "@,
        "var "@,
        "return "@,
        "public "@,
        "private "@,
        "package "@,
        "impl "@,
        "struct "@,
        "enum "@,
        "interface "@,
        "export "@,
        "require("@,
        "#include"@,
        "<?php"@,
        "console.log"@,
        "=>"@,
        ":="@,
    ]
}

/// How many of `kws` occur in `t`.
pub open spec fn keyword_hits(t: Seq<char>, kws: Seq<Seq<char>>) -> nat
    decreases kws.len(),
{
    if kws.len() == 0 {
        0
    } else {
        keyword_hits(t, kws.drop_last()) + if contains(t, kws.last()) {
            1nat
        } else {
            0nat
        }
    }
}

/// A line that starts with four spaces or a tab.
pub open spec fn is_indented(line: Seq<char>) -> bool {
    starts_with(line, "    "@) || (line.len() > 0 && line[0] == '\t')
}

pub open spec fn count_indented(ls: Seq<Seq<char>>) -> nat
    decreases ls.len(),
{
    if ls.len() == 0 {
        0
    } else {
        count_indented(ls.drop_last()) + if is_indented(ls.last()) {
            1nat
        } else {
            0nat
        }
    }
}

/// The trimmed text is one word that begins, ignoring ASCII case, with a link scheme
/// or with `www.`.
pub open spec fn is_url_text(text: Seq<char>) -> bool {
    let t = trim(text);
    if t.len() == 0 || (exists|i: int| 0 <= i < t.len() && is_white_space(t[i])) {
        false
    } else {
        let l = lower_seq(t);
        ||| starts_with(l, "http://"@)
        ||| starts_with(l, "https://"@)
        ||| starts_with(l, "ftp://"@)
        ||| starts_with(l, "ftps://"@)
        ||| starts_with(l, "file://"@)
        ||| starts_with(l, "mailto:"@)
        ||| (starts_with(l, "www."@) && has_char(l, '.'))
    }
}

/// The trimmed text is at least 8 bytes long and has two code keywords, or one
/// together with braces, a semicolon or an indented line, or braces with two
/// semicolons over two lines.
pub open spec fn looks_like_code_text(text: Seq<char>) -> bool {
    let t = trim(text);
    if utf8_len(t) < 8 {
        false
    } else {
        let hits = keyword_hits(t, code_keywords());
        let braces = has_char(t, '{') && has_char(t, '}');
        let semicolons = count_char(t, ';');
        let line_count = lines(t).len();
        let indented = count_indented(lines(t));
        ||| hits >= 2
        ||| (hits >= 1 && (braces || semicolons >= 1 || indented >= 1))
        ||| (braces && semicolons >= 2 && line_count >= 2)
    }
}

/// The class of a captured text: a link first, then code, else plain text.
pub open spec fn classify(text: Seq<char>) -> ClipboardItemType {
    if is_url_text(text) {
        ClipboardItemType::Url
    } else if looks_like_code_text(text) {
        ClipboardItemType::Code
    } else {
        ClipboardItemType::Text
    }
}

pub fn classify_text(text: &str) -> (r: ClipboardItemType)
    ensures
        r == classify(text@),
{
    classify_chars(&chars_of(text))
}

pub fn classify_chars(text: &Vec<char>) -> (r: ClipboardItemType)
    ensures
        r == classify(text@),
{
    if is_url(text) {
        ClipboardItemType::Url
    } else if looks_like_code(text) {
        ClipboardItemType::Code
    } else {
        ClipboardItemType::Text
    }
}

fn has_white_space(t: &Vec<char>) -> (r: bool)
    ensures
        r == exists|i: int| 0 <= i < t@.len() && is_white_space(t@[i]),
{
    let mut i: usize = 0;
    while i < t.len()
        invariant
            i <= t.len(),
            forall|j: int| 0 <= j < i ==> !is_white_space(t@[j]),
        decreases t.len() - i,
    {
        if char_is_whitespace(t[i]) {
            return true;
        }
        i = i + 1;
    }
    false
}

fn is_url(text: &Vec<char>) -> (r: bool)
    ensures
        r == is_url_text(text@),
{
    let trimmed = trim_chars(text);
    if trimmed.len() == 0 || has_white_space(&trimmed) {
        return false;
    }
    let lower = to_ascii_lower(&trimmed);
    starts_with_str(&lower, "http://") || starts_with_str(&lower, "https://") || starts_with_str(
        &lower,
        "ftp://",
    ) || starts_with_str(&lower, "ftps://") || starts_with_str(&lower, "file://")
        || starts_with_str(&lower, "mailto:") || (starts_with_str(&lower, "www.")
        && has_char_exec(&lower, '.'))
}

fn keyword_list() -> (r: Vec<&'static str>)
    ensures
        r@.map_values(|s: &str| s@) == code_keywords(),
{
    let r = vec![
        "function ",
        "fn ",
        "func ",
        "def ",
        "class ",
        "import ",
        "from ",
        "const ",
        "let ",
        "var ",
        "return ",
        "public ",
        "private ",
        "package ",
        "impl ",
        "struct ",
        "enum ",
        "interface ",
        "export ",
        "require(",
        "#include",
        "<?php",
        "console.log",
        "=>",
        ":=",
    ];
    assert(r@.map_values(|s: &str| s@) =~= code_keywords());
    r
}

fn count_keyword_hits(t: &Vec<char>) -> (r: usize)
    ensures
        r == keyword_hits(t@, code_keywords()),
{
    let kws = keyword_list();
    let ghost kv = kws@.map_values(|s: &str| s@);
    let mut hits: usize = 0;
    let mut i: usize = 0;
    while i < kws.len()
        invariant
            i <= kws.len(),
            kv == kws@.map_values(|s: &str| s@),
            kv == code_keywords(),
            hits == keyword_hits(t@, kv.take(i as int)),
            hits <= i,
        decreases kws.len() - i,
    {
        assert(kv.take(i + 1).drop_last() =~= kv.take(i as int));
        assert(kv.take(i + 1).last() == kws@[i as int]@);
        if contains_str(t, kws[i]) {
            hits = hits + 1;
        }
        i = i + 1;
    }
    assert(kv.take(kws.len() as int) =~= kv);
    hits
}

fn count_indented_lines(ls: &Vec<Vec<char>>) -> (r: usize)
    ensures
        r == count_indented(views(ls@)),
{
    let mut n: usize = 0;
    let mut i: usize = 0;
    while i < ls.len()
        invariant
            i <= ls.len(),
            n == count_indented(views(ls@).take(i as int)),
            n <= i,
        decreases ls.len() - i,
    {
        assert(views(ls@).take(i + 1).drop_last() =~= views(ls@).take(i as int));
        assert(views(ls@).take(i + 1).last() == ls@[i as int]@);
        let line = &ls[i];
        if starts_with_str(line, "    ") || (line.len() > 0 && line[0] == '\t') {
            n = n + 1;
        }
        i = i + 1;
    }
    assert(views(ls@).take(ls.len() as int) =~= views(ls@));
    n
}

fn looks_like_code(text: &Vec<char>) -> (r: bool)
    ensures
        r == looks_like_code_text(text@),
{
    let trimmed = trim_chars(text);
    if utf8_len_below(&trimmed, 8) {
        return false;
    }
    let keyword_hits = count_keyword_hits(&trimmed);
    let has_braces = has_char_exec(&trimmed, '{') && has_char_exec(&trimmed, '}');
    let semicolon_count = count_char_exec(&trimmed, ';');
    let ls = lines_of(&trimmed);
    let line_count = ls.len();
    let indented_lines = count_indented_lines(&ls);
    proof {
        assert(views(ls@).len() == ls@.len());
    }
    keyword_hits >= 2 || (keyword_hits >= 1 && (has_braces || semicolon_count >= 1
        || indented_lines >= 1)) || (has_braces && semicolon_count >= 2 && line_count >= 2)
}

/// Blanks around a text do not change its class.
pub proof fn law_classify_ignores_surrounding_blanks(text: Seq<char>)
    ensures
        classify(trim(text)) == classify(text),
{
    law_trim_idempotent(text);
}

/// A text with a blank inside (after trimming) is never taken for a link, however
/// it starts.
pub proof fn law_spaced_text_is_not_url(text: Seq<char>, i: int)
    requires
        0 <= i < trim(text).len(),
        is_white_space(trim(text)[i]),
    ensures
        classify(text) != ClipboardItemType::Url,
{
}

/// A captured text is a link exactly when, trimmed, it is one word (no white
/// space) that begins, ignoring ASCII case, with `http://`, `https://`, `ftp://`,
/// `ftps://`, `file://`, `mailto:` or `www.`.
pub proof fn law_links_by_scheme(text: Seq<char>)
    ensures
        (classify(text) == ClipboardItemType::Url) <==> ({
            let t = trim(text);
            let l = lower_seq(t);
            &&& t.len() > 0
            &&& forall|i: int| 0 <= i < t.len() ==> !is_white_space(#[trigger] t[i])
            &&& {
                ||| starts_with(l, seq!['h', 't', 't', 'p', ':', '/', '/'])
                ||| starts_with(l, seq!['h', 't', 't', 'p', 's', ':', '/', '/'])
                ||| starts_with(l, seq!['f', 't', 'p', ':', '/', '/'])
                ||| starts_with(l, seq!['f', 't', 'p', 's', ':', '/', '/'])
                ||| starts_with(l, seq!['f', 'i', 'l', 'e', ':', '/', '/'])
                ||| starts_with(l, seq!['m', 'a', 'i', 'l', 't', 'o', ':'])
                ||| starts_with(l, seq!['w', 'w', 'w', '.'])
            }
        }),
{
    reveal_strlit("http://");
    reveal_strlit("https://");
    reveal_strlit("ftp://");
    reveal_strlit("ftps://");
    reveal_strlit("file://");
    reveal_strlit("mailto:");
    reveal_strlit("www.");
    let t = trim(text);
    let l = lower_seq(t);
    assert("http://"@ =~= seq!['h', 't', 't', 'p', ':', '/', '/']);
    assert("https://"@ =~= seq!['h', 't', 't', 'p', 's', ':', '/', '/']);
    assert("ftp://"@ =~= seq!['f', 't', 'p', ':', '/', '/']);
    assert("ftps://"@ =~= seq!['f', 't', 'p', 's', ':', '/', '/']);
    assert("file://"@ =~= seq!['f', 'i', 'l', 'e', ':', '/', '/']);
    assert("mailto:"@ =~= seq!['m', 'a', 'i', 'l', 't', 'o', ':']);
    assert("www."@ =~= seq!['w', 'w', 'w', '.']);
    if starts_with(l, seq!['w', 'w', 'w', '.']) {
        assert(l.subrange(0, 4)[3] == '.');
        assert(l[3] == '.');
        assert(has_char(l, '.'));
    }
}

} // verus!
