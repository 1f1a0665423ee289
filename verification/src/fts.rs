//! Full-text query construction: a free-form search text becomes a prefix
//! query for the search index, with the index's operator syntax removed.
use vstd::prelude::*;

use crate::persian::{fold_char, is_dropped, law_variants_share_a_form, normalize, normalize_persian};
use crate::text::{
    contains, is_white_space, occurs_at, trim_end, trim_start, words_from,
    append_chars, chars_of, join, join_exec, string_from, to_ascii_upper, trim, trim_chars, upper_seq,
    views, words, words_of,
};

verus! {

/// Characters with a meaning in the index's query syntax.
pub open spec fn is_fts_operator(c: char) -> bool {
    c == '"' || c == '*' || c == '(' || c == ')' || c == ':' || c == '^' || c == '{' || c == '}'
        || c == '[' || c == ']' || c == '+' || c == '-'
}

/// `s` without its operator characters.
pub open spec fn strip_operators(s: Seq<char>) -> Seq<char>
    decreases s.len(),
{
    if s.len() == 0 {
        seq![]
    } else if is_fts_operator(s.last()) {
        strip_operators(s.drop_last())
    } else {
        strip_operators(s.drop_last()).push(s.last())
    }
}

/// The query keywords, compared without regard to ASCII case.
pub open spec fn is_reserved_word(t: Seq<char>) -> bool {
    let u = upper_seq(t);
    ||| u == seq!['A', 'N', 'D']
    ||| u == seq!['O', 'R']
    ||| u == seq!['N', 'O', 'T']
    ||| u == seq!['N', 'E', 'A', 'R']
}

/// The prefix query for one normalized token: its operator characters removed
/// and `*` appended; none when nothing is left or what is left is a keyword.
pub open spec fn prefix_query(s: Seq<char>) -> Option<Seq<char>> {
    let t = strip_operators(s);
    if t.len() == 0 || is_reserved_word(t) {
        None
    } else {
        Some(t.push('*'))
    }
}

/// Every hyphen turned into a space.
pub open spec fn dash_to_space(s: Seq<char>) -> Seq<char> {
    s.map_values(|c: char| if c == '-' { ' ' } else { c })
}

/// The prefix queries of the words, in order, each kept once.
pub open spec fn collect_terms(ws: Seq<Seq<char>>) -> Seq<Seq<char>>
    decreases ws.len(),
{
    if ws.len() == 0 {
        seq![]
    } else {
        let prev = collect_terms(ws.drop_last());
        match prefix_query(normalize(ws.last())) {
            Some(t) => if prev.contains(t) {
                prev
            } else {
                prev.push(t)
            },
            None => prev,
        }
    }
}

pub open spec fn and_sep() -> Seq<char> {
    seq![' ', 'A', 'N', 'D', ' ']
}

pub open spec fn or_sep() -> Seq<char> {
    seq![')', ' ', 'O', 'R', ' ']
}

/// The query for a search text: the prefix queries of its words joined by
/// `AND`, or-ed with the prefix query of the whole text with its spaces
/// removed (so that compound words written with or without a space match).
pub open spec fn match_query(raw: Seq<char>) -> Option<Seq<char>> {
    query_for_text(dash_to_space(trim(raw)))
}

/// The query for a trimmed search text with its hyphens turned into spaces.
pub open spec fn query_for_text(r: Seq<char>) -> Option<Seq<char>> {
    if r.len() == 0 {
        None
    } else {
        let terms = collect_terms(words(r));
        let whole = prefix_query(normalize(r));
        if terms.len() == 0 {
            whole
        } else if terms.len() == 1 {
            match whole {
                Some(t) => Some(t),
                None => Some(terms[0]),
            }
        } else {
            let and_clause = join(terms, and_sep());
            match whole {
                Some(w) => if w == and_clause {
                    Some(and_clause)
                } else {
                    Some(seq!['('] + and_clause + or_sep() + w)
                },
                None => Some(and_clause),
            }
        }
    }
}

fn is_fts_operator_exec(c: char) -> (r: bool)
    ensures
        r == is_fts_operator(c),
{
    c == '"' || c == '*' || c == '(' || c == ')' || c == ':' || c == '^' || c == '{' || c == '}'
        || c == '[' || c == ']' || c == '+' || c == '-'
}

fn is_reserved(token: &Vec<char>) -> (r: bool)
    ensures
        r == is_reserved_word(token@),
{
    let u = to_ascii_upper(token);
    proof {
        assert(u@.len() == token@.len());
    }
    let r = if u.len() == 2 {
        u[0] == 'O' && u[1] == 'R'
    } else if u.len() == 3 {
        (u[0] == 'A' && u[1] == 'N' && u[2] == 'D') || (u[0] == 'N' && u[1] == 'O' && u[2] == 'T')
    } else if u.len() == 4 {
        u[0] == 'N' && u[1] == 'E' && u[2] == 'A' && u[3] == 'R'
    } else {
        false
    };
    proof {
        let s = upper_seq(token@);
        assert(s == u@);
        if u@.len() == 2 && u@[0] == 'O' && u@[1] == 'R' {
            assert(s =~= seq!['O', 'R']);
        }
        if u@.len() == 3 && u@[0] == 'A' && u@[1] == 'N' && u@[2] == 'D' {
            assert(s =~= seq!['A', 'N', 'D']);
        }
        if u@.len() == 3 && u@[0] == 'N' && u@[1] == 'O' && u@[2] == 'T' {
            assert(s =~= seq!['N', 'O', 'T']);
        }
        if u@.len() == 4 && u@[0] == 'N' && u@[1] == 'E' && u@[2] == 'A' && u@[3] == 'R' {
            assert(s =~= seq!['N', 'E', 'A', 'R']);
        }
    }
    r
}

fn prefix_query_chars(normalized: &Vec<char>) -> (r: Option<Vec<char>>)
    ensures
        match r {
            Some(t) => prefix_query(normalized@) == Some(t@),
            None => prefix_query(normalized@) is None,
        },
{
    let mut token: Vec<char> = Vec::new();
    let mut i: usize = 0;
    while i < normalized.len()
        invariant
            i <= normalized.len(),
            token@ == strip_operators(normalized@.take(i as int)),
        decreases normalized.len() - i,
    {
        assert(normalized@.take(i + 1).drop_last() =~= normalized@.take(i as int));
        let c = normalized[i];
        if !is_fts_operator_exec(c) {
            token.push(c);
        }
        i = i + 1;
    }
    assert(normalized@.take(normalized.len() as int) =~= normalized@);
    if token.len() == 0 || is_reserved(&token) {
        return None;
    }
    token.push('*');
    Some(token)
}

/// The prefix query for one normalized token (see `prefix_query`).
pub fn to_prefix_query(normalized: &str) -> (r: Option<String>)
    ensures
        match r {
            Some(t) => prefix_query(normalized@) == Some(t@),
            None => prefix_query(normalized@) is None,
        },
{
    let chars = chars_of(normalized);
    match prefix_query_chars(&chars) {
        Some(t) => Some(string_from(&t)),
        None => None,
    }
}

pub fn chars_eq(a: &Vec<char>, b: &Vec<char>) -> (r: bool)
    ensures
        r == (a@ == b@),
{
    if a.len() != b.len() {
        return false;
    }
    let mut i: usize = 0;
    while i < a.len()
        invariant
            a.len() == b.len(),
            i <= a.len(),
            forall|j: int| 0 <= j < i ==> a@[j] == b@[j],
        decreases a.len() - i,
    {
        if a[i] != b[i] {
            return false;
        }
        i = i + 1;
    }
    assert(a@ =~= b@);
    true
}

fn list_contains(list: &Vec<Vec<char>>, t: &Vec<char>) -> (r: bool)
    ensures
        r == views(list@).contains(t@),
{
    let mut i: usize = 0;
    while i < list.len()
        invariant
            i <= list.len(),
            forall|j: int| 0 <= j < i ==> list@[j]@ != t@,
        decreases list.len() - i,
    {
        if chars_eq(&list[i], t) {
            assert(views(list@)[i as int] == t@);
            return true;
        }
        i = i + 1;
    }
    assert(!views(list@).contains(t@)) by {
        if views(list@).contains(t@) {
            let k = choose|k: int| 0 <= k < views(list@).len() && views(list@)[k] == t@;
            assert(list@[k]@ == t@);
        }
    }
    false
}

fn dash_to_space_exec(s: &Vec<char>) -> (r: Vec<char>)
    ensures
        r@ == dash_to_space(s@),
{
    let mut r: Vec<char> = Vec::new();
    let mut i: usize = 0;
    while i < s.len()
        invariant
            i <= s.len(),
            r@ == dash_to_space(s@.take(i as int)),
        decreases s.len() - i,
    {
        if s[i] == '-' {
            r.push(' ');
        } else {
            r.push(s[i]);
        }
        i = i + 1;
        assert(r@ =~= dash_to_space(s@.take(i as int)));
    }
    assert(s@.take(s.len() as int) =~= s@);
    r
}

fn normalize_chars(s: &Vec<char>) -> (r: Vec<char>)
    ensures
        r@ == normalize(s@),
{
    let text = string_from(s);
    let n = normalize_persian(text.as_str());
    chars_of(n.as_str())
}

fn collect_terms_exec(ws: &Vec<Vec<char>>) -> (r: Vec<Vec<char>>)
    ensures
        views(r@) == collect_terms(views(ws@)),
{
    let mut terms: Vec<Vec<char>> = Vec::new();
    let mut i: usize = 0;
    assert(views(terms@) =~= seq![]);
    while i < ws.len()
        invariant
            i <= ws.len(),
            views(terms@) == collect_terms(views(ws@).take(i as int)),
        decreases ws.len() - i,
    {
        let ghost t = views(ws@).take(i + 1);
        assert(t.drop_last() =~= views(ws@).take(i as int));
        assert(t.last() == ws@[i as int]@);
        let normalized = normalize_chars(&ws[i]);
        match prefix_query_chars(&normalized) {
            Some(term) => {
                if !list_contains(&terms, &term) {
                    let ghost before = views(terms@);
                    let ghost tv = term@;
                    terms.push(term);
                    assert(views(terms@) =~= before.push(tv));
                }
            },
            None => {},
        }
        i = i + 1;
    }
    assert(views(ws@).take(ws.len() as int) =~= views(ws@));
    terms
}

/// The index query for a free-form search text (see `match_query`); none when
/// nothing searchable is left.
pub fn to_match_query(raw: &str) -> (r: Option<String>)
    ensures
        match r {
            Some(q) => match_query(raw@) == Some(q@),
            None => match_query(raw@) is None,
        },
{
    let raw_chars = chars_of(raw);
    let trimmed = trim_chars(&raw_chars);
    let r = dash_to_space_exec(&trimmed);
    if r.len() == 0 {
        return None;
    }
    let ws = words_of(&r);
    let terms = collect_terms_exec(&ws);
    let whole = prefix_query_chars(&normalize_chars(&r));
    let ghost terms_v = views(terms@);
    if terms.len() == 0 {
        match whole {
            Some(w) => Some(string_from(&w)),
            None => None,
        }
    } else if terms.len() == 1 {
        match whole {
            Some(w) => Some(string_from(&w)),
            None => {
                assert(terms_v[0] == terms@[0]@);
                Some(string_from(&terms[0]))
            },
        }
    } else {
        let sep = vec![' ', 'A', 'N', 'D', ' '];
        assert(sep@ =~= and_sep());
        let and_clause = join_exec(&terms, &sep);
        match whole {
            Some(w) => {
                if chars_eq(&w, &and_clause) {
                    Some(string_from(&and_clause))
                } else {
                    let mut q: Vec<char> = vec!['('];
                    append_chars(&mut q, &and_clause);
                    let tail = vec![')', ' ', 'O', 'R', ' '];
                    assert(tail@ =~= or_sep());
                    append_chars(&mut q, &tail);
                    append_chars(&mut q, &w);
                    assert(q@ =~= seq!['('] + and_clause@ + or_sep() + w@);
                    Some(string_from(&q))
                }
            },
            None => Some(string_from(&and_clause)),
        }
    }
}

/// A prefix query is the token's characters other than operators, not a keyword,
/// followed by one `*`.
pub proof fn law_prefix_query_shape(s: Seq<char>)
    ensures
        prefix_query(s) matches Some(q) ==> {
            &&& q.len() >= 2
            &&& q.last() == '*'
            &&& forall|i: int| 0 <= i < q.len() - 1 ==> !is_fts_operator(#[trigger] q[i])
            &&& !is_reserved_word(q.drop_last())
        },
{
    lemma_strip_operators_clean(s);
    if let Some(q) = prefix_query(s) {
        assert(q.drop_last() =~= strip_operators(s));
    }
}

proof fn lemma_strip_operators_clean(s: Seq<char>)
    ensures
        forall|i: int|
            0 <= i < strip_operators(s).len() ==> !is_fts_operator(#[trigger] strip_operators(s)[i]),
    decreases s.len(),
{
    if s.len() > 0 {
        lemma_strip_operators_clean(s.drop_last());
        let p = strip_operators(s.drop_last());
        if !is_fts_operator(s.last()) {
            assert forall|i: int| 0 <= i < p.push(s.last()).len() implies !is_fts_operator(
                #[trigger] p.push(s.last())[i],
            ) by {
                if i < p.len() {
                    assert(p.push(s.last())[i] == p[i]);
                }
            }
        }
    }
}

pub open spec fn blank_or_operator(c: char) -> bool {
    is_white_space(c) || is_fts_operator(c)
}

proof fn lemma_trim_start_keeps(s: Seq<char>)
    requires
        forall|i: int| 0 <= i < s.len() ==> blank_or_operator(#[trigger] s[i]),
    ensures
        forall|i: int|
            0 <= i < trim_start(s).len() ==> blank_or_operator(#[trigger] trim_start(s)[i]),
    decreases s.len(),
{
    if s.len() > 0 && is_white_space(s[0]) {
        assert forall|i: int| 0 <= i < s.drop_first().len() implies blank_or_operator(
            #[trigger] s.drop_first()[i],
        ) by {
            assert(s.drop_first()[i] == s[i + 1]);
        }
        lemma_trim_start_keeps(s.drop_first());
        assert(trim_start(s) == trim_start(s.drop_first()));
    }
}

proof fn lemma_trim_end_keeps(s: Seq<char>)
    requires
        forall|i: int| 0 <= i < s.len() ==> blank_or_operator(#[trigger] s[i]),
    ensures
        forall|i: int| 0 <= i < trim_end(s).len() ==> blank_or_operator(#[trigger] trim_end(s)[i]),
    decreases s.len(),
{
    if s.len() > 0 && is_white_space(s.last()) {
        assert forall|i: int| 0 <= i < s.drop_last().len() implies blank_or_operator(
            #[trigger] s.drop_last()[i],
        ) by {
            assert(s.drop_last()[i] == s[i]);
        }
        lemma_trim_end_keeps(s.drop_last());
        assert(trim_end(s) == trim_end(s.drop_last()));
    }
}

proof fn lemma_normalize_operators(s: Seq<char>)
    requires
        forall|i: int| 0 <= i < s.len() ==> blank_or_operator(#[trigger] s[i]),
    ensures
        forall|i: int| 0 <= i < normalize(s).len() ==> is_fts_operator(#[trigger] normalize(s)[i]),
    decreases s.len(),
{
    if s.len() > 0 {
        assert forall|i: int| 0 <= i < s.drop_last().len() implies blank_or_operator(
            #[trigger] s.drop_last()[i],
        ) by {
            assert(s.drop_last()[i] == s[i]);
        }
        lemma_normalize_operators(s.drop_last());
        let c = s.last();
        assert(blank_or_operator(s[s.len() - 1]));
        let p = normalize(s.drop_last());
        if !is_dropped(c) {
            assert(!is_white_space(c));
            assert(fold_char(c) == c);
            assert forall|i: int| 0 <= i < p.push(c).len() implies is_fts_operator(
                #[trigger] p.push(c)[i],
            ) by {
                if i < p.len() {
                    assert(p.push(c)[i] == p[i]);
                }
            }
        }
    }
}

proof fn lemma_strip_all_operators(t: Seq<char>)
    requires
        forall|i: int| 0 <= i < t.len() ==> is_fts_operator(#[trigger] t[i]),
    ensures
        strip_operators(t).len() == 0,
    decreases t.len(),
{
    if t.len() > 0 {
        assert forall|i: int| 0 <= i < t.drop_last().len() implies is_fts_operator(
            #[trigger] t.drop_last()[i],
        ) by {
            assert(t.drop_last()[i] == t[i]);
        }
        lemma_strip_all_operators(t.drop_last());
        assert(is_fts_operator(t[t.len() - 1]));
    }
}

proof fn lemma_words_operators(s: Seq<char>, done: Seq<Seq<char>>, cur: Seq<char>)
    requires
        forall|i: int| 0 <= i < s.len() ==> blank_or_operator(#[trigger] s[i]),
        forall|i: int| 0 <= i < cur.len() ==> is_fts_operator(#[trigger] cur[i]),
        forall|k: int, i: int|
            0 <= k < done.len() && 0 <= i < done[k].len() ==> is_fts_operator(#[trigger] done[k][i]),
    ensures
        forall|k: int, i: int|
            0 <= k < words_from(s, done, cur).len() && 0 <= i < words_from(s, done, cur)[k].len()
                ==> is_fts_operator(#[trigger] words_from(s, done, cur)[k][i]),
    decreases s.len(),
{
    if s.len() > 0 {
        let rest = s.drop_first();
        assert forall|i: int| 0 <= i < rest.len() implies blank_or_operator(#[trigger] rest[i]) by {
            assert(rest[i] == s[i + 1]);
        }
        assert(blank_or_operator(s[0]));
        if is_white_space(s[0]) {
            if cur.len() == 0 {
                lemma_words_operators(rest, done, seq![]);
                assert(words_from(s, done, cur) == words_from(rest, done, seq![]));
            } else {
                let d2 = done.push(cur);
                assert forall|k: int, i: int| 0 <= k < d2.len() && 0 <= i < d2[k].len() implies is_fts_operator(
                    #[trigger] d2[k][i],
                ) by {
                    if k < done.len() {
                        assert(d2[k] == done[k]);
                    } else {
                        assert(d2[k] == cur);
                    }
                }
                lemma_words_operators(rest, d2, seq![]);
                assert(words_from(s, done, cur) == words_from(rest, d2, seq![]));
            }
        } else {
            let c2 = cur.push(s[0]);
            assert forall|i: int| 0 <= i < c2.len() implies is_fts_operator(#[trigger] c2[i]) by {
                if i < cur.len() {
                    assert(c2[i] == cur[i]);
                }
            }
            lemma_words_operators(rest, done, c2);
            assert(words_from(s, done, cur) == words_from(rest, done, c2));
        }
    } else if cur.len() > 0 {
        let d2 = done.push(cur);
        assert forall|k: int, i: int| 0 <= k < d2.len() && 0 <= i < d2[k].len() implies is_fts_operator(
            #[trigger] d2[k][i],
        ) by {
            if k < done.len() {
                assert(d2[k] == done[k]);
            } else {
                assert(d2[k] == cur);
            }
        }
        assert(words_from(s, done, cur) == d2);
    }
}

proof fn lemma_no_terms(ws: Seq<Seq<char>>)
    requires
        forall|k: int, i: int|
            0 <= k < ws.len() && 0 <= i < ws[k].len() ==> is_fts_operator(#[trigger] ws[k][i]),
    ensures
        collect_terms(ws).len() == 0,
    decreases ws.len(),
{
    if ws.len() > 0 {
        assert forall|k: int, i: int|
            0 <= k < ws.drop_last().len() && 0 <= i < ws.drop_last()[k].len() implies is_fts_operator(
            #[trigger] ws.drop_last()[k][i],
        ) by {
            assert(ws.drop_last()[k] == ws[k]);
        }
        lemma_no_terms(ws.drop_last());
        let w = ws.last();
        assert forall|i: int| 0 <= i < w.len() implies blank_or_operator(#[trigger] w[i]) by {
            assert(w[i] == ws[ws.len() - 1][i]);
        }
        lemma_normalize_operators(w);
        lemma_strip_all_operators(normalize(w));
    }
}

/// A search text made only of blanks and operator characters gives no query.
pub proof fn law_operator_only_text_has_no_query(raw: Seq<char>)
    requires
        forall|i: int| 0 <= i < raw.len() ==> blank_or_operator(#[trigger] raw[i]),
    ensures
        match_query(raw) is None,
{
    lemma_trim_start_keeps(raw);
    lemma_trim_end_keeps(trim_start(raw));
    let t = trim(raw);
    let r = dash_to_space(t);
    assert forall|i: int| 0 <= i < r.len() implies blank_or_operator(#[trigger] r[i]) by {
        assert(blank_or_operator(t[i]));
    }
    if r.len() > 0 {
        lemma_words_operators(r, seq![], seq![]);
        lemma_no_terms(words(r));
        lemma_normalize_operators(r);
        lemma_strip_all_operators(normalize(r));
    }
}

/// `a` and `b` are the same text up to Arabic and Persian letter forms.
pub open spec fn same_up_to_letter_forms(a: Seq<char>, b: Seq<char>) -> bool {
    a.len() == b.len() && forall|i: int| 0 <= i < a.len() ==> fold_char(#[trigger] a[i]) == fold_char(b[i])
}

pub open spec fn lists_same_up_to_letter_forms(a: Seq<Seq<char>>, b: Seq<Seq<char>>) -> bool {
    a.len() == b.len() && forall|k: int| 0 <= k < a.len() ==> same_up_to_letter_forms(#[trigger] a[k], b[k])
}

/// Letters with the same folded form agree on everything else the query builder
/// looks at.
proof fn lemma_letter_forms_agree(x: char, y: char)
    requires
        fold_char(x) == fold_char(y),
    ensures
        is_white_space(x) == is_white_space(y),
        is_dropped(x) == is_dropped(y),
        is_fts_operator(x) == is_fts_operator(y),
        (x == '-') == (y == '-'),
{
}

proof fn lemma_same_forms_trim_start(a: Seq<char>, b: Seq<char>)
    requires
        same_up_to_letter_forms(a, b),
    ensures
        same_up_to_letter_forms(trim_start(a), trim_start(b)),
    decreases a.len(),
{
    if a.len() > 0 {
        lemma_letter_forms_agree(a[0], b[0]);
        if is_white_space(a[0]) {
            assert(same_up_to_letter_forms(a.drop_first(), b.drop_first())) by {
                assert forall|i: int| 0 <= i < a.drop_first().len() implies fold_char(
                    #[trigger] a.drop_first()[i],
                ) == fold_char(b.drop_first()[i]) by {
                    assert(fold_char(a[i + 1]) == fold_char(b[i + 1]));
                }
            }
            lemma_same_forms_trim_start(a.drop_first(), b.drop_first());
        }
    }
}

proof fn lemma_same_forms_trim_end(a: Seq<char>, b: Seq<char>)
    requires
        same_up_to_letter_forms(a, b),
    ensures
        same_up_to_letter_forms(trim_end(a), trim_end(b)),
    decreases a.len(),
{
    if a.len() > 0 {
        lemma_letter_forms_agree(a.last(), b.last());
        if is_white_space(a.last()) {
            assert(same_up_to_letter_forms(a.drop_last(), b.drop_last())) by {
                assert forall|i: int| 0 <= i < a.drop_last().len() implies fold_char(
                    #[trigger] a.drop_last()[i],
                ) == fold_char(b.drop_last()[i]) by {
                    assert(fold_char(a[i]) == fold_char(b[i]));
                }
            }
            lemma_same_forms_trim_end(a.drop_last(), b.drop_last());
        }
    }
}

proof fn lemma_same_forms_dash(a: Seq<char>, b: Seq<char>)
    requires
        same_up_to_letter_forms(a, b),
    ensures
        same_up_to_letter_forms(dash_to_space(a), dash_to_space(b)),
{
    assert forall|i: int| 0 <= i < a.len() implies fold_char(#[trigger] dash_to_space(a)[i])
        == fold_char(dash_to_space(b)[i]) by {
        lemma_letter_forms_agree(a[i], b[i]);
    }
}

proof fn lemma_same_forms_normalize(a: Seq<char>, b: Seq<char>)
    requires
        same_up_to_letter_forms(a, b),
    ensures
        normalize(a) == normalize(b),
{
    assert forall|i: int| 0 <= i < a.len() implies fold_char(#[trigger] a[i]) == fold_char(b[i]) && (
    is_dropped(a[i]) <==> is_dropped(b[i])) by {
        lemma_letter_forms_agree(a[i], b[i]);
    }
    law_variants_share_a_form(a, b);
}

proof fn lemma_same_forms_push(a: Seq<char>, b: Seq<char>, x: char, y: char)
    requires
        same_up_to_letter_forms(a, b),
        fold_char(x) == fold_char(y),
    ensures
        same_up_to_letter_forms(a.push(x), b.push(y)),
{
    assert forall|i: int| 0 <= i < a.push(x).len() implies fold_char(#[trigger] a.push(x)[i])
        == fold_char(b.push(y)[i]) by {
        if i < a.len() {
            assert(a.push(x)[i] == a[i]);
            assert(b.push(y)[i] == b[i]);
        }
    }
}

proof fn lemma_same_forms_list_push(a: Seq<Seq<char>>, b: Seq<Seq<char>>, x: Seq<char>, y: Seq<char>)
    requires
        lists_same_up_to_letter_forms(a, b),
        same_up_to_letter_forms(x, y),
    ensures
        lists_same_up_to_letter_forms(a.push(x), b.push(y)),
{
    assert forall|k: int| 0 <= k < a.push(x).len() implies same_up_to_letter_forms(
        #[trigger] a.push(x)[k],
        b.push(y)[k],
    ) by {
        if k < a.len() {
            assert(a.push(x)[k] == a[k]);
            assert(b.push(y)[k] == b[k]);
        }
    }
}

proof fn lemma_same_forms_words(
    a: Seq<char>,
    b: Seq<char>,
    done_a: Seq<Seq<char>>,
    done_b: Seq<Seq<char>>,
    cur_a: Seq<char>,
    cur_b: Seq<char>,
)
    requires
        same_up_to_letter_forms(a, b),
        lists_same_up_to_letter_forms(done_a, done_b),
        same_up_to_letter_forms(cur_a, cur_b),
    ensures
        lists_same_up_to_letter_forms(words_from(a, done_a, cur_a), words_from(b, done_b, cur_b)),
    decreases a.len(),
{
    if a.len() == 0 {
        if cur_a.len() > 0 {
            lemma_same_forms_list_push(done_a, done_b, cur_a, cur_b);
        }
    } else {
        lemma_letter_forms_agree(a[0], b[0]);
        assert(same_up_to_letter_forms(a.drop_first(), b.drop_first())) by {
            assert forall|i: int| 0 <= i < a.drop_first().len() implies fold_char(
                #[trigger] a.drop_first()[i],
            ) == fold_char(b.drop_first()[i]) by {
                assert(fold_char(a[i + 1]) == fold_char(b[i + 1]));
            }
        }
        let empty: Seq<char> = seq![];
        assert(same_up_to_letter_forms(empty, empty));
        if is_white_space(a[0]) {
            if cur_a.len() == 0 {
                lemma_same_forms_words(a.drop_first(), b.drop_first(), done_a, done_b, empty, empty);
            } else {
                lemma_same_forms_list_push(done_a, done_b, cur_a, cur_b);
                lemma_same_forms_words(
                    a.drop_first(),
                    b.drop_first(),
                    done_a.push(cur_a),
                    done_b.push(cur_b),
                    empty,
                    empty,
                );
            }
        } else {
            lemma_same_forms_push(cur_a, cur_b, a[0], b[0]);
            lemma_same_forms_words(
                a.drop_first(),
                b.drop_first(),
                done_a,
                done_b,
                cur_a.push(a[0]),
                cur_b.push(b[0]),
            );
        }
    }
}

proof fn lemma_same_forms_terms(a: Seq<Seq<char>>, b: Seq<Seq<char>>)
    requires
        lists_same_up_to_letter_forms(a, b),
    ensures
        collect_terms(a) == collect_terms(b),
    decreases a.len(),
{
    if a.len() > 0 {
        assert(lists_same_up_to_letter_forms(a.drop_last(), b.drop_last())) by {
            assert forall|k: int| 0 <= k < a.drop_last().len() implies same_up_to_letter_forms(
                #[trigger] a.drop_last()[k],
                b.drop_last()[k],
            ) by {
                assert(same_up_to_letter_forms(a[k], b[k]));
            }
        }
        lemma_same_forms_terms(a.drop_last(), b.drop_last());
        assert(same_up_to_letter_forms(a[a.len() - 1], b[b.len() - 1]));
        lemma_same_forms_normalize(a.last(), b.last());
    }
}

/// Search texts that differ only in Arabic versus Persian letter forms give the
/// same query, so either spelling finds the same entries.
pub proof fn law_letter_forms_give_same_query(a: Seq<char>, b: Seq<char>)
    requires
        same_up_to_letter_forms(a, b),
    ensures
        match_query(a) == match_query(b),
{
    lemma_same_forms_trim_start(a, b);
    lemma_same_forms_trim_end(trim_start(a), trim_start(b));
    lemma_same_forms_dash(trim(a), trim(b));
    let ra = dash_to_space(trim(a));
    let rb = dash_to_space(trim(b));
    let empty: Seq<char> = seq![];
    let none: Seq<Seq<char>> = seq![];
    assert(same_up_to_letter_forms(empty, empty));
    assert(lists_same_up_to_letter_forms(none, none));
    lemma_same_forms_words(ra, rb, none, none, empty, empty);
    lemma_same_forms_terms(words(ra), words(rb));
    lemma_same_forms_normalize(ra, rb);
}

/// Only white space.
pub open spec fn all_white(s: Seq<char>) -> bool {
    forall|i: int| 0 <= i < s.len() ==> is_white_space(#[trigger] s[i])
}

proof fn lemma_white_tail(s: Seq<char>)
    requires
        all_white(s),
        s.len() > 0,
    ensures
        all_white(s.drop_first()),
        all_white(s.drop_last()),
        is_white_space(s[0]),
        is_white_space(s.last()),
{
    assert forall|i: int| 0 <= i < s.drop_first().len() implies is_white_space(
        #[trigger] s.drop_first()[i],
    ) by {
        assert(s.drop_first()[i] == s[i + 1]);
    }
    assert forall|i: int| 0 <= i < s.drop_last().len() implies is_white_space(
        #[trigger] s.drop_last()[i],
    ) by {
        assert(s.drop_last()[i] == s[i]);
    }
    assert(is_white_space(s[s.len() - 1]));
}

/// A text is the white space `trim_start` removes followed by what it keeps.
proof fn lemma_trim_start_split(s: Seq<char>) -> (a: Seq<char>)
    ensures
        all_white(a),
        s == a + trim_start(s),
    decreases s.len(),
{
    if s.len() > 0 && is_white_space(s[0]) {
        let a1 = lemma_trim_start_split(s.drop_first());
        let a = seq![s[0]] + a1;
        assert forall|i: int| 0 <= i < a.len() implies is_white_space(#[trigger] a[i]) by {
            if i > 0 {
                assert(a[i] == a1[i - 1]);
            }
        }
        let ts = trim_start(s.drop_first());
        assert(s =~= seq![s[0]] + s.drop_first());
        assert(seq![s[0]] + (a1 + ts) =~= a + ts);
        assert(s =~= a + ts);
        a
    } else {
        assert(s =~= seq![] + s);
        seq![]
    }
}

/// A text is what `trim_end` keeps followed by the white space it removes.
proof fn lemma_trim_end_split(s: Seq<char>) -> (b: Seq<char>)
    ensures
        all_white(b),
        s == trim_end(s) + b,
    decreases s.len(),
{
    if s.len() > 0 && is_white_space(s.last()) {
        let b1 = lemma_trim_end_split(s.drop_last());
        let b = b1.push(s.last());
        assert forall|i: int| 0 <= i < b.len() implies is_white_space(#[trigger] b[i]) by {
            if i < b1.len() {
                assert(b[i] == b1[i]);
            }
        }
        let te = trim_end(s.drop_last());
        assert(s =~= s.drop_last().push(s.last()));
        assert((te + b1).push(s.last()) =~= te + b);
        assert(s =~= te + b);
        b
    } else {
        assert(s =~= s + seq![]);
        seq![]
    }
}

/// A text is its trimmed form between leading and trailing white space.
proof fn lemma_trim_split(s: Seq<char>) -> (ab: (Seq<char>, Seq<char>))
    ensures
        all_white(ab.0),
        all_white(ab.1),
        s == ab.0 + trim(s) + ab.1,
{
    let a = lemma_trim_start_split(s);
    let b = lemma_trim_end_split(trim_start(s));
    assert(s =~= a + trim(s) + b);
    (a, b)
}

proof fn lemma_trim_start_white_prefix(p: Seq<char>, y: Seq<char>)
    requires
        all_white(p),
    ensures
        trim_start(p + y) == trim_start(y),
    decreases p.len(),
{
    if p.len() > 0 {
        lemma_white_tail(p);
        assert((p + y)[0] == p[0]);
        assert((p + y).drop_first() =~= p.drop_first() + y);
        lemma_trim_start_white_prefix(p.drop_first(), y);
    } else {
        assert(p + y =~= y);
    }
}

proof fn lemma_trim_end_white_suffix(y: Seq<char>, q: Seq<char>)
    requires
        all_white(q),
    ensures
        trim_end(y + q) == trim_end(y),
    decreases q.len(),
{
    if q.len() > 0 {
        lemma_white_tail(q);
        assert((y + q).last() == q.last());
        assert((y + q).drop_last() =~= y + q.drop_last());
        lemma_trim_end_white_suffix(y, q.drop_last());
    } else {
        assert(y + q =~= y);
    }
}

proof fn lemma_trim_white_suffix(x: Seq<char>, q: Seq<char>)
    requires
        all_white(q),
    ensures
        trim(x + q) == trim(x),
    decreases x.len(),
{
    if x.len() == 0 {
        let e: Seq<char> = seq![];
        lemma_trim_start_white_prefix(q, e);
        assert(q + e =~= q);
        assert(x + q =~= q);
        assert(trim_start(x) == x);
    } else if is_white_space(x[0]) {
        assert((x + q)[0] == x[0]);
        assert((x + q).drop_first() =~= x.drop_first() + q);
        lemma_trim_white_suffix(x.drop_first(), q);
    } else {
        assert((x + q)[0] == x[0]);
        lemma_trim_end_white_suffix(x, q);
    }
}

/// White space around a text does not change its trimmed form.
proof fn lemma_trim_padded(p: Seq<char>, x: Seq<char>, q: Seq<char>)
    requires
        all_white(p),
        all_white(q),
    ensures
        trim(p + x + q) == trim(x),
{
    assert(p + x + q =~= p + (x + q));
    lemma_trim_start_white_prefix(p, x + q);
    lemma_trim_white_suffix(x, q);
}

proof fn lemma_words_white_prefix(a: Seq<char>, s: Seq<char>, done: Seq<Seq<char>>)
    requires
        all_white(a),
    ensures
        words_from(a + s, done, seq![]) == words_from(s, done, seq![]),
    decreases a.len(),
{
    if a.len() > 0 {
        lemma_white_tail(a);
        assert((a + s)[0] == a[0]);
        assert((a + s).drop_first() =~= a.drop_first() + s);
        lemma_words_white_prefix(a.drop_first(), s, done);
    } else {
        assert(a + s =~= s);
    }
}

proof fn lemma_words_of_white(b: Seq<char>, done: Seq<Seq<char>>)
    requires
        all_white(b),
    ensures
        words_from(b, done, seq![]) == done,
    decreases b.len(),
{
    if b.len() > 0 {
        lemma_white_tail(b);
        lemma_words_of_white(b.drop_first(), done);
    }
}

proof fn lemma_words_white_suffix(x: Seq<char>, b: Seq<char>, done: Seq<Seq<char>>, cur: Seq<char>)
    requires
        all_white(b),
    ensures
        words_from(x + b, done, cur) == words_from(x, done, cur),
    decreases x.len(),
{
    if x.len() == 0 {
        assert(x + b =~= b);
        if b.len() > 0 {
            lemma_white_tail(b);
            if cur.len() == 0 {
                lemma_words_of_white(b.drop_first(), done);
            } else {
                lemma_words_of_white(b.drop_first(), done.push(cur));
            }
        }
    } else {
        assert((x + b)[0] == x[0]);
        assert((x + b).drop_first() =~= x.drop_first() + b);
        if is_white_space(x[0]) {
            if cur.len() == 0 {
                lemma_words_white_suffix(x.drop_first(), b, done, seq![]);
            } else {
                lemma_words_white_suffix(x.drop_first(), b, done.push(cur), seq![]);
            }
        } else {
            lemma_words_white_suffix(x.drop_first(), b, done, cur.push(x[0]));
        }
    }
}

proof fn lemma_normalize_white_suffix(s: Seq<char>, b: Seq<char>)
    requires
        all_white(b),
    ensures
        normalize(s + b) == normalize(s),
    decreases b.len(),
{
    if b.len() > 0 {
        lemma_white_tail(b);
        assert((s + b).last() == b.last());
        assert((s + b).drop_last() =~= s + b.drop_last());
        lemma_normalize_white_suffix(s, b.drop_last());
    } else {
        assert(s + b =~= s);
    }
}

proof fn lemma_normalize_white_prefix(a: Seq<char>, s: Seq<char>)
    requires
        all_white(a),
    ensures
        normalize(a + s) == normalize(s),
    decreases s.len(),
{
    if s.len() > 0 {
        assert((a + s).last() == s.last());
        assert((a + s).drop_last() =~= a + s.drop_last());
        lemma_normalize_white_prefix(a, s.drop_last());
    } else {
        let e: Seq<char> = seq![];
        lemma_normalize_white_suffix(e, a);
        assert(e + a =~= a);
        assert(a + s =~= a);
    }
}

/// White space around a text changes neither its words nor its normalized form,
/// so the query for the text is that for its trimmed form.
proof fn lemma_query_of_trimmed(r: Seq<char>)
    ensures
        query_for_text(trim(r)) == query_for_text(r),
{
    let (a, b) = lemma_trim_split(r);
    let m = trim(r);
    let none: Seq<Seq<char>> = seq![];
    assert(a + m + b =~= a + (m + b));
    lemma_words_white_prefix(a, m + b, none);
    lemma_words_white_suffix(m, b, none, seq![]);
    assert(words(r) == words(m));
    lemma_normalize_white_suffix(a + m, b);
    lemma_normalize_white_prefix(a, m);
    assert(normalize(r) == normalize(m));
    if m.len() == 0 {
        assert(words(m) == none);
        assert(normalize(m) =~= seq![]);
        assert(strip_operators(normalize(m)) =~= seq![]);
    }
}

/// Surrounding white space does not change a search text's query, and a hyphen
/// acts exactly like a space.
pub proof fn law_query_ignores_padding_and_hyphens(before: Seq<char>, raw: Seq<char>, after: Seq<char>)
    requires
        all_white(before),
        all_white(after),
    ensures
        match_query(before + raw + after) == match_query(raw),
        match_query(dash_to_space(raw)) == match_query(raw),
{
    lemma_trim_padded(before, raw, after);
    assert(!is_white_space('-'));
    let (a, b) = lemma_trim_split(raw);
    let t = trim(raw);
    let r = dash_to_space(t);
    assert(dash_to_space(raw) =~= a + r + b) by {
        assert forall|i: int| 0 <= i < raw.len() implies #[trigger] dash_to_space(raw)[i] == (a + r
            + b)[i] by {
            if i < a.len() {
                assert(raw[i] == a[i]);
                assert(is_white_space(a[i]));
            } else if i < a.len() + t.len() {
                assert(raw[i] == t[i - a.len()]);
            } else {
                assert(raw[i] == b[i - a.len() - t.len()]);
                assert(is_white_space(b[i - a.len() - t.len()]));
            }
        }
    }
    lemma_trim_padded(a, r, b);
    let (a2, b2) = lemma_trim_split(r);
    let m = trim(r);
    assert(dash_to_space(m) =~= m) by {
        assert forall|i: int| 0 <= i < m.len() implies #[trigger] m[i] != '-' by {
            assert(m[i] == r[a2.len() + i]);
        }
    }
    lemma_query_of_trimmed(r);
}

/// The terms collected from `ws`: each word's prefix query is among them, each of
/// them is some word's prefix query, and none appears twice.
proof fn lemma_collect_terms(ws: Seq<Seq<char>>)
    ensures
        forall|i: int|
            0 <= i < ws.len() && (#[trigger] prefix_query(normalize(ws[i]))) is Some
                ==> collect_terms(ws).contains(prefix_query(normalize(ws[i]))->Some_0),
        forall|j: int|
            0 <= j < collect_terms(ws).len() ==> exists|i: int|
                0 <= i < ws.len() && prefix_query(normalize(ws[i])) == Some(
                    #[trigger] collect_terms(ws)[j],
                ),
        forall|j: int, k: int|
            0 <= j < k < collect_terms(ws).len() ==> collect_terms(ws)[j] != collect_terms(ws)[k],
    decreases ws.len(),
{
    if ws.len() > 0 {
        let d = ws.drop_last();
        lemma_collect_terms(d);
        let prev = collect_terms(d);
        let cur = collect_terms(ws);
        let n = ws.len() - 1;
        assert(ws.last() == ws[n]);
        assert forall|i: int|
            0 <= i < ws.len() && (#[trigger] prefix_query(normalize(ws[i]))) is Some implies cur.contains(
            prefix_query(normalize(ws[i]))->Some_0,
        ) by {
            let t = prefix_query(normalize(ws[i]))->Some_0;
            if i < n {
                assert(d[i] == ws[i]);
                assert(prefix_query(normalize(d[i])) is Some);
                assert(prev.contains(t));
                let k = choose|k: int| 0 <= k < prev.len() && prev[k] == t;
                if cur != prev {
                    assert(cur[k] == prev[k]);
                }
                assert(cur[k] == t);
            } else {
                if !prev.contains(t) {
                    assert(cur[prev.len() as int] == t);
                }
            }
        }
        assert forall|j: int| 0 <= j < cur.len() implies exists|i: int|
            0 <= i < ws.len() && prefix_query(normalize(ws[i])) == Some(#[trigger] cur[j]) by {
            if j < prev.len() {
                assert(cur[j] == prev[j]);
                let i = choose|i: int|
                    0 <= i < d.len() && prefix_query(normalize(d[i])) == Some(#[trigger] prev[j]);
                assert(d[i] == ws[i]);
            } else {
                assert(prefix_query(normalize(ws[n])) == Some(cur[j]));
            }
        }
        assert forall|j: int, k: int| 0 <= j < k < cur.len() implies cur[j] != cur[k] by {
            if k < prev.len() {
                assert(cur[j] == prev[j] && cur[k] == prev[k]);
            } else if j < prev.len() {
                assert(cur[j] == prev[j]);
                assert(!prev.contains(cur[k]));
            }
        }
    }
}

/// Each item of a joined list occurs in the joined text.
proof fn lemma_join_contains(list: Seq<Seq<char>>, sep: Seq<char>, j: int)
    requires
        0 <= j < list.len(),
    ensures
        contains(join(list, sep), list[j]),
    decreases list.len(),
{
    if list.len() == 1 {
        assert(join(list, sep).subrange(0, list[0].len() as int) =~= list[0]);
        assert(occurs_at(join(list, sep), list[j], 0));
    } else {
        let front = join(list.drop_last(), sep);
        let all = join(list, sep);
        assert(all == front + sep + list.last());
        if j == list.len() - 1 {
            let k: int = (front.len() + sep.len()) as int;
            assert(all.subrange(k, k + list[j].len()) =~= list[j]);
            assert(occurs_at(all, list[j], k));
        } else {
            lemma_join_contains(list.drop_last(), sep, j);
            assert(list.drop_last()[j] == list[j]);
            let k = choose|k: int| occurs_at(front, list[j], k);
            assert(all.subrange(k, k + list[j].len()) =~= front.subrange(k, k + list[j].len()));
            assert(occurs_at(all, list[j], k));
        }
    }
}

/// When a search text gives several terms, its query holds every one of them.
#[verifier::spinoff_prover]
proof fn lemma_query_holds_terms(raw: Seq<char>)
    requires
        collect_terms(words(dash_to_space(trim(raw)))).len() >= 2,
    ensures
        match_query(raw) matches Some(q) && forall|j: int|
            0 <= j < collect_terms(words(dash_to_space(trim(raw)))).len() ==> contains(
                q,
                #[trigger] collect_terms(words(dash_to_space(trim(raw))))[j],
            ),
{
    let r = dash_to_space(trim(raw));
    let ts = collect_terms(words(r));
    if r.len() == 0 {
        assert(words(r) =~= Seq::<Seq<char>>::empty());
    }
    let and_clause = join(ts, and_sep());
    let whole = prefix_query(normalize(r));
    assert(match_query(raw) == query_for_text(r));
    let q = query_for_text(r)->Some_0;
    assert forall|j: int| 0 <= j < ts.len() implies contains(q, #[trigger] ts[j]) by {
        lemma_join_contains(ts, and_sep(), j);
        if q != and_clause {
            let w = whole->Some_0;
            assert(q == seq!['('] + and_clause + or_sep() + w);
            let k = choose|k: int| occurs_at(and_clause, ts[j], k);
            assert(q.subrange(k + 1, k + 1 + ts[j].len()) =~= and_clause.subrange(
                k,
                k + ts[j].len(),
            ));
            assert(occurs_at(q, ts[j], k + 1));
        }
    }
}

/// Every word of a search text (trimmed, hyphens read as spaces) that has a
/// prefix query contributes it to the AND-ed terms; each term is some word's
/// prefix query, none is repeated, and when there are several the query holds
/// every one of them.
pub proof fn law_every_word_is_a_term(raw: Seq<char>)
    ensures
        ({
            let ws = words(dash_to_space(trim(raw)));
            let ts = collect_terms(ws);
            &&& forall|i: int|
                0 <= i < ws.len() && (#[trigger] prefix_query(normalize(ws[i]))) is Some
                    ==> ts.contains(prefix_query(normalize(ws[i]))->Some_0)
            &&& forall|j: int|
                0 <= j < ts.len() ==> exists|i: int|
                    0 <= i < ws.len() && prefix_query(normalize(ws[i])) == Some(#[trigger] ts[j])
            &&& forall|j: int, k: int| 0 <= j < k < ts.len() ==> ts[j] != ts[k]
            &&& ts.len() >= 2 ==> (match_query(raw) matches Some(q) && forall|j: int|
                0 <= j < ts.len() ==> contains(q, #[trigger] ts[j]))
        }),
{
    let ws = words(dash_to_space(trim(raw)));
    lemma_collect_terms(ws);
    if collect_terms(ws).len() >= 2 {
        lemma_query_holds_terms(raw);
    }
}

} // verus!
