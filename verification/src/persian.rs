//! Persian text normalization for search indexing and duplicate detection.
//!
//! The clipboard text itself is never changed: callers keep the captured
//! string and store this output only as the normalized content and in the
//! full-text index.
use vstd::prelude::*;

use crate::text::{char_is_whitespace, chars_of, is_white_space, push_char};

verus! {

/// Characters that normalization removes: hamza forms without a seat, tatweel,
/// zero-width characters, Arabic diacritics and Quranic marks, and white space.
pub open spec fn is_dropped(c: char) -> bool {
    let u = c as u32;
    ||| u == 0x0621
    ||| u == 0x0626
    ||| u == 0x0640
    ||| u == 0x200B
    ||| u == 0x200C
    ||| u == 0x200D
    ||| u == 0xFEFF
    ||| 0x064B <= u <= 0x065F
    ||| u == 0x0670
    ||| 0x0610 <= u <= 0x061A
    ||| 0x06D6 <= u <= 0x06ED
    ||| is_white_space(c)
}

/// Arabic letter variants are replaced by their Persian forms; all other
/// characters are kept.
pub open spec fn fold_char(c: char) -> char {
    let u = c as u32;
    if u == 0x064A {
        '\u{06CC}'
    } else if u == 0x0643 {
        '\u{06A9}'
    } else if u == 0x0624 {
        '\u{0648}'
    } else if u == 0x0623 || u == 0x0625 || u == 0x0622 {
        '\u{0627}'
    } else {
        c
    }
}

/// The normalized form of `s`: each character dropped or folded, in order.
pub open spec fn normalize(s: Seq<char>) -> Seq<char>
    decreases s.len(),
{
    if s.len() == 0 {
        seq![]
    } else if is_dropped(s.last()) {
        normalize(s.drop_last())
    } else {
        normalize(s.drop_last()).push(fold_char(s.last()))
    }
}

fn is_dropped_exec(c: char) -> (r: bool)
    ensures
        r == is_dropped(c),
{
    let u = c as u32;
    if u == 0x0621 || u == 0x0626 || u == 0x0640 || u == 0x200B || u == 0x200C || u == 0x200D
        || u == 0xFEFF || (0x064B <= u && u <= 0x065F) || u == 0x0670 || (0x0610 <= u && u
        <= 0x061A) || (0x06D6 <= u && u <= 0x06ED) {
        true
    } else {
        char_is_whitespace(c)
    }
}

fn fold_char_exec(c: char) -> (r: char)
    ensures
        r == fold_char(c),
{
    let u = c as u32;
    if u == 0x064A {
        '\u{06CC}'
    } else if u == 0x0643 {
        '\u{06A9}'
    } else if u == 0x0624 {
        '\u{0648}'
    } else if u == 0x0623 || u == 0x0625 || u == 0x0622 {
        '\u{0627}'
    } else {
        c
    }
}

/// Normalizes `input` for search and duplicate detection; `input` itself is
/// left as it is.
pub fn normalize_persian(input: &str) -> (output: String)
    ensures
        output@ == normalize(input@),
{
    let chars = chars_of(input);
    let mut output = String::new();
    let mut i: usize = 0;
    while i < chars.len()
        invariant
            i <= chars.len(),
            chars@ == input@,
            output@ == normalize(chars@.take(i as int)),
        decreases chars.len() - i,
    {
        assert(chars@.take(i + 1).drop_last() =~= chars@.take(i as int));
        let c = chars[i];
        if !is_dropped_exec(c) {
            push_char(&mut output, fold_char_exec(c));
        }
        i = i + 1;
    }
    assert(chars@.take(chars.len() as int) =~= chars@);
    output
}

/// Normalization distributes over concatenation: the two halves of a text
/// are normalized independently.
pub proof fn law_normalize_concat(a: Seq<char>, b: Seq<char>)
    ensures
        normalize(a + b) == normalize(a) + normalize(b),
    decreases b.len(),
{
    if b.len() == 0 {
        assert(a + b =~= a);
        assert(normalize(a) + normalize(b) =~= normalize(a));
    } else {
        law_normalize_concat(a, b.drop_last());
        assert((a + b).drop_last() =~= a + b.drop_last());
        assert((a + b).last() == b.last());
        if is_dropped(b.last()) {
        } else {
            assert(normalize(a) + normalize(b) =~= (normalize(a) + normalize(b.drop_last())).push(
                fold_char(b.last()),
            ));
        }
    }
}

/// Every character of a normalized text is kept by normalization and is its
/// own folded form.
pub proof fn law_normalized_chars_are_final(s: Seq<char>)
    ensures
        forall|i: int|
            0 <= i < normalize(s).len() ==> !is_dropped(#[trigger] normalize(s)[i]) && fold_char(
                normalize(s)[i],
            ) == normalize(s)[i],
        normalize(s).len() <= s.len(),
    decreases s.len(),
{
    if s.len() > 0 {
        law_normalized_chars_are_final(s.drop_last());
    }
}

/// Normalizing twice is the same as normalizing once.
pub proof fn law_normalize_idempotent(s: Seq<char>)
    ensures
        normalize(normalize(s)) == normalize(s),
{
    law_normalized_chars_are_final(s);
    lemma_normalize_fixed(normalize(s));
}

/// A text whose characters are all kept and already folded normalizes to itself.
proof fn lemma_normalize_fixed(t: Seq<char>)
    requires
        forall|i: int| 0 <= i < t.len() ==> !is_dropped(#[trigger] t[i]) && fold_char(t[i]) == t[i],
    ensures
        normalize(t) == t,
    decreases t.len(),
{
    if t.len() > 0 {
        assert(forall|i: int| 0 <= i < t.drop_last().len() ==> t.drop_last()[i] == t[i]);
        lemma_normalize_fixed(t.drop_last());
        assert(!is_dropped(t[t.len() - 1]));
        assert(t.drop_last().push(t.last()) =~= t);
    }
}

/// Characters that normalization drops (such as spaces and zero-width non-joiners)
/// make no difference wherever they stand: a compound word written with a space,
/// a ZWNJ or nothing between its parts normalizes to one text.
pub proof fn law_dropped_chars_ignored(a: Seq<char>, c: char, b: Seq<char>)
    requires
        is_dropped(c),
    ensures
        normalize(a + seq![c] + b) == normalize(a + b),
{
    law_normalize_concat(a + seq![c], b);
    law_normalize_concat(a, seq![c]);
    law_normalize_concat(a, b);
    assert(seq![c].drop_last() =~= Seq::<char>::empty());
    assert(seq![c].last() == c);
    assert(normalize(seq![c]) == normalize(Seq::<char>::empty()));
    assert(normalize(seq![c]) =~= Seq::<char>::empty());
    assert(normalize(a) + normalize(seq![c]) =~= normalize(a));
}

/// Arabic letter forms and their Persian counterparts normalize to one text, so
/// that either spelling finds the other.
pub proof fn law_variants_share_a_form(a: Seq<char>, b: Seq<char>)
    requires
        a.len() == b.len(),
        forall|i: int| 0 <= i < a.len() ==> fold_char(#[trigger] a[i]) == fold_char(b[i]) && (
        is_dropped(a[i]) <==> is_dropped(b[i])),
    ensures
        normalize(a) == normalize(b),
    decreases a.len(),
{
    if a.len() > 0 {
        assert forall|i: int| 0 <= i < a.drop_last().len() implies fold_char(
            #[trigger] a.drop_last()[i],
        ) == fold_char(b.drop_last()[i]) && (is_dropped(a.drop_last()[i]) <==> is_dropped(
            b.drop_last()[i],
        )) by {
            assert(a.drop_last()[i] == a[i]);
            assert(b.drop_last()[i] == b[i]);
        }
        law_variants_share_a_form(a.drop_last(), b.drop_last());
        assert(fold_char(a[a.len() - 1]) == fold_char(b[b.len() - 1]));
    }
}

/// What normalization does to each single character, by code point: Arabic
/// diacritics (U+064B..=U+065F, U+0670), Quranic annotation marks
/// (U+0610..=U+061A, U+06D6..=U+06ED), the hamza forms U+0621 and U+0626, the
/// tatweel U+0640, the zero-width characters U+200B..=U+200D and U+FEFF, and
/// white space vanish; Arabic yeh, kaf and waw-with-hamza become Persian yeh,
/// kaf and waw, and the alefs with hamza or madda become plain alef; every
/// other character is kept as it is.
pub proof fn law_normalize_single_char(c: char)
    ensures
        ({
            let u = c as u32;
            ||| 0x064B <= u <= 0x065F
            ||| u == 0x0670
            ||| 0x0610 <= u <= 0x061A
            ||| 0x06D6 <= u <= 0x06ED
            ||| u == 0x0621
            ||| u == 0x0626
            ||| u == 0x0640
            ||| 0x200B <= u <= 0x200D
            ||| u == 0xFEFF
            ||| is_white_space(c)
        }) ==> normalize(seq![c]) == Seq::<char>::empty(),
        c as u32 == 0x064A ==> normalize(seq![c]) == seq!['\u{06CC}'],
        c as u32 == 0x0643 ==> normalize(seq![c]) == seq!['\u{06A9}'],
        c as u32 == 0x0624 ==> normalize(seq![c]) == seq!['\u{0648}'],
        (c as u32 == 0x0623 || c as u32 == 0x0625 || c as u32 == 0x0622) ==> normalize(seq![c])
            == seq!['\u{0627}'],
        !({
            let u = c as u32;
            ||| 0x064B <= u <= 0x065F
            ||| u == 0x0670
            ||| 0x0610 <= u <= 0x061A
            ||| 0x06D6 <= u <= 0x06ED
            ||| u == 0x0621
            ||| u == 0x0626
            ||| u == 0x0640
            ||| 0x200B <= u <= 0x200D
            ||| u == 0xFEFF
            ||| is_white_space(c)
            ||| u == 0x064A
            ||| u == 0x0643
            ||| u == 0x0624
            ||| u == 0x0623
            ||| u == 0x0625
            ||| u == 0x0622
        }) ==> normalize(seq![c]) == seq![c],
{
    let one = seq![c];
    assert(one.drop_last() =~= Seq::<char>::empty());
    assert(one.last() == c);
    assert(normalize(Seq::<char>::empty()) =~= Seq::<char>::empty());
    assert(Seq::<char>::empty().push(fold_char(c)) =~= seq![fold_char(c)]);
}

/// An Arabic diacritic (U+064B..=U+065F or U+0670), wherever it stands, makes no
/// difference to the normalized text: a word with or without its vowel marks,
/// tanwin, shadda or sukun normalizes to one text.
pub proof fn law_diacritics_ignored(a: Seq<char>, c: char, b: Seq<char>)
    requires
        (0x064B <= c as u32 <= 0x065F) || c as u32 == 0x0670,
    ensures
        normalize(a + seq![c] + b) == normalize(a + b),
{
    law_dropped_chars_ignored(a, c, b);
}

} // verus!
