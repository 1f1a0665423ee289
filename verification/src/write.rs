//! Decisions around writing a stored entry back to the clipboard.
use vstd::prelude::*;

use crate::models::ClipboardItemType;
use crate::suppress::{
    after_skip, skip_clipboard_sequence, take_suppress, take_suppress_next_capture, SuppressState,
};
use crate::text::{
    chars_of, is_white_space, join, lines, lines_from, lines_of, string_from, strip_cr, trim,
    trim_chars, trim_end, trim_start, views,
};

verus! {

/// The clipboard format that an entry is written in.
#[derive(Debug, Clone, Copy, PartialEq, Eq, Structural)]
pub enum WriteTarget {
    FileList,
    Png,
    UnicodeText,
}

pub open spec fn target_of(t: ClipboardItemType) -> WriteTarget {
    match t {
        ClipboardItemType::File => WriteTarget::FileList,
        ClipboardItemType::Image => WriteTarget::Png,
        _ => WriteTarget::UnicodeText,
    }
}

/// Files are written as a file list, images as PNG data, everything else as text.
pub fn write_payload_target(item_type: ClipboardItemType) -> (r: WriteTarget)
    ensures
        r == target_of(item_type),
{
    match item_type {
        ClipboardItemType::File => WriteTarget::FileList,
        ClipboardItemType::Image => WriteTarget::Png,
        ClipboardItemType::Text | ClipboardItemType::Url | ClipboardItemType::Code => {
            WriteTarget::UnicodeText
        },
    }
}

/// The trimmed lines of `ls` that are not empty, in order.
pub open spec fn nonblank_trimmed(ls: Seq<Seq<char>>) -> Seq<Seq<char>>
    decreases ls.len(),
{
    if ls.len() == 0 {
        seq![]
    } else if trim(ls.last()).len() == 0 {
        nonblank_trimmed(ls.drop_last())
    } else {
        nonblank_trimmed(ls.drop_last()).push(trim(ls.last()))
    }
}

/// The file paths stored in a file entry: its lines, trimmed, blank ones left out.
pub open spec fn file_paths(content: Seq<char>) -> Seq<Seq<char>> {
    nonblank_trimmed(lines(content))
}

pub fn file_list(content: &str) -> (r: Vec<String>)
    ensures
        r@.map_values(|s: String| s@) == file_paths(content@),
{
    let ls = lines_of(&chars_of(content));
    let mut r: Vec<String> = Vec::new();
    let mut i: usize = 0;
    assert(r@.map_values(|s: String| s@) =~= seq![]);
    while i < ls.len()
        invariant
            i <= ls.len(),
            views(ls@) == lines(content@),
            r@.map_values(|s: String| s@) == nonblank_trimmed(views(ls@).take(i as int)),
        decreases ls.len() - i,
    {
        let ghost t = views(ls@).take(i + 1);
        assert(t.drop_last() =~= views(ls@).take(i as int));
        assert(t.last() == ls@[i as int]@);
        let line = trim_chars(&ls[i]);
        if line.len() > 0 {
            let ghost before = r@.map_values(|s: String| s@);
            let s = string_from(&line);
            let ghost sv = s@;
            r.push(s);
            assert(r@.map_values(|s: String| s@) =~= before.push(sv));
        }
        i = i + 1;
    }
    assert(views(ls@).take(ls.len() as int) =~= views(ls@));
    r
}

/// The files a file entry puts back on the clipboard: its paths, or none when it
/// lists no path (then nothing is written and the write fails).
pub fn files_to_write(content: &str) -> (r: Option<Vec<String>>)
    ensures
        r is None <==> file_paths(content@).len() == 0,
        r matches Some(v) ==> v@.map_values(|s: String| s@) == file_paths(content@),
{
    let paths = file_list(content);
    assert(paths@.map_values(|s: String| s@).len() == paths@.len());
    if paths.len() == 0 {
        None
    } else {
        Some(paths)
    }
}

/// The suppression state once a write has ended: a failed write gives back the
/// suppression it took; a successful one also skips the clipboard sequence number
/// it produced, when that is known.
pub open spec fn after_write(s: SuppressState, succeeded: bool, sequence: Option<u32>) -> SuppressState {
    if !succeeded {
        take_suppress(s).1
    } else {
        match sequence {
            Some(q) => after_skip(s, q),
            None => s,
        }
    }
}

pub fn finish_write(state: &mut SuppressState, succeeded: bool, sequence: Option<u32>)
    ensures
        *final(state) == after_write(*old(state), succeeded, sequence),
{
    if !succeeded {
        let _ = take_suppress_next_capture(state);
    } else {
        match sequence {
            Some(q) => skip_clipboard_sequence(state, q),
            None => {},
        }
    }
}

pub open spec fn no_newline(s: Seq<char>) -> bool {
    forall|i: int| 0 <= i < s.len() ==> s[i] != '\n'
}

/// Scanning a piece without newlines only extends the current line.
proof fn lemma_scan_piece(a: Seq<char>, c: Seq<char>, done: Seq<Seq<char>>, cur: Seq<char>)
    requires
        no_newline(a),
    ensures
        lines_from(a + c, done, cur) == lines_from(c, done, cur + a),
    decreases a.len(),
{
    if a.len() == 0 {
        assert(a + c =~= c);
        assert(cur + a =~= cur);
    } else {
        assert((a + c).drop_first() =~= a.drop_first() + c);
        assert((a + c)[0] == a[0]);
        assert(a[0] != '\n');
        lemma_scan_piece(a.drop_first(), c, done, cur.push(a[0]));
        assert(cur.push(a[0]) + a.drop_first() =~= cur + a);
    }
}

proof fn lemma_join_front(ps: Seq<Seq<char>>, sep: Seq<char>)
    requires
        ps.len() >= 2,
    ensures
        join(ps, sep) == ps[0] + sep + join(ps.drop_first(), sep),
    decreases ps.len(),
{
    if ps.len() == 2 {
        assert(ps.drop_last().len() == 1);
        assert(ps.drop_first().len() == 1);
        assert(join(ps.drop_last(), sep) == ps[0]);
        assert(join(ps.drop_first(), sep) == ps[1]);
    } else {
        lemma_join_front(ps.drop_last(), sep);
        assert(ps.drop_last().drop_first() =~= ps.drop_first().drop_last());
        assert(ps.drop_first().last() == ps.last());
        assert(ps.drop_last()[0] == ps[0]);
    }
}

proof fn lemma_lines_of_join(ps: Seq<Seq<char>>, done: Seq<Seq<char>>)
    requires
        ps.len() > 0,
        forall|k: int| 0 <= k < ps.len() ==> #[trigger] ps[k].len() > 0 && no_newline(ps[k]) && trim(ps[k]) == ps[k],
    ensures
        lines_from(join(ps, seq!['\n']), done, seq![]) == done + ps,
    decreases ps.len(),
{
    let p0 = ps[0];
    assert(p0.len() > 0 && no_newline(p0) && trim(p0) == p0);
    if ps.len() == 1 {
        lemma_scan_piece(p0, seq![], done, seq![]);
        assert(p0 + seq![] =~= p0);
        assert(seq![] + p0 =~= p0);
        assert(done + ps =~= done.push(p0));
    } else {
        let rest = ps.drop_first();
        lemma_join_front(ps, seq!['\n']);
        let tail = join(rest, seq!['\n']);
        assert(p0 + seq!['\n'] + tail =~= p0 + (seq!['\n'] + tail));
        lemma_scan_piece(p0, seq!['\n'] + tail, done, seq![]);
        assert(seq![] + p0 =~= p0);
        assert((seq!['\n'] + tail).drop_first() =~= tail);
        lemma_trimmed_no_cr(p0);
        assert forall|k: int| 0 <= k < rest.len() implies #[trigger] rest[k].len() > 0 && no_newline(
            rest[k],
        ) && trim(rest[k]) == rest[k] by {
            assert(rest[k] == ps[k + 1]);
        }
        lemma_lines_of_join(rest, done.push(p0));
        assert(done.push(p0) + rest =~= done + ps);
    }
}

proof fn lemma_trimmed_no_cr(p: Seq<char>)
    requires
        p.len() > 0,
        trim(p) == p,
    ensures
        strip_cr(p) == p,
{
    if p.last() == '\r' {
        lemma_trim_end_drops_white(trim_start(p));
        assert(false);
    }
}

proof fn lemma_trim_end_drops_white(s: Seq<char>)
    ensures
        trim_end(s).len() > 0 ==> !is_white_space(trim_end(s).last()),
        trim_end(s).len() <= s.len(),
    decreases s.len(),
{
    if s.len() > 0 && is_white_space(s.last()) {
        lemma_trim_end_drops_white(s.drop_last());
    }
}

proof fn lemma_nonblank_trimmed_fixed(ps: Seq<Seq<char>>)
    requires
        forall|k: int| 0 <= k < ps.len() ==> #[trigger] ps[k].len() > 0 && trim(ps[k]) == ps[k],
    ensures
        nonblank_trimmed(ps) == ps,
    decreases ps.len(),
{
    if ps.len() > 0 {
        assert forall|k: int| 0 <= k < ps.drop_last().len() implies #[trigger] ps.drop_last()[k].len() > 0
            && trim(ps.drop_last()[k]) == ps.drop_last()[k] by {
            assert(ps.drop_last()[k] == ps[k]);
        }
        lemma_nonblank_trimmed_fixed(ps.drop_last());
        assert(ps[ps.len() - 1].len() > 0);
        assert(ps.drop_last().push(ps.last()) =~= ps);
    }
}

/// The paths of a file entry come back unchanged when it is written to the
/// clipboard: splitting the stored content (the paths joined by newlines) gives
/// the paths again, provided each is non-empty, has no surrounding blanks and
/// no newline.
pub proof fn law_file_list_round_trip(paths: Seq<Seq<char>>)
    requires
        forall|k: int| 0 <= k < paths.len() ==> #[trigger] paths[k].len() > 0 && no_newline(paths[k])
            && trim(paths[k]) == paths[k],
    ensures
        file_paths(join(paths, seq!['\n'])) == paths,
{
    if paths.len() > 0 {
        lemma_lines_of_join(paths, seq![]);
        assert(seq![] + paths =~= paths);
    } else {
        assert(join(paths, seq!['\n']) =~= seq![]);
        assert(lines(seq![]) =~= seq![]);
    }
    lemma_nonblank_trimmed_fixed(paths);
}

} // verus!
