use vstd::prelude::*;
use vstd::string::{StrSliceExecFns, StringExecFns};

use crate::rag::{decimal, decimal_text};

verus! {

/// One knowledge entry to embed and store.
pub struct KnowledgeItem {
    pub content_type: String,
    pub content: String,
    pub metadata: Option<String>,
}

/// What one line of the pipe-delimited format holds.
pub enum ImportLine {
    /// A blank line or a comment (its first visible character is `#`).
    Skip,
    /// Fewer than two fields.
    Invalid,
    Item(KnowledgeItem),
}

/// Counts of a bulk import, and one message per failed record.
pub struct ImportResult {
    pub success_count: usize,
    pub fail_count: usize,
    pub errors: Vec<String>,
}

/// The characters with the Unicode `White_Space` property, which
/// `char::is_whitespace` tests.
pub open spec fn white_space(c: char) -> bool {
    let u = c as u32;
    (0x9 <= u && u <= 0xD) || u == 0x20 || u == 0x85 || u == 0xA0 || u == 0x1680 || (0x2000 <= u
        && u <= 0x200A) || u == 0x2028 || u == 0x2029 || u == 0x202F || u == 0x205F || u == 0x3000
}

fn is_white_space(c: char) -> (r: bool)
    ensures
        r == white_space(c),
{
    let u = c as u32;
    (0x9 <= u && u <= 0xD) || u == 0x20 || u == 0x85 || u == 0xA0 || u == 0x1680 || (0x2000 <= u
        && u <= 0x200A) || u == 0x2028 || u == 0x2029 || u == 0x202F || u == 0x205F || u == 0x3000
}

pub open spec fn trim_start(s: Seq<char>) -> Seq<char>
    decreases s.len(),
{
    if s.len() > 0 && white_space(s[0]) {
        trim_start(s.drop_first())
    } else {
        s
    }
}

pub open spec fn trim_end(s: Seq<char>) -> Seq<char>
    decreases s.len(),
{
    if s.len() > 0 && white_space(s.last()) {
        trim_end(s.drop_last())
    } else {
        s
    }
}

/// `s` without leading and trailing white space.
pub open spec fn trim(s: Seq<char>) -> Seq<char> {
    trim_end(trim_start(s))
}

/// The pieces of `s` separated by `sep` (one piece when there is none).
pub open spec fn pieces(s: Seq<char>, sep: char) -> Seq<Seq<char>>
    decreases s.len(),
{
    if s.len() == 0 {
        seq![Seq::<char>::empty()]
    } else if s.last() == sep {
        pieces(s.drop_last(), sep).push(Seq::empty())
    } else {
        let f = pieces(s.drop_last(), sep);
        f.update(f.len() - 1, f.last().push(s.last()))
    }
}

/// The fields of a line of the pipe-delimited format.
pub open spec fn fields(s: Seq<char>) -> Seq<Seq<char>> {
    pieces(s, '|')
}

proof fn lemma_pieces_nonempty(s: Seq<char>, sep: char)
    ensures
        pieces(s, sep).len() >= 1,
    decreases s.len(),
{
    if s.len() > 0 {
        lemma_pieces_nonempty(s.drop_last(), sep);
    }
}

/// `s` without one trailing carriage return.
pub open spec fn strip_cr(s: Seq<char>) -> Seq<char> {
    if s.len() > 0 && s.last() == '\r' {
        s.drop_last()
    } else {
        s
    }
}

/// The lines of a text: split at `\n`, each line ended by `\r\n` without
/// its `\r`; a final line ending does not start another line, and an empty
/// text has no lines.
pub open spec fn lines_of(s: Seq<char>) -> Seq<Seq<char>> {
    let p = pieces(s, '\n');
    let ended = p.drop_last().map_values(|l: Seq<char>| strip_cr(l));
    if p.last().len() == 0 {
        ended
    } else {
        ended.push(p.last())
    }
}

/// `s` without leading and trailing white space.
pub fn trim_text(s: &str) -> (r: String)
    ensures
        r@ == trim(s@),
{
    let n = s.unicode_len();
    proof {
        assert(s@.subrange(0, n as int) =~= s@);
    }
    let mut i: usize = 0;
    while i < n && is_white_space(s.get_char(i))
        invariant
            n == s@.len(),
            i <= n,
            trim_start(s@) == trim_start(s@.subrange(i as int, n as int)),
        decreases n - i,
    {
        proof {
            let t = s@.subrange(i as int, n as int);
            assert(t.drop_first() =~= s@.subrange(i + 1, n as int));
        }
        i = i + 1;
    }
    proof {
        let t = s@.subrange(i as int, n as int);
        if i < n {
            assert(!white_space(t[0]));
        }
    }
    let mut j: usize = n;
    while j > i && is_white_space(s.get_char(j - 1))
        invariant
            n == s@.len(),
            i <= j <= n,
            trim_start(s@) == s@.subrange(i as int, n as int),
            trim(s@) == trim_end(s@.subrange(i as int, j as int)),
        decreases j - i,
    {
        proof {
            let t = s@.subrange(i as int, j as int);
            assert(t.drop_last() =~= s@.subrange(i as int, j - 1));
        }
        j = j - 1;
    }
    proof {
        let t = s@.subrange(i as int, j as int);
        if j > i {
            assert(t.last() == s@[j - 1]);
        }
    }
    String::from_str(s.substring_char(i, j))
}

pub open spec fn views(v: Seq<String>) -> Seq<Seq<char>> {
    v.map_values(|x: String| x@)
}

/// The fields of `s` separated by `|`.
pub fn split_fields(s: &str) -> (r: Vec<String>)
    ensures
        views(r@) == fields(s@),
{
    split_on(s, '|')
}

/// The pieces of `s` separated by `sep`.
fn split_on(s: &str, sep: char) -> (r: Vec<String>)
    ensures
        views(r@) == pieces(s@, sep),
{
    let n = s.unicode_len();
    let mut out: Vec<String> = Vec::new();
    let mut start: usize = 0;
    let mut i: usize = 0;
    proof {
        assert(s@.subrange(0, 0) =~= Seq::<char>::empty());
        assert(views(out@).push(s@.subrange(0, 0)) =~= seq![Seq::<char>::empty()]);
    }
    while i < n
        invariant
            n == s@.len(),
            start <= i <= n,
            pieces(s@.subrange(0, i as int), sep) == views(out@).push(s@.subrange(start as int, i as int)),
        decreases n - i,
    {
        let c = s.get_char(i);
        proof {
            let p = s@.subrange(0, i + 1);
            assert(p.drop_last() =~= s@.subrange(0, i as int));
            assert(p.last() == c);
        }
        if c == sep {
            let piece = String::from_str(s.substring_char(start, i));
            let ghost before = out@;
            out.push(piece);
            proof {
                assert(views(out@) =~= views(before).push(piece@));
                assert(s@.subrange((i + 1) as int, (i + 1) as int) =~= Seq::<char>::empty());
            }
            start = i + 1;
        } else {
            proof {
                assert(s@.subrange(start as int, i as int).push(c) =~= s@.subrange(start as int, i + 1));
                let f = pieces(s@.subrange(0, i as int), sep);
                assert(f.update(f.len() - 1, f.last().push(c)) =~= views(out@).push(
                    s@.subrange(start as int, i + 1),
                ));
            }
        }
        i = i + 1;
    }
    let last = String::from_str(s.substring_char(start, n));
    let ghost before = out@;
    out.push(last);
    proof {
        assert(views(out@) =~= views(before).push(last@));
        assert(s@.subrange(0, n as int) =~= s@);
    }
    out
}

/// The lines of a text, as `str::lines` gives them.
pub fn split_lines(text: &str) -> (r: Vec<String>)
    ensures
        views(r@) == lines_of(text@),
{
    let mut parts = split_on(text, '\n');
    proof {
        lemma_pieces_nonempty(text@, '\n');
    }
    let ghost p = views(parts@);
    let last = parts.pop().unwrap();
    proof {
        assert(views(parts@) =~= p.drop_last());
    }
    let ghost q = views(parts@);
    let mut out: Vec<String> = Vec::new();
    let mut i: usize = 0;
    while i < parts.len()
        invariant
            i <= parts@.len(),
            q == views(parts@),
            views(out@) == q.subrange(0, i as int).map_values(|l: Seq<char>| strip_cr(l)),
        decreases parts@.len() - i,
    {
        let l = parts[i].as_str();
        let m = l.unicode_len();
        let line = if m > 0 && l.get_char(m - 1) == '\r' {
            String::from_str(l.substring_char(0, m - 1))
        } else {
            String::from_str(l)
        };
        proof {
            if m > 0 {
                assert(l@.subrange(0, m - 1) =~= l@.drop_last());
            }
        }
        let ghost before = out@;
        out.push(line);
        proof {
            assert(views(out@) =~= views(before).push(line@));
            assert(q.subrange(0, i + 1).map_values(|l: Seq<char>| strip_cr(l)) =~= q.subrange(
                0,
                i as int,
            ).map_values(|l: Seq<char>| strip_cr(l)).push(strip_cr(q[i as int])));
        }
        i = i + 1;
    }
    proof {
        assert(q.subrange(0, q.len() as int) =~= q);
    }
    if last.as_str().unicode_len() > 0 {
        let ghost before = out@;
        out.push(last);
        proof {
            assert(views(out@) =~= views(before).push(p.last()));
        }
    }
    out
}

/// What a line of the pipe-delimited format holds: `type|content|metadata`,
/// each field trimmed, the metadata optional and dropped when blank.
pub open spec fn line_meaning(line: Seq<char>) -> (ImportLineKind, Seq<char>, Seq<char>, Option<Seq<char>>) {
    let t = trim(line);
    let f = fields(t);
    if t.len() == 0 || t[0] == '#' {
        (ImportLineKind::Skip, Seq::empty(), Seq::empty(), None)
    } else if f.len() < 2 {
        (ImportLineKind::Invalid, Seq::empty(), Seq::empty(), None)
    } else {
        (
            ImportLineKind::Item,
            trim(f[0]),
            trim(f[1]),
            if f.len() > 2 && trim(f[2]).len() > 0 { Some(trim(f[2])) } else { None },
        )
    }
}

pub enum ImportLineKind {
    Skip,
    Invalid,
    Item,
}

/// Reads one line of the pipe-delimited format.
pub fn parse_import_line(line: &str) -> (r: ImportLine)
    ensures
        ({
            let m = line_meaning(line@);
            match r {
                ImportLine::Skip => m.0 == ImportLineKind::Skip,
                ImportLine::Invalid => m.0 == ImportLineKind::Invalid,
                ImportLine::Item(item) => m.0 == ImportLineKind::Item && item.content_type@ == m.1
                    && item.content@ == m.2 && match item.metadata {
                    Some(md) => m.3 == Some(md@),
                    None => m.3 is None,
                },
            }
        }),
{
    let t = trim_text(line);
    if t.as_str().unicode_len() == 0 {
        return ImportLine::Skip;
    }
    if t.as_str().get_char(0) == '#' {
        return ImportLine::Skip;
    }
    let parts = split_fields(t.as_str());
    if parts.len() < 2 {
        return ImportLine::Invalid;
    }
    let content_type = trim_text(parts[0].as_str());
    let content = trim_text(parts[1].as_str());
    let metadata = if parts.len() > 2 {
        let m = trim_text(parts[2].as_str());
        if m.as_str().unicode_len() > 0 {
            Some(m)
        } else {
            None
        }
    } else {
        None
    };
    ImportLine::Item(KnowledgeItem { content_type, content, metadata })
}

pub open spec fn failure_message(line_number: nat, reason: Seq<char>) -> Seq<char> {
    "Line "@ + decimal_text(line_number) + ": "@ + reason
}

impl ImportResult {
    pub fn new() -> (r: Self)
        ensures
            r.success_count == 0,
            r.fail_count == 0,
            r.errors@.len() == 0,
    {
        ImportResult { success_count: 0, fail_count: 0, errors: Vec::new() }
    }

    pub fn record_success(&mut self)
        requires
            old(self).success_count < usize::MAX,
        ensures
            final(self).success_count == old(self).success_count + 1,
            final(self).fail_count == old(self).fail_count,
            final(self).errors@ == old(self).errors@,
    {
        self.success_count = self.success_count + 1;
    }

    /// Counts a failed record and keeps "Line <n>: <reason>" for it;
    /// `line_number` counts from 1.
    pub fn record_failure(&mut self, line_number: usize, reason: &str)
        requires
            old(self).fail_count < usize::MAX,
        ensures
            final(self).success_count == old(self).success_count,
            final(self).fail_count == old(self).fail_count + 1,
            final(self).errors@.len() == old(self).errors@.len() + 1,
            final(self).errors@.drop_last() == old(self).errors@,
            final(self).errors@.last()@ == failure_message(line_number as nat, reason@),
    {
        self.fail_count = self.fail_count + 1;
        let m = String::from_str("Line ");
        let m = m.concat(decimal(line_number).as_str());
        let m = m.concat(": ");
        let m = m.concat(reason);
        let ghost before = self.errors@;
        self.errors.push(m);
        proof {
            assert(self.errors@.drop_last() =~= before);
        }
    }
}

/// Reason recorded for a line with fewer than two fields.
pub const INVALID_LINE_REASON: &'static str = "Invalid format (need at least 2 fields)";

} // verus!
