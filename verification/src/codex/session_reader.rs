use vstd::prelude::*;

use crate::codex::parser::opt_view;
use crate::json::str_eq;
use crate::lines::{lines, split_lines, split_newline, strip_cr};
use crate::text::{views, str_ends_with, ends_with};

verus! {

/// The complete lines of `pending + chunk`, and the unterminated rest that waits for more.
pub open spec fn buffered_lines(pending: Seq<char>, chunk: Seq<char>) -> (Seq<Seq<char>>, Seq<char>) {
    let combined = pending + chunk;
    let ls = lines(combined);
    if ends_with(combined, seq!['\n']) {
        (ls, Seq::empty())
    } else if ls.len() > 0 {
        (ls.drop_last(), ls.last())
    } else {
        (ls, Seq::empty())
    }
}

/// Splits `pending + chunk` into complete lines and the text still waiting for its newline.
pub fn take_complete_lines(pending: String, chunk: &str) -> (r: (Vec<String>, String))
    ensures
        (views(r.0@), r.1@) == buffered_lines(pending@, chunk@),
{
    let mut combined = pending;
    combined.append(chunk);
    let trailing_newline = str_ends_with(combined.as_str(), "\n");
    proof {
        reveal_strlit("\n");
        assert("\n"@ =~= seq!['\n']);
    }
    let mut all = split_lines(combined.as_str());
    if trailing_newline {
        return (all, String::new());
    }
    if all.len() > 0 {
        let ghost before = all@;
        let last = all.pop().unwrap();
        proof {
            assert(views(all@) == views(before).drop_last());
            assert(views(before).last() == last@);
        }
        (all, last)
    } else {
        (all, String::new())
    }
}

/// Reads a local session log a little at a time, remembering how far it got.
#[derive(Debug)]
pub struct SessionReader {
    active_path: Option<String>,
    offset: u64,
    pending: String,
}

pub struct ReaderView {
    pub active_path: Option<Seq<char>>,
    pub offset: u64,
    pub pending: Seq<char>,
}

impl View for SessionReader {
    type V = ReaderView;

    closed spec fn view(&self) -> ReaderView {
        ReaderView { active_path: opt_view(self.active_path), offset: self.offset, pending: self.pending@ }
    }
}

/// The reader state once it follows `path`: a path other than the one it followed
/// starts over from the beginning.
pub open spec fn followed(v: ReaderView, path: Seq<char>) -> ReaderView {
    if v.active_path != Some(path) {
        ReaderView { active_path: Some(path), offset: 0, pending: Seq::empty() }
    } else {
        v
    }
}

/// The reader state once the file is known to be `file_len` bytes long: a file that
/// shrank below the offset starts over from the beginning.
pub open spec fn rewound(v: ReaderView, file_len: u64) -> ReaderView {
    if file_len < v.offset { ReaderView { offset: 0, pending: Seq::empty(), ..v } } else { v }
}

/// The reader state before reading `path` whose length is `file_len`.
pub open spec fn prepared(v: ReaderView, path: Seq<char>, file_len: u64) -> ReaderView {
    rewound(followed(v, path), file_len)
}

impl SessionReader {
    pub fn new() -> (r: Self)
        ensures
            r@ == (ReaderView { active_path: None, offset: 0, pending: Seq::empty() }),
    {
        SessionReader { active_path: None, offset: 0, pending: String::new() }
    }

    pub fn reset_for(&mut self, path: &str)
        ensures
            final(self)@ == (ReaderView { active_path: Some(path@), offset: 0, pending: Seq::empty() }),
    {
        self.active_path = Some(path.to_owned());
        self.offset = 0;
        self.pending = String::new();
    }

    /// Follows `path`, starting over when it is not the path followed so far.
    pub fn follow(&mut self, path: &str)
        ensures
            final(self)@ == followed(old(self)@, path@),
    {
        let same = match &self.active_path {
            Some(active) => str_eq(active.as_str(), path),
            None => false,
        };
        if !same {
            self.reset_for(path);
        }
    }

    /// Starts over when the file, now `file_len` bytes long, shrank below the offset;
    /// gives the offset to read from.
    pub fn rewind_if_shrunk(&mut self, file_len: u64) -> (r: u64)
        ensures
            final(self)@ == rewound(old(self)@, file_len),
            r == final(self)@.offset,
    {
        if file_len < self.offset {
            self.offset = 0;
            self.pending = String::new();
        }
        self.offset
    }

    /// Gets ready to read `path`, now `file_len` bytes long, and gives the offset to read from.
    pub fn prepare_read(&mut self, path: &str, file_len: u64) -> (r: u64)
        ensures
            final(self)@ == prepared(old(self)@, path@, file_len),
            r == final(self)@.offset,
    {
        self.follow(path);
        self.rewind_if_shrunk(file_len)
    }

    /// Takes the text read from the offset up to `file_len` and gives back the complete lines.
    pub fn finish_read(&mut self, file_len: u64, chunk: &str) -> (r: Vec<String>)
        ensures
            final(self)@.offset == file_len,
            final(self)@.active_path == old(self)@.active_path,
            chunk@.len() == 0 ==> r@.len() == 0 && final(self)@.pending == old(self)@.pending,
            chunk@.len() > 0 ==> (views(r@), final(self)@.pending) == buffered_lines(old(self)@.pending, chunk@),
    {
        self.offset = file_len;
        if chunk.is_empty() {
            return Vec::new();
        }
        let mut pending = String::new();
        std::mem::swap(&mut pending, &mut self.pending);
        let (lines, rest) = take_complete_lines(pending, chunk);
        self.pending = rest;
        lines
    }
}

/// Each piece of a text cut at its newlines, without the carriage return ending it.
pub open spec fn stripped(ps: Seq<Seq<char>>) -> Seq<Seq<char>> {
    ps.map_values(|x: Seq<char>| strip_cr(x))
}

proof fn lemma_split_nonempty(s: Seq<char>)
    ensures
        split_newline(s).len() >= 1,
    decreases s.len(),
{
    if s.len() > 0 {
        lemma_split_nonempty(s.drop_last());
    }
}

proof fn lemma_split_concat(x: Seq<char>, y: Seq<char>)
    ensures
        split_newline(x + y) == split_newline(x).drop_last()
            + seq![split_newline(x).last() + split_newline(y)[0]]
            + split_newline(y).drop_first(),
    decreases y.len(),
{
    lemma_split_nonempty(x);
    lemma_split_nonempty(y);
    if y.len() == 0 {
        assert(x + y =~= x);
        assert(split_newline(y) =~= seq![Seq::<char>::empty()]);
        assert(split_newline(x).last() + split_newline(y)[0] =~= split_newline(x).last());
        assert(split_newline(x).drop_last() + seq![split_newline(x).last()] =~= split_newline(x));
        assert(split_newline(y).drop_first() =~= Seq::<Seq<char>>::empty());
    } else {
        let y1 = y.drop_last();
        let ch = y.last();
        lemma_split_concat(x, y1);
        lemma_split_nonempty(y1);
        assert((x + y).drop_last() =~= x + y1);
        assert((x + y).last() == ch);
        let xs = split_newline(x);
        let ys1 = split_newline(y1);
        let ps1 = split_newline(x + y1);
        if ch == '\n' {
            assert(split_newline(y) == ys1.push(Seq::<char>::empty()));
            assert(split_newline(x + y) == ps1.push(Seq::<char>::empty()));
            assert(split_newline(y)[0] == ys1[0]);
            assert(split_newline(y).drop_first() =~= ys1.drop_first().push(Seq::<char>::empty()));
            assert(split_newline(x + y) =~= xs.drop_last() + seq![xs.last() + split_newline(y)[0]]
                + split_newline(y).drop_first());
        } else {
            assert(split_newline(y) == ys1.update(ys1.len() - 1, ys1.last().push(ch)));
            assert(split_newline(x + y) == ps1.update(ps1.len() - 1, ps1.last().push(ch)));
            if ys1.len() == 1 {
                assert((xs.last() + ys1[0]).push(ch) =~= xs.last() + ys1[0].push(ch));
                assert(split_newline(x + y) =~= xs.drop_last() + seq![xs.last() + split_newline(y)[0]]
                    + split_newline(y).drop_first());
            } else {
                assert(split_newline(y).drop_first() =~= ys1.drop_first().update(ys1.len() - 2, ys1.last().push(ch)));
                assert(split_newline(x + y) =~= xs.drop_last() + seq![xs.last() + split_newline(y)[0]]
                    + split_newline(y).drop_first());
            }
        }
    }
}

proof fn lemma_last_piece_has_no_newline(s: Seq<char>)
    ensures
        !split_newline(s).last().contains('\n'),
    decreases s.len(),
{
    lemma_split_nonempty(s);
    if s.len() > 0 {
        lemma_split_nonempty(s.drop_last());
        lemma_last_piece_has_no_newline(s.drop_last());
        let p = split_newline(s.drop_last());
        if s.last() != '\n' {
            assert forall|i: int| 0 <= i < p.last().push(s.last()).len() implies p.last().push(s.last())[i] != '\n' by {
                if i < p.last().len() {
                    assert(p.last()[i] != '\n');
                }
            }
        }
    }
}

proof fn lemma_split_without_newline(s: Seq<char>)
    requires
        !s.contains('\n'),
    ensures
        split_newline(s) == seq![s],
    decreases s.len(),
{
    if s.len() > 0 {
        assert(!s.drop_last().contains('\n')) by {
            if s.drop_last().contains('\n') {
                let i = choose|i: int| 0 <= i < s.drop_last().len() && s.drop_last()[i] == '\n';
                assert(s[i] == '\n');
            }
        }
        lemma_split_without_newline(s.drop_last());
        assert(s.last() != '\n') by {
            assert(s[s.len() - 1] == s.last());
        }
        assert(s.drop_last().push(s.last()) =~= s);
        let p = split_newline(s.drop_last());
        assert(p.update(p.len() - 1, p.last().push(s.last())) =~= seq![s]);
    } else {
        assert(s =~= Seq::<char>::empty());
    }
}

proof fn lemma_buffered_pieces(pending: Seq<char>, chunk: Seq<char>)
    ensures
        buffered_lines(pending, chunk) == (
            stripped(split_newline(pending + chunk).drop_last()),
            split_newline(pending + chunk).last(),
        ),
{
    let c = pending + chunk;
    let p = split_newline(c);
    lemma_split_nonempty(c);
    if c.len() == 0 {
        assert(p =~= seq![Seq::<char>::empty()]);
        assert(stripped(p.drop_last()) =~= Seq::<Seq<char>>::empty());
        assert(lines(c) =~= Seq::<Seq<char>>::empty());
    } else if c.last() == '\n' {
        assert(ends_with(c, seq!['\n'])) by {
            assert(c.subrange(c.len() - 1, c.len() as int) =~= seq!['\n']);
        }
        assert(p.last() == Seq::<char>::empty());
    } else {
        assert(!ends_with(c, seq!['\n'])) by {
            if ends_with(c, seq!['\n']) {
                assert(c.subrange(c.len() - 1, c.len() as int)[0] == c.last());
            }
        }
        let ls = lines(c);
        assert(ls.drop_last() =~= stripped(p.drop_last()));
    }
}

/// Reading a session log in two pieces gives the same complete lines, in order, as
/// reading both pieces at once, and leaves the same text waiting for its newline.
pub proof fn law_split_reads_lose_nothing(pending: Seq<char>, first: Seq<char>, second: Seq<char>)
    ensures
        ({
            let (lines1, rest1) = buffered_lines(pending, first);
            let (lines2, rest2) = buffered_lines(rest1, second);
            let (all, rest) = buffered_lines(pending, first + second);
            &&& lines1 + lines2 == all
            &&& rest2 == rest
        }),
{
    let a = pending + first;
    let pa = split_newline(a);
    lemma_buffered_pieces(pending, first);
    let r1 = pa.last();
    lemma_buffered_pieces(r1, second);
    lemma_buffered_pieces(pending, first + second);
    lemma_last_piece_has_no_newline(a);
    lemma_split_without_newline(r1);
    lemma_split_concat(a, second);
    lemma_split_concat(r1, second);
    lemma_split_nonempty(a);
    lemma_split_nonempty(second);
    assert(pending + (first + second) =~= a + second);
    let p2 = split_newline(r1 + second);
    let pall = split_newline(a + second);
    assert(pall =~= pa.drop_last() + p2);
    assert(pall.drop_last() =~= pa.drop_last() + p2.drop_last());
    assert(stripped(pall.drop_last()) =~= stripped(pa.drop_last()) + stripped(p2.drop_last()));
}


} // verus!
