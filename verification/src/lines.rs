use vstd::prelude::*;

use crate::text::{chars_of, is_space, string_of, trim, trim_str, views};

verus! {

/// `str::split('\n')`: the pieces between newlines (always at least one).
pub open spec fn split_newline(s: Seq<char>) -> Seq<Seq<char>>
    decreases s.len(),
{
    if s.len() == 0 {
        seq![Seq::empty()]
    } else if s.last() == '\n' {
        split_newline(s.drop_last()).push(Seq::empty())
    } else {
        let p = split_newline(s.drop_last());
        p.update(p.len() - 1, p.last().push(s.last()))
    }
}

/// A piece without the carriage return that ended it.
pub open spec fn strip_cr(p: Seq<char>) -> Seq<char> {
    if p.len() > 0 && p.last() == '\r' { p.drop_last() } else { p }
}

/// `str::lines`: pieces ended by `\n` (with a `\r` before it dropped) and a final
/// unterminated piece; no final empty line.
pub open spec fn lines(s: Seq<char>) -> Seq<Seq<char>> {
    let p = split_newline(s);
    let done = p.drop_last().map_values(|x: Seq<char>| strip_cr(x));
    if s.len() == 0 || s.last() == '\n' { done } else { done.push(p.last()) }
}

proof fn lemma_split_len(s: Seq<char>)
    ensures
        split_newline(s).len() >= 1,
    decreases s.len(),
{
    if s.len() > 0 {
        lemma_split_len(s.drop_last());
    }
}

fn strip_cr_exec(p: &Vec<char>) -> (r: String)
    ensures
        r@ == strip_cr(p@),
{
    if p.len() > 0 && p[p.len() - 1] == '\r' {
        let mut q: Vec<char> = Vec::new();
        let mut i: usize = 0;
        while i + 1 < p.len()
            invariant
                i + 1 <= p.len(),
                q@ == p@.take(i as int),
            decreases p.len() - i,
        {
            q.push(p[i]);
            proof {
                assert(p@.take(i + 1) == p@.take(i as int).push(p@[i as int]));
            }
            i += 1;
        }
        assert(q@ == p@.drop_last());
        string_of(&q)
    } else {
        string_of(p)
    }
}

/// `s.lines().map(ToString::to_string).collect()`.
pub fn split_lines(s: &str) -> (r: Vec<String>)
    ensures
        views(r@) == lines(s@),
{
    let v = chars_of(s);
    let mut done: Vec<String> = Vec::new();
    let mut cur: Vec<char> = Vec::new();
    let mut i: usize = 0;
    assert(v@.take(0) == Seq::<char>::empty());
    while i < v.len()
        invariant
            i <= v.len(),
            v@ == s@,
            split_newline(v@.take(i as int)).len() >= 1,
            views(done@) == split_newline(v@.take(i as int)).drop_last().map_values(|x: Seq<char>| strip_cr(x)),
            cur@ == split_newline(v@.take(i as int)).last(),
        decreases v.len() - i,
    {
        let ghost t = v@.take(i as int);
        let ghost t1 = v@.take(i + 1);
        proof {
            assert(t1.drop_last() == t);
            assert(t1.last() == v@[i as int]);
            lemma_split_len(t);
        }
        if v[i] == '\n' {
            let piece = strip_cr_exec(&cur);
            let ghost before = done@;
            done.push(piece);
            cur = Vec::new();
            proof {
                assert(split_newline(t1) == split_newline(t).push(Seq::empty()));
                assert(split_newline(t1).drop_last() == split_newline(t));
                assert(split_newline(t) == split_newline(t).drop_last().push(split_newline(t).last()));
                assert(views(done@) == views(before).push(piece@));
                assert(split_newline(t).map_values(|x: Seq<char>| strip_cr(x))
                    == split_newline(t).drop_last().map_values(|x: Seq<char>| strip_cr(x)).push(strip_cr(split_newline(t).last())));
            }
        } else {
            cur.push(v[i]);
            proof {
                let p = split_newline(t);
                assert(split_newline(t1) == p.update(p.len() - 1, p.last().push(v@[i as int])));
                assert(split_newline(t1).drop_last() == p.drop_last());
            }
        }
        i += 1;
    }
    proof {
        assert(v@.take(v@.len() as int) == v@);
    }
    if v.len() == 0 || v[v.len() - 1] == '\n' {
        proof {
            if v.len() > 0 {
                let t = v@.drop_last();
                assert(split_newline(v@) == split_newline(t).push(Seq::empty()));
            }
        }
        done
    } else {
        let ghost before = done@;
        done.push(string_of(&cur));
        proof {
            assert(views(done@) == views(before).push(cur@));
        }
        done
    }
}

/// The trimmed lines that are not blank.
pub open spec fn nonblank_trimmed(ls: Seq<Seq<char>>) -> Seq<Seq<char>>
    decreases ls.len(),
{
    if ls.len() == 0 {
        Seq::empty()
    } else {
        let front = nonblank_trimmed(ls.drop_last());
        if trim(ls.last()).len() == 0 { front } else { front.push(trim(ls.last())) }
    }
}

/// `stdout.lines().map(str::trim).filter(|line| !line.is_empty())`, owned.
pub fn parse_lines(stdout: &str) -> (r: Vec<String>)
    ensures
        views(r@) == nonblank_trimmed(lines(stdout@)),
{
    let all = split_lines(stdout);
    let mut out: Vec<String> = Vec::new();
    let mut i: usize = 0;
    while i < all.len()
        invariant
            i <= all.len(),
            views(all@) == lines(stdout@),
            views(out@) == nonblank_trimmed(views(all@).take(i as int)),
        decreases all.len() - i,
    {
        let t = trim_str(all[i].as_str());
        proof {
            let w = views(all@).take(i + 1);
            assert(w.drop_last() == views(all@).take(i as int));
            assert(w.last() == all@[i as int]@);
        }
        if !t.as_str().is_empty() {
            let ghost before = out@;
            out.push(t);
            proof {
                assert(views(out@) == views(before).push(t@));
            }
        }
        i += 1;
    }
    proof {
        assert(views(all@).take(all@.len() as int) == views(all@));
    }
    out
}

/// The index of the first `c` in `s`.
pub open spec fn first_index(s: Seq<char>, c: char) -> Option<int>
    decreases s.len(),
{
    if s.len() == 0 {
        None
    } else {
        match first_index(s.drop_last(), c) {
            Some(i) => Some(i),
            None => if s.last() == c { Some(s.len() - 1) } else { None },
        }
    }
}

pub proof fn lemma_first_index(s: Seq<char>, c: char)
    ensures
        first_index(s, c) matches Some(i) ==> 0 <= i < s.len() && s[i] == c
            && forall|j: int| 0 <= j < i ==> s[j] != c,
        first_index(s, c) is None ==> forall|j: int| 0 <= j < s.len() ==> s[j] != c,
    decreases s.len(),
{
    if s.len() > 0 {
        lemma_first_index(s.drop_last(), c);
        assert forall|j: int| 0 <= j < s.len() - 1 implies s.drop_last()[j] == s[j] by {}
    }
}

proof fn lemma_first_index_char(s: Seq<char>, c: char, i: int)
    requires
        0 <= i < s.len(),
        s[i] == c,
        forall|j: int| 0 <= j < i ==> s[j] != c,
    ensures
        first_index(s, c) == Some(i),
{
    lemma_first_index(s, c);
    if first_index(s, c) is None {
        assert(s[i] != c);
    } else {
        let k = first_index(s, c)->0;
        if k < i {
            assert(s[k] != c);
        } else if k > i {
            assert(s[i] != c);
        }
    }
}

/// The index of the first `c`, if any.
pub fn find_char(s: &[char], c: char) -> (r: Option<usize>)
    ensures
        r matches Some(i) ==> first_index(s@, c) == Some(i as int),
        r is None ==> first_index(s@, c) is None,
{
    let mut i: usize = 0;
    while i < s.len()
        invariant
            i <= s.len(),
            forall|j: int| 0 <= j < i ==> s@[j] != c,
        decreases s.len() - i,
    {
        if s[i] == c {
            proof {
                lemma_first_index_char(s@, c, i as int);
            }
            return Some(i);
        }
        i += 1;
    }
    proof {
        lemma_first_index(s@, c);
        if first_index(s@, c) is Some {
            let k = first_index(s@, c)->0;
            assert(s@[k] != c);
        }
    }
    None
}

fn sub_string(v: &[char], from: usize, to: usize) -> (r: String)
    requires
        from <= to <= v.len(),
    ensures
        r@ == v@.subrange(from as int, to as int),
{
    let mut out: Vec<char> = Vec::new();
    let mut k: usize = from;
    while k < to
        invariant
            from <= k <= to,
            to <= v.len(),
            out@ == v@.subrange(from as int, k as int),
        decreases to - k,
    {
        out.push(v[k]);
        k += 1;
    }
    string_of(&out)
}

/// `str::split_once(c)`: the texts before and after the first `c`.
pub open spec fn split_once(s: Seq<char>, c: char) -> Option<(Seq<char>, Seq<char>)> {
    match first_index(s, c) {
        Some(i) => Some((s.take(i), s.skip(i + 1))),
        None => None,
    }
}

pub fn split_once_char(s: &str, c: char) -> (r: Option<(String, String)>)
    ensures
        r matches Some(p) ==> split_once(s@, c) == Some((p.0@, p.1@)),
        r is None ==> split_once(s@, c) is None,
{
    let v = chars_of(s);
    match find_char(v.as_slice(), c) {
        Some(i) => {
            proof {
                lemma_first_index(v@, c);
                assert(first_index(v@, c) == Some(i as int));
            }
            assert(i < v.len());
            let a = sub_string(v.as_slice(), 0, i);
            let b = sub_string(v.as_slice(), i + 1, v.len());
            assert(a@ == v@.take(i as int));
            assert(b@ == v@.skip(i + 1));
            Some((a, b))
        },
        None => None,
    }
}

/// `str::splitn(3, '|')` read as three optional fields.
pub open spec fn three_fields(s: Seq<char>) -> (Option<Seq<char>>, Option<Seq<char>>, Option<Seq<char>>) {
    match split_once(s, '|') {
        None => (Some(s), None, None),
        Some((a, rest)) => match split_once(rest, '|') {
            None => (Some(a), Some(rest), None),
            Some((b, c)) => (Some(a), Some(b), Some(c)),
        },
    }
}

pub fn split_three_fields(s: &str) -> (r: (Option<String>, Option<String>, Option<String>))
    ensures
        (crate::codex::parser::opt_view(r.0), crate::codex::parser::opt_view(r.1), crate::codex::parser::opt_view(r.2))
            == three_fields(s@),
{
    match split_once_char(s, '|') {
        None => (Some(s.to_owned()), None, None),
        Some((a, rest)) => match split_once_char(rest.as_str(), '|') {
            None => (Some(a), Some(rest), None),
            Some((b, c)) => (Some(a), Some(b), Some(c)),
        },
    }
}

/// The text after the last `c`, or the whole text without one (`rsplit(c).next()`).
pub open spec fn after_last(s: Seq<char>, c: char) -> Seq<char>
    decreases s.len(),
{
    if s.len() == 0 {
        s
    } else if s.last() == c {
        Seq::empty()
    } else {
        after_last(s.drop_last(), c).push(s.last())
    }
}

pub fn after_last_char(s: &str, c: char) -> (r: String)
    ensures
        r@ == after_last(s@, c),
{
    let v = chars_of(s);
    let mut out: Vec<char> = Vec::new();
    let mut i: usize = 0;
    while i < v.len()
        invariant
            i <= v.len(),
            out@ == after_last(v@.take(i as int), c),
        decreases v.len() - i,
    {
        proof {
            assert(v@.take(i + 1).drop_last() == v@.take(i as int));
        }
        if v[i] == c {
            out = Vec::new();
        } else {
            out.push(v[i]);
        }
        i += 1;
    }
    proof {
        assert(v@.take(v@.len() as int) == v@);
    }
    string_of(&out)
}

/// `value.replace('\'', "'\\''")`: each single quote closed, escaped and reopened.
pub open spec fn quote_body(s: Seq<char>) -> Seq<char>
    decreases s.len(),
{
    if s.len() == 0 {
        s
    } else if s.last() == '\'' {
        quote_body(s.drop_last()) + seq!['\'', '\\', '\'', '\'']
    } else {
        quote_body(s.drop_last()).push(s.last())
    }
}

/// A text quoted for a POSIX shell: `'…'` with each `'` written as `'\\''`.
pub open spec fn shell_quoted(s: Seq<char>) -> Seq<char> {
    seq!['\''] + quote_body(s) + seq!['\'']
}

pub fn shell_quote(value: &str) -> (r: String)
    ensures
        r@ == shell_quoted(value@),
{
    let v = chars_of(value);
    let mut body: Vec<char> = Vec::new();
    let mut i: usize = 0;
    while i < v.len()
        invariant
            i <= v.len(),
            body@ == quote_body(v@.take(i as int)),
        decreases v.len() - i,
    {
        proof {
            assert(v@.take(i + 1).drop_last() == v@.take(i as int));
        }
        if v[i] == '\'' {
            body.push('\'');
            body.push('\\');
            body.push('\'');
            body.push('\'');
        } else {
            body.push(v[i]);
        }
        i += 1;
    }
    proof {
        assert(v@.take(v@.len() as int) == v@);
    }
    let mut out: Vec<char> = Vec::new();
    out.push('\'');
    let mut k: usize = 0;
    while k < body.len()
        invariant
            k <= body.len(),
            out@ == seq!['\''] + body@.take(k as int),
        decreases body.len() - k,
    {
        out.push(body[k]);
        proof {
            assert(body@.take(k + 1) == body@.take(k as int).push(body@[k as int]));
        }
        k += 1;
    }
    out.push('\'');
    proof {
        assert(body@.take(body@.len() as int) == body@);
    }
    string_of(&out)
}

} // verus!
