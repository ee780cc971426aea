use vstd::prelude::*;

verus! {

/// Whether `c` has Unicode's White_Space property, as `char::is_whitespace` decides it.
pub uninterp spec fn is_white(c: char) -> bool;

/// Relies on `char::is_whitespace`: true exactly for the characters with the
/// White_Space property, a fixed table, so the result depends on `c` alone.
#[verifier::external_body]
fn char_is_whitespace(c: char) -> (r: bool)
    ensures
        r == is_white(c),
{
    c.is_whitespace()
}

/// Relies on std's `FromIterator<char>` for `String`: the string holds the
/// characters in the order given.
#[verifier::external_body]
pub(crate) fn collect_chars_to_string(chars: &[char]) -> (r: String)
    ensures
        r@ == chars@,
{
    chars.iter().collect()
}

/// The views of a sequence of strings.
pub open spec fn views(v: Seq<String>) -> Seq<Seq<char>> {
    v.map_values(|s: String| s@)
}

/// The views of a sequence of character vectors.
pub open spec fn char_views(v: Seq<Vec<char>>) -> Seq<Seq<char>> {
    v.map_values(|s: Vec<char>| s@)
}

/// The views of a sequence of string vectors.
pub open spec fn group_views(v: Seq<Vec<String>>) -> Seq<Seq<String>> {
    v.map_values(|g: Vec<String>| g@)
}

/// A text is blank when every character of it is white space
/// (what `str::trim` would leave empty).
pub open spec fn blank(s: Seq<char>) -> bool {
    forall|i: int| 0 <= i < s.len() ==> is_white(#[trigger] s[i])
}

/// The pieces of `s` between occurrences of `d`, in order, as `str::split`
/// yields them: one more piece than there are delimiters, empty ones included.
pub open spec fn split_on<A>(s: Seq<A>, d: A) -> Seq<Seq<A>>
    decreases s.len(),
{
    if s.len() == 0 {
        seq![Seq::empty()]
    } else {
        let p = split_on(s.drop_last(), d);
        if s.last() == d {
            p.push(Seq::empty())
        } else {
            p.update(p.len() - 1, p.last().push(s.last()))
        }
    }
}

/// A line without the carriage return that ended it, if any.
pub open spec fn strip_cr(l: Seq<char>) -> Seq<char> {
    if l.len() > 0 && l.last() == '\r' {
        l.drop_last()
    } else {
        l
    }
}

/// The lines of a text, as `str::lines` yields them: split at `\n`, each
/// line that a `\n` ends loses a `\r` before it, and a final empty piece
/// (a text that ends in `\n`, or the empty text) is no line.
pub open spec fn lines_of(s: Seq<char>) -> Seq<Seq<char>> {
    let p = split_on(s, '\n');
    let ended = p.drop_last().map_values(|l: Seq<char>| strip_cr(l));
    if p.last().len() == 0 {
        ended
    } else {
        ended.push(p.last())
    }
}

/// Consecutive runs of `w` items of `s`, the last one possibly shorter, as
/// `slice::chunks` yields them; nothing for an empty `s`.
pub open spec fn chunks_of<A>(s: Seq<A>, w: nat) -> Seq<Seq<A>>
    decreases s.len(),
{
    if s.len() == 0 || w == 0 {
        seq![]
    } else if s.len() <= w {
        seq![s]
    } else {
        seq![s.subrange(0, w as int)] + chunks_of(s.subrange(w as int, s.len() as int), w)
    }
}

/// The concatenation of the sequences of `ss`, in order.
pub open spec fn concat_all<A>(ss: Seq<Seq<A>>) -> Seq<A>
    decreases ss.len(),
{
    if ss.len() == 0 {
        seq![]
    } else {
        concat_all(ss.drop_last()) + ss.last()
    }
}

/// Views distribute over a push.
pub proof fn lemma_views_push(v: Seq<String>, s: String)
    ensures
        views(v.push(s)) == views(v).push(s@),
{
    assert(views(v.push(s)) =~= views(v).push(s@));
}

/// Views distribute over a push.
pub proof fn lemma_char_views_push(v: Seq<Vec<char>>, s: Vec<char>)
    ensures
        char_views(v.push(s)) == char_views(v).push(s@),
{
    assert(char_views(v.push(s)) =~= char_views(v).push(s@));
}

/// Views distribute over a push.
pub proof fn lemma_group_views_push(v: Seq<Vec<String>>, g: Vec<String>)
    ensures
        group_views(v.push(g)) == group_views(v).push(g@),
{
    assert(group_views(v.push(g)) =~= group_views(v).push(g@));
}

/// Splitting always gives at least one piece.
pub proof fn lemma_split_on_nonempty<A>(s: Seq<A>, d: A)
    ensures
        split_on(s, d).len() >= 1,
    decreases s.len(),
{
    if s.len() > 0 {
        lemma_split_on_nonempty(s.drop_last(), d);
    }
}

/// The characters of `s`, in order.
pub fn chars_of(s: &str) -> (r: Vec<char>)
    ensures
        r@ == s@,
{
    let mut out: Vec<char> = Vec::new();
    for c in it: s.chars()
        invariant
            out@ == it.seq().subrange(0, it.index() as int),
    {
        out.push(c);
    }
    out
}

/// Whether `s` holds white space only (the empty text included).
pub fn is_blank(s: &str) -> (r: bool)
    ensures
        r == blank(s@),
{
    let chars = chars_of(s);
    let mut i: usize = 0;
    while i < chars.len()
        invariant
            i <= chars.len(),
            chars@ == s@,
            forall|j: int| 0 <= j < i ==> is_white(#[trigger] s@[j]),
        decreases chars.len() - i,
    {
        if !char_is_whitespace(chars[i]) {
            return false;
        }
        i += 1;
    }
    true
}

/// The pieces of `chars` between occurrences of `d`.
pub fn split_chars(chars: &Vec<char>, d: char) -> (r: Vec<Vec<char>>)
    ensures
        char_views(r@) == split_on(chars@, d),
{
    let mut out: Vec<Vec<char>> = Vec::new();
    let mut cur: Vec<char> = Vec::new();
    let mut i: usize = 0;
    while i < chars.len()
        invariant
            i <= chars.len(),
            char_views(out@).push(cur@) == split_on(chars@.subrange(0, i as int), d),
        decreases chars.len() - i,
    {
        let c = chars[i];
        let ghost before = chars@.subrange(0, i as int);
        let ghost after = chars@.subrange(0, i + 1);
        assert(after.drop_last() =~= before);
        assert(after.last() == c);
        proof {
            lemma_split_on_nonempty(before, d);
        }
        if c == d {
            let done = cur;
            out.push(done);
            cur = Vec::new();
            assert(char_views(out@).push(cur@) =~= split_on(after, d));
        } else {
            cur.push(c);
            assert(char_views(out@).push(cur@) =~= split_on(after, d));
        }
        i += 1;
    }
    out.push(cur);
    assert(chars@.subrange(0, chars.len() as int) =~= chars@);
    assert(char_views(out@) =~= split_on(chars@, d));
    out
}

/// The pieces of `s` between occurrences of `d`, as strings.
pub fn split_str(s: &str, d: char) -> (r: Vec<String>)
    ensures
        views(r@) == split_on(s@, d),
{
    let chars = chars_of(s);
    let pieces = split_chars(&chars, d);
    let mut out: Vec<String> = Vec::new();
    let mut i: usize = 0;
    while i < pieces.len()
        invariant
            i <= pieces.len(),
            char_views(pieces@) == split_on(s@, d),
            views(out@) =~= char_views(pieces@).subrange(0, i as int),
        decreases pieces.len() - i,
    {
        let piece = collect_chars_to_string(pieces[i].as_slice());
        assert(piece@ == char_views(pieces@)[i as int]);
        let ghost prev = out@;
        out.push(piece);
        proof {
            lemma_views_push(prev, piece);
        }
        i += 1;
        assert(views(out@) =~= char_views(pieces@).subrange(0, i as int));
    }
    out
}

/// Splits each string of `vec` at every `delimiter`.
pub fn split_strings_in_vec(vec: Vec<String>, delimiter: char) -> (r: Vec<Vec<String>>)
    ensures
        r.len() == vec.len(),
        forall|i: int| 0 <= i < r.len() ==> views(#[trigger] r@[i]@) == split_on(vec@[i]@, delimiter),
{
    let mut out: Vec<Vec<String>> = Vec::new();
    let mut i: usize = 0;
    while i < vec.len()
        invariant
            i <= vec.len(),
            out.len() == i,
            forall|j: int| 0 <= j < i ==> views(#[trigger] out@[j]@) == split_on(vec@[j]@, delimiter),
        decreases vec.len() - i,
    {
        let pieces = split_str(vec[i].as_str(), delimiter);
        out.push(pieces);
        i += 1;
    }
    out
}

/// The lines of `s`, as character vectors.
pub fn lines_chars(s: &str) -> (r: Vec<Vec<char>>)
    ensures
        char_views(r@) == lines_of(s@),
{
    let chars = chars_of(s);
    let pieces = split_chars(&chars, '\n');
    let ghost p = split_on(s@, '\n');
    proof {
        lemma_split_on_nonempty(s@, '\n');
    }
    let n = pieces.len();
    let mut out: Vec<Vec<char>> = Vec::new();
    let mut i: usize = 0;
    while i + 1 < n
        invariant
            n == pieces.len(),
            n >= 1,
            i + 1 <= n,
            char_views(pieces@) == p,
            char_views(out@) =~= p.drop_last().map_values(|l: Seq<char>| strip_cr(l)).subrange(0, i as int),
        decreases n - i,
    {
        let mut line = pieces[i].clone();
        assert(line@ == p[i as int]);
        let len = line.len();
        if len > 0 && line[len - 1] == '\r' {
            line.pop();
        }
        assert(line@ == strip_cr(p[i as int]));
        assert(line@ == p.drop_last().map_values(|l: Seq<char>| strip_cr(l))[i as int]);
        let ghost prev = out@;
        out.push(line);
        proof {
            lemma_char_views_push(prev, line);
        }
        i += 1;
        assert(char_views(out@) =~= p.drop_last().map_values(|l: Seq<char>| strip_cr(l)).subrange(0, i as int));
    }
    let ghost ended = p.drop_last().map_values(|l: Seq<char>| strip_cr(l));
    assert(char_views(out@) =~= ended);
    let last = pieces[n - 1].clone();
    assert(last@ == p.last());
    if last.len() > 0 {
        let ghost prev = out@;
        out.push(last);
        proof {
            lemma_char_views_push(prev, last);
        }
    }
    out
}

/// The lines of `s`, as `str::lines` yields them.
pub fn split_lines(s: &str) -> (r: Vec<String>)
    ensures
        views(r@) == lines_of(s@),
{
    let lines = lines_chars(s);
    let mut out: Vec<String> = Vec::new();
    let mut i: usize = 0;
    while i < lines.len()
        invariant
            i <= lines.len(),
            char_views(lines@) == lines_of(s@),
            views(out@) =~= char_views(lines@).subrange(0, i as int),
        decreases lines.len() - i,
    {
        let line = collect_chars_to_string(lines[i].as_slice());
        assert(line@ == char_views(lines@)[i as int]);
        let ghost prev = out@;
        out.push(line);
        proof {
            lemma_views_push(prev, line);
        }
        i += 1;
        assert(views(out@) =~= char_views(lines@).subrange(0, i as int));
    }
    out
}

/// Runs of `w` characters of `chars`, as strings.
pub fn chunk_chars(chars: &Vec<char>, w: usize) -> (r: Vec<String>)
    requires
        w > 0,
    ensures
        views(r@) == chunks_of(chars@, w as nat),
{
    let n = chars.len();
    let mut out: Vec<String> = Vec::new();
    let mut pos: usize = 0;
    assert(chars@.subrange(0, n as int) =~= chars@);
    assert(views(out@) + chunks_of(chars@, w as nat) =~= chunks_of(chars@, w as nat));
    while pos < n
        invariant
            n == chars.len(),
            w > 0,
            pos <= n,
            views(out@) + chunks_of(chars@.subrange(pos as int, n as int), w as nat)
                == chunks_of(chars@, w as nat),
        decreases n - pos,
    {
        let ghost rest = chars@.subrange(pos as int, n as int);
        let end: usize = if n - pos <= w { n } else { pos + w };
        let mut piece: Vec<char> = Vec::new();
        let mut k: usize = pos;
        while k < end
            invariant
                pos <= k <= end <= n,
                n == chars.len(),
                piece@ == chars@.subrange(pos as int, k as int),
            decreases end - k,
        {
            piece.push(chars[k]);
            k += 1;
            assert(piece@ =~= chars@.subrange(pos as int, k as int));
        }
        out.push(collect_chars_to_string(piece.as_slice()));
        if end == n {
            assert(chunks_of(rest, w as nat) == seq![rest]);
            assert(chars@.subrange(n as int, n as int) =~= Seq::<char>::empty());
            assert(views(out@) =~= views(out@.drop_last()).push(rest));
        } else {
            assert(rest.subrange(0, w as int) =~= chars@.subrange(pos as int, end as int));
            assert(rest.subrange(w as int, rest.len() as int) =~= chars@.subrange(end as int, n as int));
            assert(views(out@) =~= views(out@.drop_last()).push(piece@));
        }
        pos = end;
    }
    assert(chars@.subrange(n as int, n as int) =~= Seq::<char>::empty());
    assert(views(out@) + Seq::<Seq<char>>::empty() =~= views(out@));
    out
}

/// Groups the strings of `vec` into runs of `chunk_size`, in order, the
/// last run possibly shorter.
pub fn split_into_chunks(vec: Vec<String>, chunk_size: usize) -> (r: Vec<Vec<String>>)
    requires
        chunk_size > 0,
    ensures
        group_views(r@) == chunks_of(vec@, chunk_size as nat),
{
    let n = vec.len();
    let w = chunk_size;
    let mut out: Vec<Vec<String>> = Vec::new();
    let mut pos: usize = 0;
    assert(vec@.subrange(0, n as int) =~= vec@);
    assert(group_views(out@) + chunks_of(vec@, w as nat) =~= chunks_of(vec@, w as nat));
    while pos < n
        invariant
            n == vec.len(),
            w > 0,
            pos <= n,
            group_views(out@) + chunks_of(vec@.subrange(pos as int, n as int), w as nat)
                == chunks_of(vec@, w as nat),
        decreases n - pos,
    {
        let ghost rest = vec@.subrange(pos as int, n as int);
        let end: usize = if n - pos <= w { n } else { pos + w };
        let mut piece: Vec<String> = Vec::new();
        let mut k: usize = pos;
        while k < end
            invariant
                pos <= k <= end <= n,
                n == vec.len(),
                piece@ == vec@.subrange(pos as int, k as int),
            decreases end - k,
        {
            piece.push(vec[k].clone());
            k += 1;
            assert(piece@ =~= vec@.subrange(pos as int, k as int));
        }
        let ghost prev = out@;
        out.push(piece);
        proof {
            lemma_group_views_push(prev, piece);
        }
        if end == n {
            assert(chunks_of(rest, w as nat) == seq![rest]);
            assert(vec@.subrange(n as int, n as int) =~= Seq::<String>::empty());
        } else {
            assert(rest.subrange(0, w as int) =~= vec@.subrange(pos as int, end as int));
            assert(rest.subrange(w as int, rest.len() as int) =~= vec@.subrange(end as int, n as int));
        }
        assert(group_views(out@) + chunks_of(vec@.subrange(end as int, n as int), w as nat)
            =~= group_views(prev) + chunks_of(rest, w as nat));
        pos = end;
    }
    assert(vec@.subrange(n as int, n as int) =~= Seq::<String>::empty());
    assert(group_views(out@) + Seq::<Seq<String>>::empty() =~= group_views(out@));
    out
}

} // verus!
