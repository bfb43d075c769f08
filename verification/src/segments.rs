//! Splitting a route string into its `/`-separated segments.
use vstd::prelude::*;

verus! {

/// The pieces of `s` between occurrences of `sep`, left to right, as
/// `str::split` yields them: one more piece than there are separators, empty
/// pieces included (so the empty string has one, empty, piece).
pub open spec fn split_on(s: Seq<char>, sep: char) -> Seq<Seq<char>>
    decreases s.len(),
{
    if s.len() == 0 {
        seq![Seq::empty()]
    } else {
        let prev = split_on(s.drop_last(), sep);
        if s.last() == sep {
            prev.push(Seq::empty())
        } else {
            prev.update(prev.len() - 1, prev.last().push(s.last()))
        }
    }
}

/// The segments of a route: its pieces between `/`, where a leading `/`
/// is ignored (the empty piece in front of it is dropped).
pub open spec fn route_segments(s: Seq<char>) -> Seq<Seq<char>> {
    if s.len() > 0 && s[0] == '/' {
        split_on(s, '/').drop_first()
    } else {
        split_on(s, '/')
    }
}

/// The character sequences of a list of string slices.
pub open spec fn views_of(parts: Seq<&str>) -> Seq<Seq<char>> {
    parts.map_values(|p: &str| p@)
}

/// A split always has at least one piece.
pub proof fn lemma_split_on_nonempty(s: Seq<char>, sep: char)
    ensures
        split_on(s, sep).len() >= 1,
    decreases s.len(),
{
    if s.len() > 0 {
        lemma_split_on_nonempty(s.drop_last(), sep);
    }
}

/// Splitting `sep` followed by `t` gives an empty piece followed by the
/// pieces of `t`.
pub proof fn lemma_split_on_leading_sep(t: Seq<char>, sep: char)
    ensures
        split_on(seq![sep] + t, sep) == seq![Seq::<char>::empty()] + split_on(t, sep),
    decreases t.len(),
{
    let s = seq![sep] + t;
    if t.len() == 0 {
        assert(s.drop_last() =~= Seq::<char>::empty());
        assert(s.last() == sep);
        assert(split_on(s.drop_last(), sep) == seq![Seq::<char>::empty()]);
        assert(split_on(s, sep) =~= seq![Seq::<char>::empty()] + split_on(t, sep));
    } else {
        let e = Seq::<char>::empty();
        let pt = split_on(t.drop_last(), sep);
        assert(s.drop_last() =~= seq![sep] + t.drop_last());
        assert(s.last() == t.last());
        lemma_split_on_leading_sep(t.drop_last(), sep);
        lemma_split_on_nonempty(t.drop_last(), sep);
        let ps = seq![e] + pt;
        assert(split_on(s.drop_last(), sep) == ps);
        if t.last() == sep {
            assert(ps.push(e) =~= seq![e] + pt.push(e));
        } else {
            assert(ps.update(ps.len() - 1, ps.last().push(t.last())) =~= seq![e] + pt.update(
                pt.len() - 1,
                pt.last().push(t.last()),
            ));
        }
    }
}

/// Whether two string slices hold the same characters, decided by comparing
/// their UTF-8 bytes.
pub fn str_eq(a: &str, b: &str) -> (r: bool)
    ensures
        r == (a@ == b@),
{
    let x = a.as_bytes();
    let y = b.as_bytes();
    proof {
        vstd::utf8::encode_utf8_decode_utf8(a@);
        vstd::utf8::encode_utf8_decode_utf8(b@);
    }
    if x.len() != y.len() {
        return false;
    }
    let mut i: usize = 0;
    while i < x.len()
        invariant
            x@ == vstd::utf8::encode_utf8(a@),
            y@ == vstd::utf8::encode_utf8(b@),
            x@.len() == y@.len(),
            i <= x@.len(),
            x@.take(i as int) == y@.take(i as int),
        decreases x@.len() - i,
    {
        if x[i] != y[i] {
            return false;
        }
        assert(x@.take(i + 1) =~= x@.take(i as int).push(x@[i as int]));
        assert(y@.take(i + 1) =~= y@.take(i as int).push(y@[i as int]));
        i = i + 1;
    }
    assert(x@ =~= x@.take(i as int));
    assert(y@ =~= y@.take(i as int));
    true
}

/// Splits `s` at every `/`, keeping empty pieces.
pub fn split_slashes(s: &str) -> (parts: Vec<&str>)
    ensures
        views_of(parts@) == split_on(s@, '/'),
{
    broadcast use vstd::string::group_string_axioms;

    let n = s.unicode_len();
    let mut parts: Vec<&str> = Vec::new();
    let mut start: usize = 0;
    let mut i: usize = 0;
    assert(s@.take(0) =~= Seq::<char>::empty());
    assert(views_of(parts@) =~= Seq::<Seq<char>>::empty());
    for c in it: s.chars()
        invariant
            n == s@.len(),
            it.seq() == s@,
            i == it.index(),
            start <= i <= n,
            split_on(s@.take(i as int), '/') == views_of(parts@).push(
                s@.subrange(start as int, i as int),
            ),
    {
        let ghost before = views_of(parts@);
        assert(s@.take(i + 1).drop_last() =~= s@.take(i as int));
        assert(s@.take(i + 1).last() == c);
        if c == '/' {
            let piece = s.substring_char(start, i);
            parts.push(piece);
            assert(views_of(parts@) =~= before.push(piece@));
            start = i + 1;
            assert(s@.subrange(start as int, (i + 1) as int) =~= Seq::<char>::empty());
        } else {
            assert(s@.subrange(start as int, (i + 1) as int) =~= s@.subrange(
                start as int,
                i as int,
            ).push(c));
        }
        i = i + 1;
    }
    assert(s@.take(n as int) =~= s@);
    let last = s.substring_char(start, n);
    let ghost before = views_of(parts@);
    parts.push(last);
    assert(views_of(parts@) =~= before.push(last@));
    parts
}

/// The segments of route `s`: its pieces between `/`, with the empty piece
/// in front of a leading `/` left out.
pub fn route_parts(s: &str) -> (parts: Vec<&str>)
    ensures
        views_of(parts@) == route_segments(s@),
{
    let mut parts = split_slashes(s);
    if !s.is_empty() && s.get_char(0) == '/' {
        proof {
            lemma_split_on_nonempty(s@, '/');
        }
        let ghost all = views_of(parts@);
        parts.remove(0);
        assert(views_of(parts@) =~= all.drop_first());
    }
    parts
}

} // verus!
