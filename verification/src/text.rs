use vstd::prelude::*;

verus! {

/// The result of replacing, left to right, every non-overlapping occurrence
/// of `pat` in `s` by `rep` (the semantics of `str::replace`). An empty
/// pattern replaces nothing.
pub open spec fn replace_seq(s: Seq<char>, pat: Seq<char>, rep: Seq<char>) -> Seq<char>
    decreases s.len(),
{
    if pat.len() == 0 || s.len() < pat.len() {
        s
    } else if s.take(pat.len() as int) == pat {
        rep + replace_seq(s.skip(pat.len() as int), pat, rep)
    } else {
        seq![s[0]] + replace_seq(s.skip(1), pat, rep)
    }
}

/// `parts` joined with `sep` between consecutive parts.
pub open spec fn join_seq(parts: Seq<Seq<char>>, sep: Seq<char>) -> Seq<char>
    decreases parts.len(),
{
    if parts.len() == 0 {
        Seq::empty()
    } else if parts.len() == 1 {
        parts[0]
    } else {
        join_seq(parts.drop_last(), sep) + sep + parts.last()
    }
}

/// Appends every character of `src` to `r`.
pub fn push_all(r: &mut Vec<char>, src: &Vec<char>)
    ensures
        final(r)@ == old(r)@ + src@,
{
    let mut j: usize = 0;
    while j < src.len()
        invariant
            j <= src@.len(),
            r@ == old(r)@ + src@.take(j as int),
        decreases src@.len() - j,
    {
        r.push(src[j]);
        j = j + 1;
        assert(old(r)@ + src@.take(j - 1) + seq![src@[j - 1]] =~= old(r)@ + src@.take(
            j as int,
        ));
    }
    assert(src@.take(src@.len() as int) =~= src@);
}

/// The characters of `s`, as a vector.
pub fn str_chars(s: &str) -> (r: Vec<char>)
    ensures
        r@ == s@,
{
    let n = s.unicode_len();
    let mut r: Vec<char> = Vec::new();
    let mut i: usize = 0;
    while i < n
        invariant
            n == s@.len(),
            i <= n,
            r@ == s@.take(i as int),
        decreases n - i,
    {
        r.push(s.get_char(i));
        i = i + 1;
        assert(s@.take(i - 1).push(s@[i - 1]) =~= s@.take(i as int));
    }
    assert(s@.take(n as int) =~= s@);
    r
}

/// Relies on `String: FromIterator<char>`: collecting an iterator of
/// characters yields the string of exactly those characters, in order.
#[verifier::external_body]
pub fn chars_string(v: &Vec<char>) -> (r: String)
    ensures
        r@ == v@,
{
    v.iter().collect()
}

/// Whether `pat` occurs in `text` starting at position `i`.
pub fn window_eq(text: &Vec<char>, i: usize, pat: &Vec<char>) -> (b: bool)
    requires
        i + pat@.len() <= text@.len(),
    ensures
        b == (text@.subrange(i as int, i + pat@.len()) == pat@),
{
    let m = pat.len();
    let n = text.len();
    let mut j: usize = 0;
    while j < m
        invariant
            m == pat@.len(),
            n == text@.len(),
            i + m <= n,
            j <= m,
            forall|k: int| 0 <= k < j ==> text@[i + k] == pat@[k],
        decreases m - j,
    {
        if text[i + j] != pat[j] {
            assert(text@.subrange(i as int, i + pat@.len())[j as int] != pat@[j as int]);
            return false;
        }
        j = j + 1;
    }
    assert(text@.subrange(i as int, i + pat@.len()) =~= pat@);
    true
}

/// Replaces, left to right, every non-overlapping occurrence of `pat` in
/// `text` by `rep`.
pub fn replace_all(text: &Vec<char>, pat: &Vec<char>, rep: &Vec<char>) -> (r: Vec<char>)
    requires
        pat@.len() > 0,
    ensures
        r@ == replace_seq(text@, pat@, rep@),
{
    let mut r: Vec<char> = Vec::new();
    let mut i: usize = 0;
    assert(text@.skip(0) =~= text@);
    assert(r@ + replace_seq(text@, pat@, rep@) =~= replace_seq(text@, pat@, rep@));
    while i < text.len()
        invariant
            pat@.len() > 0,
            i <= text@.len(),
            replace_seq(text@, pat@, rep@) == r@ + replace_seq(text@.skip(i as int), pat@, rep@),
        decreases text@.len() - i,
    {
        let ghost rest = text@.skip(i as int);
        if pat.len() <= text.len() - i && window_eq(text, i, pat) {
            assert(rest.take(pat@.len() as int) =~= text@.subrange(i as int, i + pat@.len()));
            let ghost r_before = r@;
            push_all(&mut r, rep);
            i = i + pat.len();
            assert(rest.skip(pat@.len() as int) =~= text@.skip(i as int));
            assert(replace_seq(rest, pat@, rep@) == rep@ + replace_seq(
                text@.skip(i as int),
                pat@,
                rep@,
            ));
            assert(r_before + (rep@ + replace_seq(text@.skip(i as int), pat@, rep@)) =~= r@
                + replace_seq(text@.skip(i as int), pat@, rep@));
        } else {
            let ghost r_before = r@;
            r.push(text[i]);
            i = i + 1;
            assert(rest.skip(1) =~= text@.skip(i as int));
            proof {
                if rest.len() < pat@.len() {
                    // no further match fits: the tail is copied unchanged
                    assert(replace_seq(rest, pat@, rep@) == rest);
                    assert(replace_seq(text@.skip(i as int), pat@, rep@) == text@.skip(i as int));
                    assert(rest =~= seq![rest[0]] + rest.skip(1));
                } else {
                    assert(rest.take(pat@.len() as int) =~= text@.subrange(
                        i - 1,
                        i - 1 + pat@.len(),
                    ));
                    assert(replace_seq(rest, pat@, rep@) == seq![rest[0]] + replace_seq(
                        rest.skip(1),
                        pat@,
                        rep@,
                    ));
                }
            }
            assert(r_before + (seq![rest[0]] + replace_seq(text@.skip(i as int), pat@, rep@)) =~= r@
                + replace_seq(text@.skip(i as int), pat@, rep@));
        }
    }
    assert(text@.skip(text@.len() as int) =~= Seq::<char>::empty());
    assert(replace_seq(Seq::<char>::empty(), pat@, rep@) =~= Seq::<char>::empty());
    assert(r@ + Seq::<char>::empty() =~= r@);
    r
}

/// Joins the parts with the separator between consecutive parts.
pub fn join_chars(parts: &Vec<Vec<char>>, sep: &Vec<char>) -> (r: Vec<char>)
    ensures
        r@ == join_seq(parts@.map_values(|p: Vec<char>| p@), sep@),
{
    let ghost m = parts@.map_values(|p: Vec<char>| p@);
    let mut r: Vec<char> = Vec::new();
    let mut i: usize = 0;
    while i < parts.len()
        invariant
            m == parts@.map_values(|p: Vec<char>| p@),
            i <= parts@.len(),
            r@ == join_seq(m.take(i as int), sep@),
        decreases parts@.len() - i,
    {
        if i > 0 {
            push_all(&mut r, sep);
        }
        push_all(&mut r, &parts[i]);
        i = i + 1;
        assert(m.take(i as int).drop_last() =~= m.take(i - 1));
        assert(m.take(i as int).last() == parts@[i - 1]@);
    }
    assert(m.take(parts@.len() as int) =~= m);
    r
}

} // verus!
