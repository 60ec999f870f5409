use vstd::prelude::*;

verus! {

/// The whitespace characters recognized by the parsers: space, tab,
/// line feed, carriage return.
pub open spec fn is_space(c: char) -> bool {
    c == ' ' || c == '\t' || c == '\n' || c == '\r'
}

/// Whether `c` is a decimal digit.
pub open spec fn is_digit(c: char) -> bool {
    '0' <= c && c <= '9'
}

/// The numeric value of a sequence of decimal digits, most significant first.
pub open spec fn digits_val(s: Seq<char>) -> int
    decreases s.len(),
{
    if s.len() == 0 {
        0
    } else {
        digits_val(s.drop_last()) * 10 + (s.last() as int - '0' as int)
    }
}

/// Whether every character of `s` is a decimal digit.
pub open spec fn all_digits(s: Seq<char>) -> bool {
    forall|i: int| 0 <= i < s.len() ==> is_digit(s[i])
}

/// `s` split at every occurrence of `c`; adjacent separators and separators
/// at the ends yield empty segments, and the result is never empty.
pub open spec fn split_seq(s: Seq<char>, c: char) -> Seq<Seq<char>>
    decreases s.len(),
{
    if s.len() == 0 {
        seq![Seq::empty()]
    } else if s.last() == c {
        split_seq(s.drop_last(), c) + seq![Seq::empty()]
    } else {
        let rest = split_seq(s.drop_last(), c);
        rest.update(rest.len() - 1, rest.last() + seq![s.last()])
    }
}

pub proof fn lemma_split_seq_len(s: Seq<char>, c: char)
    ensures
        split_seq(s, c).len() >= 1,
    decreases s.len(),
{
    if s.len() > 0 {
        lemma_split_seq_len(s.drop_last(), c);
    }
}

/// `s` with every whitespace character replaced by a plain space.
pub open spec fn space_normal(s: Seq<char>) -> Seq<char> {
    s.map_values(|c: char| if is_space(c) { ' ' } else { c })
}

/// The non-empty segments of `ps`, in order.
pub open spec fn nonempty_segs(ps: Seq<Seq<char>>) -> Seq<Seq<char>>
    decreases ps.len(),
{
    if ps.len() == 0 {
        Seq::empty()
    } else {
        let rest = nonempty_segs(ps.drop_last());
        if ps.last().len() > 0 {
            rest + seq![ps.last()]
        } else {
            rest
        }
    }
}

/// The whitespace-separated tokens of `s`: maximal runs of non-whitespace
/// characters, in order.
pub open spec fn ws_tokens(s: Seq<char>) -> Seq<Seq<char>> {
    nonempty_segs(split_seq(space_normal(s), ' '))
}

/// `s` without leading whitespace.
pub open spec fn trim_start_seq(s: Seq<char>) -> Seq<char>
    decreases s.len(),
{
    if s.len() > 0 && is_space(s[0]) {
        trim_start_seq(s.skip(1))
    } else {
        s
    }
}

/// `s` without trailing whitespace.
pub open spec fn trim_end_seq(s: Seq<char>) -> Seq<char>
    decreases s.len(),
{
    if s.len() > 0 && is_space(s.last()) {
        trim_end_seq(s.drop_last())
    } else {
        s
    }
}

/// `s` without leading and trailing whitespace.
pub open spec fn trim_seq(s: Seq<char>) -> Seq<char> {
    trim_end_seq(trim_start_seq(s))
}

/// The value of `s` read as an unsigned decimal integer: defined when `s` is
/// one or more digits and the value fits, as for `str::parse::<u64>` without
/// a sign.
pub open spec fn parse_u64_seq(s: Seq<char>) -> Option<u64> {
    if s.len() > 0 && all_digits(s) && digits_val(s) <= u64::MAX {
        Some(digits_val(s) as u64)
    } else {
        None
    }
}

/// As `parse_u64_seq`, bounded to eight unsigned bits.
pub open spec fn parse_u8_seq(s: Seq<char>) -> Option<u8> {
    if s.len() > 0 && all_digits(s) && digits_val(s) <= 255 {
        Some(digits_val(s) as u8)
    } else {
        None
    }
}

/// The first two decimal places of a fraction written as the digits `fp`,
/// rounded half up on the third digit.
pub open spec fn frac_centi(fp: Seq<char>) -> int {
    if fp.len() == 0 {
        0
    } else if fp.len() == 1 {
        (fp[0] as int - '0' as int) * 10
    } else {
        (fp[0] as int - '0' as int) * 10 + (fp[1] as int - '0' as int) + if fp.len() > 2 && fp[2]
            >= '5' {
            1int
        } else {
            0int
        }
    }
}

/// The value of `t`, read as an unsigned decimal number with an optional
/// fractional part, in hundredths, rounded half up on the third decimal
/// place; 0 when `t` is not of that shape or the value does not fit.
pub open spec fn centi_val(t: Seq<char>) -> int {
    let dot = find_idx(t, '.');
    let ip = if dot < 0 {
        t
    } else {
        t.take(dot)
    };
    let fp = if dot < 0 {
        Seq::<char>::empty()
    } else {
        t.skip(dot + 1)
    };
    if ip.len() > 0 && all_digits(ip) && all_digits(fp) && digits_val(ip) * 100 + frac_centi(fp)
        <= u64::MAX {
        digits_val(ip) * 100 + frac_centi(fp)
    } else {
        0
    }
}

/// The index of the first occurrence of `c` in `s`, or -1 if there is none.
pub open spec fn find_idx(s: Seq<char>, c: char) -> int
    decreases s.len(),
{
    if s.len() == 0 {
        -1
    } else if s[0] == c {
        0
    } else {
        let r = find_idx(s.skip(1), c);
        if r < 0 {
            -1
        } else {
            r + 1
        }
    }
}

/// Whether `pat` occurs in `t` as a contiguous subsequence.
pub open spec fn contains_seq(t: Seq<char>, pat: Seq<char>) -> bool {
    exists|k: int|
        0 <= k && k + pat.len() <= t.len() && #[trigger] t.subrange(k, k + pat.len()) == pat
}

pub proof fn lemma_digits_val_nonneg(s: Seq<char>)
    requires
        all_digits(s),
    ensures
        digits_val(s) >= 0,
    decreases s.len(),
{
    if s.len() > 0 {
        assert(all_digits(s.drop_last()));
        lemma_digits_val_nonneg(s.drop_last());
        assert(is_digit(s.last()));
    }
}

proof fn lemma_digits_val_prefix_le(s: Seq<char>, i: int)
    requires
        all_digits(s),
        0 <= i <= s.len(),
    ensures
        digits_val(s.take(i)) <= digits_val(s),
    decreases s.len() - i,
{
    assert(all_digits(s.take(i)));
    if i < s.len() {
        lemma_digits_val_prefix_le(s, i + 1);
        assert(s.take(i + 1).drop_last() =~= s.take(i));
        assert(s.take(i + 1).last() == s[i]);
        assert(all_digits(s.take(i)));
        lemma_digits_val_nonneg(s.take(i));
        assert(is_digit(s[i]));
        assert(digits_val(s.take(i + 1)) == digits_val(s.take(i)) * 10 + (s[i] as int
            - '0' as int));
    } else {
        assert(s.take(i) =~= s);
    }
}

/// Whether `c` is a whitespace character.
pub fn is_space_char(c: char) -> (b: bool)
    ensures
        b == is_space(c),
{
    c == ' ' || c == '\t' || c == '\n' || c == '\r'
}

/// Whether `c` is a decimal digit.
pub fn is_digit_char(c: char) -> (b: bool)
    ensures
        b == is_digit(c),
{
    '0' <= c && c <= '9'
}

/// The characters of `s` from `a` (included) to `b` (excluded).
pub fn slice_range(s: &Vec<char>, a: usize, b: usize) -> (r: Vec<char>)
    requires
        a <= b && b <= s@.len(),
    ensures
        r@ == s@.subrange(a as int, b as int),
{
    let mut r: Vec<char> = Vec::new();
    let mut j: usize = a;
    while j < b
        invariant
            a <= j <= b <= s@.len(),
            r@ == s@.subrange(a as int, j as int),
        decreases b - j,
    {
        r.push(s[j]);
        j = j + 1;
        assert(r@ =~= s@.subrange(a as int, j as int));
    }
    r
}

/// Whether `t` begins with `pat`.
pub fn starts_with_chars(t: &Vec<char>, pat: &Vec<char>) -> (b: bool)
    ensures
        b == (t@.len() >= pat@.len() && t@.take(pat@.len() as int) == pat@),
{
    if pat.len() > t.len() {
        return false;
    }
    let b = crate::text::window_eq(t, 0, pat);
    assert(t@.subrange(0, pat@.len() as int) =~= t@.take(pat@.len() as int));
    b
}

/// Whether `pat` occurs anywhere in `t`.
pub fn contains_chars(t: &Vec<char>, pat: &Vec<char>) -> (b: bool)
    requires
        pat@.len() > 0,
    ensures
        b == contains_seq(t@, pat@),
{
    if pat.len() > t.len() {
        assert(!contains_seq(t@, pat@));
        return false;
    }
    let mut k: usize = 0;
    let last = t.len() - pat.len();
    while k <= last
        invariant
            0 < pat@.len() <= t@.len(),
            t@.len() <= usize::MAX,
            last == t@.len() - pat@.len(),
            k <= last + 1,
            forall|j: int|
                0 <= j < k ==> #[trigger] t@.subrange(j, j + pat@.len()) != pat@,
        decreases last - k + 1,
    {
        if crate::text::window_eq(t, k, pat) {
            assert(contains_seq(t@, pat@));
            return true;
        }
        k = k + 1;
    }
    assert(!contains_seq(t@, pat@));
    false
}

/// Whether the two vectors hold the same characters.
pub fn chars_eq(a: &Vec<char>, b: &Vec<char>) -> (r: bool)
    ensures
        r == (a@ == b@),
{
    if a.len() != b.len() {
        return false;
    }
    let b2 = crate::text::window_eq(a, 0, b);
    assert(a@.subrange(0, b@.len() as int) =~= a@);
    b2
}

/// The index of the first occurrence of `c` in `s`, if any.
pub fn find_char(s: &Vec<char>, c: char) -> (r: Option<usize>)
    ensures
        match r {
            Some(k) => k < s@.len() && find_idx(s@, c) == k as int,
            None => find_idx(s@, c) == -1,
        },
{
    let mut i: usize = 0;
    assert(s@.skip(0) =~= s@);
    while i < s.len()
        invariant
            i <= s@.len(),
            find_idx(s@, c) == if find_idx(s@.skip(i as int), c) < 0 {
                -1int
            } else {
                find_idx(s@.skip(i as int), c) + i
            },
            forall|j: int| 0 <= j < i ==> s@[j] != c,
        decreases s@.len() - i,
    {
        let ghost rest = s@.skip(i as int);
        if s[i] == c {
            assert(rest[0] == c);
            assert(find_idx(rest, c) == 0);
            return Some(i);
        }
        i = i + 1;
        assert(rest.skip(1) =~= s@.skip(i as int));
        assert(rest[0] != c);
    }
    assert(s@.skip(i as int) =~= Seq::<char>::empty());
    assert(find_idx(Seq::<char>::empty(), c) == -1);
    None
}

/// `s` split at every occurrence of `c`.
pub fn split_on(s: &Vec<char>, c: char) -> (r: Vec<Vec<char>>)
    ensures
        r@.map_values(|p: Vec<char>| p@) == split_seq(s@, c),
        r@.len() >= 1,
{
    let mut out: Vec<Vec<char>> = Vec::new();
    let mut cur: Vec<char> = Vec::new();
    let mut i: usize = 0;
    assert(s@.take(0) =~= Seq::<char>::empty());
    assert(out@.map_values(|p: Vec<char>| p@) + seq![cur@] =~= split_seq(s@.take(0), c));
    while i < s.len()
        invariant
            i <= s@.len(),
            out@.map_values(|p: Vec<char>| p@) + seq![cur@] == split_seq(s@.take(i as int), c),
        decreases s@.len() - i,
    {
        let ghost out_old = out@.map_values(|p: Vec<char>| p@);
        let ghost cur_old = cur@;
        if s[i] == c {
            out.push(cur);
            cur = Vec::new();
        } else {
            cur.push(s[i]);
        }
        i = i + 1;
        proof {
            let pre = s@.take(i - 1);
            let now = s@.take(i as int);
            assert(now.drop_last() =~= pre);
            assert(now.last() == s@[i - 1]);
            if s@[i - 1] == c {
                assert(split_seq(now, c) == split_seq(pre, c) + seq![Seq::<char>::empty()]);
                assert(out@.map_values(|p: Vec<char>| p@) + seq![cur@] =~= split_seq(now, c));
            } else {
                let rest = split_seq(pre, c);
                lemma_split_seq_len(pre, c);
                assert(rest == out_old + seq![cur_old]);
                assert(rest.last() == cur_old);
                assert(split_seq(now, c) == rest.update(rest.len() - 1, cur_old + seq![s@[i - 1]]));
                assert(cur@ =~= cur_old + seq![s@[i - 1]]);
                assert(out@.map_values(|p: Vec<char>| p@) + seq![cur@] =~= split_seq(now, c));
            }
        }
    }
    assert(s@.take(s@.len() as int) =~= s@);
    out.push(cur);
    assert(out@.map_values(|p: Vec<char>| p@) =~= split_seq(s@, c));
    out
}

/// The non-empty segments of `parts`, in order.
pub fn filter_nonempty(parts: &Vec<Vec<char>>) -> (r: Vec<Vec<char>>)
    ensures
        r@.map_values(|p: Vec<char>| p@) == nonempty_segs(parts@.map_values(|p: Vec<char>| p@)),
{
    let ghost views = parts@.map_values(|p: Vec<char>| p@);
    let mut r: Vec<Vec<char>> = Vec::new();
    let mut i: usize = 0;
    assert(views.take(0) =~= Seq::<Seq<char>>::empty());
    while i < parts.len()
        invariant
            views == parts@.map_values(|p: Vec<char>| p@),
            i <= parts@.len(),
            r@.map_values(|p: Vec<char>| p@) == nonempty_segs(views.take(i as int)),
        decreases parts@.len() - i,
    {
        let ghost r_old = r@.map_values(|p: Vec<char>| p@);
        if parts[i].len() > 0 {
            let part = slice_range(&parts[i], 0, parts[i].len());
            assert(part@ =~= views[i as int]);
            r.push(part);
            assert(r@.map_values(|p: Vec<char>| p@) =~= r_old + seq![views[i as int]]);
        } else {
            assert(views[i as int] == parts@[i as int]@);
            assert(views[i as int].len() == 0);
        }
        i = i + 1;
        proof {
            assert(views.take(i as int).drop_last() =~= views.take(i - 1));
            assert(views.take(i as int).last() == views[i - 1]);
        }
    }
    assert(views.take(parts@.len() as int) =~= views);
    r
}

/// The whitespace-separated tokens of `s`.
pub fn tokens_of(s: &Vec<char>) -> (r: Vec<Vec<char>>)
    ensures
        r@.map_values(|p: Vec<char>| p@) == ws_tokens(s@),
{
    let mut normal: Vec<char> = Vec::new();
    let mut i: usize = 0;
    while i < s.len()
        invariant
            i <= s@.len(),
            normal@.len() == i as int,
            forall|k: int|
                0 <= k < i ==> normal@[k] == (if is_space(s@[k]) {
                    ' '
                } else {
                    s@[k]
                }),
        decreases s@.len() - i,
    {
        if is_space_char(s[i]) {
            normal.push(' ');
        } else {
            normal.push(s[i]);
        }
        i = i + 1;
    }
    assert(normal@ =~= space_normal(s@));
    let parts = split_on(&normal, ' ');
    filter_nonempty(&parts)
}

/// `s` without leading and trailing whitespace.
pub fn trim_chars(s: &Vec<char>) -> (r: Vec<char>)
    ensures
        r@ == trim_seq(s@),
{
    let n = s.len();
    let mut start: usize = 0;
    assert(s@.skip(0) =~= s@);
    while start < n && is_space_char(s[start])
        invariant
            n == s@.len(),
            start <= n,
            trim_start_seq(s@) == trim_start_seq(s@.skip(start as int)),
        decreases n - start,
    {
        let ghost rest = s@.skip(start as int);
        start = start + 1;
        assert(rest.skip(1) =~= s@.skip(start as int));
    }
    proof {
        let rest = s@.skip(start as int);
        if start == n {
            assert(rest =~= Seq::<char>::empty());
        }
        assert(trim_start_seq(rest) == rest);
    }
    // the leading whitespace is gone: now scan trailing whitespace
    let ghost t = s@.skip(start as int);
    let mut end: usize = n;
    assert(t.take((end - start) as int) =~= t);
    while end > start && is_space_char(s[end - 1])
        invariant
            n == s@.len(),
            start <= end <= n,
            t == s@.skip(start as int),
            trim_end_seq(t) == trim_end_seq(t.take((end - start) as int)),
        decreases end,
    {
        let ghost cut = t.take((end - start) as int);
        end = end - 1;
        assert(cut.last() == s@[end as int]);
        assert(cut.drop_last() =~= t.take((end - start) as int));
    }
    proof {
        let cut = t.take((end - start) as int);
        if end > start {
            assert(cut.last() == s@[end - 1]);
            assert(!is_space(cut.last()));
        }
        assert(trim_end_seq(cut) == cut);
        assert(t.take((end - start) as int) =~= s@.subrange(start as int, end as int));
    }
    slice_range(s, start, end)
}

/// `s` read as an unsigned decimal integer, when it is one or more digits
/// whose value fits in a `u64`.
pub fn parse_u64_chars(s: &Vec<char>) -> (r: Option<u64>)
    ensures
        r == parse_u64_seq(s@),
{
    if s.len() == 0 {
        return None;
    }
    let mut acc: u64 = 0;
    let mut i: usize = 0;
    assert(s@.take(0) =~= Seq::<char>::empty());
    while i < s.len()
        invariant
            i <= s@.len(),
            s@.len() > 0,
            all_digits(s@.take(i as int)),
            acc as int == digits_val(s@.take(i as int)),
        decreases s@.len() - i,
    {
        let c = s[i];
        if !is_digit_char(c) {
            assert(!all_digits(s@));
            return None;
        }
        let d: u64 = (c as u32 - '0' as u32) as u64;
        proof {
            assert(s@.take(i + 1).drop_last() =~= s@.take(i as int));
            assert(s@.take(i + 1).last() == s@[i as int]);
        }
        if acc > (u64::MAX - d) / 10 {
            proof {
                assert(all_digits(s@.take(i + 1)));
                assert(digits_val(s@.take(i + 1)) == acc as int * 10 + d);
                assert(acc as int * 10 + d > u64::MAX) by (nonlinear_arith)
                    requires
                        acc as int > (u64::MAX - d) / 10,
                        0 <= d <= 9,
                        acc as int >= 0,
                ;
                if all_digits(s@) {
                    lemma_digits_val_prefix_le(s@, i + 1);
                }
            }
            return None;
        }
        proof {
            assert(acc as int * 10 + d <= u64::MAX) by (nonlinear_arith)
                requires
                    acc as int <= (u64::MAX - d) / 10,
                    0 <= d <= 9,
                    acc as int >= 0,
            ;
        }
        acc = acc * 10 + d;
        i = i + 1;
    }
    assert(s@.take(s@.len() as int) =~= s@);
    Some(acc)
}

/// Whether every character of `v` is a decimal digit.
pub fn all_digits_check(v: &Vec<char>) -> (b: bool)
    ensures
        b == all_digits(v@),
{
    let mut i: usize = 0;
    while i < v.len()
        invariant
            i <= v@.len(),
            forall|k: int| 0 <= k < i ==> is_digit(v@[k]),
        decreases v@.len() - i,
    {
        if !is_digit_char(v[i]) {
            return false;
        }
        i = i + 1;
    }
    true
}

/// `t` read as an unsigned decimal number with an optional fractional part,
/// in hundredths; 0 when `t` is not of that shape or does not fit.
pub fn parse_centi(t: &Vec<char>) -> (r: u64)
    ensures
        r as int == centi_val(t@),
{
    let ghost dot = find_idx(t@, '.');
    let mut ip: Vec<char>;
    let mut fp: Vec<char>;
    let n = t.len();
    match find_char(t, '.') {
        Some(k) => {
            assert(k < n);
            ip = slice_range(t, 0, k);
            fp = slice_range(t, k + 1, n);
            proof {
                assert(ip@ =~= t@.take(dot));
                assert(fp@ =~= t@.skip(dot + 1));
            }
        },
        None => {
            ip = slice_range(t, 0, t.len());
            fp = Vec::new();
            proof {
                assert(ip@ =~= t@);
            }
        },
    }
    if ip.len() == 0 {
        return 0;
    }
    if !all_digits_check(&ip) {
        return 0;
    }
    if !all_digits_check(&fp) {
        return 0;
    }
    let fc: u64 = if fp.len() == 0 {
        0
    } else {
        let d0: u64 = (fp[0] as u32 - '0' as u32) as u64;
        if fp.len() == 1 {
            d0 * 10
        } else {
            let d1: u64 = (fp[1] as u32 - '0' as u32) as u64;
            let carry: u64 = if fp.len() > 2 && fp[2] >= '5' {
                1
            } else {
                0
            };
            d0 * 10 + d1 + carry
        }
    };
    assert(fc as int == frac_centi(fp@));
    match parse_u64_chars(&ip) {
        Some(v) => {
            proof {
                lemma_digits_val_nonneg(ip@);
            }
            let wide: u128 = (v as u128) * 100 + (fc as u128);
            if wide > u64::MAX as u128 {
                0
            } else {
                wide as u64
            }
        },
        None => {
            proof {
                lemma_digits_val_nonneg(ip@);
                assert(digits_val(ip@) * 100 >= digits_val(ip@)) by (nonlinear_arith)
                    requires
                        digits_val(ip@) >= 0,
                ;
            }
            0
        },
    }
}

/// `s` read as a decimal integer that fits in eight unsigned bits.
pub fn parse_u8_chars(s: &Vec<char>) -> (r: Option<u8>)
    ensures
        r == parse_u8_seq(s@),
{
    match parse_u64_chars(s) {
        Some(v) => {
            proof {
                lemma_digits_val_nonneg(s@);
                assert(digits_val(s@) == v as int);
            }
            if v <= 255 {
                Some(v as u8)
            } else {
                None
            }
        },
        None => {
            proof {
                if s@.len() > 0 && all_digits(s@) {
                    lemma_digits_val_nonneg(s@);
                }
            }
            None
        },
    }
}

} // verus!
