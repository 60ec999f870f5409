use crate::text::{join_chars, join_seq, push_all, replace_all, replace_seq, str_chars};
use crate::{ModuleOutput, SnapshotView};
use vstd::prelude::*;

verus! {

/// `s` with every literal percent character doubled, so that module-supplied
/// text cannot inject markup directives.
pub open spec fn esc(s: Seq<char>) -> Seq<char> {
    replace_seq(s, seq!['%'], seq!['%', '%'])
}

/// One module in the markup dialect: the icon, wrapped in a color directive
/// when a color is configured, followed by the value; icon and value are
/// percent-escaped, the configured color is emitted as given.
pub open spec fn lemonbar_module_seq(m: SnapshotView) -> Seq<char> {
    match m.icon {
        Some(icon) => match m.icon_color {
            Some(color) => "%{F"@ + color + "}"@ + esc(icon) + "%{F-}"@ + esc(m.value),
            None => esc(icon) + esc(m.value),
        },
        None => esc(m.value),
    }
}

/// One section in the markup dialect: the rendered modules joined with the
/// separator.
pub open spec fn lemonbar_section_seq(ms: Seq<SnapshotView>, sep: Seq<char>) -> Seq<char> {
    join_seq(ms.map_values(|m: SnapshotView| lemonbar_module_seq(m)), sep)
}

/// The whole line in the markup dialect: the three sections behind their
/// alignment directives.
pub open spec fn lemonbar_line_seq(
    left: Seq<SnapshotView>,
    center: Seq<SnapshotView>,
    right: Seq<SnapshotView>,
    sep: Seq<char>,
) -> Seq<char> {
    "%{l}"@ + lemonbar_section_seq(left, sep) + "%{c}"@ + lemonbar_section_seq(center, sep)
        + "%{r}"@ + lemonbar_section_seq(right, sep)
}

/// One section in the generic dialect: the bare values joined with the
/// separator; icons are dropped and nothing is escaped.
pub open spec fn generic_section_seq(ms: Seq<SnapshotView>, sep: Seq<char>) -> Seq<char> {
    join_seq(ms.map_values(|m: SnapshotView| m.value), sep)
}

/// The whole line in the generic dialect: the three sections joined with a
/// fixed three-space gap.
pub open spec fn generic_line_seq(
    left: Seq<SnapshotView>,
    center: Seq<SnapshotView>,
    right: Seq<SnapshotView>,
    sep: Seq<char>,
) -> Seq<char> {
    generic_section_seq(left, sep) + "   "@ + generic_section_seq(center, sep) + "   "@
        + generic_section_seq(right, sep)
}

/// Whether every percent character of `t` is part of a doubled pair: such a
/// text cannot open a markup directive.
pub open spec fn fully_escaped(t: Seq<char>) -> bool
    decreases t.len(),
{
    if t.len() == 0 {
        true
    } else if t[0] == '%' {
        t.len() >= 2 && t[1] == '%' && fully_escaped(t.skip(2))
    } else {
        fully_escaped(t.skip(1))
    }
}

/// Escaping undone: every doubled percent collapsed to one.
pub open spec fn unescape(t: Seq<char>) -> Seq<char>
    decreases t.len(),
{
    if t.len() == 0 {
        Seq::empty()
    } else if t.len() >= 2 && t[0] == '%' && t[1] == '%' {
        seq!['%'] + unescape(t.skip(2))
    } else {
        seq![t[0]] + unescape(t.skip(1))
    }
}

/// Percent-escaping is sound and lossless: the escaped text carries a
/// doubled percent wherever the source carried one and no lone percent
/// anywhere, and undoing the escape recovers the source exactly.
pub proof fn lemma_escape_percent(s: Seq<char>)
    ensures
        fully_escaped(esc(s)),
        unescape(esc(s)) == s,
    decreases s.len(),
{
    let pat = seq!['%'];
    let rep = seq!['%', '%'];
    if s.len() == 0 {
        assert(esc(s) == s);
        assert(unescape(esc(s)) =~= s);
    } else {
        lemma_escape_percent(s.skip(1));
        assert(s.take(1) =~= seq![s[0]]);
        if s[0] == '%' {
            assert(s.take(pat.len() as int) == pat);
            let t = esc(s);
            assert(t == rep + esc(s.skip(1)));
            assert(t[0] == '%' && t[1] == '%');
            assert(t.skip(2) =~= esc(s.skip(1)));
            assert(unescape(t) == seq!['%'] + unescape(esc(s.skip(1))));
            assert(unescape(t) =~= s);
        } else {
            assert(pat[0] == '%');
            assert(s.take(1)[0] == s[0]);
            assert(s.take(pat.len() as int) != pat);
            let t = esc(s);
            assert(t == seq![s[0]] + esc(s.skip(1)));
            assert(t[0] == s[0]);
            assert(t.skip(1) =~= esc(s.skip(1)));
            assert(!(t.len() >= 2 && t[0] == '%' && t[1] == '%'));
            assert(unescape(t) == seq![t[0]] + unescape(esc(s.skip(1))));
            assert(unescape(t) =~= s);
        }
    }
}

/// A text without percent characters is unchanged by escaping.
pub proof fn lemma_escape_no_percent(s: Seq<char>)
    requires
        forall|k: int| 0 <= k < s.len() ==> s[k] != '%',
    ensures
        esc(s) == s,
    decreases s.len(),
{
    let pat = seq!['%'];
    if s.len() > 0 {
        lemma_escape_no_percent(s.skip(1));
        assert(s.take(1) =~= seq![s[0]]);
        assert(pat[0] == '%');
        assert(s.take(1)[0] == s[0]);
        assert(s.take(pat.len() as int) != pat);
        assert(esc(s) == seq![s[0]] + esc(s.skip(1)));
        assert(esc(s) =~= s);
    }
}

/// Every percent character of `t` is accounted for where it stands: it pairs
/// with the percent just before or just after it (escaped module text), or
/// the brace that opens a directive follows it. A text of this shape cannot
/// open a directive anywhere but at the renderer's own tokens.
pub open spec fn no_stray_percent(t: Seq<char>) -> bool {
    forall|i: int|
        0 <= i < t.len() && #[trigger] t[i] == '%' ==> ((i + 1 < t.len() && t[i + 1] == '%') || (i
            > 0 && t[i - 1] == '%') || (i + 1 < t.len() && t[i + 1] == '{'))
}

/// Whether the icon color, if any, carries no percent character. Colors are
/// configuration, not module output, and are emitted as given.
pub open spec fn color_percent_free(m: SnapshotView) -> bool {
    match m.icon_color {
        Some(c) => forall|k: int| 0 <= k < c.len() ==> #[trigger] c[k] != '%',
        None => true,
    }
}

/// In a fully escaped text every percent pairs with a neighbouring percent.
#[verifier::rlimit(50)]
proof fn lemma_fully_escaped_no_stray(t: Seq<char>)
    requires
        fully_escaped(t),
    ensures
        no_stray_percent(t),
    decreases t.len(),
{
    if t.len() == 0 {
    } else if t[0] == '%' {
        lemma_fully_escaped_no_stray(t.skip(2));
        assert forall|i: int| 0 <= i < t.len() && #[trigger] t[i] == '%' implies ((i + 1 < t.len()
            && t[i + 1] == '%') || (i > 0 && t[i - 1] == '%') || (i + 1 < t.len() && t[i + 1]
            == '{')) by {
            if i == 0 {
                assert(t[1] == '%');
            } else if i == 1 {
                assert(t[0] == '%');
            } else {
                assert(t.skip(2)[i - 2] == t[i]);
                if i + 1 < t.len() {
                    assert(t.skip(2)[i - 1] == t[i + 1]);
                }
                if i - 3 >= 0 {
                    assert(t.skip(2)[i - 3] == t[i - 1]);
                }
            }
        }
    } else {
        lemma_fully_escaped_no_stray(t.skip(1));
        assert forall|i: int| 0 <= i < t.len() && #[trigger] t[i] == '%' implies ((i + 1 < t.len()
            && t[i + 1] == '%') || (i > 0 && t[i - 1] == '%') || (i + 1 < t.len() && t[i + 1]
            == '{')) by {
            assert(i > 0);
            assert(t.skip(1)[i - 1] == t[i]);
            if i + 1 < t.len() {
                assert(t.skip(1)[i] == t[i + 1]);
            }
            if i - 2 >= 0 {
                assert(t.skip(1)[i - 2] == t[i - 1]);
            }
        }
    }
}

/// Two texts without stray percents, concatenated, have none either: each
/// percent keeps its witness from its own part.
proof fn lemma_no_stray_concat(a: Seq<char>, b: Seq<char>)
    requires
        no_stray_percent(a),
        no_stray_percent(b),
    ensures
        no_stray_percent(a + b),
{
    let t = a + b;
    assert forall|i: int| 0 <= i < t.len() && #[trigger] t[i] == '%' implies ((i + 1 < t.len() && t[i
        + 1] == '%') || (i > 0 && t[i - 1] == '%') || (i + 1 < t.len() && t[i + 1] == '{')) by {
        if i < a.len() {
            assert(a[i] == t[i]);
            if i + 1 < a.len() {
                assert(t[i + 1] == a[i + 1]);
            }
            if i > 0 {
                assert(t[i - 1] == a[i - 1]);
            }
        } else {
            let j = i - a.len();
            assert(b[j] == t[i]);
            if j + 1 < b.len() {
                assert(t[i + 1] == b[j + 1]);
            }
            if j > 0 {
                assert(t[i - 1] == b[j - 1]);
            }
        }
    }
}

/// A text without percent characters trivially has no stray ones.
proof fn lemma_no_percent_no_stray(t: Seq<char>)
    requires
        forall|k: int| 0 <= k < t.len() ==> #[trigger] t[k] != '%',
    ensures
        no_stray_percent(t),
{
}

/// One module rendered in the markup dialect has no stray percent, whatever
/// its value and icon hold, provided its configured color carries none.
proof fn lemma_lemonbar_module_no_stray(m: SnapshotView)
    requires
        color_percent_free(m),
    ensures
        no_stray_percent(lemonbar_module_seq(m)),
{
    lemma_escape_percent(m.value);
    lemma_fully_escaped_no_stray(esc(m.value));
    match m.icon {
        Some(icon) => {
            lemma_escape_percent(icon);
            lemma_fully_escaped_no_stray(esc(icon));
            match m.icon_color {
                Some(color) => {
                    proof_no_stray_lit_open();
                    proof_no_stray_lit_close();
                    proof_no_stray_lit_reset();
                    lemma_no_percent_no_stray(color);
                    lemma_no_stray_concat("%{F"@, color);
                    lemma_no_stray_concat("%{F"@ + color, "}"@);
                    lemma_no_stray_concat("%{F"@ + color + "}"@, esc(icon));
                    lemma_no_stray_concat("%{F"@ + color + "}"@ + esc(icon), "%{F-}"@);
                    lemma_no_stray_concat(
                        "%{F"@ + color + "}"@ + esc(icon) + "%{F-}"@,
                        esc(m.value),
                    );
                },
                None => {
                    lemma_no_stray_concat(esc(icon), esc(m.value));
                },
            }
        },
        None => {},
    }
}

/// The color-directive opener has no stray percent: its percent is followed
/// by the brace.
proof fn proof_no_stray_lit_open()
    ensures
        no_stray_percent("%{F"@),
{
    reveal_strlit("%{F");
    assert forall|i: int| 0 <= i < "%{F"@.len() && #[trigger] "%{F"@[i] == '%' implies ((i + 1
        < "%{F"@.len() && "%{F"@[i + 1] == '%') || (i > 0 && "%{F"@[i - 1] == '%') || (i + 1
        < "%{F"@.len() && "%{F"@[i + 1] == '{')) by {
        assert(i == 0);
    }
}

/// The directive-closing brace holds no percent at all.
proof fn proof_no_stray_lit_close()
    ensures
        no_stray_percent("}"@),
{
    reveal_strlit("}");
    assert forall|i: int| 0 <= i < "}"@.len() implies #[trigger] "}"@[i] != '%' by {}
    lemma_no_percent_no_stray("}"@);
}

/// The color-reset directive has no stray percent.
proof fn proof_no_stray_lit_reset()
    ensures
        no_stray_percent("%{F-}"@),
{
    reveal_strlit("%{F-}");
    assert forall|i: int| 0 <= i < "%{F-}"@.len() && #[trigger] "%{F-}"@[i] == '%' implies ((i + 1
        < "%{F-}"@.len() && "%{F-}"@[i + 1] == '%') || (i > 0 && "%{F-}"@[i - 1] == '%') || (i + 1
        < "%{F-}"@.len() && "%{F-}"@[i + 1] == '{')) by {
        assert(i == 0);
    }
}

/// A join of texts without stray percents, with such a separator, has none.
proof fn lemma_no_stray_join(parts: Seq<Seq<char>>, sep: Seq<char>)
    requires
        no_stray_percent(sep),
        forall|i: int| 0 <= i < parts.len() ==> no_stray_percent(#[trigger] parts[i]),
    ensures
        no_stray_percent(join_seq(parts, sep)),
    decreases parts.len(),
{
    if parts.len() == 0 {
    } else if parts.len() == 1 {
    } else {
        assert forall|i: int| 0 <= i < parts.drop_last().len() implies no_stray_percent(
            #[trigger] parts.drop_last()[i],
        ) by {
            assert(parts.drop_last()[i] == parts[i]);
        }
        lemma_no_stray_join(parts.drop_last(), sep);
        lemma_no_stray_concat(join_seq(parts.drop_last(), sep), sep);
        lemma_no_stray_concat(join_seq(parts.drop_last(), sep) + sep, parts.last());
    }
}

/// One markup-dialect section has no stray percent.
proof fn lemma_lemonbar_section_no_stray(ms: Seq<SnapshotView>, sep: Seq<char>)
    requires
        forall|k: int| 0 <= k < sep.len() ==> #[trigger] sep[k] != '%',
        forall|i: int| 0 <= i < ms.len() ==> color_percent_free(#[trigger] ms[i]),
    ensures
        no_stray_percent(lemonbar_section_seq(ms, sep)),
{
    lemma_no_percent_no_stray(sep);
    let parts = ms.map_values(|m: SnapshotView| lemonbar_module_seq(m));
    assert forall|i: int| 0 <= i < parts.len() implies no_stray_percent(#[trigger] parts[i]) by {
        assert(parts[i] == lemonbar_module_seq(ms[i]));
        lemma_lemonbar_module_no_stray(ms[i]);
    }
    lemma_no_stray_join(parts, sep);
}

/// In the whole markup-dialect line every percent character pairs with a
/// neighbouring percent (escaped module text) or is followed by the brace of
/// a directive token, provided the configured separator and icon colors
/// carry no percent: whatever the module-controlled values and icons hold,
/// they cannot corrupt the markup stream.
pub proof fn lemma_lemonbar_line_no_stray(
    left: Seq<SnapshotView>,
    center: Seq<SnapshotView>,
    right: Seq<SnapshotView>,
    sep: Seq<char>,
)
    requires
        forall|k: int| 0 <= k < sep.len() ==> #[trigger] sep[k] != '%',
        forall|i: int| 0 <= i < left.len() ==> color_percent_free(#[trigger] left[i]),
        forall|i: int| 0 <= i < center.len() ==> color_percent_free(#[trigger] center[i]),
        forall|i: int| 0 <= i < right.len() ==> color_percent_free(#[trigger] right[i]),
    ensures
        no_stray_percent(lemonbar_line_seq(left, center, right, sep)),
{
    lemma_lemonbar_section_no_stray(left, sep);
    lemma_lemonbar_section_no_stray(center, sep);
    lemma_lemonbar_section_no_stray(right, sep);
    reveal_strlit("%{l}");
    reveal_strlit("%{c}");
    reveal_strlit("%{r}");
    proof_no_stray_align("%{l}");
    proof_no_stray_align("%{c}");
    proof_no_stray_align("%{r}");
    let sec_l = lemonbar_section_seq(left, sep);
    let sec_c = lemonbar_section_seq(center, sep);
    let sec_r = lemonbar_section_seq(right, sep);
    lemma_no_stray_concat("%{l}"@, sec_l);
    lemma_no_stray_concat("%{l}"@ + sec_l, "%{c}"@);
    lemma_no_stray_concat("%{l}"@ + sec_l + "%{c}"@, sec_c);
    lemma_no_stray_concat("%{l}"@ + sec_l + "%{c}"@ + sec_c, "%{r}"@);
    lemma_no_stray_concat("%{l}"@ + sec_l + "%{c}"@ + sec_c + "%{r}"@, sec_r);
}

/// An alignment directive has no stray percent: its percent is followed by
/// the brace.
proof fn proof_no_stray_align(tag: &str)
    requires
        tag@.len() == 4,
        tag@[0] == '%',
        tag@[1] == '{',
        tag@[3] == '}',
        tag@[2] != '%',
    ensures
        no_stray_percent(tag@),
{
    assert forall|i: int| 0 <= i < tag@.len() && #[trigger] tag@[i] == '%' implies ((i + 1
        < tag@.len() && tag@[i + 1] == '%') || (i > 0 && tag@[i - 1] == '%') || (i + 1 < tag@.len()
        && tag@[i + 1] == '{')) by {
        assert(i == 0);
    }
}

/// Whether `part` stands intact in `t` beginning at `off`.
pub open spec fn is_sub_at(t: Seq<char>, off: int, part: Seq<char>) -> bool {
    0 <= off && off + part.len() <= t.len() && t.subrange(off, off + part.len()) == part
}

/// Where part `i` begins in the joined text.
pub open spec fn join_offset(parts: Seq<Seq<char>>, sep: Seq<char>, i: int) -> int
    recommends
        0 <= i < parts.len(),
{
    if i == 0 {
        0
    } else {
        join_seq(parts.take(i), sep).len() + sep.len() as int
    }
}

/// A part standing in a text still stands there after text is appended.
proof fn lemma_sub_at_extend(t: Seq<char>, u: Seq<char>, off: int, part: Seq<char>)
    requires
        is_sub_at(t, off, part),
    ensures
        is_sub_at(t + u, off, part),
{
    assert((t + u).subrange(off, off + part.len()) =~= t.subrange(off, off + part.len()));
}

/// A part of a part stands in the whole.
proof fn lemma_sub_at_inner(t: Seq<char>, off: int, part: Seq<char>, off2: int, inner: Seq<char>)
    requires
        is_sub_at(t, off, part),
        is_sub_at(part, off2, inner),
    ensures
        is_sub_at(t, off + off2, inner),
{
    assert(t.subrange(off + off2, off + off2 + inner.len()) =~= part.subrange(
        off2,
        off2 + inner.len(),
    ));
}

/// In a joined text every part stands intact at its own offset, and each
/// part ends at or before the next one's offset: the parts appear in order,
/// separated by the separator.
pub proof fn lemma_join_contains(parts: Seq<Seq<char>>, sep: Seq<char>)
    ensures
        forall|i: int|
            0 <= i < parts.len() ==> is_sub_at(
                join_seq(parts, sep),
                #[trigger] join_offset(parts, sep, i),
                parts[i],
            ),
        forall|i: int|
            0 <= i < parts.len() - 1 ==> #[trigger] join_offset(parts, sep, i) + parts[i].len()
                <= join_offset(parts, sep, i + 1),
    decreases parts.len(),
{
    if parts.len() == 0 {
    } else if parts.len() == 1 {
        assert(join_seq(parts, sep) == parts[0]);
        assert(join_seq(parts, sep).subrange(0, parts[0].len() as int) =~= parts[0]);
    } else {
        let prev = parts.drop_last();
        lemma_join_contains(prev, sep);
        let t = join_seq(parts, sep);
        assert(t == join_seq(prev, sep) + sep + parts.last());
        assert forall|i: int| 0 <= i < parts.len() implies is_sub_at(
            t,
            #[trigger] join_offset(parts, sep, i),
            parts[i],
        ) by {
            if i < parts.len() - 1 {
                assert(parts.take(i) =~= prev.take(i));
                assert(join_offset(parts, sep, i) == join_offset(prev, sep, i));
                assert(prev[i] == parts[i]);
                lemma_sub_at_extend(join_seq(prev, sep), sep, join_offset(prev, sep, i), prev[i]);
                lemma_sub_at_extend(
                    join_seq(prev, sep) + sep,
                    parts.last(),
                    join_offset(prev, sep, i),
                    prev[i],
                );
                assert((join_seq(prev, sep) + sep) + parts.last() =~= t);
            } else {
                assert(parts.take(i) =~= prev);
                let off = join_offset(parts, sep, i);
                assert(off == join_seq(prev, sep).len() + sep.len());
                assert(t.subrange(off, off + parts[i].len()) =~= parts.last());
            }
        }
        assert forall|i: int| 0 <= i < parts.len() - 1 implies #[trigger] join_offset(parts, sep, i)
            + parts[i].len() <= join_offset(parts, sep, i + 1) by {
            if i == 0 {
                assert(parts.take(1) =~= seq![parts[0]]);
                assert(join_seq(parts.take(1), sep) == parts[0]);
            } else {
                assert(parts.take(i + 1).drop_last() =~= parts.take(i));
                assert(parts.take(i + 1).last() == parts[i]);
                assert(join_seq(parts.take(i + 1), sep) == join_seq(parts.take(i), sep) + sep
                    + parts[i]);
            }
        }
    }
}

/// In a generic-dialect section every module's value stands intact at its
/// own offset, in module order, separated by the separator.
pub proof fn lemma_generic_section_contains(ms: Seq<SnapshotView>, sep: Seq<char>)
    ensures
        forall|i: int|
            0 <= i < ms.len() ==> is_sub_at(
                generic_section_seq(ms, sep),
                join_offset(ms.map_values(|m: SnapshotView| m.value), sep, i),
                (#[trigger] ms[i]).value,
            ),
        forall|i: int|
            0 <= i < ms.len() - 1 ==> join_offset(ms.map_values(|m: SnapshotView| m.value), sep, i)
                + (#[trigger] ms[i]).value.len() <= join_offset(
                ms.map_values(|m: SnapshotView| m.value),
                sep,
                i + 1,
            ),
{
    lemma_join_contains(ms.map_values(|m: SnapshotView| m.value), sep);
}

/// A part standing in a text still stands there, shifted, after text is
/// prepended.
proof fn lemma_sub_at_prepend(t: Seq<char>, u: Seq<char>, off: int, part: Seq<char>)
    requires
        is_sub_at(u, off, part),
    ensures
        is_sub_at(t + u, t.len() + off, part),
{
    assert((t + u).subrange(t.len() + off, t.len() + off + part.len()) =~= u.subrange(
        off,
        off + part.len(),
    ));
}

/// In the whole generic-dialect line every module's value stands intact at
/// its own offset: left-section values first, then center, then right, each
/// section shifted past the sections and gaps before it.
pub proof fn lemma_generic_line_contains(
    left: Seq<SnapshotView>,
    center: Seq<SnapshotView>,
    right: Seq<SnapshotView>,
    sep: Seq<char>,
)
    ensures
        forall|i: int|
            0 <= i < left.len() ==> is_sub_at(
                generic_line_seq(left, center, right, sep),
                join_offset(left.map_values(|m: SnapshotView| m.value), sep, i),
                (#[trigger] left[i]).value,
            ),
        forall|i: int|
            0 <= i < center.len() ==> is_sub_at(
                generic_line_seq(left, center, right, sep),
                generic_section_seq(left, sep).len() + "   "@.len() + join_offset(
                    center.map_values(|m: SnapshotView| m.value),
                    sep,
                    i,
                ),
                (#[trigger] center[i]).value,
            ),
        forall|i: int|
            0 <= i < right.len() ==> is_sub_at(
                generic_line_seq(left, center, right, sep),
                generic_section_seq(left, sep).len() + "   "@.len() + generic_section_seq(
                    center,
                    sep,
                ).len() + "   "@.len() + join_offset(
                    right.map_values(|m: SnapshotView| m.value),
                    sep,
                    i,
                ),
                (#[trigger] right[i]).value,
            ),
{
    lemma_generic_section_contains(left, sep);
    lemma_generic_section_contains(center, sep);
    lemma_generic_section_contains(right, sep);
    let gap = "   "@;
    let sec_l = generic_section_seq(left, sep);
    let sec_c = generic_section_seq(center, sep);
    let sec_r = generic_section_seq(right, sep);
    let line = generic_line_seq(left, center, right, sep);
    assert forall|i: int| 0 <= i < left.len() implies is_sub_at(
        line,
        join_offset(left.map_values(|m: SnapshotView| m.value), sep, i),
        (#[trigger] left[i]).value,
    ) by {
        let off = join_offset(left.map_values(|m: SnapshotView| m.value), sep, i);
        lemma_sub_at_extend(sec_l, gap, off, left[i].value);
        lemma_sub_at_extend(sec_l + gap, sec_c, off, left[i].value);
        lemma_sub_at_extend(sec_l + gap + sec_c, gap, off, left[i].value);
        lemma_sub_at_extend(sec_l + gap + sec_c + gap, sec_r, off, left[i].value);
    }
    assert forall|i: int| 0 <= i < center.len() implies is_sub_at(
        line,
        sec_l.len() + gap.len() + join_offset(
            center.map_values(|m: SnapshotView| m.value),
            sep,
            i,
        ),
        (#[trigger] center[i]).value,
    ) by {
        let off = join_offset(center.map_values(|m: SnapshotView| m.value), sep, i);
        lemma_sub_at_prepend(sec_l + gap, sec_c, off, center[i].value);
        lemma_sub_at_extend(sec_l + gap + sec_c, gap, sec_l.len() + gap.len() + off, center[i].value);
        lemma_sub_at_extend(
            sec_l + gap + sec_c + gap,
            sec_r,
            sec_l.len() + gap.len() + off,
            center[i].value,
        );
    }
    assert forall|i: int| 0 <= i < right.len() implies is_sub_at(
        line,
        sec_l.len() + gap.len() + sec_c.len() + gap.len() + join_offset(
            right.map_values(|m: SnapshotView| m.value),
            sep,
            i,
        ),
        (#[trigger] right[i]).value,
    ) by {
        let off = join_offset(right.map_values(|m: SnapshotView| m.value), sep, i);
        lemma_sub_at_prepend(sec_l + gap + sec_c + gap, sec_r, off, right[i].value);
        assert((sec_l + gap + sec_c + gap).len() == sec_l.len() + gap.len() + sec_c.len()
            + gap.len());
    }
}

/// In a markup-dialect section every module's value stands intact at its own
/// offset, in module order, provided the values carry no percent character
/// (one with a percent appears in its escaped form instead).
pub proof fn lemma_lemonbar_section_contains(ms: Seq<SnapshotView>, sep: Seq<char>)
    requires
        forall|i: int, k: int|
            0 <= i < ms.len() && 0 <= k < ms[i].value.len() ==> #[trigger] ms[i].value[k] != '%',
    ensures
        forall|i: int|
            0 <= i < ms.len() ==> is_sub_at(
                lemonbar_section_seq(ms, sep),
                join_offset(ms.map_values(|m: SnapshotView| lemonbar_module_seq(m)), sep, i) + (
                lemonbar_module_seq(ms[i]).len() - (#[trigger] ms[i]).value.len()),
                ms[i].value,
            ),
{
    let parts = ms.map_values(|m: SnapshotView| lemonbar_module_seq(m));
    lemma_join_contains(parts, sep);
    assert forall|i: int| 0 <= i < ms.len() implies is_sub_at(
        lemonbar_section_seq(ms, sep),
        join_offset(parts, sep, i) + (lemonbar_module_seq(ms[i]).len() - (#[trigger] ms[i]).value.len()),
        ms[i].value,
    ) by {
        let m = ms[i];
        assert(forall|k: int| 0 <= k < m.value.len() ==> m.value[k] != '%');
        lemma_escape_no_percent(m.value);
        let part = lemonbar_module_seq(m);
        let inner_off = part.len() - m.value.len();
        assert(part.subrange(inner_off, inner_off + m.value.len()) =~= m.value);
        assert(is_sub_at(part, inner_off, m.value));
        assert(parts[i] == part);
        lemma_sub_at_inner(
            lemonbar_section_seq(ms, sep),
            join_offset(parts, sep, i),
            part,
            inner_off,
            m.value,
        );
    }
}

/// In the whole markup-dialect line every module's value stands intact at
/// its own offset, in section order, provided the values carry no percent
/// character (one with a percent appears in its escaped form instead).
pub proof fn lemma_lemonbar_line_contains(
    left: Seq<SnapshotView>,
    center: Seq<SnapshotView>,
    right: Seq<SnapshotView>,
    sep: Seq<char>,
)
    requires
        forall|i: int, k: int|
            0 <= i < left.len() && 0 <= k < left[i].value.len() ==> #[trigger] left[i].value[k]
                != '%',
        forall|i: int, k: int|
            0 <= i < center.len() && 0 <= k < center[i].value.len() ==> #[trigger] center[i].value[k]
                != '%',
        forall|i: int, k: int|
            0 <= i < right.len() && 0 <= k < right[i].value.len() ==> #[trigger] right[i].value[k]
                != '%',
    ensures
        forall|i: int|
            0 <= i < left.len() ==> is_sub_at(
                lemonbar_line_seq(left, center, right, sep),
                "%{l}"@.len() + join_offset(
                    left.map_values(|m: SnapshotView| lemonbar_module_seq(m)),
                    sep,
                    i,
                ) + (lemonbar_module_seq(left[i]).len() - (#[trigger] left[i]).value.len()),
                left[i].value,
            ),
        forall|i: int|
            0 <= i < center.len() ==> is_sub_at(
                lemonbar_line_seq(left, center, right, sep),
                "%{l}"@.len() + lemonbar_section_seq(left, sep).len() + "%{c}"@.len()
                    + join_offset(
                    center.map_values(|m: SnapshotView| lemonbar_module_seq(m)),
                    sep,
                    i,
                ) + (lemonbar_module_seq(center[i]).len() - (#[trigger] center[i]).value.len()),
                center[i].value,
            ),
        forall|i: int|
            0 <= i < right.len() ==> is_sub_at(
                lemonbar_line_seq(left, center, right, sep),
                "%{l}"@.len() + lemonbar_section_seq(left, sep).len() + "%{c}"@.len()
                    + lemonbar_section_seq(center, sep).len() + "%{r}"@.len() + join_offset(
                    right.map_values(|m: SnapshotView| lemonbar_module_seq(m)),
                    sep,
                    i,
                ) + (lemonbar_module_seq(right[i]).len() - (#[trigger] right[i]).value.len()),
                right[i].value,
            ),
{
    lemma_lemonbar_section_contains(left, sep);
    lemma_lemonbar_section_contains(center, sep);
    lemma_lemonbar_section_contains(right, sep);
    let tag_l = "%{l}"@;
    let tag_c = "%{c}"@;
    let tag_r = "%{r}"@;
    let sec_l = lemonbar_section_seq(left, sep);
    let sec_c = lemonbar_section_seq(center, sep);
    let sec_r = lemonbar_section_seq(right, sep);
    let line = lemonbar_line_seq(left, center, right, sep);
    assert forall|i: int| 0 <= i < left.len() implies is_sub_at(
        line,
        tag_l.len() + join_offset(
            left.map_values(|m: SnapshotView| lemonbar_module_seq(m)),
            sep,
            i,
        ) + (lemonbar_module_seq(left[i]).len() - (#[trigger] left[i]).value.len()),
        left[i].value,
    ) by {
        let off = join_offset(left.map_values(|m: SnapshotView| lemonbar_module_seq(m)), sep, i) + (
        lemonbar_module_seq(left[i]).len() - left[i].value.len());
        lemma_sub_at_prepend(tag_l, sec_l, off, left[i].value);
        lemma_sub_at_extend(tag_l + sec_l, tag_c, tag_l.len() + off, left[i].value);
        lemma_sub_at_extend(tag_l + sec_l + tag_c, sec_c, tag_l.len() + off, left[i].value);
        lemma_sub_at_extend(tag_l + sec_l + tag_c + sec_c, tag_r, tag_l.len() + off, left[i].value);
        lemma_sub_at_extend(
            tag_l + sec_l + tag_c + sec_c + tag_r,
            sec_r,
            tag_l.len() + off,
            left[i].value,
        );
    }
    assert forall|i: int| 0 <= i < center.len() implies is_sub_at(
        line,
        tag_l.len() + sec_l.len() + tag_c.len() + join_offset(
            center.map_values(|m: SnapshotView| lemonbar_module_seq(m)),
            sep,
            i,
        ) + (lemonbar_module_seq(center[i]).len() - (#[trigger] center[i]).value.len()),
        center[i].value,
    ) by {
        let off = join_offset(center.map_values(|m: SnapshotView| lemonbar_module_seq(m)), sep, i)
            + (lemonbar_module_seq(center[i]).len() - center[i].value.len());
        lemma_sub_at_prepend(tag_l + sec_l + tag_c, sec_c, off, center[i].value);
        let shifted = (tag_l + sec_l + tag_c).len() + off;
        lemma_sub_at_extend(tag_l + sec_l + tag_c + sec_c, tag_r, shifted, center[i].value);
        lemma_sub_at_extend(
            tag_l + sec_l + tag_c + sec_c + tag_r,
            sec_r,
            shifted,
            center[i].value,
        );
    }
    assert forall|i: int| 0 <= i < right.len() implies is_sub_at(
        line,
        tag_l.len() + sec_l.len() + tag_c.len() + sec_c.len() + tag_r.len() + join_offset(
            right.map_values(|m: SnapshotView| lemonbar_module_seq(m)),
            sep,
            i,
        ) + (lemonbar_module_seq(right[i]).len() - (#[trigger] right[i]).value.len()),
        right[i].value,
    ) by {
        let off = join_offset(right.map_values(|m: SnapshotView| lemonbar_module_seq(m)), sep, i) + (
        lemonbar_module_seq(right[i]).len() - right[i].value.len());
        lemma_sub_at_prepend(tag_l + sec_l + tag_c + sec_c + tag_r, sec_r, off, right[i].value);
        assert((tag_l + sec_l + tag_c + sec_c + tag_r).len() == tag_l.len() + sec_l.len()
            + tag_c.len() + sec_c.len() + tag_r.len());
    }
}

/// `s` with every percent character doubled.
pub fn escape_percent(s: &Vec<char>) -> (r: Vec<char>)
    ensures
        r@ == esc(s@),
{
    let mut pat: Vec<char> = Vec::new();
    pat.push('%');
    let mut rep: Vec<char> = Vec::new();
    rep.push('%');
    rep.push('%');
    assert(pat@ =~= seq!['%']);
    assert(rep@ =~= seq!['%', '%']);
    replace_all(s, &pat, &rep)
}

/// One module's snapshot rendered in the markup dialect, as characters.
fn lemonbar_module_chars(m: &ModuleOutput) -> (r: Vec<char>)
    ensures
        r@ == lemonbar_module_seq(m@),
{
    let value = str_chars(m.value.as_str());
    let safe_value = escape_percent(&value);
    match &m.icon {
        Some(icon) => {
            let icon_chars = str_chars(icon.as_str());
            let safe_icon = escape_percent(&icon_chars);
            match &m.icon_color {
                Some(color) => {
                    let mut r = str_chars("%{F");
                    let color_chars = str_chars(color.as_str());
                    push_all(&mut r, &color_chars);
                    let close = str_chars("}");
                    push_all(&mut r, &close);
                    push_all(&mut r, &safe_icon);
                    let reset = str_chars("%{F-}");
                    push_all(&mut r, &reset);
                    push_all(&mut r, &safe_value);
                    r
                },
                None => {
                    let mut r = safe_icon;
                    push_all(&mut r, &safe_value);
                    r
                },
            }
        },
        None => safe_value,
    }
}

/// One module's snapshot rendered in the markup dialect.
pub fn construct_lemonbar_module(m: &ModuleOutput) -> (r: String)
    ensures
        r@ == lemonbar_module_seq(m@),
{
    let chars = lemonbar_module_chars(m);
    crate::text::chars_string(&chars)
}

/// A section rendered in the markup dialect, as characters.
fn lemonbar_section_chars(section: &Vec<ModuleOutput>, separator: &Vec<char>) -> (r: Vec<char>)
    ensures
        r@ == lemonbar_section_seq(section@.map_values(|m: ModuleOutput| m@), separator@),
{
    let ghost views = section@.map_values(|m: ModuleOutput| m@);
    let mut parts: Vec<Vec<char>> = Vec::new();
    let mut i: usize = 0;
    while i < section.len()
        invariant
            views == section@.map_values(|m: ModuleOutput| m@),
            i <= section@.len(),
            parts@.len() == i as int,
            forall|k: int| 0 <= k < i ==> parts@[k]@ == lemonbar_module_seq(views[k]),
        decreases section@.len() - i,
    {
        parts.push(lemonbar_module_chars(&section[i]));
        i = i + 1;
    }
    assert(parts@.map_values(|p: Vec<char>| p@) =~= views.map_values(
        |m: SnapshotView| lemonbar_module_seq(m),
    ));
    join_chars(&parts, separator)
}

/// A section rendered in the markup dialect: the modules joined with the
/// separator.
pub fn construct_lemonbar_section(section: &Vec<ModuleOutput>, separator: &str) -> (r: String)
    ensures
        r@ == lemonbar_section_seq(section@.map_values(|m: ModuleOutput| m@), separator@),
{
    let sep = str_chars(separator);
    let chars = lemonbar_section_chars(section, &sep);
    crate::text::chars_string(&chars)
}

/// The whole line in the markup dialect.
pub fn construct_lemonbar(
    left: &Vec<ModuleOutput>,
    center: &Vec<ModuleOutput>,
    right: &Vec<ModuleOutput>,
    separator: &str,
) -> (r: String)
    ensures
        r@ == lemonbar_line_seq(
            left@.map_values(|m: ModuleOutput| m@),
            center@.map_values(|m: ModuleOutput| m@),
            right@.map_values(|m: ModuleOutput| m@),
            separator@,
        ),
{
    let sep = str_chars(separator);
    let mut r = str_chars("%{l}");
    let l = lemonbar_section_chars(left, &sep);
    push_all(&mut r, &l);
    let tag_c = str_chars("%{c}");
    push_all(&mut r, &tag_c);
    let c = lemonbar_section_chars(center, &sep);
    push_all(&mut r, &c);
    let tag_r = str_chars("%{r}");
    push_all(&mut r, &tag_r);
    let rt = lemonbar_section_chars(right, &sep);
    push_all(&mut r, &rt);
    crate::text::chars_string(&r)
}

/// A section rendered in the generic dialect, as characters.
fn generic_section_chars(section: &Vec<ModuleOutput>, separator: &Vec<char>) -> (r: Vec<char>)
    ensures
        r@ == generic_section_seq(section@.map_values(|m: ModuleOutput| m@), separator@),
{
    let ghost views = section@.map_values(|m: ModuleOutput| m@);
    let mut parts: Vec<Vec<char>> = Vec::new();
    let mut i: usize = 0;
    while i < section.len()
        invariant
            views == section@.map_values(|m: ModuleOutput| m@),
            i <= section@.len(),
            parts@.len() == i as int,
            forall|k: int| 0 <= k < i ==> parts@[k]@ == views[k].value,
        decreases section@.len() - i,
    {
        parts.push(str_chars(section[i].value.as_str()));
        i = i + 1;
    }
    assert(parts@.map_values(|p: Vec<char>| p@) =~= views.map_values(|m: SnapshotView| m.value));
    join_chars(&parts, separator)
}

/// The whole line in the generic dialect.
pub fn construct_generic(
    left: &Vec<ModuleOutput>,
    center: &Vec<ModuleOutput>,
    right: &Vec<ModuleOutput>,
    separator: &str,
) -> (r: String)
    ensures
        r@ == generic_line_seq(
            left@.map_values(|m: ModuleOutput| m@),
            center@.map_values(|m: ModuleOutput| m@),
            right@.map_values(|m: ModuleOutput| m@),
            separator@,
        ),
{
    let sep = str_chars(separator);
    let mut r = generic_section_chars(left, &sep);
    let gap1 = str_chars("   ");
    push_all(&mut r, &gap1);
    let c = generic_section_chars(center, &sep);
    push_all(&mut r, &c);
    let gap2 = str_chars("   ");
    push_all(&mut r, &gap2);
    let rt = generic_section_chars(right, &sep);
    push_all(&mut r, &rt);
    crate::text::chars_string(&r)
}

} // verus!
