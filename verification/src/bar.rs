use crate::command::{parse_update_command, parse_update_seq};
use crate::config::Config;
use crate::module_trait::Module;
use crate::modules::factory::{build_modules, built_slot_ok};
use crate::modules::{slot_updated, ModuleSlot};
use crate::parse::chars_eq;
use crate::render::{
    construct_generic, construct_lemonbar, generic_line_seq, is_sub_at, join_offset,
    lemma_generic_line_contains, lemonbar_line_seq,
};
use crate::text::{join_seq, str_chars};
use crate::{ModuleOutput, SnapshotView};
use vstd::prelude::*;
use vstd::string::StringExecFns;

verus! {

/// The snapshots of a row of slots, in order.
pub open spec fn snapshots_of(slots: Seq<ModuleSlot>) -> Seq<SnapshotView> {
    slots.map_values(|s: ModuleSlot| s.snapshot_spec())
}

/// The positions (into `slots`) of the modules that answer to `id`, in
/// order.
pub open spec fn match_idxs(slots: Seq<ModuleSlot>, id: u8) -> Seq<int>
    decreases slots.len(),
{
    if slots.len() == 0 {
        Seq::empty()
    } else {
        let rest = match_idxs(slots.drop_last(), id);
        if slots.last().signal_spec() == Some(id) {
            rest + seq![slots.len() - 1]
        } else {
            rest
        }
    }
}

/// A command addresses exactly the modules whose correlation id it names:
/// a position is among the matches exactly when its module answers to the
/// id.
pub proof fn lemma_match_idxs_iff(slots: Seq<ModuleSlot>, id: u8)
    ensures
        forall|i: int|
            #[trigger] match_idxs(slots, id).contains(i) <==> (0 <= i < slots.len()
                && slots[i].signal_spec() == Some(id)),
    decreases slots.len(),
{
    if slots.len() > 0 {
        lemma_match_idxs_iff(slots.drop_last(), id);
        let prev = slots.drop_last();
        let rest = match_idxs(prev, id);
        let whole = match_idxs(slots, id);
        assert forall|i: int| #[trigger] whole.contains(i) implies (0 <= i < slots.len()
            && slots[i].signal_spec() == Some(id)) by {
            let k = choose|k: int| 0 <= k < whole.len() && whole[k] == i;
            if k < rest.len() {
                assert(rest[k] == i);
                assert(rest.contains(i));
                assert(prev[i] == slots[i]);
            } else {
                assert(slots.last().signal_spec() == Some(id));
                assert(i == slots.len() - 1);
                assert(slots.last() == slots[i]);
            }
        }
        assert forall|i: int| (0 <= i < slots.len() && slots[i].signal_spec() == Some(
            id,
        )) implies #[trigger] whole.contains(i) by {
            if i < slots.len() - 1 {
                assert(prev[i] == slots[i]);
                assert(rest.contains(i));
                let k = choose|k: int| 0 <= k < rest.len() && rest[k] == i;
                assert(whole[k] == i);
            } else {
                assert(slots.last() == slots[i]);
                assert(whole[rest.len() as int] == i);
            }
        }
    }
}

/// The coordinator: the three ordered sections of modules, the separator
/// written between modules of one section, and the markup dialect the line
/// is rendered for.
pub struct Bar {
    pub left: Vec<ModuleSlot>,
    pub center: Vec<ModuleSlot>,
    pub right: Vec<ModuleSlot>,
    pub separator: String,
    pub frontend: String,
}

impl Bar {
    /// Every slot, in section order: left, then center, then right.
    pub open spec fn all_slots(self) -> Seq<ModuleSlot> {
        self.left@ + self.center@ + self.right@
    }

    /// The line rendering must produce for this state: the markup line for
    /// the markup dialect, the generic line for every other dialect name.
    pub open spec fn line_spec(self) -> Seq<char> {
        if self.frontend@ == "lemonbar"@ {
            lemonbar_line_seq(
                snapshots_of(self.left@),
                snapshots_of(self.center@),
                snapshots_of(self.right@),
                self.separator@,
            )
        } else {
            generic_line_seq(
                snapshots_of(self.left@),
                snapshots_of(self.center@),
                snapshots_of(self.right@),
                self.separator@,
            )
        }
    }

    /// A bar built from the configuration: one module per configured name in
    /// each section, and the separator and dialect taken over.
    pub fn new(config: &Config) -> (r: Self)
        ensures
            r.left@.len() == config.left@.len(),
            r.center@.len() == config.center@.len(),
            r.right@.len() == config.right@.len(),
            forall|i: int|
                0 <= i < r.left@.len() ==> built_slot_ok(
                    config.left@[i]@,
                    config.modules,
                    #[trigger] r.left@[i],
                ),
            forall|i: int|
                0 <= i < r.center@.len() ==> built_slot_ok(
                    config.center@[i]@,
                    config.modules,
                    #[trigger] r.center@[i],
                ),
            forall|i: int|
                0 <= i < r.right@.len() ==> built_slot_ok(
                    config.right@[i]@,
                    config.modules,
                    #[trigger] r.right@[i],
                ),
            r.separator@ == config.separator@,
            r.frontend@ == config.frontend@,
    {
        Bar {
            left: build_modules(&config.left, &config.modules),
            center: build_modules(&config.center, &config.modules),
            right: build_modules(&config.right, &config.modules),
            separator: config.separator.clone(),
            frontend: config.frontend.clone(),
        }
    }

    /// Recomputes what can be recomputed without probing, in every section;
    /// all other slots, the separator and the dialect are untouched.
    pub fn update(&mut self)
        ensures
            final(self).left@.len() == old(self).left@.len(),
            final(self).center@.len() == old(self).center@.len(),
            final(self).right@.len() == old(self).right@.len(),
            forall|i: int|
                0 <= i < old(self).left@.len() ==> slot_updated(
                    old(self).left@[i],
                    #[trigger] final(self).left@[i],
                ),
            forall|i: int|
                0 <= i < old(self).center@.len() ==> slot_updated(
                    old(self).center@[i],
                    #[trigger] final(self).center@[i],
                ),
            forall|i: int|
                0 <= i < old(self).right@.len() ==> slot_updated(
                    old(self).right@[i],
                    #[trigger] final(self).right@[i],
                ),
            final(self).separator == old(self).separator,
            final(self).frontend == old(self).frontend,
    {
        update_section(&mut self.left);
        update_section(&mut self.center);
        update_section(&mut self.right);
    }

    /// One snapshot per module of this section, in order.
    fn collect(slots: &Vec<ModuleSlot>) -> (r: Vec<ModuleOutput>)
        ensures
            r@.map_values(|m: ModuleOutput| m@) == snapshots_of(slots@),
    {
        let mut r: Vec<ModuleOutput> = Vec::new();
        let mut i: usize = 0;
        while i < slots.len()
            invariant
                i <= slots@.len(),
                r@.len() == i as int,
                forall|k: int| 0 <= k < i ==> (#[trigger] r@[k])@ == slots@[k].snapshot_spec(),
            decreases slots@.len() - i,
        {
            r.push(slots[i].get_value());
            i = i + 1;
        }
        assert(r@.map_values(|m: ModuleOutput| m@) =~= snapshots_of(slots@));
        r
    }

    /// The rendered line: one snapshot per module, rendered for the
    /// configured dialect. Reads only already-computed snapshots; an
    /// unrecognized dialect name renders exactly as the generic dialect.
    pub fn construct(&self) -> (r: String)
        ensures
            r@ == self.line_spec(),
    {
        let left = Bar::collect(&self.left);
        let center = Bar::collect(&self.center);
        let right = Bar::collect(&self.right);
        let fr = str_chars(self.frontend.as_str());
        let lemonbar_lit = str_chars("lemonbar");
        if chars_eq(&fr, &lemonbar_lit) {
            construct_lemonbar(&left, &center, &right, self.separator.as_str())
        } else {
            construct_generic(&left, &center, &right, self.separator.as_str())
        }
    }

    /// The out-of-band diagnostic for an unrecognized dialect name: nothing
    /// for either recognized dialect, else one line naming the dialect.
    pub fn dialect_warning(&self) -> (r: Option<String>)
        ensures
            self.frontend@ == "lemonbar"@ || self.frontend@ == "generic"@ ==> r is None,
            self.frontend@ != "lemonbar"@ && self.frontend@ != "generic"@ ==> (r matches Some(w)
                && w@ == "warning: frontend "@ + self.frontend@ + " not implemented"@),
    {
        let fr = str_chars(self.frontend.as_str());
        let lemonbar_lit = str_chars("lemonbar");
        let generic_lit = str_chars("generic");
        if chars_eq(&fr, &lemonbar_lit) || chars_eq(&fr, &generic_lit) {
            None
        } else {
            let mut w = String::from_str("warning: frontend ");
            w.append(self.frontend.as_str());
            w.append(" not implemented");
            Some(w)
        }
    }

    /// The slot at position `i` of the section-ordered row.
    fn slot_at(&self, i: usize) -> (r: &ModuleSlot)
        requires
            i < self.all_slots().len(),
        ensures
            *r == self.all_slots()[i as int],
    {
        if i < self.left.len() {
            &self.left[i]
        } else if i - self.left.len() < self.center.len() {
            &self.center[i - self.left.len()]
        } else {
            assert(i - self.left@.len() - self.center@.len() < self.right@.len());
            &self.right[i - self.left.len() - self.center.len()]
        }
    }

    /// The positions of the modules that answer to `id`, across all three
    /// sections in section order.
    pub fn matching_modules(&self, id: u8) -> (r: Vec<usize>)
        requires
            self.all_slots().len() <= usize::MAX,
        ensures
            r@.map_values(|u: usize| u as int) == match_idxs(self.all_slots(), id),
    {
        let ghost all = self.all_slots();
        let total: usize = self.left.len() + self.center.len() + self.right.len();
        assert(total == all.len());
        let mut r: Vec<usize> = Vec::new();
        let mut i: usize = 0;
        assert(all.take(0) =~= Seq::<ModuleSlot>::empty());
        while i < total
            invariant
                all == self.all_slots(),
                total == all.len(),
                i <= total,
                r@.map_values(|u: usize| u as int) == match_idxs(all.take(i as int), id),
            decreases total - i,
        {
            let slot = self.slot_at(i);
            let ghost r_old = r@.map_values(|u: usize| u as int);
            let matched = match slot.signal_id() {
                Some(s) => s == id,
                None => false,
            };
            if matched {
                r.push(i);
                assert(r@.map_values(|u: usize| u as int) =~= r_old + seq![i as int]);
            }
            i = i + 1;
            proof {
                assert(all.take(i as int).drop_last() =~= all.take(i - 1));
                assert(all.take(i as int).last() == all[i - 1]);
            }
        }
        assert(all.take(total as int) =~= all);
        r
    }

    /// One inbound command line handled: a well-formed refresh command names
    /// an id and yields the positions of exactly the modules answering to
    /// that id, for the caller to recompute; anything else is ignored and
    /// yields no positions. The bar itself is only read.
    pub fn handle_command(&self, raw: &str) -> (r: Vec<usize>)
        requires
            self.all_slots().len() <= usize::MAX,
        ensures
            match parse_update_seq(raw@) {
                Some(id) => r@.map_values(|u: usize| u as int) == match_idxs(
                    self.all_slots(),
                    id,
                ),
                None => r@ == Seq::<usize>::empty(),
            },
    {
        match parse_update_command(raw) {
            Some(id) => self.matching_modules(id),
            None => Vec::new(),
        }
    }
}

/// The values shown by a row of slots, in order.
pub open spec fn values_of(slots: Seq<ModuleSlot>) -> Seq<Seq<char>> {
    slots.map_values(|s: ModuleSlot| s.snapshot_spec().value)
}

/// In the line a bar renders for any non-markup dialect, every module's
/// snapshot value stands intact at its own offset: left-section values at
/// their join offsets, center and right values shifted past the sections
/// and three-space gaps before them. Offsets grow within a section (see
/// `lemma_join_contains`), so the values appear in section order, separated
/// by the configured separator.
pub proof fn lemma_line_contains_values(b: Bar)
    requires
        b.frontend@ != "lemonbar"@,
    ensures
        forall|i: int|
            0 <= i < b.left@.len() ==> is_sub_at(
                b.line_spec(),
                join_offset(values_of(b.left@), b.separator@, i),
                #[trigger] values_of(b.left@)[i],
            ),
        forall|i: int|
            0 <= i < b.center@.len() ==> is_sub_at(
                b.line_spec(),
                join_seq(values_of(b.left@), b.separator@).len() + "   "@.len() + join_offset(
                    values_of(b.center@),
                    b.separator@,
                    i,
                ),
                #[trigger] values_of(b.center@)[i],
            ),
        forall|i: int|
            0 <= i < b.right@.len() ==> is_sub_at(
                b.line_spec(),
                join_seq(values_of(b.left@), b.separator@).len() + "   "@.len() + join_seq(
                    values_of(b.center@),
                    b.separator@,
                ).len() + "   "@.len() + join_offset(values_of(b.right@), b.separator@, i),
                #[trigger] values_of(b.right@)[i],
            ),
{
    let l = snapshots_of(b.left@);
    let c = snapshots_of(b.center@);
    let r = snapshots_of(b.right@);
    lemma_generic_line_contains(l, c, r, b.separator@);
    assert(values_of(b.left@) =~= l.map_values(|m: SnapshotView| m.value));
    assert(values_of(b.center@) =~= c.map_values(|m: SnapshotView| m.value));
    assert(values_of(b.right@) =~= r.map_values(|m: SnapshotView| m.value));
    assert forall|i: int| 0 <= i < b.left@.len() implies l[i].value == #[trigger] values_of(
        b.left@,
    )[i] by {}
    assert forall|i: int| 0 <= i < b.center@.len() implies c[i].value == #[trigger] values_of(
        b.center@,
    )[i] by {}
    assert forall|i: int| 0 <= i < b.right@.len() implies r[i].value == #[trigger] values_of(
        b.right@,
    )[i] by {}
}

/// Rendering reads the state and nothing else: two renders of one bar with
/// no recompute between them yield one and the same line.
pub proof fn lemma_render_idempotent(b: Bar, r1: Seq<char>, r2: Seq<char>)
    requires
        r1 == b.line_spec(),
        r2 == b.line_spec(),
    ensures
        r1 == r2,
{
}

/// For an unrecognized dialect name the rendered line equals the generic
/// dialect's line for the same snapshots.
pub proof fn lemma_unknown_dialect_generic(b: Bar)
    requires
        b.frontend@ != "lemonbar"@,
    ensures
        b.line_spec() == generic_line_seq(
            snapshots_of(b.left@),
            snapshots_of(b.center@),
            snapshots_of(b.right@),
            b.separator@,
        ),
{
}

/// Recomputes what can be recomputed without probing in one section.
fn update_section(slots: &mut Vec<ModuleSlot>)
    ensures
        final(slots)@.len() == old(slots)@.len(),
        forall|i: int|
            0 <= i < old(slots)@.len() ==> slot_updated(
                old(slots)@[i],
                #[trigger] final(slots)@[i],
            ),
{
    let n = slots.len();
    let mut i: usize = 0;
    while i < n
        invariant
            n == slots@.len(),
            slots@.len() == old(slots)@.len(),
            i <= n,
            forall|k: int| 0 <= k < i ==> slot_updated(old(slots)@[k], #[trigger] slots@[k]),
            forall|k: int| i <= k < n ==> slots@[k] == old(slots)@[k],
        decreases n - i,
    {
        let slot = &mut slots[i];
        slot.update_local();
        i = i + 1;
    }
}

} // verus!
