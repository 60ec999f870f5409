use crate::config::XworkspacesConfig;
use crate::module_trait::Module;
use crate::num::{dec_of, dec_seq};
use crate::parse::{split_on, split_seq};
use crate::text::{chars_string, join_chars, join_seq, replace_all, replace_seq, str_chars};
use crate::{clone_opt_str, ModuleOutput, SnapshotView};
use vstd::prelude::*;
use vstd::string::StringExecFns;

verus! {

/// Shows the workspaces of the windowing system, by configured formats.
pub struct XworkspacesModule {
    pub value: String,
    pub icon: Option<String>,
    pub icon_color: Option<String>,
    pub signal_id: Option<u8>,
    pub format_active: String,
    pub format_empty: String,
    pub format_occupied: String,
    pub format_urgent: String,
    pub sepparator: String,
}

impl XworkspacesModule {
    /// Whether this module was built from `c` and has computed no value yet.
    pub open spec fn initialized_from(self, c: XworkspacesConfig) -> bool {
        &&& self.value@ == Seq::<char>::empty()
        &&& self.icon.deep_view() == c.icon.deep_view()
        &&& self.icon_color.deep_view() == c.icon_color.deep_view()
        &&& self.signal_id == c.signal_id
        &&& self.format_active@ == c.format_active@
        &&& self.format_empty@ == c.format_empty@
        &&& self.format_occupied@ == c.format_occupied@
        &&& self.format_urgent@ == c.format_urgent@
        &&& self.sepparator@ == c.sepparator@
    }

    pub fn new(config: &XworkspacesConfig) -> (r: Self)
        ensures
            r.initialized_from(*config),
    {
        XworkspacesModule {
            value: String::new(),
            icon: clone_opt_str(&config.icon),
            icon_color: clone_opt_str(&config.icon_color),
            signal_id: config.signal_id,
            format_active: config.format_active.clone(),
            format_empty: config.format_empty.clone(),
            format_occupied: config.format_occupied.clone(),
            format_urgent: config.format_urgent.clone(),
            sepparator: config.sepparator.clone(),
        }
    }

    /// Whether `b` keeps every configuration field of `a`.
    pub open spec fn same_config(a: XworkspacesModule, b: XworkspacesModule) -> bool {
        &&& b.icon == a.icon
        &&& b.icon_color == a.icon_color
        &&& b.signal_id == a.signal_id
        &&& b.format_active == a.format_active
        &&& b.format_empty == a.format_empty
        &&& b.format_occupied == a.format_occupied
        &&& b.format_urgent == a.format_urgent
        &&& b.sepparator == a.sepparator
    }
}

/// What a workspace is showing: the focused one is active; one a window
/// demanding attention sits on is urgent; one with any window is occupied;
/// the rest are empty. Error marks the placeholder made when the windowing
/// system could not be asked.
#[derive(Clone, Copy, PartialEq, Eq, Structural, Debug)]
pub enum WorkspaceState {
    Active,
    Empty,
    Occupied,
    Urgent,
    Error,
}

/// One workspace: its position, its configured name and its state.
pub struct Workspace {
    pub index: usize,
    pub name: String,
    pub state: WorkspaceState,
}

/// Whether some window sits on desktop `d`.
pub open spec fn desktop_occupied(windows: Seq<(u32, bool)>, d: u32) -> bool {
    exists|k: int| 0 <= k < windows.len() && (#[trigger] windows[k]).0 == d
}

/// Whether some window on desktop `d` demands attention.
pub open spec fn desktop_urgent(windows: Seq<(u32, bool)>, d: u32) -> bool {
    exists|k: int| 0 <= k < windows.len() && (#[trigger] windows[k]).0 == d && windows[k].1
}

/// The state of desktop `i`, from the focused desktop and the windows.
pub open spec fn workspace_state_at(i: u32, current: usize, windows: Seq<(u32, bool)>) -> WorkspaceState {
    if i == current {
        WorkspaceState::Active
    } else if desktop_urgent(windows, i) {
        WorkspaceState::Urgent
    } else if desktop_occupied(windows, i) {
        WorkspaceState::Occupied
    } else {
        WorkspaceState::Empty
    }
}

/// The name of desktop `i`: the i-th NUL-separated entry of the names
/// property, or empty when the property has fewer entries.
pub open spec fn desktop_name_at(text: Seq<char>, i: int) -> Seq<char> {
    let base = split_seq(text, '\0');
    if i < base.len() {
        base[i]
    } else {
        Seq::empty()
    }
}

/// Whether some window in `windows` sits on desktop `d`; when `need_urgent`
/// is set, only windows demanding attention count.
fn scan_windows(windows: &Vec<(u32, bool)>, d: u32, need_urgent: bool) -> (b: bool)
    ensures
        b == if need_urgent {
            desktop_urgent(windows@, d)
        } else {
            desktop_occupied(windows@, d)
        },
{
    let mut k: usize = 0;
    while k < windows.len()
        invariant
            k <= windows@.len(),
            forall|j: int|
                0 <= j < k ==> !((#[trigger] windows@[j]).0 == d && (windows@[j].1
                    || !need_urgent)),
        decreases windows@.len() - k,
    {
        let (desk, urgent) = windows[k];
        if desk == d && (urgent || !need_urgent) {
            return true;
        }
        k = k + 1;
    }
    false
}

/// The names of the first `num` desktops, read from the NUL-separated names
/// property; missing entries are empty.
pub fn desktop_names_from(text: &str, num: usize) -> (r: Vec<String>)
    ensures
        r@.len() == num as int,
        forall|i: int| 0 <= i < num ==> (#[trigger] r@[i])@ == desktop_name_at(text@, i),
{
    let chars = str_chars(text);
    let parts = split_on(&chars, '\0');
    let mut r: Vec<String> = Vec::new();
    let mut i: usize = 0;
    while i < num
        invariant
            parts@.map_values(|p: Vec<char>| p@) == split_seq(text@, '\0'),
            i <= num,
            r@.len() == i as int,
            forall|k: int| 0 <= k < i ==> (#[trigger] r@[k])@ == desktop_name_at(text@, k),
        decreases num - i,
    {
        if i < parts.len() {
            assert(parts@[i as int]@ == split_seq(text@, '\0')[i as int]);
            r.push(chars_string(&parts[i]));
        } else {
            r.push(String::new());
        }
        i = i + 1;
    }
    r
}

/// One workspace per desktop, each with its name and its state derived from
/// the focused desktop and the fetched windows.
pub fn workspaces_from_props(
    num_desktops: usize,
    current_desktop: usize,
    names: &Vec<String>,
    windows: &Vec<(u32, bool)>,
) -> (r: Vec<Workspace>)
    requires
        names@.len() == num_desktops,
        num_desktops <= u32::MAX,
    ensures
        r@.len() == num_desktops as int,
        forall|i: int|
            0 <= i < num_desktops ==> (#[trigger] r@[i]).index == i && r@[i].name@ == names@[i]@
                && r@[i].state == workspace_state_at(i as u32, current_desktop, windows@),
{
    let mut r: Vec<Workspace> = Vec::new();
    let mut i: usize = 0;
    while i < num_desktops
        invariant
            names@.len() == num_desktops,
            num_desktops <= u32::MAX,
            i <= num_desktops,
            r@.len() == i as int,
            forall|k: int|
                0 <= k < i ==> (#[trigger] r@[k]).index == k && r@[k].name@ == names@[k]@
                    && r@[k].state == workspace_state_at(k as u32, current_desktop, windows@),
        decreases num_desktops - i,
    {
        let state: WorkspaceState = if i == current_desktop {
            WorkspaceState::Active
        } else if scan_windows(windows, i as u32, true) {
            WorkspaceState::Urgent
        } else if scan_windows(windows, i as u32, false) {
            WorkspaceState::Occupied
        } else {
            WorkspaceState::Empty
        };
        r.push(Workspace { index: i, name: names[i].clone(), state });
        i = i + 1;
    }
    r
}

/// The placeholder list shown when the windowing system could not be asked:
/// one workspace carrying the diagnostic text.
pub fn get_workspaces_result_wrapper(result: Result<Vec<Workspace>, String>) -> (r: Vec<Workspace>)
    ensures
        match result {
            Ok(ws) => r == ws,
            Err(e) => r@.len() == 1 && r@[0].index == 0 && r@[0].name@ == "error: "@ + e@
                && r@[0].state == WorkspaceState::Error,
        },
{
    match result {
        Ok(ws) => ws,
        Err(e) => {
            let mut name = String::from_str("error: ");
            name.append(e.as_str());
            let mut r: Vec<Workspace> = Vec::new();
            r.push(Workspace { index: 0, name, state: WorkspaceState::Error });
            r
        },
    }
}

/// The format a workspace is written with, by its state; the error
/// placeholder is written as nothing.
pub open spec fn ws_template(
    state: WorkspaceState,
    format_active: Seq<char>,
    format_empty: Seq<char>,
    format_occupied: Seq<char>,
    format_urgent: Seq<char>,
) -> Seq<char> {
    match state {
        WorkspaceState::Active => format_active,
        WorkspaceState::Empty => format_empty,
        WorkspaceState::Occupied => format_occupied,
        WorkspaceState::Urgent => format_urgent,
        WorkspaceState::Error => Seq::empty(),
    }
}

/// One workspace written out: its format with position and name substituted.
pub open spec fn ws_entry_seq(
    w: Workspace,
    format_active: Seq<char>,
    format_empty: Seq<char>,
    format_occupied: Seq<char>,
    format_urgent: Seq<char>,
) -> Seq<char> {
    replace_seq(
        replace_seq(
            ws_template(w.state, format_active, format_empty, format_occupied, format_urgent),
            "{index}"@,
            dec_seq(w.index as nat),
        ),
        "{name}"@,
        w.name@,
    )
}

/// The whole workspaces line: every workspace written out, joined with the
/// separator.
pub open spec fn ws_line_seq(
    ws: Seq<Workspace>,
    format_active: Seq<char>,
    format_empty: Seq<char>,
    format_occupied: Seq<char>,
    format_urgent: Seq<char>,
    sep: Seq<char>,
) -> Seq<char> {
    join_seq(
        ws.map_values(
            |w: Workspace| ws_entry_seq(w, format_active, format_empty, format_occupied, format_urgent),
        ),
        sep,
    )
}

/// The workspaces written out by the configured formats, joined with the
/// separator.
pub fn format_workspaces(
    workspaces: &Vec<Workspace>,
    format_active: &str,
    format_empty: &str,
    format_occupied: &str,
    format_urgent: &str,
    separator: &str,
) -> (r: String)
    ensures
        r@ == ws_line_seq(
            workspaces@,
            format_active@,
            format_empty@,
            format_occupied@,
            format_urgent@,
            separator@,
        ),
{
    proof {
        reveal_strlit("{index}");
        reveal_strlit("{name}");
    }
    let fa = str_chars(format_active);
    let fe = str_chars(format_empty);
    let fo = str_chars(format_occupied);
    let fu = str_chars(format_urgent);
    let pat_index = str_chars("{index}");
    let pat_name = str_chars("{name}");
    let mut parts: Vec<Vec<char>> = Vec::new();
    let mut i: usize = 0;
    while i < workspaces.len()
        invariant
            fa@ == format_active@,
            fe@ == format_empty@,
            fo@ == format_occupied@,
            fu@ == format_urgent@,
            pat_index@ == "{index}"@,
            pat_index@.len() > 0,
            pat_name@ == "{name}"@,
            pat_name@.len() > 0,
            i <= workspaces@.len(),
            parts@.len() == i as int,
            forall|k: int|
                0 <= k < i ==> (#[trigger] parts@[k])@ == ws_entry_seq(
                    workspaces@[k],
                    format_active@,
                    format_empty@,
                    format_occupied@,
                    format_urgent@,
                ),
        decreases workspaces@.len() - i,
    {
        let w = &workspaces[i];
        let template: &Vec<char> = match w.state {
            WorkspaceState::Active => &fa,
            WorkspaceState::Empty => &fe,
            WorkspaceState::Occupied => &fo,
            WorkspaceState::Urgent => &fu,
            WorkspaceState::Error => {
                proof {
                    assert(ws_template(
                        w.state,
                        format_active@,
                        format_empty@,
                        format_occupied@,
                        format_urgent@,
                    ) =~= Seq::<char>::empty());
                }
                &fa
            },
        };
        let base: Vec<char> = match w.state {
            WorkspaceState::Error => Vec::new(),
            _ => {
                let mut b: Vec<char> = Vec::new();
                crate::text::push_all(&mut b, template);
                b
            },
        };
        let s1 = replace_all(&base, &pat_index, &dec_of(w.index as u64));
        let s2 = replace_all(&s1, &pat_name, &str_chars(w.name.as_str()));
        parts.push(s2);
        i = i + 1;
    }
    let sep = str_chars(separator);
    let joined = join_chars(&parts, &sep);
    assert(parts@.map_values(|p: Vec<char>| p@) =~= workspaces@.map_values(
        |w: Workspace| ws_entry_seq(w, format_active@, format_empty@, format_occupied@, format_urgent@),
    ));
    chars_string(&joined)
}

impl XworkspacesModule {
    /// Recomputes the value from the workspace list; configuration is kept.
    pub fn apply_workspaces(&mut self, workspaces: &Vec<Workspace>)
        ensures
            final(self).value@ == ws_line_seq(
                workspaces@,
                old(self).format_active@,
                old(self).format_empty@,
                old(self).format_occupied@,
                old(self).format_urgent@,
                old(self).sepparator@,
            ),
            XworkspacesModule::same_config(*old(self), *final(self)),
    {
        let v = format_workspaces(
            workspaces,
            self.format_active.as_str(),
            self.format_empty.as_str(),
            self.format_occupied.as_str(),
            self.format_urgent.as_str(),
            self.sepparator.as_str(),
        );
        self.value = v;
    }
}

impl Module for XworkspacesModule {
    open spec fn snapshot_spec(&self) -> SnapshotView {
        SnapshotView {
            value: self.value@,
            icon: self.icon.deep_view(),
            icon_color: self.icon_color.deep_view(),
        }
    }

    open spec fn signal_spec(&self) -> Option<u8> {
        self.signal_id
    }

    fn get_value(&self) -> (r: ModuleOutput) {
        ModuleOutput {
            value: self.value.clone(),
            icon: clone_opt_str(&self.icon),
            icon_color: clone_opt_str(&self.icon_color),
        }
    }

    fn signal_id(&self) -> (r: Option<u8>) {
        self.signal_id
    }
}

} // verus!
