use crate::config::XwindowConfig;
use crate::module_trait::Module;
use crate::text::{chars_string, str_chars};
use crate::{clone_opt_str, ModuleOutput, SnapshotView};
use vstd::prelude::*;
use vstd::string::StringExecFns;

verus! {

/// Shows the title of the focused window.
pub struct XwindowModule {
    pub value: String,
    pub icon: Option<String>,
    pub icon_color: Option<String>,
    pub signal_id: Option<u8>,
    pub max_length: u32,
    pub empty_name: String,
}

impl XwindowModule {
    /// Whether this module was built from `c` and has computed no value yet.
    pub open spec fn initialized_from(self, c: XwindowConfig) -> bool {
        &&& self.value@ == Seq::<char>::empty()
        &&& self.icon.deep_view() == c.icon.deep_view()
        &&& self.icon_color.deep_view() == c.icon_color.deep_view()
        &&& self.signal_id == c.signal_id
        &&& self.max_length == c.max_length
        &&& self.empty_name@ == c.empty_name@
    }

    pub fn new(config: &XwindowConfig) -> (r: Self)
        ensures
            r.initialized_from(*config),
    {
        XwindowModule {
            value: String::new(),
            icon: clone_opt_str(&config.icon),
            icon_color: clone_opt_str(&config.icon_color),
            signal_id: config.signal_id,
            max_length: config.max_length,
            empty_name: config.empty_name.clone(),
        }
    }

    /// Whether `b` keeps every configuration field of `a`.
    pub open spec fn same_config(a: XwindowModule, b: XwindowModule) -> bool {
        &&& b.icon == a.icon
        &&& b.icon_color == a.icon_color
        &&& b.signal_id == a.signal_id
        &&& b.max_length == a.max_length
        &&& b.empty_name == a.empty_name
    }
}

/// Bytes read as Latin-1 text: each byte is the character of its own code
/// point.
pub open spec fn latin1_chars(bytes: Seq<u8>) -> Seq<char> {
    bytes.map_values(|b: u8| b as char)
}

/// The title shown for the focused window, chosen from the window properties
/// in order of preference: the UTF-8 name, the compound-text name, then the
/// Latin-1 name, each only when present and non-empty; the configured text
/// when no window is focused (id 0), and "Unknown window" when no property
/// yields a name.
pub open spec fn window_title_seq(
    active_window_id: u32,
    net_wm_name: Option<Seq<char>>,
    wm_name_compound: Option<Seq<char>>,
    wm_name_latin: Option<Seq<u8>>,
    empty_name: Seq<char>,
) -> Seq<char> {
    if active_window_id == 0 {
        empty_name
    } else if net_wm_name matches Some(s) && s.len() > 0 {
        net_wm_name.unwrap()
    } else if wm_name_compound matches Some(s) && s.len() > 0 {
        wm_name_compound.unwrap()
    } else if wm_name_latin matches Some(b) && b.len() > 0 {
        latin1_chars(wm_name_latin.unwrap())
    } else {
        "Unknown window"@
    }
}

/// The title chosen from the fetched window properties.
pub fn window_title_from_props(
    active_window_id: u32,
    net_wm_name: Option<&str>,
    wm_name_compound: Option<&str>,
    wm_name_latin: Option<&Vec<u8>>,
    empty_name: &str,
) -> (r: String)
    ensures
        r@ == window_title_seq(
            active_window_id,
            match net_wm_name {
                Some(s) => Some(s@),
                None => None,
            },
            match wm_name_compound {
                Some(s) => Some(s@),
                None => None,
            },
            match wm_name_latin {
                Some(b) => Some(b@),
                None => None,
            },
            empty_name@,
        ),
{
    if active_window_id == 0 {
        return String::from_str(empty_name);
    }
    match net_wm_name {
        Some(s) => {
            if s.unicode_len() > 0 {
                return String::from_str(s);
            }
        },
        None => {},
    }
    match wm_name_compound {
        Some(s) => {
            if s.unicode_len() > 0 {
                return String::from_str(s);
            }
        },
        None => {},
    }
    match wm_name_latin {
        Some(b) => {
            if b.len() > 0 {
                let mut decoded: Vec<char> = Vec::new();
                let mut j: usize = 0;
                while j < b.len()
                    invariant
                        j <= b@.len(),
                        decoded@.len() == j as int,
                        forall|k: int| 0 <= k < j ==> decoded@[k] == (b@[k] as char),
                    decreases b@.len() - j,
                {
                    decoded.push(b[j] as char);
                    j = j + 1;
                }
                assert(decoded@ =~= latin1_chars(b@));
                return chars_string(&decoded);
            }
        },
        None => {},
    }
    String::from_str("Unknown window")
}

impl XwindowModule {
    /// Recomputes the value from the fetched window properties;
    /// configuration is kept.
    pub fn apply_props(
        &mut self,
        active_window_id: u32,
        net_wm_name: Option<&str>,
        wm_name_compound: Option<&str>,
        wm_name_latin: Option<&Vec<u8>>,
    )
        ensures
            final(self).value@ == window_title_seq(
                active_window_id,
                match net_wm_name {
                    Some(s) => Some(s@),
                    None => None,
                },
                match wm_name_compound {
                    Some(s) => Some(s@),
                    None => None,
                },
                match wm_name_latin {
                    Some(b) => Some(b@),
                    None => None,
                },
                old(self).empty_name@,
            ),
            XwindowModule::same_config(*old(self), *final(self)),
    {
        let v = window_title_from_props(
            active_window_id,
            net_wm_name,
            wm_name_compound,
            wm_name_latin,
            self.empty_name.as_str(),
        );
        self.value = v;
    }
}

impl Module for XwindowModule {
    open spec fn snapshot_spec(&self) -> SnapshotView {
        SnapshotView {
            value: self.value@,
            icon: self.icon.deep_view(),
            icon_color: self.icon_color.deep_view(),
        }
    }

    open spec fn signal_spec(&self) -> Option<u8> {
        self.signal_id
    }

    fn get_value(&self) -> (r: ModuleOutput) {
        ModuleOutput {
            value: self.value.clone(),
            icon: clone_opt_str(&self.icon),
            icon_color: clone_opt_str(&self.icon_color),
        }
    }

    fn signal_id(&self) -> (r: Option<u8>) {
        self.signal_id
    }
}

} // verus!
