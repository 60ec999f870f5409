use crate::config::XkeyboardConfig;
use crate::module_trait::Module;
use crate::parse::{split_on, split_seq};
use crate::text::{chars_string, str_chars};
use crate::{clone_opt_str, ModuleOutput, SnapshotView};
use vstd::prelude::*;
use vstd::string::StringExecFns;

verus! {

/// Shows the current keyboard layout of the windowing system.
pub struct XkeyboardModule {
    pub value: String,
    pub icon: Option<String>,
    pub icon_color: Option<String>,
    pub signal_id: Option<u8>,
}

impl XkeyboardModule {
    /// Whether this module was built from `c` and has computed no value yet.
    pub open spec fn initialized_from(self, c: XkeyboardConfig) -> bool {
        &&& self.value@ == Seq::<char>::empty()
        &&& self.icon.deep_view() == c.icon.deep_view()
        &&& self.icon_color.deep_view() == c.icon_color.deep_view()
        &&& self.signal_id == c.signal_id
    }

    pub fn new(config: &XkeyboardConfig) -> (r: Self)
        ensures
            r.initialized_from(*config),
    {
        XkeyboardModule {
            value: String::new(),
            icon: clone_opt_str(&config.icon),
            icon_color: clone_opt_str(&config.icon_color),
            signal_id: config.signal_id,
        }
    }

    /// Whether `b` keeps every configuration field of `a`.
    pub open spec fn same_config(a: XkeyboardModule, b: XkeyboardModule) -> bool {
        &&& b.icon == a.icon
        &&& b.icon_color == a.icon_color
        &&& b.signal_id == a.signal_id
    }
}

/// The layout name carried in the keyboard rules property: the text is a
/// list separated by NUL characters, and the layout is its third entry;
/// "unknown" when there is no such entry or it is empty.
pub open spec fn layout_value_seq(text: Seq<char>) -> Seq<char> {
    let parts = split_seq(text, '\0');
    if parts.len() > 2 && parts[2].len() > 0 {
        parts[2]
    } else {
        "unknown"@
    }
}

/// The layout name read from the keyboard rules property text.
pub fn layout_from_rules_names(text: &str) -> (r: String)
    ensures
        r@ == layout_value_seq(text@),
{
    let chars = str_chars(text);
    let parts = split_on(&chars, '\0');
    if parts.len() > 2 && parts[2].len() > 0 {
        assert(parts@[2]@ == split_seq(text@, '\0')[2]);
        chars_string(&parts[2])
    } else {
        proof {
            if split_seq(text@, '\0').len() > 2 {
                assert(parts@[2]@ == split_seq(text@, '\0')[2]);
            }
        }
        String::from_str("unknown")
    }
}

impl XkeyboardModule {
    /// Recomputes the value from the rules property text; configuration is
    /// kept.
    pub fn apply_rules_names(&mut self, text: &str)
        ensures
            final(self).value@ == layout_value_seq(text@),
            XkeyboardModule::same_config(*old(self), *final(self)),
    {
        let v = layout_from_rules_names(text);
        self.value = v;
    }
}

impl Module for XkeyboardModule {
    open spec fn snapshot_spec(&self) -> SnapshotView {
        SnapshotView {
            value: self.value@,
            icon: self.icon.deep_view(),
            icon_color: self.icon_color.deep_view(),
        }
    }

    open spec fn signal_spec(&self) -> Option<u8> {
        self.signal_id
    }

    fn get_value(&self) -> (r: ModuleOutput) {
        ModuleOutput {
            value: self.value.clone(),
            icon: clone_opt_str(&self.icon),
            icon_color: clone_opt_str(&self.icon_color),
        }
    }

    fn signal_id(&self) -> (r: Option<u8>) {
        self.signal_id
    }
}

} // verus!
