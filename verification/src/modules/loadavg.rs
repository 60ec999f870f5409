use crate::config::LoadavgConfig;
use crate::module_trait::Module;
use crate::num::{dec_of, dec_seq, fixed2_of, fixed2_seq};
use crate::parse::{
    centi_val, parse_centi, parse_u64_chars, parse_u64_seq, split_on, split_seq, tokens_of,
    ws_tokens,
};
use crate::text::{chars_string, replace_all, replace_seq, str_chars};
use crate::{clone_opt_str, ModuleOutput, SnapshotView};
use vstd::prelude::*;
use vstd::string::StringExecFns;

verus! {

/// Shows the load averages, by a configured format.
pub struct LoadavgModule {
    pub value: String,
    pub icon: Option<String>,
    pub icon_color: Option<String>,
    pub interval: u64,
    pub format: String,
}

impl LoadavgModule {
    /// Whether this module was built from `c` and has computed no value yet.
    pub open spec fn initialized_from(self, c: LoadavgConfig) -> bool {
        &&& self.value@ == Seq::<char>::empty()
        &&& self.icon.deep_view() == c.icon.deep_view()
        &&& self.icon_color.deep_view() == c.icon_color.deep_view()
        &&& self.interval == c.interval
        &&& self.format@ == c.format@
    }

    pub fn new(config: &LoadavgConfig) -> (r: Self)
        ensures
            r.initialized_from(*config),
    {
        LoadavgModule {
            value: String::new(),
            icon: clone_opt_str(&config.icon),
            icon_color: clone_opt_str(&config.icon_color),
            interval: config.interval,
            format: config.format.clone(),
        }
    }

    /// Whether `b` keeps every configuration field of `a`.
    pub open spec fn same_config(a: LoadavgModule, b: LoadavgModule) -> bool {
        &&& b.icon == a.icon
        &&& b.icon_color == a.icon_color
        &&& b.interval == a.interval
        &&& b.format == a.format
    }
}

/// The process count read from the fourth load token, which has the shape
/// "running/total"; 0 when the total is missing, unreadable or too large
/// for 32 bits.
pub open spec fn load_total_of(tok: Seq<char>) -> u64 {
    let segs = split_seq(tok, '/');
    if segs.len() > 1 {
        match parse_u64_seq(segs[1]) {
            Some(v) => if v <= u32::MAX {
                v
            } else {
                0u64
            },
            None => 0u64,
        }
    } else {
        0u64
    }
}

/// The load line: the three averages written with two decimal places and the
/// process total substituted; "load: n/a" when the text has fewer than four
/// tokens.
pub open spec fn loadavg_value_seq(format: Seq<char>, content: Seq<char>) -> Seq<char> {
    let parts = ws_tokens(content);
    if parts.len() < 4 {
        "load: n/a"@
    } else {
        let one = centi_val(parts[0]);
        let five = centi_val(parts[1]);
        let fifteen = centi_val(parts[2]);
        let total = load_total_of(parts[3]);
        let s1 = replace_seq(format, "{1m}"@, fixed2_seq(one as nat));
        let s2 = replace_seq(s1, "{5m}"@, fixed2_seq(five as nat));
        let s3 = replace_seq(s2, "{15m}"@, fixed2_seq(fifteen as nat));
        replace_seq(s3, "{total}"@, dec_seq(total as nat))
    }
}

/// The configured format with the load averages read from `content`
/// substituted.
pub fn loadavg_from_string(format: &str, content: &str) -> (r: String)
    ensures
        r@ == loadavg_value_seq(format@, content@),
{
    let content_chars = str_chars(content);
    let parts = tokens_of(&content_chars);
    if parts.len() < 4 {
        return String::from_str("load: n/a");
    }
    let ghost part_views = ws_tokens(content@);
    assert(parts@[0]@ == part_views[0]);
    assert(parts@[1]@ == part_views[1]);
    assert(parts@[2]@ == part_views[2]);
    assert(parts@[3]@ == part_views[3]);
    let one = parse_centi(&parts[0]);
    let five = parse_centi(&parts[1]);
    let fifteen = parse_centi(&parts[2]);
    let segs = split_on(&parts[3], '/');
    let total: u64 = if segs.len() > 1 {
        assert(segs@[1]@ == split_seq(part_views[3], '/')[1]);
        match parse_u64_chars(&segs[1]) {
            Some(v) => if v <= u32::MAX as u64 {
                v
            } else {
                0
            },
            None => 0,
        }
    } else {
        0
    };
    proof {
        reveal_strlit("{1m}");
        reveal_strlit("{5m}");
        reveal_strlit("{15m}");
        reveal_strlit("{total}");
    }
    let f = str_chars(format);
    let s1 = replace_all(&f, &str_chars("{1m}"), &fixed2_of(one));
    let s2 = replace_all(&s1, &str_chars("{5m}"), &fixed2_of(five));
    let s3 = replace_all(&s2, &str_chars("{15m}"), &fixed2_of(fifteen));
    let s4 = replace_all(&s3, &str_chars("{total}"), &dec_of(total));
    chars_string(&s4)
}

impl LoadavgModule {
    /// Recomputes the value from the load text; configuration is kept.
    pub fn apply_reading(&mut self, content: &str)
        ensures
            final(self).value@ == loadavg_value_seq(old(self).format@, content@),
            LoadavgModule::same_config(*old(self), *final(self)),
    {
        let v = loadavg_from_string(self.format.as_str(), content);
        self.value = v;
    }
}

impl Module for LoadavgModule {
    open spec fn snapshot_spec(&self) -> SnapshotView {
        SnapshotView {
            value: self.value@,
            icon: self.icon.deep_view(),
            icon_color: self.icon_color.deep_view(),
        }
    }

    open spec fn signal_spec(&self) -> Option<u8> {
        None
    }

    fn get_value(&self) -> (r: ModuleOutput) {
        ModuleOutput {
            value: self.value.clone(),
            icon: clone_opt_str(&self.icon),
            icon_color: clone_opt_str(&self.icon_color),
        }
    }

    fn signal_id(&self) -> (r: Option<u8>) {
        None
    }
}

} // verus!
