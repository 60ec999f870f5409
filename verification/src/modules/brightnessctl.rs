use crate::config::BrightnessctlConfig;
use crate::module_trait::Module;
use crate::parse::{contains_chars, contains_seq, find_char, find_idx, slice_range, split_on, split_seq};
use crate::text::{chars_string, replace_all, replace_seq, str_chars};
use crate::{clone_opt_str, ModuleOutput, SnapshotView};
use vstd::prelude::*;
use vstd::string::StringExecFns;

verus! {

/// Shows the brightness of a device, by a configured format.
pub struct BrightnessctlModule {
    pub value: String,
    pub icon: Option<String>,
    pub icon_color: Option<String>,
    pub signal_id: Option<u8>,
    pub device_name: String,
    pub format: String,
}

impl BrightnessctlModule {
    /// Whether this module was built from `c` and has computed no value yet.
    pub open spec fn initialized_from(self, c: BrightnessctlConfig) -> bool {
        &&& self.value@ == Seq::<char>::empty()
        &&& self.icon.deep_view() == c.icon.deep_view()
        &&& self.icon_color.deep_view() == c.icon_color.deep_view()
        &&& self.signal_id == c.signal_id
        &&& self.device_name@ == c.device_name@
        &&& self.format@ == c.format@
    }

    pub fn new(config: &BrightnessctlConfig) -> (r: Self)
        ensures
            r.initialized_from(*config),
    {
        BrightnessctlModule {
            value: String::new(),
            icon: clone_opt_str(&config.icon),
            icon_color: clone_opt_str(&config.icon_color),
            signal_id: config.signal_id,
            device_name: config.device_name.clone(),
            format: config.format.clone(),
        }
    }

    /// Whether `b` keeps every configuration field of `a`.
    pub open spec fn same_config(a: BrightnessctlModule, b: BrightnessctlModule) -> bool {
        &&& b.icon == a.icon
        &&& b.icon_color == a.icon_color
        &&& b.signal_id == a.signal_id
        &&& b.device_name == a.device_name
        &&& b.format == a.format
    }
}

/// The first line of `lines` in which `pat` occurs.
pub open spec fn first_line_containing(lines: Seq<Seq<char>>, pat: Seq<char>) -> Option<Seq<char>>
    decreases lines.len(),
{
    if lines.len() == 0 {
        None
    } else if contains_seq(lines[0], pat) {
        Some(lines[0])
    } else {
        first_line_containing(lines.skip(1), pat)
    }
}

/// The brightness line: the text between the first parentheses of the first
/// line of the tool's output that names the current brightness, substituted
/// for the percent placeholder; a diagnostic text when no such line or pair
/// of parentheses is found.
pub open spec fn brightness_value_seq(format: Seq<char>, info: Seq<char>) -> Seq<char> {
    match first_line_containing(split_seq(info, '\n'), "Current brightness"@) {
        None => "error: could not parse current brightness"@,
        Some(l) => {
            let s = find_idx(l, '(');
            let e = find_idx(l, ')');
            if s >= 0 && e >= 0 && s + 1 < e {
                replace_seq(format, "{%}"@, l.subrange(s + 1, e))
            } else {
                "error: could not parse current brightness"@
            }
        },
    }
}

/// The configured format with the brightness read from the tool's output
/// substituted.
pub fn brightness_from_string(format: &str, info: &str) -> (r: String)
    ensures
        r@ == brightness_value_seq(format@, info@),
{
    proof {
        reveal_strlit("Current brightness");
        reveal_strlit("{%}");
    }
    let info_chars = str_chars(info);
    let lines = split_on(&info_chars, '\n');
    let ghost line_views = lines@.map_values(|p: Vec<char>| p@);
    let key = str_chars("Current brightness");
    let mut i: usize = 0;
    assert(line_views.skip(0) =~= line_views);
    while i < lines.len()
        invariant
            line_views == lines@.map_values(|p: Vec<char>| p@),
            line_views == split_seq(info@, '\n'),
            key@ == "Current brightness"@,
            key@.len() > 0,
            i <= lines@.len(),
            first_line_containing(line_views, "Current brightness"@) == first_line_containing(
                line_views.skip(i as int),
                "Current brightness"@,
            ),
        decreases lines@.len() - i,
    {
        let ghost rest = line_views.skip(i as int);
        assert(lines@[i as int]@ == line_views[i as int]);
        assert(rest[0] == line_views[i as int]);
        if contains_chars(&lines[i], &key) {
            assert(first_line_containing(line_views, "Current brightness"@) == Some(
                line_views[i as int],
            ));
            let line = &lines[i];
            let s = find_char(line, '(');
            let e = find_char(line, ')');
            match (s, e) {
                (Some(si), Some(ei)) => {
                    if si + 1 < ei {
                        proof {
                            reveal_strlit("{%}");
                        }
                        let val = slice_range(line, si + 1, ei);
                        let f = str_chars(format);
                        let out = replace_all(&f, &str_chars("{%}"), &val);
                        return chars_string(&out);
                    } else {
                        return String::from_str("error: could not parse current brightness");
                    }
                },
                _ => {
                    return String::from_str("error: could not parse current brightness");
                },
            }
        }
        i = i + 1;
        assert(rest.skip(1) =~= line_views.skip(i as int));
    }
    assert(line_views.skip(lines@.len() as int) =~= Seq::<Seq<char>>::empty());
    String::from_str("error: could not parse current brightness")
}

impl BrightnessctlModule {
    /// Recomputes the value from the tool's output; configuration is kept.
    pub fn apply_output(&mut self, info: &str)
        ensures
            final(self).value@ == brightness_value_seq(old(self).format@, info@),
            BrightnessctlModule::same_config(*old(self), *final(self)),
    {
        let v = brightness_from_string(self.format.as_str(), info);
        self.value = v;
    }
}

impl Module for BrightnessctlModule {
    open spec fn snapshot_spec(&self) -> SnapshotView {
        SnapshotView {
            value: self.value@,
            icon: self.icon.deep_view(),
            icon_color: self.icon_color.deep_view(),
        }
    }

    open spec fn signal_spec(&self) -> Option<u8> {
        self.signal_id
    }

    fn get_value(&self) -> (r: ModuleOutput) {
        ModuleOutput {
            value: self.value.clone(),
            icon: clone_opt_str(&self.icon),
            icon_color: clone_opt_str(&self.icon_color),
        }
    }

    fn signal_id(&self) -> (r: Option<u8>) {
        self.signal_id
    }
}

} // verus!
