use crate::config::WpctlConfig;
use crate::module_trait::Module;
use crate::num::{dec_of, dec_seq};
use crate::parse::{
    centi_val, contains_chars, contains_seq, parse_centi, split_on, split_seq, starts_with_chars,
    tokens_of, trim_chars, trim_seq, ws_tokens,
};
use crate::text::{chars_string, replace_all, replace_seq, str_chars};
use crate::{clone_opt_str, ModuleOutput, SnapshotView};
use vstd::prelude::*;

verus! {

/// Shows the default audio sink's volume, by a configured format.
pub struct WpctlModule {
    pub value: String,
    pub icon: Option<String>,
    pub icon_color: Option<String>,
    pub signal_id: Option<u8>,
    pub format: String,
    pub format_muted: String,
}

impl WpctlModule {
    /// Whether this module was built from `c` and has computed no value yet.
    pub open spec fn initialized_from(self, c: WpctlConfig) -> bool {
        &&& self.value@ == Seq::<char>::empty()
        &&& self.icon.deep_view() == c.icon.deep_view()
        &&& self.icon_color.deep_view() == c.icon_color.deep_view()
        &&& self.signal_id == c.signal_id
        &&& self.format@ == c.format@
        &&& self.format_muted@ == c.format_muted@
    }

    pub fn new(config: &WpctlConfig) -> (r: Self)
        ensures
            r.initialized_from(*config),
    {
        WpctlModule {
            value: String::new(),
            icon: clone_opt_str(&config.icon),
            icon_color: clone_opt_str(&config.icon_color),
            signal_id: config.signal_id,
            format: config.format.clone(),
            format_muted: config.format_muted.clone(),
        }
    }

    /// Whether `b` keeps every configuration field of `a`.
    pub open spec fn same_config(a: WpctlModule, b: WpctlModule) -> bool {
        &&& b.icon == a.icon
        &&& b.icon_color == a.icon_color
        &&& b.signal_id == a.signal_id
        &&& b.format == a.format
        &&& b.format_muted == a.format_muted
    }
}

/// The volume named by the last volume line of `lines`, in hundredths: a
/// volume line is one whose trimmed text begins with "Volume:", and it names
/// the value of its second token; a volume line without a second token keeps
/// what earlier lines named.
pub open spec fn wpctl_volume_centi(lines: Seq<Seq<char>>) -> Option<u64>
    decreases lines.len(),
{
    if lines.len() == 0 {
        None
    } else {
        let prev = wpctl_volume_centi(lines.drop_last());
        let t = trim_seq(lines.last());
        if t.len() >= 7 && t.take(7) == "Volume:"@ {
            let toks = ws_tokens(t);
            if toks.len() > 1 {
                Some(centi_val(toks[1]) as u64)
            } else {
                prev
            }
        } else {
            prev
        }
    }
}

/// Whether some volume line of `lines` carries the muted mark.
pub open spec fn wpctl_muted(lines: Seq<Seq<char>>) -> bool
    decreases lines.len(),
{
    if lines.len() == 0 {
        false
    } else {
        let t = trim_seq(lines.last());
        wpctl_muted(lines.drop_last()) || (t.len() >= 7 && t.take(7) == "Volume:"@ && contains_seq(
            t,
            "[MUTED]"@,
        ))
    }
}

/// The audio line: the muted format when the muted mark was seen, the plain
/// format otherwise, with the volume percentage substituted; a volume of one
/// is written as 100.
pub open spec fn audio_value_seq(
    format: Seq<char>,
    format_muted: Seq<char>,
    output: Seq<char>,
) -> Seq<char> {
    let lines = split_seq(output, '\n');
    let pct: u64 = match wpctl_volume_centi(lines) {
        Some(v) => v,
        None => 0u64,
    };
    if wpctl_muted(lines) {
        replace_seq(format_muted, "{volume}"@, dec_seq(pct as nat))
    } else {
        replace_seq(format, "{volume}"@, dec_seq(pct as nat))
    }
}

/// The chosen format with the volume read from the tool's output
/// substituted.
pub fn audio_from_string(format: &str, format_muted: &str, output: &str) -> (r: String)
    ensures
        r@ == audio_value_seq(format@, format_muted@, output@),
{
    proof {
        reveal_strlit("[MUTED]");
        reveal_strlit("Volume:");
    }
    let output_chars = str_chars(output);
    let lines = split_on(&output_chars, '\n');
    let ghost line_views = lines@.map_values(|p: Vec<char>| p@);
    let key = str_chars("Volume:");
    let muted_mark = str_chars("[MUTED]");
    let mut volume: Option<u64> = None;
    let mut muted = false;
    let mut i: usize = 0;
    assert(line_views.take(0) =~= Seq::<Seq<char>>::empty());
    while i < lines.len()
        invariant
            line_views == lines@.map_values(|p: Vec<char>| p@),
            key@ == "Volume:"@,
            key@.len() == 7,
            muted_mark@ == "[MUTED]"@,
            muted_mark@.len() > 0,
            i <= lines@.len(),
            volume == wpctl_volume_centi(line_views.take(i as int)),
            muted == wpctl_muted(line_views.take(i as int)),
        decreases lines@.len() - i,
    {
        assert(lines@[i as int]@ == line_views[i as int]);
        let trimmed = trim_chars(&lines[i]);
        if starts_with_chars(&trimmed, &key) {
            let toks = tokens_of(&trimmed);
            if toks.len() > 1 {
                assert(toks@[1]@ == ws_tokens(trim_seq(line_views[i as int]))[1]);
                volume = Some(parse_centi(&toks[1]));
            }
            if contains_chars(&trimmed, &muted_mark) {
                muted = true;
            }
        }
        i = i + 1;
        proof {
            assert(line_views.take(i as int).drop_last() =~= line_views.take(i - 1));
            assert(line_views.take(i as int).last() == line_views[i - 1]);
        }
    }
    assert(line_views.take(lines@.len() as int) =~= line_views);
    let pct: u64 = match volume {
        Some(v) => v,
        None => 0,
    };
    proof {
        reveal_strlit("{volume}");
    }
    let pat = str_chars("{volume}");
    let val = dec_of(pct);
    let base = if muted {
        str_chars(format_muted)
    } else {
        str_chars(format)
    };
    let s1 = replace_all(&base, &pat, &val);
    chars_string(&s1)
}

impl WpctlModule {
    /// Recomputes the value from the tool's output; configuration is kept.
    pub fn apply_output(&mut self, output: &str)
        ensures
            final(self).value@ == audio_value_seq(
                old(self).format@,
                old(self).format_muted@,
                output@,
            ),
            WpctlModule::same_config(*old(self), *final(self)),
    {
        let v = audio_from_string(self.format.as_str(), self.format_muted.as_str(), output);
        self.value = v;
    }
}

impl Module for WpctlModule {
    open spec fn snapshot_spec(&self) -> SnapshotView {
        SnapshotView {
            value: self.value@,
            icon: self.icon.deep_view(),
            icon_color: self.icon_color.deep_view(),
        }
    }

    open spec fn signal_spec(&self) -> Option<u8> {
        self.signal_id
    }

    fn get_value(&self) -> (r: ModuleOutput) {
        ModuleOutput {
            value: self.value.clone(),
            icon: clone_opt_str(&self.icon),
            icon_color: clone_opt_str(&self.icon_color),
        }
    }

    fn signal_id(&self) -> (r: Option<u8>) {
        self.signal_id
    }
}

} // verus!
