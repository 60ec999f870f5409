use crate::config::UptimeConfig;
use crate::module_trait::Module;
use crate::num::{dec_of, dec_seq};
use crate::parse::{parse_u64_chars, parse_u64_seq, split_on, split_seq, tokens_of, ws_tokens};
use crate::text::{chars_string, replace_all, replace_seq, str_chars};
use crate::{clone_opt_str, ModuleOutput, SnapshotView};
use vstd::prelude::*;

verus! {

/// Shows how long the system has been up, by a configured format.
pub struct UptimeModule {
    pub value: String,
    pub icon: Option<String>,
    pub icon_color: Option<String>,
    pub interval: u64,
    pub format: String,
}

impl UptimeModule {
    /// Whether this module was built from `c` and has computed no value yet.
    pub open spec fn initialized_from(self, c: UptimeConfig) -> bool {
        &&& self.value@ == Seq::<char>::empty()
        &&& self.icon.deep_view() == c.icon.deep_view()
        &&& self.icon_color.deep_view() == c.icon_color.deep_view()
        &&& self.interval == c.interval
        &&& self.format@ == c.format@
    }

    pub fn new(config: &UptimeConfig) -> (r: Self)
        ensures
            r.initialized_from(*config),
    {
        UptimeModule {
            value: String::new(),
            icon: clone_opt_str(&config.icon),
            icon_color: clone_opt_str(&config.icon_color),
            interval: config.interval,
            format: config.format.clone(),
        }
    }

    /// Whether `b` keeps every configuration field of `a`.
    pub open spec fn same_config(a: UptimeModule, b: UptimeModule) -> bool {
        &&& b.icon == a.icon
        &&& b.icon_color == a.icon_color
        &&& b.interval == a.interval
        &&& b.format == a.format
    }
}

/// The whole seconds of uptime read from the counter text: the first
/// whitespace-separated token up to its first dot, as a decimal integer;
/// 0 when there is no token or it does not read as one.
pub open spec fn uptime_seconds_of(content: Seq<char>) -> u64 {
    let toks = ws_tokens(content);
    if toks.len() > 0 {
        let segs = split_seq(toks[0], '.');
        match parse_u64_seq(segs[0]) {
            Some(v) => v,
            None => 0u64,
        }
    } else {
        0u64
    }
}

/// The uptime line: each placeholder replaced, totals first, then the
/// day/hour/minute/second remainders.
pub open spec fn uptime_value_seq(format: Seq<char>, secs: u64) -> Seq<char> {
    let s1 = replace_seq(format, "{total_days}"@, dec_seq((secs as nat) / 86400));
    let s2 = replace_seq(s1, "{total_hours}"@, dec_seq((secs as nat) / 3600));
    let s3 = replace_seq(s2, "{total_minutes}"@, dec_seq((secs as nat) / 60));
    let s4 = replace_seq(s3, "{total_seconds}"@, dec_seq(secs as nat));
    let s5 = replace_seq(s4, "{days}"@, dec_seq((secs as nat) / 86400));
    let s6 = replace_seq(s5, "{hours}"@, dec_seq(((secs as nat) / 3600) % 24));
    let s7 = replace_seq(s6, "{minutes}"@, dec_seq(((secs as nat) / 60) % 60));
    replace_seq(s7, "{seconds}"@, dec_seq((secs as nat) % 60))
}

/// The configured format with the uptime read from `content` substituted.
pub fn uptime_from_string(format: &str, content: &str) -> (r: String)
    ensures
        r@ == uptime_value_seq(format@, uptime_seconds_of(content@)),
{
    let content_chars = str_chars(content);
    let toks = tokens_of(&content_chars);
    let secs: u64 = if toks.len() > 0 {
        assert(toks@[0]@ == ws_tokens(content@)[0]);
        let segs = split_on(&toks[0], '.');
        assert(segs@[0]@ == split_seq(ws_tokens(content@)[0], '.')[0]);
        match parse_u64_chars(&segs[0]) {
            Some(v) => v,
            None => 0,
        }
    } else {
        0
    };
    proof {
        reveal_strlit("{total_days}");
        reveal_strlit("{total_hours}");
        reveal_strlit("{total_minutes}");
        reveal_strlit("{total_seconds}");
        reveal_strlit("{days}");
        reveal_strlit("{hours}");
        reveal_strlit("{minutes}");
        reveal_strlit("{seconds}");
    }
    let f = str_chars(format);
    let s1 = replace_all(&f, &str_chars("{total_days}"), &dec_of(secs / 86400));
    let s2 = replace_all(&s1, &str_chars("{total_hours}"), &dec_of(secs / 3600));
    let s3 = replace_all(&s2, &str_chars("{total_minutes}"), &dec_of(secs / 60));
    let s4 = replace_all(&s3, &str_chars("{total_seconds}"), &dec_of(secs));
    let s5 = replace_all(&s4, &str_chars("{days}"), &dec_of(secs / 86400));
    let s6 = replace_all(&s5, &str_chars("{hours}"), &dec_of((secs / 3600) % 24));
    let s7 = replace_all(&s6, &str_chars("{minutes}"), &dec_of((secs / 60) % 60));
    let s8 = replace_all(&s7, &str_chars("{seconds}"), &dec_of(secs % 60));
    chars_string(&s8)
}

impl UptimeModule {
    /// Recomputes the value from the counter text; configuration is kept.
    pub fn apply_reading(&mut self, content: &str)
        ensures
            final(self).value@ == uptime_value_seq(
                old(self).format@,
                uptime_seconds_of(content@),
            ),
            UptimeModule::same_config(*old(self), *final(self)),
    {
        let v = uptime_from_string(self.format.as_str(), content);
        self.value = v;
    }
}

impl Module for UptimeModule {
    open spec fn snapshot_spec(&self) -> SnapshotView {
        SnapshotView {
            value: self.value@,
            icon: self.icon.deep_view(),
            icon_color: self.icon_color.deep_view(),
        }
    }

    open spec fn signal_spec(&self) -> Option<u8> {
        None
    }

    fn get_value(&self) -> (r: ModuleOutput) {
        ModuleOutput {
            value: self.value.clone(),
            icon: clone_opt_str(&self.icon),
            icon_color: clone_opt_str(&self.icon_color),
        }
    }

    fn signal_id(&self) -> (r: Option<u8>) {
        None
    }
}

} // verus!
