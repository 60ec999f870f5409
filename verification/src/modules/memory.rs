use crate::config::MemoryConfig;
use crate::module_trait::Module;
use crate::num::{dec_of, dec_seq, fixed2_of, fixed2_seq, mul_round_div, round_div};
use crate::parse::{
    parse_u64_chars, parse_u64_seq, split_on, split_seq, starts_with_chars, tokens_of, ws_tokens,
};
use crate::text::{chars_string, replace_all, replace_seq, str_chars};
use crate::{clone_opt_str, ModuleOutput, SnapshotView};
use vstd::prelude::*;

verus! {

/// Shows system memory usage, by a configured format.
pub struct MemoryModule {
    pub value: String,
    pub icon: Option<String>,
    pub icon_color: Option<String>,
    pub interval: u64,
    pub format: String,
}

impl MemoryModule {
    /// Whether this module was built from `c` and has computed no value yet.
    pub open spec fn initialized_from(self, c: MemoryConfig) -> bool {
        &&& self.value@ == Seq::<char>::empty()
        &&& self.icon.deep_view() == c.icon.deep_view()
        &&& self.icon_color.deep_view() == c.icon_color.deep_view()
        &&& self.interval == c.interval
        &&& self.format@ == c.format@
    }

    pub fn new(config: &MemoryConfig) -> (r: Self)
        ensures
            r.initialized_from(*config),
    {
        MemoryModule {
            value: String::new(),
            icon: clone_opt_str(&config.icon),
            icon_color: clone_opt_str(&config.icon_color),
            interval: config.interval,
            format: config.format.clone(),
        }
    }

    /// Whether `b` keeps every configuration field of `a`.
    pub open spec fn same_config(a: MemoryModule, b: MemoryModule) -> bool {
        &&& b.icon == a.icon
        &&& b.icon_color == a.icon_color
        &&& b.interval == a.interval
        &&& b.format == a.format
    }
}

/// The number in the second whitespace-separated token of `l`; 0 when there
/// is no such token or it does not read as a decimal integer.
pub open spec fn line_second_val(l: Seq<char>) -> u64 {
    let toks = ws_tokens(l);
    if toks.len() > 1 {
        match parse_u64_seq(toks[1]) {
            Some(v) => v,
            None => 0u64,
        }
    } else {
        0u64
    }
}

/// The value carried by the last line of `lines` that begins with `key`;
/// 0 when no line does.
pub open spec fn keyed_field_val(lines: Seq<Seq<char>>, key: Seq<char>) -> u64
    decreases lines.len(),
{
    if lines.len() == 0 {
        0u64
    } else {
        let prev = keyed_field_val(lines.drop_last(), key);
        let l = lines.last();
        if l.len() >= key.len() && l.take(key.len() as int) == key {
            line_second_val(l)
        } else {
            prev
        }
    }
}

/// The memory line: usage derived from the total and available amounts, each
/// placeholder replaced; sizes are rounded half up to the written precision.
pub open spec fn memory_value_seq(format: Seq<char>, total: u64, available: u64) -> Seq<char> {
    let used: int = if total >= available {
        total - available
    } else {
        0
    };
    let percent: int = if total > 0 {
        (used * 100 + total / 2) / (total as int)
    } else {
        0
    };
    let mb: int = (used + 500) / 1000;
    let mib: int = (used + 512) / 1024;
    let gb: int = (used + 5000) / 10000;
    let gib: int = (used * 100 + 524288) / 1048576;
    let s1 = replace_seq(format, "{%}"@, dec_seq(percent as nat));
    let s2 = replace_seq(s1, "{mb}"@, dec_seq(mb as nat));
    let s3 = replace_seq(s2, "{mib}"@, dec_seq(mib as nat));
    let s4 = replace_seq(s3, "{gb}"@, fixed2_seq(gb as nat));
    replace_seq(s4, "{gib}"@, fixed2_seq(gib as nat))
}

/// The total amount of memory named in the counter text.
pub open spec fn mem_total_of(content: Seq<char>) -> u64 {
    keyed_field_val(split_seq(content, '\n'), "MemTotal:"@)
}

/// The available amount of memory named in the counter text.
pub open spec fn mem_available_of(content: Seq<char>) -> u64 {
    keyed_field_val(split_seq(content, '\n'), "MemAvailable:"@)
}

/// The number in the second token of `l`, as `line_second_val`.
fn line_second(l: &Vec<char>) -> (r: u64)
    ensures
        r == line_second_val(l@),
{
    let toks = tokens_of(l);
    if toks.len() > 1 {
        assert(toks@[1]@ == ws_tokens(l@)[1]);
        match parse_u64_chars(&toks[1]) {
            Some(v) => v,
            None => 0,
        }
    } else {
        0
    }
}

/// The configured format with the memory usage read from `content`
/// substituted.
pub fn usage_from_string(format: &str, content: &str) -> (r: String)
    ensures
        r@ == memory_value_seq(format@, mem_total_of(content@), mem_available_of(content@)),
{
    let content_chars = str_chars(content);
    let lines = split_on(&content_chars, '\n');
    let ghost line_views = lines@.map_values(|p: Vec<char>| p@);
    let key_total = str_chars("MemTotal:");
    let key_avail = str_chars("MemAvailable:");
    let mut total: u64 = 0;
    let mut available: u64 = 0;
    let mut i: usize = 0;
    assert(line_views.take(0) =~= Seq::<Seq<char>>::empty());
    while i < lines.len()
        invariant
            line_views == lines@.map_values(|p: Vec<char>| p@),
            key_total@ == "MemTotal:"@,
            key_avail@ == "MemAvailable:"@,
            i <= lines@.len(),
            total == keyed_field_val(line_views.take(i as int), "MemTotal:"@),
            available == keyed_field_val(line_views.take(i as int), "MemAvailable:"@),
        decreases lines@.len() - i,
    {
        assert(lines@[i as int]@ == line_views[i as int]);
        if starts_with_chars(&lines[i], &key_total) {
            total = line_second(&lines[i]);
        }
        if starts_with_chars(&lines[i], &key_avail) {
            available = line_second(&lines[i]);
        }
        i = i + 1;
        proof {
            assert(line_views.take(i as int).drop_last() =~= line_views.take(i - 1));
            assert(line_views.take(i as int).last() == line_views[i - 1]);
        }
    }
    assert(line_views.take(lines@.len() as int) =~= line_views);
    let used: u64 = if total >= available {
        total - available
    } else {
        0
    };
    let percent: u64 = if total > 0 {
        proof {
            assert((used * 100 + total / 2) / (total as int) <= u64::MAX) by (nonlinear_arith)
                requires
                    0 < total <= u64::MAX,
                    0 <= used <= total,
            ;
        }
        mul_round_div(used, 100, total)
    } else {
        0
    };
    let mb = round_div(used, 1000);
    let mib = round_div(used, 1024);
    let gb = round_div(used, 10000);
    proof {
        assert((used * 100 + 524288) / 1048576 <= u64::MAX) by (nonlinear_arith)
            requires
                0 <= used <= u64::MAX,
        ;
    }
    let gib = mul_round_div(used, 100, 1048576);
    proof {
        reveal_strlit("{%}");
        reveal_strlit("{mb}");
        reveal_strlit("{mib}");
        reveal_strlit("{gb}");
        reveal_strlit("{gib}");
    }
    let f = str_chars(format);
    let s1 = replace_all(&f, &str_chars("{%}"), &dec_of(percent));
    let s2 = replace_all(&s1, &str_chars("{mb}"), &dec_of(mb));
    let s3 = replace_all(&s2, &str_chars("{mib}"), &dec_of(mib));
    let s4 = replace_all(&s3, &str_chars("{gb}"), &fixed2_of(gb));
    let s5 = replace_all(&s4, &str_chars("{gib}"), &fixed2_of(gib));
    chars_string(&s5)
}

impl MemoryModule {
    /// Recomputes the value from the counter text; configuration is kept.
    pub fn apply_reading(&mut self, content: &str)
        ensures
            final(self).value@ == memory_value_seq(
                old(self).format@,
                mem_total_of(content@),
                mem_available_of(content@),
            ),
            MemoryModule::same_config(*old(self), *final(self)),
    {
        let v = usage_from_string(self.format.as_str(), content);
        self.value = v;
    }
}

impl Module for MemoryModule {
    open spec fn snapshot_spec(&self) -> SnapshotView {
        SnapshotView {
            value: self.value@,
            icon: self.icon.deep_view(),
            icon_color: self.icon_color.deep_view(),
        }
    }

    open spec fn signal_spec(&self) -> Option<u8> {
        None
    }

    fn get_value(&self) -> (r: ModuleOutput) {
        ModuleOutput {
            value: self.value.clone(),
            icon: clone_opt_str(&self.icon),
            icon_color: clone_opt_str(&self.icon_color),
        }
    }

    fn signal_id(&self) -> (r: Option<u8>) {
        None
    }
}

} // verus!
