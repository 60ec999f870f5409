use crate::config::CpuConfig;
use crate::module_trait::Module;
use crate::num::{fixed1_of, fixed1_seq, mul_round_div};
use crate::parse::{
    parse_u64_chars, parse_u64_seq, split_on, split_seq, starts_with_chars, tokens_of, ws_tokens,
};
use crate::text::{chars_string, replace_all, replace_seq, str_chars};
use crate::{clone_opt_str, ModuleOutput, SnapshotView};
use vstd::prelude::*;

verus! {

/// Shows processor usage since the last reading, by a configured format.
pub struct CpuModule {
    pub value: String,
    pub icon: Option<String>,
    pub icon_color: Option<String>,
    pub interval: u64,
    pub format: String,
    pub prev_total: u64,
    pub prev_idle: u64,
}

impl CpuModule {
    /// Whether this module was built from `c` and has computed no value yet.
    pub open spec fn initialized_from(self, c: CpuConfig) -> bool {
        &&& self.value@ == Seq::<char>::empty()
        &&& self.icon.deep_view() == c.icon.deep_view()
        &&& self.icon_color.deep_view() == c.icon_color.deep_view()
        &&& self.interval == c.interval
        &&& self.format@ == c.format@
        &&& self.prev_total == 0
        &&& self.prev_idle == 0
    }

    pub fn new(config: &CpuConfig) -> (r: Self)
        ensures
            r.initialized_from(*config),
    {
        CpuModule {
            value: String::new(),
            icon: clone_opt_str(&config.icon),
            icon_color: clone_opt_str(&config.icon_color),
            interval: config.interval,
            format: config.format.clone(),
            prev_total: 0,
            prev_idle: 0,
        }
    }

    /// Whether `b` keeps every configuration field of `a`.
    pub open spec fn same_config(a: CpuModule, b: CpuModule) -> bool {
        &&& b.icon == a.icon
        &&& b.icon_color == a.icon_color
        &&& b.interval == a.interval
        &&& b.format == a.format
    }
}

/// Usage between two readings, in tenths of a percent, rounded half up: the
/// share of the elapsed jiffies that were not idle. Counters that went
/// backwards count as no elapsed jiffies.
pub open spec fn cpu_usage_tenths(prev_total: u64, prev_idle: u64, total: u64, idle: u64) -> int {
    let td: int = if total >= prev_total {
        total - prev_total
    } else {
        0
    };
    let id: int = if idle >= prev_idle {
        idle - prev_idle
    } else {
        0
    };
    if td == 0 || id > td {
        0
    } else {
        ((td - id) * 1000 + td / 2) / td
    }
}

/// The first line of `lines` that begins with the total-processor key.
pub open spec fn first_cpu_line(lines: Seq<Seq<char>>) -> Option<Seq<char>>
    decreases lines.len(),
{
    if lines.len() == 0 {
        None
    } else if lines[0].len() >= 4 && lines[0].take(4) == "cpu "@ {
        Some(lines[0])
    } else {
        first_cpu_line(lines.skip(1))
    }
}

/// The total and idle jiffy counts carried by one statistics line: the sums
/// of its second to fifth numbers, the sixth counting as idle when present.
/// None when the line is too short, a number does not read as one, or a sum
/// does not fit.
pub open spec fn jiffies_of_line(l: Seq<char>) -> Option<(u64, u64)> {
    let parts = ws_tokens(l);
    if parts.len() < 5 {
        None
    } else {
        match parse_u64_seq(parts[1]) {
            None => None,
            Some(user) => match parse_u64_seq(parts[2]) {
                None => None,
                Some(nice) => match parse_u64_seq(parts[3]) {
                    None => None,
                    Some(system) => match parse_u64_seq(parts[4]) {
                        None => None,
                        Some(idle) => {
                            let iowait: u64 = if parts.len() > 5 {
                                match parse_u64_seq(parts[5]) {
                                    Some(v) => v,
                                    None => 0u64,
                                }
                            } else {
                                0u64
                            };
                            let idle_total: int = idle + iowait;
                            let total: int = user + nice + system + idle_total;
                            if total <= u64::MAX {
                                Some((total as u64, idle_total as u64))
                            } else {
                                None
                            }
                        },
                    },
                },
            },
        }
    }
}

/// The total and idle jiffy counts read from the statistics text.
pub open spec fn cpu_jiffies_of(content: Seq<char>) -> Option<(u64, u64)> {
    match first_cpu_line(split_seq(content, '\n')) {
        None => None,
        Some(l) => jiffies_of_line(l),
    }
}

/// The total and idle jiffy counts read from the statistics text.
pub fn parse_cpu_jiffies(content: &str) -> (r: Option<(u64, u64)>)
    ensures
        r == cpu_jiffies_of(content@),
{
    proof {
        reveal_strlit("cpu ");
    }
    let content_chars = str_chars(content);
    let lines = split_on(&content_chars, '\n');
    let ghost line_views = lines@.map_values(|p: Vec<char>| p@);
    let key = str_chars("cpu ");
    let mut i: usize = 0;
    assert(line_views.skip(0) =~= line_views);
    while i < lines.len()
        invariant
            line_views == lines@.map_values(|p: Vec<char>| p@),
            line_views == split_seq(content@, '\n'),
            key@ == "cpu "@,
            key@.len() == 4,
            i <= lines@.len(),
            first_cpu_line(line_views) == first_cpu_line(line_views.skip(i as int)),
        decreases lines@.len() - i,
    {
        let ghost rest = line_views.skip(i as int);
        assert(lines@[i as int]@ == line_views[i as int]);
        assert(rest[0] == line_views[i as int]);
        if starts_with_chars(&lines[i], &key) {
            assert(first_cpu_line(line_views) == Some(line_views[i as int]));
            let toks = tokens_of(&lines[i]);
            let ghost parts = ws_tokens(line_views[i as int]);
            if toks.len() < 5 {
                return None;
            }
            assert(toks@[1]@ == parts[1]);
            assert(toks@[2]@ == parts[2]);
            assert(toks@[3]@ == parts[3]);
            assert(toks@[4]@ == parts[4]);
            let user = match parse_u64_chars(&toks[1]) {
                Some(v) => v,
                None => {
                    return None;
                },
            };
            let nice = match parse_u64_chars(&toks[2]) {
                Some(v) => v,
                None => {
                    return None;
                },
            };
            let system = match parse_u64_chars(&toks[3]) {
                Some(v) => v,
                None => {
                    return None;
                },
            };
            let idle = match parse_u64_chars(&toks[4]) {
                Some(v) => v,
                None => {
                    return None;
                },
            };
            let iowait: u64 = if toks.len() > 5 {
                assert(toks@[5]@ == parts[5]);
                match parse_u64_chars(&toks[5]) {
                    Some(v) => v,
                    None => 0,
                }
            } else {
                0
            };
            let idle_total: u128 = idle as u128 + iowait as u128;
            let total: u128 = user as u128 + nice as u128 + system as u128 + idle_total;
            if total <= u64::MAX as u128 {
                return Some((total as u64, idle_total as u64));
            } else {
                return None;
            }
        }
        i = i + 1;
        assert(rest.skip(1) =~= line_views.skip(i as int));
    }
    assert(line_views.skip(lines@.len() as int) =~= Seq::<Seq<char>>::empty());
    None
}

/// The configured format with the usage between the two readings
/// substituted for the percent placeholder.
pub fn calculate_usage(
    format: &str,
    prev_total: u64,
    prev_idle: u64,
    total: u64,
    idle: u64,
) -> (r: String)
    ensures
        r@ == replace_seq(
            format@,
            "{%}"@,
            fixed1_seq(cpu_usage_tenths(prev_total, prev_idle, total, idle) as nat),
        ),
{
    let td: u64 = if total >= prev_total {
        total - prev_total
    } else {
        0
    };
    let id: u64 = if idle >= prev_idle {
        idle - prev_idle
    } else {
        0
    };
    let tenths: u64 = if td == 0 || id > td {
        0
    } else {
        proof {
            assert(((td - id) * 1000 + td / 2) / (td as int) <= u64::MAX) by (nonlinear_arith)
                requires
                    0 < td <= u64::MAX,
                    0 <= id <= td,
            ;
        }
        mul_round_div(td - id, 1000, td)
    };
    proof {
        reveal_strlit("{%}");
    }
    let f = str_chars(format);
    let s1 = replace_all(&f, &str_chars("{%}"), &fixed1_of(tenths));
    chars_string(&s1)
}

impl CpuModule {
    /// Recomputes the value from a fresh jiffies reading, which becomes the
    /// previous reading for the next time; configuration is kept.
    pub fn apply_jiffies(&mut self, total: u64, idle: u64)
        ensures
            final(self).value@ == replace_seq(
                old(self).format@,
                "{%}"@,
                fixed1_seq(
                    cpu_usage_tenths(old(self).prev_total, old(self).prev_idle, total, idle) as nat,
                ),
            ),
            final(self).prev_total == total,
            final(self).prev_idle == idle,
            CpuModule::same_config(*old(self), *final(self)),
    {
        let v = calculate_usage(self.format.as_str(), self.prev_total, self.prev_idle, total, idle);
        self.value = v;
        self.prev_total = total;
        self.prev_idle = idle;
    }
}

impl Module for CpuModule {
    open spec fn snapshot_spec(&self) -> SnapshotView {
        SnapshotView {
            value: self.value@,
            icon: self.icon.deep_view(),
            icon_color: self.icon_color.deep_view(),
        }
    }

    open spec fn signal_spec(&self) -> Option<u8> {
        None
    }

    fn get_value(&self) -> (r: ModuleOutput) {
        ModuleOutput {
            value: self.value.clone(),
            icon: clone_opt_str(&self.icon),
            icon_color: clone_opt_str(&self.icon_color),
        }
    }

    fn signal_id(&self) -> (r: Option<u8>) {
        None
    }
}

} // verus!
