use crate::config::BatteryConfig;
use crate::module_trait::Module;
use crate::num::{mul_round_div, pad2_of, pad2_seq};
use crate::parse::chars_eq;
use crate::text::{chars_string, push_all, replace_all, replace_seq, str_chars};
use crate::{clone_opt_str, ModuleOutput, SnapshotView};
use vstd::prelude::*;

verus! {

/// Shows battery charge, status and remaining time, by a configured format.
pub struct BatteryModule {
    pub value: String,
    pub icon: Option<String>,
    pub icon_color: Option<String>,
    pub interval: u64,
    pub name: String,
    pub format_charging: String,
    pub format_discharging: String,
    pub format_full: String,
}

impl BatteryModule {
    /// Whether this module was built from `c` and has computed no value yet.
    pub open spec fn initialized_from(self, c: BatteryConfig) -> bool {
        &&& self.value@ == Seq::<char>::empty()
        &&& self.icon.deep_view() == c.icon.deep_view()
        &&& self.icon_color.deep_view() == c.icon_color.deep_view()
        &&& self.interval == c.interval
        &&& self.name@ == c.name@
        &&& self.format_charging@ == c.format_charging@
        &&& self.format_discharging@ == c.format_discharging@
        &&& self.format_full@ == c.format_full@
    }

    pub fn new(config: &BatteryConfig) -> (r: Self)
        ensures
            r.initialized_from(*config),
    {
        BatteryModule {
            value: String::new(),
            icon: clone_opt_str(&config.icon),
            icon_color: clone_opt_str(&config.icon_color),
            interval: config.interval,
            name: config.name.clone(),
            format_charging: config.format_charging.clone(),
            format_discharging: config.format_discharging.clone(),
            format_full: config.format_full.clone(),
        }
    }

    /// Whether `b` keeps every configuration field of `a`.
    pub open spec fn same_config(a: BatteryModule, b: BatteryModule) -> bool {
        &&& b.icon == a.icon
        &&& b.icon_color == a.icon_color
        &&& b.interval == a.interval
        &&& b.name == a.name
        &&& b.format_charging == a.format_charging
        &&& b.format_discharging == a.format_discharging
        &&& b.format_full == a.format_full
    }
}

/// The remaining-time text: hours and minutes until empty while discharging,
/// until full while charging, zero otherwise, each zero-padded to two
/// digits; "--:--" when no current is drawn. A charge level above full
/// counts as full.
pub open spec fn battery_time_seq(status: Seq<char>, current: u64, full: u64, draw: u64) -> Seq<
    char,
> {
    if draw == 0 {
        "--:--"@
    } else {
        let num: int = if status == "Discharging"@ {
            current as int
        } else if status == "Charging"@ {
            if full >= current {
                full - current
            } else {
                0
            }
        } else {
            0
        };
        let hours: int = num / (draw as int);
        let mins: int = (60 * (num % (draw as int)) + draw / 2) / (draw as int);
        pad2_seq(hours as nat) + ":"@ + pad2_seq(mins as nat)
    }
}

/// The format chosen for the battery status; an unknown status yields a
/// diagnostic template.
pub open spec fn battery_template(
    status: Seq<char>,
    format_charging: Seq<char>,
    format_discharging: Seq<char>,
    format_full: Seq<char>,
) -> Seq<char> {
    if status == "Charging"@ {
        format_charging
    } else if status == "Discharging"@ {
        format_discharging
    } else if status == "Not charging"@ {
        format_discharging
    } else if status == "Full"@ {
        format_full
    } else {
        "error: unknown battery status: {status}"@
    }
}

/// The battery line: the template chosen for the status, with the capacity,
/// the status and the remaining time substituted.
pub open spec fn battery_value_seq(
    status: Seq<char>,
    capacity: Seq<char>,
    current: u64,
    full: u64,
    draw: u64,
    format_charging: Seq<char>,
    format_discharging: Seq<char>,
    format_full: Seq<char>,
) -> Seq<char> {
    let t = battery_template(status, format_charging, format_discharging, format_full);
    replace_seq(
        replace_seq(replace_seq(t, "{%}"@, capacity), "{status}"@, status),
        "{time}"@,
        battery_time_seq(status, current, full, draw),
    )
}

/// The chosen format with the battery reading substituted. `current`, `full`
/// and `draw` are the energy or charge counters and the present draw, in the
/// counters' common unit.
pub fn battery_from_string(
    status: &str,
    capacity: &str,
    current: u64,
    full: u64,
    draw: u64,
    format_charging: &str,
    format_discharging: &str,
    format_full: &str,
) -> (r: String)
    ensures
        r@ == battery_value_seq(
            status@,
            capacity@,
            current,
            full,
            draw,
            format_charging@,
            format_discharging@,
            format_full@,
        ),
{
    let status_chars = str_chars(status);
    let is_discharging = chars_eq(&status_chars, &str_chars("Discharging"));
    let is_charging = chars_eq(&status_chars, &str_chars("Charging"));
    let is_not_charging = chars_eq(&status_chars, &str_chars("Not charging"));
    let is_full = chars_eq(&status_chars, &str_chars("Full"));
    let time: Vec<char> = if draw == 0 {
        str_chars("--:--")
    } else {
        let num: u64 = if is_discharging {
            current
        } else if is_charging {
            if full >= current {
                full - current
            } else {
                0
            }
        } else {
            0
        };
        let hours: u64 = num / draw;
        let rem: u64 = num % draw;
        proof {
            assert((rem * 60 + draw / 2) / (draw as int) <= 60) by (nonlinear_arith)
                requires
                    0 < draw <= u64::MAX,
                    0 <= rem < draw,
            ;
            assert(rem * 60 == 60 * rem);
        }
        let mins: u64 = mul_round_div(rem, 60, draw);
        let mut t = pad2_of(hours);
        t.push(':');
        let m = pad2_of(mins);
        push_all(&mut t, &m);
        proof {
            reveal_strlit(":");
            assert(":"@ =~= seq![':']);
            assert(t@ =~= battery_time_seq(status@, current, full, draw));
        }
        t
    };
    let template: Vec<char> = if is_charging {
        str_chars(format_charging)
    } else if is_discharging || is_not_charging {
        str_chars(format_discharging)
    } else if is_full {
        str_chars(format_full)
    } else {
        str_chars("error: unknown battery status: {status}")
    };
    assert(template@ == battery_template(
        status@,
        format_charging@,
        format_discharging@,
        format_full@,
    ));
    proof {
        reveal_strlit("{%}");
        reveal_strlit("{status}");
        reveal_strlit("{time}");
    }
    let s1 = replace_all(&template, &str_chars("{%}"), &str_chars(capacity));
    let s2 = replace_all(&s1, &str_chars("{status}"), &status_chars);
    let s3 = replace_all(&s2, &str_chars("{time}"), &time);
    chars_string(&s3)
}

impl BatteryModule {
    /// Recomputes the value from the battery reading; configuration is kept.
    pub fn apply_reading(&mut self, status: &str, capacity: &str, current: u64, full: u64, draw: u64)
        ensures
            final(self).value@ == battery_value_seq(
                status@,
                capacity@,
                current,
                full,
                draw,
                old(self).format_charging@,
                old(self).format_discharging@,
                old(self).format_full@,
            ),
            BatteryModule::same_config(*old(self), *final(self)),
    {
        let v = battery_from_string(
            status,
            capacity,
            current,
            full,
            draw,
            self.format_charging.as_str(),
            self.format_discharging.as_str(),
            self.format_full.as_str(),
        );
        self.value = v;
    }
}

impl Module for BatteryModule {
    open spec fn snapshot_spec(&self) -> SnapshotView {
        SnapshotView {
            value: self.value@,
            icon: self.icon.deep_view(),
            icon_color: self.icon_color.deep_view(),
        }
    }

    open spec fn signal_spec(&self) -> Option<u8> {
        None
    }

    fn get_value(&self) -> (r: ModuleOutput) {
        ModuleOutput {
            value: self.value.clone(),
            icon: clone_opt_str(&self.icon),
            icon_color: clone_opt_str(&self.icon_color),
        }
    }

    fn signal_id(&self) -> (r: Option<u8>) {
        None
    }
}

} // verus!
