use crate::config::CputempConfig;
use crate::module_trait::Module;
use crate::num::{div_trunc, fixed1_signed_of, fixed1_signed_seq, round_half_mag};
use crate::parse::{all_digits, digits_val, parse_u64_chars, slice_range, trim_chars, trim_seq};
use crate::text::{chars_string, replace_all, replace_seq, str_chars};
use crate::{clone_opt_str, ModuleOutput, SnapshotView};
use vstd::prelude::*;

verus! {

/// Shows the processor temperature, by a configured format.
pub struct CputempModule {
    pub value: String,
    pub icon: Option<String>,
    pub icon_color: Option<String>,
    pub interval: u64,
    pub format: String,
}

impl CputempModule {
    /// Whether this module was built from `c` and has computed no value yet.
    pub open spec fn initialized_from(self, c: CputempConfig) -> bool {
        &&& self.value@ == Seq::<char>::empty()
        &&& self.icon.deep_view() == c.icon.deep_view()
        &&& self.icon_color.deep_view() == c.icon_color.deep_view()
        &&& self.interval == c.interval
        &&& self.format@ == c.format@
    }

    pub fn new(config: &CputempConfig) -> (r: Self)
        ensures
            r.initialized_from(*config),
    {
        CputempModule {
            value: String::new(),
            icon: clone_opt_str(&config.icon),
            icon_color: clone_opt_str(&config.icon_color),
            interval: config.interval,
            format: config.format.clone(),
        }
    }

    /// Whether `b` keeps every configuration field of `a`.
    pub open spec fn same_config(a: CputempModule, b: CputempModule) -> bool {
        &&& b.icon == a.icon
        &&& b.icon_color == a.icon_color
        &&& b.interval == a.interval
        &&& b.format == a.format
    }
}

/// The temperature in millidegrees Celsius read from one sensor file: the
/// trimmed text as a decimal integer, with an optional leading minus sign.
pub open spec fn temp_milli_of(content: Seq<char>) -> Option<i64> {
    let t = trim_seq(content);
    if t.len() > 0 && t[0] == '-' {
        let mag = t.skip(1);
        if mag.len() > 0 && all_digits(mag) && digits_val(mag) <= i64::MAX {
            Some((-digits_val(mag)) as i64)
        } else {
            None
        }
    } else if t.len() > 0 && all_digits(t) && digits_val(t) <= i64::MAX {
        Some(digits_val(t) as i64)
    } else {
        None
    }
}

/// The temperature line: Celsius, Kelvin and Fahrenheit derived from the
/// millidegree reading, each written in tenths rounded half away from zero;
/// the format unchanged when there is no reading.
pub open spec fn cputemp_value_seq(format: Seq<char>, reading: Option<i64>) -> Seq<char> {
    match reading {
        None => format,
        Some(m) => {
            let c = round_half_mag(m as int, 100);
            let k = round_half_mag(m + 273150, 100);
            let f = round_half_mag(div_trunc(m * 9, 5) + 32000, 100);
            replace_seq(
                replace_seq(
                    replace_seq(format, "{c}"@, fixed1_signed_seq(c)),
                    "{k}"@,
                    fixed1_signed_seq(k),
                ),
                "{f}"@,
                fixed1_signed_seq(f),
            )
        },
    }
}

/// The temperature read from one sensor file's text.
pub fn parse_temp_milli(content: &str) -> (r: Option<i64>)
    ensures
        r == temp_milli_of(content@),
{
    let chars = str_chars(content);
    let t = trim_chars(&chars);
    if t.len() > 0 && t[0] == '-' {
        let mag = slice_range(&t, 1, t.len());
        assert(mag@ =~= trim_seq(content@).skip(1));
        if mag.len() == 0 {
            return None;
        }
        match parse_u64_chars(&mag) {
            Some(v) => {
                proof {
                    crate::parse::lemma_digits_val_nonneg(mag@);
                }
                if v <= i64::MAX as u64 {
                    Some(-(v as i64))
                } else {
                    None
                }
            },
            None => None,
        }
    } else if t.len() > 0 {
        match parse_u64_chars(&t) {
            Some(v) => {
                proof {
                    crate::parse::lemma_digits_val_nonneg(t@);
                }
                if v <= i64::MAX as u64 {
                    Some(v as i64)
                } else {
                    None
                }
            },
            None => None,
        }
    } else {
        None
    }
}

/// `n` millidegrees as tenths of a degree, rounded half away from zero.
fn milli_to_tenths(n: i128) -> (r: i64)
    requires
        -800000000000000000000 <= n <= 800000000000000000000,
    ensures
        r as int == round_half_mag(n as int, 100),
        r > i64::MIN,
{
    proof {
        assert((800000000000000000000int + 50) / 100 < 0x7fff_ffff_ffff_ffff);
    }
    if n >= 0 {
        ((n + 50) / 100) as i64
    } else {
        (-(((-n) + 50) / 100)) as i64
    }
}

/// The configured format with the temperatures derived from `reading`
/// substituted; the format unchanged when there is no reading.
pub fn cputemp_from_string(format: &str, reading: Option<i64>) -> (r: String)
    ensures
        r@ == cputemp_value_seq(format@, reading),
{
    match reading {
        None => {
            let f = str_chars(format);
            chars_string(&f)
        },
        Some(m) => {
            let c = milli_to_tenths(m as i128);
            let k = milli_to_tenths(m as i128 + 273150);
            let w: i128 = (m as i128) * 9;
            let fm: i128 = if w >= 0 {
                w / 5
            } else {
                -((-w) / 5)
            };
            assert(fm as int == div_trunc(m as int * 9, 5));
            let f_tenths = milli_to_tenths(fm + 32000);
            proof {
                reveal_strlit("{c}");
                reveal_strlit("{k}");
                reveal_strlit("{f}");
            }
            let f = str_chars(format);
            let s1 = replace_all(&f, &str_chars("{c}"), &fixed1_signed_of(c));
            let s2 = replace_all(&s1, &str_chars("{k}"), &fixed1_signed_of(k));
            let s3 = replace_all(&s2, &str_chars("{f}"), &fixed1_signed_of(f_tenths));
            chars_string(&s3)
        },
    }
}

impl CputempModule {
    /// Recomputes the value from the sensor reading; configuration is kept.
    pub fn apply_reading(&mut self, reading: Option<i64>)
        ensures
            final(self).value@ == cputemp_value_seq(old(self).format@, reading),
            CputempModule::same_config(*old(self), *final(self)),
    {
        let v = cputemp_from_string(self.format.as_str(), reading);
        self.value = v;
    }
}

impl Module for CputempModule {
    open spec fn snapshot_spec(&self) -> SnapshotView {
        SnapshotView {
            value: self.value@,
            icon: self.icon.deep_view(),
            icon_color: self.icon_color.deep_view(),
        }
    }

    open spec fn signal_spec(&self) -> Option<u8> {
        None
    }

    fn get_value(&self) -> (r: ModuleOutput) {
        ModuleOutput {
            value: self.value.clone(),
            icon: clone_opt_str(&self.icon),
            icon_color: clone_opt_str(&self.icon_color),
        }
    }

    fn signal_id(&self) -> (r: Option<u8>) {
        None
    }
}

} // verus!
