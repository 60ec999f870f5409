use crate::config::FilesystemConfig;
use crate::module_trait::Module;
use crate::num::{dec_of, dec_seq, fixed1_of, fixed1_seq, mul_round_div};
use crate::text::{chars_string, replace_all, replace_seq, str_chars};
use crate::{clone_opt_str, ModuleOutput, SnapshotView};
use vstd::prelude::*;

verus! {

/// Shows sizes and usage of a mounted filesystem, by a configured format.
pub struct FilesystemModule {
    pub value: String,
    pub icon: Option<String>,
    pub icon_color: Option<String>,
    pub interval: u64,
    pub format: String,
    pub mountpoint: String,
}

impl FilesystemModule {
    /// Whether this module was built from `c` and has computed no value yet.
    pub open spec fn initialized_from(self, c: FilesystemConfig) -> bool {
        &&& self.value@ == Seq::<char>::empty()
        &&& self.icon.deep_view() == c.icon.deep_view()
        &&& self.icon_color.deep_view() == c.icon_color.deep_view()
        &&& self.interval == c.interval
        &&& self.format@ == c.format@
        &&& self.mountpoint@ == c.mountpoint@
    }

    pub fn new(config: &FilesystemConfig) -> (r: Self)
        ensures
            r.initialized_from(*config),
    {
        FilesystemModule {
            value: String::new(),
            icon: clone_opt_str(&config.icon),
            icon_color: clone_opt_str(&config.icon_color),
            interval: config.interval,
            format: config.format.clone(),
            mountpoint: config.mountpoint.clone(),
        }
    }

    /// Whether `b` keeps every configuration field of `a`.
    pub open spec fn same_config(a: FilesystemModule, b: FilesystemModule) -> bool {
        &&& b.icon == a.icon
        &&& b.icon_color == a.icon_color
        &&& b.interval == a.interval
        &&& b.format == a.format
        &&& b.mountpoint == a.mountpoint
    }
}

/// A filesystem size reading, in bytes.
#[derive(Clone, Copy)]
pub struct FsStats {
    pub total: u64,
    pub free: u64,
    pub used: u64,
}

/// `b` bytes in binary kibibytes.
pub fn kib(b: u64) -> (r: u64)
    ensures
        r == b / 1024,
{
    b / 1024
}

/// `b` bytes in binary mebibytes.
pub fn mib(b: u64) -> (r: u64)
    ensures
        r == b / 1024 / 1024,
{
    b / 1024 / 1024
}

/// `b` bytes in binary gibibytes.
pub fn gib(b: u64) -> (r: u64)
    ensures
        r == b / 1024 / 1024 / 1024,
{
    b / 1024 / 1024 / 1024
}

/// `b` bytes in binary tebibytes.
pub fn tib(b: u64) -> (r: u64)
    ensures
        r == b / 1024 / 1024 / 1024 / 1024,
{
    b / 1024 / 1024 / 1024 / 1024
}

/// `b` bytes in decimal kilobytes.
pub fn kb(b: u64) -> (r: u64)
    ensures
        r == b / 1000,
{
    b / 1000
}

/// `b` bytes in decimal megabytes.
pub fn mb(b: u64) -> (r: u64)
    ensures
        r == b / 1000 / 1000,
{
    b / 1000 / 1000
}

/// `b` bytes in decimal gigabytes.
pub fn gb(b: u64) -> (r: u64)
    ensures
        r == b / 1000 / 1000 / 1000,
{
    b / 1000 / 1000 / 1000
}

/// `b` bytes in decimal terabytes.
pub fn tb(b: u64) -> (r: u64)
    ensures
        r == b / 1000 / 1000 / 1000 / 1000,
{
    b / 1000 / 1000 / 1000 / 1000
}

/// The filesystem line: every size placeholder replaced from the reading,
/// sizes in whole binary and decimal units, the used share in tenths rounded
/// half up and the free share as its complement; only the mountpoint is
/// substituted when there is no reading.
pub open spec fn fs_value_seq(
    format: Seq<char>,
    mountpoint: Seq<char>,
    stats: Option<FsStats>,
) -> Seq<char> {
    match stats {
        None => replace_seq(format, "{mount}"@, mountpoint),
        Some(st) => {
            let used_tenths: int = if st.total > 0 {
                (st.used * 1000 + st.total / 2) / (st.total as int)
            } else {
                0
            };
            // the complement of the used share, as one quantity
            let free_tenths: int = 1000 - used_tenths;
            let s0 = replace_seq(format, "{mount}"@, mountpoint);
            let s1 = replace_seq(s0, "{kib_total}"@, dec_seq((st.total / 1024) as nat));
            let s2 = replace_seq(s1, "{mib_total}"@, dec_seq((st.total / 1024 / 1024) as nat));
            let s3 = replace_seq(
                s2,
                "{gib_total}"@,
                dec_seq((st.total / 1024 / 1024 / 1024) as nat),
            );
            let s4 = replace_seq(
                s3,
                "{tib_total}"@,
                dec_seq((st.total / 1024 / 1024 / 1024 / 1024) as nat),
            );
            let s5 = replace_seq(s4, "{kib_free}"@, dec_seq((st.free / 1024) as nat));
            let s6 = replace_seq(s5, "{mib_free}"@, dec_seq((st.free / 1024 / 1024) as nat));
            let s7 = replace_seq(s6, "{gib_free}"@, dec_seq((st.free / 1024 / 1024 / 1024) as nat));
            let s8 = replace_seq(
                s7,
                "{tib_free}"@,
                dec_seq((st.free / 1024 / 1024 / 1024 / 1024) as nat),
            );
            let s9 = replace_seq(s8, "{kib_used}"@, dec_seq((st.used / 1024) as nat));
            let s10 = replace_seq(s9, "{mib_used}"@, dec_seq((st.used / 1024 / 1024) as nat));
            let s11 = replace_seq(
                s10,
                "{gib_used}"@,
                dec_seq((st.used / 1024 / 1024 / 1024) as nat),
            );
            let s12 = replace_seq(
                s11,
                "{tib_used}"@,
                dec_seq((st.used / 1024 / 1024 / 1024 / 1024) as nat),
            );
            let s13 = replace_seq(s12, "{kb_total}"@, dec_seq((st.total / 1000) as nat));
            let s14 = replace_seq(s13, "{mb_total}"@, dec_seq((st.total / 1000 / 1000) as nat));
            let s15 = replace_seq(
                s14,
                "{gb_total}"@,
                dec_seq((st.total / 1000 / 1000 / 1000) as nat),
            );
            let s16 = replace_seq(
                s15,
                "{tb_total}"@,
                dec_seq((st.total / 1000 / 1000 / 1000 / 1000) as nat),
            );
            let s17 = replace_seq(s16, "{kb_free}"@, dec_seq((st.free / 1000) as nat));
            let s18 = replace_seq(s17, "{mb_free}"@, dec_seq((st.free / 1000 / 1000) as nat));
            let s19 = replace_seq(s18, "{gb_free}"@, dec_seq((st.free / 1000 / 1000 / 1000) as nat));
            let s20 = replace_seq(
                s19,
                "{tb_free}"@,
                dec_seq((st.free / 1000 / 1000 / 1000 / 1000) as nat),
            );
            let s21 = replace_seq(s20, "{kb_used}"@, dec_seq((st.used / 1000) as nat));
            let s22 = replace_seq(s21, "{mb_used}"@, dec_seq((st.used / 1000 / 1000) as nat));
            let s23 = replace_seq(s22, "{gb_used}"@, dec_seq((st.used / 1000 / 1000 / 1000) as nat));
            let s24 = replace_seq(
                s23,
                "{tb_used}"@,
                dec_seq((st.used / 1000 / 1000 / 1000 / 1000) as nat),
            );
            let s25 = replace_seq(s24, "{%_used}"@, fixed1_seq(used_tenths as nat));
            replace_seq(s25, "{%_free}"@, fixed1_seq(free_tenths as nat))
        },
    }
}

/// The configured format with the filesystem reading substituted.
pub fn fs_info_from_string(format: &str, mountpoint: &str, stats: Option<FsStats>) -> (r: String)
    requires
        match stats {
            Some(st) => st.used <= st.total,
            None => true,
        },
    ensures
        r@ == fs_value_seq(format@, mountpoint@, stats),
{
    proof {
        reveal_strlit("{mount}");
    }
    let f = str_chars(format);
    let mp = str_chars(mountpoint);
    let s0 = replace_all(&f, &str_chars("{mount}"), &mp);
    match stats {
        None => chars_string(&s0),
        Some(st) => {
            let used_tenths: u64 = if st.total > 0 {
                proof {
                    assert(0 <= (st.used * 1000 + st.total / 2) / (st.total as int) <= 1000) by (
                    nonlinear_arith)
                        requires
                            0 < st.total <= u64::MAX,
                            0 <= st.used <= st.total,
                    ;
                }
                mul_round_div(st.used, 1000, st.total)
            } else {
                0
            };
            let free_tenths: u64 = 1000 - used_tenths;
            proof {
                reveal_strlit("{kib_total}");
                reveal_strlit("{mib_total}");
                reveal_strlit("{gib_total}");
                reveal_strlit("{tib_total}");
                reveal_strlit("{kib_free}");
                reveal_strlit("{mib_free}");
                reveal_strlit("{gib_free}");
                reveal_strlit("{tib_free}");
                reveal_strlit("{kib_used}");
                reveal_strlit("{mib_used}");
                reveal_strlit("{gib_used}");
                reveal_strlit("{tib_used}");
                reveal_strlit("{kb_total}");
                reveal_strlit("{mb_total}");
                reveal_strlit("{gb_total}");
                reveal_strlit("{tb_total}");
                reveal_strlit("{kb_free}");
                reveal_strlit("{mb_free}");
                reveal_strlit("{gb_free}");
                reveal_strlit("{tb_free}");
                reveal_strlit("{kb_used}");
                reveal_strlit("{mb_used}");
                reveal_strlit("{gb_used}");
                reveal_strlit("{tb_used}");
                reveal_strlit("{%_used}");
                reveal_strlit("{%_free}");
            }
            let s1 = replace_all(&s0, &str_chars("{kib_total}"), &dec_of(kib(st.total)));
            let s2 = replace_all(&s1, &str_chars("{mib_total}"), &dec_of(mib(st.total)));
            let s3 = replace_all(&s2, &str_chars("{gib_total}"), &dec_of(gib(st.total)));
            let s4 = replace_all(&s3, &str_chars("{tib_total}"), &dec_of(tib(st.total)));
            let s5 = replace_all(&s4, &str_chars("{kib_free}"), &dec_of(kib(st.free)));
            let s6 = replace_all(&s5, &str_chars("{mib_free}"), &dec_of(mib(st.free)));
            let s7 = replace_all(&s6, &str_chars("{gib_free}"), &dec_of(gib(st.free)));
            let s8 = replace_all(&s7, &str_chars("{tib_free}"), &dec_of(tib(st.free)));
            let s9 = replace_all(&s8, &str_chars("{kib_used}"), &dec_of(kib(st.used)));
            let s10 = replace_all(&s9, &str_chars("{mib_used}"), &dec_of(mib(st.used)));
            let s11 = replace_all(&s10, &str_chars("{gib_used}"), &dec_of(gib(st.used)));
            let s12 = replace_all(&s11, &str_chars("{tib_used}"), &dec_of(tib(st.used)));
            let s13 = replace_all(&s12, &str_chars("{kb_total}"), &dec_of(kb(st.total)));
            let s14 = replace_all(&s13, &str_chars("{mb_total}"), &dec_of(mb(st.total)));
            let s15 = replace_all(&s14, &str_chars("{gb_total}"), &dec_of(gb(st.total)));
            let s16 = replace_all(&s15, &str_chars("{tb_total}"), &dec_of(tb(st.total)));
            let s17 = replace_all(&s16, &str_chars("{kb_free}"), &dec_of(kb(st.free)));
            let s18 = replace_all(&s17, &str_chars("{mb_free}"), &dec_of(mb(st.free)));
            let s19 = replace_all(&s18, &str_chars("{gb_free}"), &dec_of(gb(st.free)));
            let s20 = replace_all(&s19, &str_chars("{tb_free}"), &dec_of(tb(st.free)));
            let s21 = replace_all(&s20, &str_chars("{kb_used}"), &dec_of(kb(st.used)));
            let s22 = replace_all(&s21, &str_chars("{mb_used}"), &dec_of(mb(st.used)));
            let s23 = replace_all(&s22, &str_chars("{gb_used}"), &dec_of(gb(st.used)));
            let s24 = replace_all(&s23, &str_chars("{tb_used}"), &dec_of(tb(st.used)));
            let s25 = replace_all(&s24, &str_chars("{%_used}"), &fixed1_of(used_tenths));
            let s26 = replace_all(&s25, &str_chars("{%_free}"), &fixed1_of(free_tenths));
            chars_string(&s26)
        },
    }
}

impl FilesystemModule {
    /// Recomputes the value from the size reading; configuration is kept.
    pub fn apply_stats(&mut self, stats: Option<FsStats>)
        requires
            match stats {
                Some(st) => st.used <= st.total,
                None => true,
            },
        ensures
            final(self).value@ == fs_value_seq(
                old(self).format@,
                old(self).mountpoint@,
                stats,
            ),
            FilesystemModule::same_config(*old(self), *final(self)),
    {
        let v = fs_info_from_string(self.format.as_str(), self.mountpoint.as_str(), stats);
        self.value = v;
    }
}

impl Module for FilesystemModule {
    open spec fn snapshot_spec(&self) -> SnapshotView {
        SnapshotView {
            value: self.value@,
            icon: self.icon.deep_view(),
            icon_color: self.icon_color.deep_view(),
        }
    }

    open spec fn signal_spec(&self) -> Option<u8> {
        None
    }

    fn get_value(&self) -> (r: ModuleOutput) {
        ModuleOutput {
            value: self.value.clone(),
            icon: clone_opt_str(&self.icon),
            icon_color: clone_opt_str(&self.icon_color),
        }
    }

    fn signal_id(&self) -> (r: Option<u8>) {
        None
    }
}

} // verus!
