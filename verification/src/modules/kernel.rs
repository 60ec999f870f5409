use crate::config::KernelConfig;
use crate::module_trait::Module;
use crate::text::{chars_string, replace_all, replace_seq, str_chars};
use crate::{clone_opt_str, ModuleOutput, SnapshotView};
use vstd::prelude::*;

verus! {

/// Shows kernel and host identification, by a configured format.
pub struct KernelModule {
    pub value: String,
    pub icon: Option<String>,
    pub icon_color: Option<String>,
    pub interval: u64,
    pub format: String,
}

impl KernelModule {
    /// Whether this module was built from `c` and has computed no value yet.
    pub open spec fn initialized_from(self, c: KernelConfig) -> bool {
        &&& self.value@ == Seq::<char>::empty()
        &&& self.icon.deep_view() == c.icon.deep_view()
        &&& self.icon_color.deep_view() == c.icon_color.deep_view()
        &&& self.interval == c.interval
        &&& self.format@ == c.format@
    }

    pub fn new(config: &KernelConfig) -> (r: Self)
        ensures
            r.initialized_from(*config),
    {
        KernelModule {
            value: String::new(),
            icon: clone_opt_str(&config.icon),
            icon_color: clone_opt_str(&config.icon_color),
            interval: config.interval,
            format: config.format.clone(),
        }
    }

    /// Whether `b` keeps every configuration field of `a`.
    pub open spec fn same_config(a: KernelModule, b: KernelModule) -> bool {
        &&& b.icon == a.icon
        &&& b.icon_color == a.icon_color
        &&& b.interval == a.interval
        &&& b.format == a.format
    }
}

/// The kernel line: each placeholder replaced by the corresponding reading.
pub open spec fn kernel_value_seq(
    format: Seq<char>,
    ostype: Seq<char>,
    hostname: Seq<char>,
    osrelease: Seq<char>,
    domainname: Seq<char>,
) -> Seq<char> {
    replace_seq(
        replace_seq(
            replace_seq(replace_seq(format, "{ostype}"@, ostype), "{hostname}"@, hostname),
            "{osrelease}"@,
            osrelease,
        ),
        "{domainname}"@,
        domainname,
    )
}

/// The configured format with the four kernel readings substituted, in the
/// order of `kernel_value_seq`.
pub fn kernel_info_from_string(
    format: &str,
    ostype: &str,
    hostname: &str,
    osrelease: &str,
    domainname: &str,
) -> (r: String)
    ensures
        r@ == kernel_value_seq(format@, ostype@, hostname@, osrelease@, domainname@),
{
    proof {
        reveal_strlit("{ostype}");
        reveal_strlit("{hostname}");
        reveal_strlit("{osrelease}");
        reveal_strlit("{domainname}");
    }
    let f = str_chars(format);
    let s1 = replace_all(&f, &str_chars("{ostype}"), &str_chars(ostype));
    let s2 = replace_all(&s1, &str_chars("{hostname}"), &str_chars(hostname));
    let s3 = replace_all(&s2, &str_chars("{osrelease}"), &str_chars(osrelease));
    let s4 = replace_all(&s3, &str_chars("{domainname}"), &str_chars(domainname));
    chars_string(&s4)
}

impl KernelModule {
    /// Recomputes the value from the four readings; configuration is kept.
    pub fn apply_readings(
        &mut self,
        ostype: &str,
        hostname: &str,
        osrelease: &str,
        domainname: &str,
    )
        ensures
            final(self).value@ == kernel_value_seq(
                old(self).format@,
                ostype@,
                hostname@,
                osrelease@,
                domainname@,
            ),
            KernelModule::same_config(*old(self), *final(self)),
    {
        let v = kernel_info_from_string(
            self.format.as_str(),
            ostype,
            hostname,
            osrelease,
            domainname,
        );
        self.value = v;
    }
}

impl Module for KernelModule {
    open spec fn snapshot_spec(&self) -> SnapshotView {
        SnapshotView {
            value: self.value@,
            icon: self.icon.deep_view(),
            icon_color: self.icon_color.deep_view(),
        }
    }

    open spec fn signal_spec(&self) -> Option<u8> {
        None
    }

    fn get_value(&self) -> (r: ModuleOutput) {
        ModuleOutput {
            value: self.value.clone(),
            icon: clone_opt_str(&self.icon),
            icon_color: clone_opt_str(&self.icon_color),
        }
    }

    fn signal_id(&self) -> (r: Option<u8>) {
        None
    }
}

} // verus!
