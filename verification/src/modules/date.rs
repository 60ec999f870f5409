use crate::config::DateConfig;
use crate::module_trait::Module;
use crate::{clone_opt_str, ModuleOutput, SnapshotView};
use core::fmt::Write;
use vstd::prelude::*;

verus! {

/// Shows the current local time, by a configured format.
pub struct DateModule {
    pub value: String,
    pub icon: Option<String>,
    pub icon_color: Option<String>,
    pub interval: u64,
    pub format: String,
}

impl DateModule {
    /// Whether this module was built from `c` and has computed no value yet.
    pub open spec fn initialized_from(self, c: DateConfig) -> bool {
        &&& self.value@ == Seq::<char>::empty()
        &&& self.icon.deep_view() == c.icon.deep_view()
        &&& self.icon_color.deep_view() == c.icon_color.deep_view()
        &&& self.interval == c.interval
        &&& self.format@ == c.format@
    }

    pub fn new(config: &DateConfig) -> (r: Self)
        ensures
            r.initialized_from(*config),
    {
        DateModule {
            value: String::new(),
            icon: clone_opt_str(&config.icon),
            icon_color: clone_opt_str(&config.icon_color),
            interval: config.interval,
            format: config.format.clone(),
        }
    }

    /// Whether `b` keeps every configuration field of `a`.
    pub open spec fn same_config(a: DateModule, b: DateModule) -> bool {
        &&& b.icon == a.icon
        &&& b.icon_color == a.icon_color
        &&& b.interval == a.interval
        &&& b.format == a.format
    }
}

/// Relies on chrono's `Local::now` and its strftime-style formatting: the
/// current local time written by the pattern. The text depends on the clock,
/// so nothing is stated of it; a pattern chrono rejects yields a fixed
/// diagnostic text instead of the time.
#[verifier::external_body]
fn local_now_formatted(format: &str) -> String {
    let mut out = String::new();
    match write!(out, "{}", chrono::Local::now().format(format)) {
        Ok(()) => out,
        Err(_) => String::from("error: invalid time format"),
    }
}

impl DateModule {
    /// Recomputes the value from the clock; configuration is kept. What the
    /// new value holds depends on the clock and is not stated.
    pub fn update(&mut self)
        ensures
            DateModule::same_config(*old(self), *final(self)),
    {
        let v = local_now_formatted(self.format.as_str());
        self.value = v;
    }
}

impl Module for DateModule {
    open spec fn snapshot_spec(&self) -> SnapshotView {
        SnapshotView {
            value: self.value@,
            icon: self.icon.deep_view(),
            icon_color: self.icon_color.deep_view(),
        }
    }

    open spec fn signal_spec(&self) -> Option<u8> {
        None
    }

    fn get_value(&self) -> (r: ModuleOutput) {
        ModuleOutput {
            value: self.value.clone(),
            icon: clone_opt_str(&self.icon),
            icon_color: clone_opt_str(&self.icon_color),
        }
    }

    fn signal_id(&self) -> (r: Option<u8>) {
        None
    }
}

} // verus!
