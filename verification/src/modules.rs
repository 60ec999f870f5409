pub mod battery;
pub mod brightnessctl;
pub mod cpu;
pub mod cputemp;
pub mod date;
pub mod factory;
pub mod filesystem;
pub mod invalid;
pub mod kernel;
pub mod loadavg;
pub mod memory;
pub mod network;
pub mod uptime;
pub mod wpctl;
pub mod xkeyboard;
pub mod xwindow;
pub mod xworkspaces;

use crate::module_trait::Module;
use crate::{ModuleOutput, SnapshotView};
use vstd::prelude::*;

use battery::BatteryModule;
use brightnessctl::BrightnessctlModule;
use cpu::CpuModule;
use cputemp::CputempModule;
use date::DateModule;
use filesystem::FilesystemModule;
use invalid::InvalidModule;
use kernel::KernelModule;
use loadavg::LoadavgModule;
use memory::MemoryModule;
use network::NetworkModule;
use uptime::UptimeModule;
use wpctl::WpctlModule;
use xkeyboard::XkeyboardModule;
use xwindow::XwindowModule;
use xworkspaces::XworkspacesModule;

verus! {

/// One slot of the status line: the closed set of module kinds, each
/// carrying its own configuration and its current display state.
pub enum ModuleSlot {
    Battery(BatteryModule),
    Brightnessctl(BrightnessctlModule),
    Cpu(CpuModule),
    Cputemp(CputempModule),
    Date(DateModule),
    Filesystem(FilesystemModule),
    Invalid(InvalidModule),
    Kernel(KernelModule),
    Loadavg(LoadavgModule),
    Memory(MemoryModule),
    Network(NetworkModule),
    Uptime(UptimeModule),
    Wpctl(WpctlModule),
    Xkeyboard(XkeyboardModule),
    Xwindow(XwindowModule),
    Xworkspaces(XworkspacesModule),
}

/// How one slot may change under a refresh driven from inside the library:
/// the clock module recomputes, keeping its configuration; every other kind
/// is untouched, since its probes are run outside.
pub open spec fn slot_updated(a: ModuleSlot, b: ModuleSlot) -> bool {
    match a {
        ModuleSlot::Date(d) => match b {
            ModuleSlot::Date(d2) => DateModule::same_config(d, d2),
            _ => false,
        },
        _ => b == a,
    }
}

impl ModuleSlot {
    /// Recomputes what can be recomputed without probing: the clock module's
    /// value; every other kind is left as it is.
    pub fn update_local(&mut self)
        ensures
            slot_updated(*old(self), *final(self)),
    {
        let mut taken = ModuleSlot::Invalid(InvalidModule { value: String::new() });
        core::mem::swap(self, &mut taken);
        match taken {
            ModuleSlot::Date(mut d) => {
                d.update();
                *self = ModuleSlot::Date(d);
            },
            other => {
                *self = other;
            },
        }
    }
}

impl Module for ModuleSlot {
    open spec fn snapshot_spec(&self) -> SnapshotView {
        match self {
            ModuleSlot::Battery(m) => m.snapshot_spec(),
            ModuleSlot::Brightnessctl(m) => m.snapshot_spec(),
            ModuleSlot::Cpu(m) => m.snapshot_spec(),
            ModuleSlot::Cputemp(m) => m.snapshot_spec(),
            ModuleSlot::Date(m) => m.snapshot_spec(),
            ModuleSlot::Filesystem(m) => m.snapshot_spec(),
            ModuleSlot::Invalid(m) => m.snapshot_spec(),
            ModuleSlot::Kernel(m) => m.snapshot_spec(),
            ModuleSlot::Loadavg(m) => m.snapshot_spec(),
            ModuleSlot::Memory(m) => m.snapshot_spec(),
            ModuleSlot::Network(m) => m.snapshot_spec(),
            ModuleSlot::Uptime(m) => m.snapshot_spec(),
            ModuleSlot::Wpctl(m) => m.snapshot_spec(),
            ModuleSlot::Xkeyboard(m) => m.snapshot_spec(),
            ModuleSlot::Xwindow(m) => m.snapshot_spec(),
            ModuleSlot::Xworkspaces(m) => m.snapshot_spec(),
        }
    }

    open spec fn signal_spec(&self) -> Option<u8> {
        match self {
            ModuleSlot::Battery(m) => m.signal_spec(),
            ModuleSlot::Brightnessctl(m) => m.signal_spec(),
            ModuleSlot::Cpu(m) => m.signal_spec(),
            ModuleSlot::Cputemp(m) => m.signal_spec(),
            ModuleSlot::Date(m) => m.signal_spec(),
            ModuleSlot::Filesystem(m) => m.signal_spec(),
            ModuleSlot::Invalid(m) => m.signal_spec(),
            ModuleSlot::Kernel(m) => m.signal_spec(),
            ModuleSlot::Loadavg(m) => m.signal_spec(),
            ModuleSlot::Memory(m) => m.signal_spec(),
            ModuleSlot::Network(m) => m.signal_spec(),
            ModuleSlot::Uptime(m) => m.signal_spec(),
            ModuleSlot::Wpctl(m) => m.signal_spec(),
            ModuleSlot::Xkeyboard(m) => m.signal_spec(),
            ModuleSlot::Xwindow(m) => m.signal_spec(),
            ModuleSlot::Xworkspaces(m) => m.signal_spec(),
        }
    }

    fn get_value(&self) -> (r: ModuleOutput) {
        match self {
            ModuleSlot::Battery(m) => m.get_value(),
            ModuleSlot::Brightnessctl(m) => m.get_value(),
            ModuleSlot::Cpu(m) => m.get_value(),
            ModuleSlot::Cputemp(m) => m.get_value(),
            ModuleSlot::Date(m) => m.get_value(),
            ModuleSlot::Filesystem(m) => m.get_value(),
            ModuleSlot::Invalid(m) => m.get_value(),
            ModuleSlot::Kernel(m) => m.get_value(),
            ModuleSlot::Loadavg(m) => m.get_value(),
            ModuleSlot::Memory(m) => m.get_value(),
            ModuleSlot::Network(m) => m.get_value(),
            ModuleSlot::Uptime(m) => m.get_value(),
            ModuleSlot::Wpctl(m) => m.get_value(),
            ModuleSlot::Xkeyboard(m) => m.get_value(),
            ModuleSlot::Xwindow(m) => m.get_value(),
            ModuleSlot::Xworkspaces(m) => m.get_value(),
        }
    }

    fn signal_id(&self) -> (r: Option<u8>) {
        match self {
            ModuleSlot::Battery(m) => m.signal_id(),
            ModuleSlot::Brightnessctl(m) => m.signal_id(),
            ModuleSlot::Cpu(m) => m.signal_id(),
            ModuleSlot::Cputemp(m) => m.signal_id(),
            ModuleSlot::Date(m) => m.signal_id(),
            ModuleSlot::Filesystem(m) => m.signal_id(),
            ModuleSlot::Invalid(m) => m.signal_id(),
            ModuleSlot::Kernel(m) => m.signal_id(),
            ModuleSlot::Loadavg(m) => m.signal_id(),
            ModuleSlot::Memory(m) => m.signal_id(),
            ModuleSlot::Network(m) => m.signal_id(),
            ModuleSlot::Uptime(m) => m.signal_id(),
            ModuleSlot::Wpctl(m) => m.signal_id(),
            ModuleSlot::Xkeyboard(m) => m.signal_id(),
            ModuleSlot::Xwindow(m) => m.signal_id(),
            ModuleSlot::Xworkspaces(m) => m.signal_id(),
        }
    }
}

} // verus!
