use crate::config::ModuleConfig;
use crate::modules::battery::BatteryModule;
use crate::modules::brightnessctl::BrightnessctlModule;
use crate::modules::cpu::CpuModule;
use crate::modules::cputemp::CputempModule;
use crate::modules::date::DateModule;
use crate::modules::filesystem::FilesystemModule;
use crate::modules::invalid::{invalid_value_seq, InvalidModule};
use crate::modules::kernel::KernelModule;
use crate::modules::loadavg::LoadavgModule;
use crate::modules::memory::MemoryModule;
use crate::modules::network::NetworkModule;
use crate::modules::uptime::UptimeModule;
use crate::modules::wpctl::WpctlModule;
use crate::modules::xkeyboard::XkeyboardModule;
use crate::modules::xwindow::XwindowModule;
use crate::modules::xworkspaces::XworkspacesModule;
use crate::modules::ModuleSlot;
use crate::parse::chars_eq;
use crate::text::str_chars;
use vstd::prelude::*;

verus! {

/// The slot built for the configured name `name`: the module kind of that
/// name, initialized from its section of the configuration; any other name
/// yields the placeholder carrying its diagnostic text.
pub open spec fn built_slot_ok(name: Seq<char>, c: ModuleConfig, slot: ModuleSlot) -> bool {
    if name == "battery"@ {
        match slot {
            ModuleSlot::Battery(m) => m.initialized_from(c.battery),
            _ => false,
        }
    } else if name == "brightnessctl"@ {
        match slot {
            ModuleSlot::Brightnessctl(m) => m.initialized_from(c.brightnessctl),
            _ => false,
        }
    } else if name == "cpu"@ {
        match slot {
            ModuleSlot::Cpu(m) => m.initialized_from(c.cpu),
            _ => false,
        }
    } else if name == "cputemp"@ {
        match slot {
            ModuleSlot::Cputemp(m) => m.initialized_from(c.cputemp),
            _ => false,
        }
    } else if name == "date"@ {
        match slot {
            ModuleSlot::Date(m) => m.initialized_from(c.date),
            _ => false,
        }
    } else if name == "filesystem"@ {
        match slot {
            ModuleSlot::Filesystem(m) => m.initialized_from(c.filesystem),
            _ => false,
        }
    } else if name == "kernel"@ {
        match slot {
            ModuleSlot::Kernel(m) => m.initialized_from(c.kernel),
            _ => false,
        }
    } else if name == "loadavg"@ {
        match slot {
            ModuleSlot::Loadavg(m) => m.initialized_from(c.loadavg),
            _ => false,
        }
    } else if name == "memory"@ {
        match slot {
            ModuleSlot::Memory(m) => m.initialized_from(c.memory),
            _ => false,
        }
    } else if name == "network"@ {
        match slot {
            ModuleSlot::Network(m) => m.initialized_from(c.network),
            _ => false,
        }
    } else if name == "uptime"@ {
        match slot {
            ModuleSlot::Uptime(m) => m.initialized_from(c.uptime),
            _ => false,
        }
    } else if name == "wpctl"@ {
        match slot {
            ModuleSlot::Wpctl(m) => m.initialized_from(c.wpctl),
            _ => false,
        }
    } else if name == "xkeyboard"@ {
        match slot {
            ModuleSlot::Xkeyboard(m) => m.initialized_from(c.xkeyboard),
            _ => false,
        }
    } else if name == "xwindow"@ {
        match slot {
            ModuleSlot::Xwindow(m) => m.initialized_from(c.xwindow),
            _ => false,
        }
    } else if name == "xworkspaces"@ {
        match slot {
            ModuleSlot::Xworkspaces(m) => m.initialized_from(c.xworkspaces),
            _ => false,
        }
    } else {
        match slot {
            ModuleSlot::Invalid(m) => m.value@ == invalid_value_seq(name),
            _ => false,
        }
    }
}

/// The module built for one configured name.
fn build_module(name: &str, config: &ModuleConfig) -> (r: ModuleSlot)
    ensures
        built_slot_ok(name@, *config, r),
{
    let n = str_chars(name);
    let lit_battery = str_chars("battery");
    let lit_brightnessctl = str_chars("brightnessctl");
    let lit_cpu = str_chars("cpu");
    let lit_cputemp = str_chars("cputemp");
    let lit_date = str_chars("date");
    let lit_filesystem = str_chars("filesystem");
    let lit_kernel = str_chars("kernel");
    let lit_loadavg = str_chars("loadavg");
    let lit_memory = str_chars("memory");
    let lit_network = str_chars("network");
    let lit_uptime = str_chars("uptime");
    let lit_wpctl = str_chars("wpctl");
    let lit_xkeyboard = str_chars("xkeyboard");
    let lit_xwindow = str_chars("xwindow");
    let lit_xworkspaces = str_chars("xworkspaces");
    if chars_eq(&n, &lit_battery) {
        ModuleSlot::Battery(BatteryModule::new(&config.battery))
    } else if chars_eq(&n, &lit_brightnessctl) {
        ModuleSlot::Brightnessctl(BrightnessctlModule::new(&config.brightnessctl))
    } else if chars_eq(&n, &lit_cpu) {
        ModuleSlot::Cpu(CpuModule::new(&config.cpu))
    } else if chars_eq(&n, &lit_cputemp) {
        ModuleSlot::Cputemp(CputempModule::new(&config.cputemp))
    } else if chars_eq(&n, &lit_date) {
        ModuleSlot::Date(DateModule::new(&config.date))
    } else if chars_eq(&n, &lit_filesystem) {
        ModuleSlot::Filesystem(FilesystemModule::new(&config.filesystem))
    } else if chars_eq(&n, &lit_kernel) {
        ModuleSlot::Kernel(KernelModule::new(&config.kernel))
    } else if chars_eq(&n, &lit_loadavg) {
        ModuleSlot::Loadavg(LoadavgModule::new(&config.loadavg))
    } else if chars_eq(&n, &lit_memory) {
        ModuleSlot::Memory(MemoryModule::new(&config.memory))
    } else if chars_eq(&n, &lit_network) {
        ModuleSlot::Network(NetworkModule::new(&config.network))
    } else if chars_eq(&n, &lit_uptime) {
        ModuleSlot::Uptime(UptimeModule::new(&config.uptime))
    } else if chars_eq(&n, &lit_wpctl) {
        ModuleSlot::Wpctl(WpctlModule::new(&config.wpctl))
    } else if chars_eq(&n, &lit_xkeyboard) {
        ModuleSlot::Xkeyboard(XkeyboardModule::new(&config.xkeyboard))
    } else if chars_eq(&n, &lit_xwindow) {
        ModuleSlot::Xwindow(XwindowModule::new(&config.xwindow))
    } else if chars_eq(&n, &lit_xworkspaces) {
        ModuleSlot::Xworkspaces(XworkspacesModule::new(&config.xworkspaces))
    } else {
        ModuleSlot::Invalid(InvalidModule::new(name))
    }
}

/// One module per configured name, in the configured order; a name no
/// module kind answers to yields the placeholder with its diagnostic text.
pub fn build_modules(module_strings: &Vec<String>, config: &ModuleConfig) -> (r: Vec<ModuleSlot>)
    ensures
        r@.len() == module_strings@.len(),
        forall|i: int|
            0 <= i < r@.len() ==> built_slot_ok(module_strings@[i]@, *config, #[trigger] r@[i]),
{
    let mut r: Vec<ModuleSlot> = Vec::new();
    let mut i: usize = 0;
    while i < module_strings.len()
        invariant
            i <= module_strings@.len(),
            r@.len() == i as int,
            forall|k: int|
                0 <= k < i ==> built_slot_ok(module_strings@[k]@, *config, #[trigger] r@[k]),
        decreases module_strings@.len() - i,
    {
        r.push(build_module(module_strings[i].as_str(), config));
        i = i + 1;
    }
    r
}

} // verus!
