use barrs::bar::Bar;
use barrs::command::parse_update_command;
use barrs::config::{
    BatteryConfig, BrightnessctlConfig, Config, CpuConfig, CputempConfig, DateConfig,
    FilesystemConfig, KernelConfig, LoadavgConfig, MemoryConfig, ModuleConfig, NetworkConfig,
    UptimeConfig, WpctlConfig, XkeyboardConfig, XwindowConfig, XworkspacesConfig,
};
use barrs::module_trait::Module;
use barrs::modules::date::DateModule;
use barrs::modules::invalid::InvalidModule;
use barrs::modules::memory::MemoryModule;
use barrs::modules::wpctl::WpctlModule;
use barrs::modules::xkeyboard::XkeyboardModule;
use barrs::modules::xwindow::XwindowModule;
use barrs::modules::ModuleSlot;
use barrs::render::construct_lemonbar_module;
use barrs::ModuleOutput;

fn date_slot(value: &str) -> ModuleSlot {
    ModuleSlot::Date(DateModule {
        value: value.to_string(),
        icon: None,
        icon_color: None,
        interval: 1,
        format: "%H:%M".to_string(),
    })
}

fn memory_slot(value: &str) -> ModuleSlot {
    ModuleSlot::Memory(MemoryModule {
        value: value.to_string(),
        icon: None,
        icon_color: None,
        interval: 1,
        format: "{%}".to_string(),
    })
}

fn wpctl_slot(value: &str, signal_id: Option<u8>) -> ModuleSlot {
    ModuleSlot::Wpctl(WpctlModule {
        value: value.to_string(),
        icon: None,
        icon_color: None,
        signal_id,
        format: "{volume}".to_string(),
        format_muted: "muted".to_string(),
    })
}

fn bar_of(left: Vec<ModuleSlot>, center: Vec<ModuleSlot>, right: Vec<ModuleSlot>, separator: &str, frontend: &str) -> Bar {
    Bar {
        left,
        center,
        right,
        separator: separator.to_string(),
        frontend: frontend.to_string(),
    }
}

#[test]
fn generic_scenario_two_sections() {
    // left=["date"], center=[], right=["memory"], separator " | ", generic
    // dialect: the empty center section stands between the two gaps
    let bar = bar_of(
        vec![date_slot("12:00")],
        vec![],
        vec![memory_slot("mem: 42%")],
        " | ",
        "generic",
    );
    assert_eq!(bar.construct(), "12:00      mem: 42%");
}

#[test]
fn generic_separator_within_section() {
    let bar = bar_of(
        vec![date_slot("a"), memory_slot("b")],
        vec![date_slot("c")],
        vec![],
        " | ",
        "generic",
    );
    assert_eq!(bar.construct(), "a | b   c   ");
}

#[test]
fn lemonbar_escapes_percent() {
    let bar = bar_of(vec![date_slot("50%")], vec![], vec![], " | ", "lemonbar");
    assert_eq!(bar.construct(), "%{l}50%%%{c}%{r}");
}

#[test]
fn lemonbar_module_icon_and_color() {
    let m = ModuleOutput {
        value: "v".to_string(),
        icon: Some("i%".to_string()),
        icon_color: Some("#ff0000".to_string()),
    };
    assert_eq!(construct_lemonbar_module(&m), "%{F#ff0000}i%%%{F-}v");
}

#[test]
fn lemonbar_module_icon_without_color() {
    let m = ModuleOutput {
        value: "42".to_string(),
        icon: Some("*".to_string()),
        icon_color: None,
    };
    assert_eq!(construct_lemonbar_module(&m), "*42");
}

#[test]
fn lemonbar_module_color_without_icon_is_ignored() {
    let m = ModuleOutput {
        value: "42".to_string(),
        icon: None,
        icon_color: Some("#00ff00".to_string()),
    };
    assert_eq!(construct_lemonbar_module(&m), "42");
}

#[test]
fn unknown_dialect_renders_as_generic() {
    let slots = || vec![date_slot("x"), memory_slot("y%")];
    let odd = bar_of(slots(), vec![], vec![], "|", "banana");
    let generic = bar_of(slots(), vec![], vec![], "|", "generic");
    assert_eq!(odd.construct(), generic.construct());
}

#[test]
fn unknown_dialect_warns_with_its_name() {
    let bar = bar_of(vec![], vec![], vec![], "|", "banana");
    let warning = bar.dialect_warning().expect("a diagnostic is owed");
    assert!(warning.contains("banana"));
    assert_eq!(warning, "warning: frontend banana not implemented");
}

#[test]
fn known_dialect_warns_not() {
    let lemonbar = bar_of(vec![], vec![], vec![], "|", "lemonbar");
    assert!(lemonbar.dialect_warning().is_none());
    let generic = bar_of(vec![], vec![], vec![], "|", "generic");
    assert!(generic.dialect_warning().is_none());
}

#[test]
fn render_twice_is_identical() {
    let bar = bar_of(
        vec![date_slot("12:00")],
        vec![wpctl_slot("65", Some(3))],
        vec![memory_slot("42%")],
        " | ",
        "lemonbar",
    );
    assert_eq!(bar.construct(), bar.construct());
}

#[test]
fn update_command_addresses_exactly_matching_ids() {
    let bar = bar_of(
        vec![wpctl_slot("a", Some(5)), date_slot("d")],
        vec![
            ModuleSlot::Xkeyboard(XkeyboardModule {
                value: "us".to_string(),
                icon: None,
                icon_color: None,
                signal_id: Some(5),
            }),
        ],
        vec![
            ModuleSlot::Xwindow(XwindowModule {
                value: "title".to_string(),
                icon: None,
                icon_color: None,
                signal_id: Some(7),
                max_length: 80,
                empty_name: "desktop".to_string(),
            }),
        ],
        "|",
        "generic",
    );
    assert_eq!(bar.handle_command("update 5"), vec![0, 2]);
    assert_eq!(bar.handle_command("update 7"), vec![3]);
    assert_eq!(bar.handle_command("update 9"), Vec::<usize>::new());
}

#[test]
fn malformed_commands_address_nothing() {
    let bar = bar_of(vec![wpctl_slot("a", Some(5))], vec![], vec![], "|", "generic");
    assert_eq!(bar.handle_command("update"), Vec::<usize>::new());
    assert_eq!(bar.handle_command("update abc"), Vec::<usize>::new());
    assert_eq!(bar.handle_command("foo bar"), Vec::<usize>::new());
    assert_eq!(bar.handle_command("update 256"), Vec::<usize>::new());
    assert_eq!(bar.handle_command(""), Vec::<usize>::new());
}

#[test]
fn parse_update_accepts_trimmed_decimal_ids() {
    assert_eq!(parse_update_command("update 3\n"), Some(3));
    assert_eq!(parse_update_command("  update 255  "), Some(255));
    assert_eq!(parse_update_command("update 007"), Some(7));
    assert_eq!(parse_update_command("update 256"), None);
    assert_eq!(parse_update_command("update  5"), None);
    assert_eq!(parse_update_command("update "), None);
    assert_eq!(parse_update_command("update"), None);
    assert_eq!(parse_update_command("refresh 3"), None);
}

#[test]
fn invalid_module_snapshot_names_the_unknown() {
    let m = InvalidModule::new("foo");
    let out = m.get_value();
    assert_eq!(out.value, "error: invalid module name: foo");
    assert!(out.icon.is_none());
    assert!(out.icon_color.is_none());
    assert_eq!(m.signal_id(), None);
}

#[test]
fn bar_built_from_config_renders_placeholders() {
    let modules = ModuleConfig {
        battery: BatteryConfig {
            interval: 5,
            icon: None,
            icon_color: None,
            name: "BAT0".to_string(),
            format_charging: "{%}".to_string(),
            format_discharging: "{%}".to_string(),
            format_full: "full".to_string(),
        },
        brightnessctl: BrightnessctlConfig {
            signal_id: None,
            icon: None,
            icon_color: None,
            device_name: "intel".to_string(),
            format: "{%}".to_string(),
        },
        cpu: CpuConfig { interval: 2, icon: None, icon_color: None, format: "{%}".to_string() },
        cputemp: CputempConfig {
            interval: 2,
            icon: None,
            icon_color: None,
            format: "{c}".to_string(),
        },
        date: DateConfig {
            interval: 1,
            icon: None,
            icon_color: None,
            format: "%H:%M".to_string(),
        },
        filesystem: FilesystemConfig {
            interval: 30,
            icon: None,
            icon_color: None,
            format: "{%_used}".to_string(),
            mountpoint: "/".to_string(),
        },
        kernel: KernelConfig {
            interval: 3600,
            icon: None,
            icon_color: None,
            format: "{osrelease}".to_string(),
        },
        loadavg: LoadavgConfig {
            interval: 5,
            icon: None,
            icon_color: None,
            format: "{1m}".to_string(),
        },
        memory: MemoryConfig {
            interval: 5,
            icon: None,
            icon_color: None,
            format: "{%}".to_string(),
        },
        network: NetworkConfig {
            interval: 2,
            icon: None,
            icon_color: None,
            interface: "eth0".to_string(),
            format: "{state}".to_string(),
        },
        uptime: UptimeConfig {
            interval: 60,
            icon: None,
            icon_color: None,
            format: "{days}".to_string(),
        },
        wpctl: WpctlConfig {
            signal_id: Some(1),
            icon: None,
            icon_color: None,
            format: "{volume}".to_string(),
            format_muted: "muted".to_string(),
        },
        xkeyboard: XkeyboardConfig { signal_id: Some(2), icon: None, icon_color: None },
        xwindow: XwindowConfig {
            signal_id: Some(3),
            icon: None,
            icon_color: None,
            max_length: 80,
            empty_name: "desktop".to_string(),
        },
        xworkspaces: XworkspacesConfig {
            signal_id: Some(4),
            icon: None,
            icon_color: None,
            format_active: "[{name}]".to_string(),
            format_empty: " {name} ".to_string(),
            format_occupied: "*{name}*".to_string(),
            format_urgent: "!{name}!".to_string(),
            sepparator: " ".to_string(),
        },
    };
    let config = Config {
        left: vec!["nosuch".to_string()],
        center: vec![],
        right: vec![],
        separator: " | ".to_string(),
        frontend: "generic".to_string(),
        modules,
    };
    let bar = Bar::new(&config);
    assert_eq!(bar.construct(), "error: invalid module name: nosuch      ");

    // known names build their kinds, with values empty until a recompute
    let config2 = Config {
        left: vec!["date".to_string(), "nosuch".to_string()],
        center: vec![],
        right: vec!["memory".to_string()],
        separator: "|".to_string(),
        frontend: "generic".to_string(),
        modules: config.modules,
    };
    let bar2 = Bar::new(&config2);
    assert!(matches!(bar2.left[0], ModuleSlot::Date(_)));
    assert!(matches!(bar2.right[0], ModuleSlot::Memory(_)));
    assert_eq!(bar2.construct(), "|error: invalid module name: nosuch      ");
    assert_eq!(bar2.handle_command("update 9"), Vec::<usize>::new());
}

#[test]
fn empty_bar_renders_only_the_frame() {
    let lemonbar = bar_of(vec![], vec![], vec![], " | ", "lemonbar");
    assert_eq!(lemonbar.construct(), "%{l}%{c}%{r}");
    let generic = bar_of(vec![], vec![], vec![], " | ", "generic");
    assert_eq!(generic.construct(), "      ");
}

#[test]
fn lemonbar_doubles_every_percent() {
    let bar = bar_of(vec![date_slot("a%%b")], vec![], vec![], "|", "lemonbar");
    assert_eq!(bar.construct(), "%{l}a%%%%b%{c}%{r}");
}

#[test]
fn lemonbar_separator_within_section() {
    let bar = bar_of(
        vec![date_slot("a"), memory_slot("b")],
        vec![],
        vec![],
        " | ",
        "lemonbar",
    );
    assert_eq!(bar.construct(), "%{l}a | b%{c}%{r}");
}

#[test]
fn update_command_accepts_id_zero() {
    let bar = bar_of(vec![wpctl_slot("a", Some(0))], vec![], vec![], "|", "generic");
    assert_eq!(bar.handle_command("update 0"), vec![0]);
}

#[test]
fn placeholder_module_is_never_addressed() {
    let bar = bar_of(
        vec![ModuleSlot::Invalid(InvalidModule::new("nosuch"))],
        vec![],
        vec![],
        "|",
        "generic",
    );
    for id in 0..=255u32 {
        assert_eq!(
            bar.handle_command(&format!("update {id}")),
            Vec::<usize>::new()
        );
    }
}

#[test]
fn update_recomputes_the_clock_module() {
    // chrono renders the pattern "%%" as one literal percent character, so a
    // wrapper that merely echoed its argument would fail this test
    let mut bar = bar_of(
        vec![
            ModuleSlot::Date(DateModule {
                value: String::new(),
                icon: None,
                icon_color: None,
                interval: 1,
                format: "%%".to_string(),
            }),
        ],
        vec![],
        vec![],
        "|",
        "generic",
    );
    bar.update();
    assert_eq!(bar.construct(), "%      ");
}
