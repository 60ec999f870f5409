use barrs::modules::battery::battery_from_string;
use barrs::modules::brightnessctl::brightness_from_string;
use barrs::modules::cpu::{calculate_usage, parse_cpu_jiffies};
use barrs::modules::cputemp::{cputemp_from_string, parse_temp_milli};
use barrs::modules::filesystem::{fs_info_from_string, gb, gib, kb, kib, mb, mib, tb, tib, FsStats};
use barrs::modules::kernel::kernel_info_from_string;
use barrs::modules::loadavg::loadavg_from_string;
use barrs::modules::memory::usage_from_string;
use barrs::modules::network::network_info_from_string;
use barrs::modules::uptime::uptime_from_string;
use barrs::modules::wpctl::audio_from_string;
use barrs::modules::xkeyboard::layout_from_rules_names;
use barrs::modules::xwindow::window_title_from_props;
use barrs::modules::xworkspaces::{
    desktop_names_from, format_workspaces, get_workspaces_result_wrapper, workspaces_from_props,
    Workspace, WorkspaceState,
};

#[test]
fn kernel_replaces_all_placeholders() {
    let r = kernel_info_from_string(
        "{ostype} {hostname} {osrelease} ({domainname})",
        "Linux",
        "box",
        "6.1.0",
        "lan",
    );
    assert_eq!(r, "Linux box 6.1.0 (lan)");
}

#[test]
fn uptime_splits_days_hours_minutes_seconds() {
    // 93784 s = 1 day, 2 h, 3 min, 4 s
    let r = uptime_from_string(
        "{days}d {hours}:{minutes}:{seconds} ({total_hours}h, {total_minutes}m, {total_seconds}s)",
        "93784.21 180000.00",
    );
    assert_eq!(r, "1d 2:3:4 (26h, 1563m, 93784s)");
}

#[test]
fn uptime_unreadable_counts_as_zero() {
    let r = uptime_from_string("{total_seconds}", "garbage here");
    assert_eq!(r, "0");
}

#[test]
fn memory_usage_from_counter_text() {
    let content = "MemTotal: 8000 kB\nMemFree: 100 kB\nMemAvailable: 2000 kB\n";
    let r = usage_from_string("{%}% {mb}MB {mib}MiB {gb}GB {gib}GiB", content);
    // used = 6000 kB; percent = 75; 6000/1000 = 6; 6000/1024 rounds to 6;
    // 6000/10^6 in hundredths rounds to 0.01, 6000/2^20 rounds to 0.01
    assert_eq!(r, "75% 6MB 6MiB 0.01GB 0.01GiB");
}

#[test]
fn memory_without_counters_is_all_zero() {
    let r = usage_from_string("{%}", "nothing useful");
    assert_eq!(r, "0");
}

#[test]
fn cpu_usage_is_share_of_elapsed_jiffies() {
    // elapsed total 100, elapsed idle 50: 50.0 percent
    let r = calculate_usage("cpu {%}", 100, 50, 200, 100);
    assert_eq!(r, "cpu 50.0");
}

#[test]
fn cpu_usage_without_elapsed_time_is_zero() {
    let r = calculate_usage("{%}", 100, 50, 100, 50);
    assert_eq!(r, "0.0");
}

#[test]
fn cpu_usage_with_regressed_counters_is_zero() {
    // idle advanced past the total: no usable elapsed share
    let r = calculate_usage("{%}", 100, 50, 150, 120);
    assert_eq!(r, "0.0");
}

#[test]
fn cpu_jiffies_come_from_the_total_line() {
    let stat = "intr 1 2 3\ncpu  10 20 30 40 50 0 0\ncpu0 1 2 3 4 5\n";
    // total = 10+20+30+(40+50) = 150, idle = 90
    assert_eq!(parse_cpu_jiffies(stat), Some((150, 90)));
    assert_eq!(parse_cpu_jiffies("no such line"), None);
    assert_eq!(parse_cpu_jiffies("cpu 1 2\n"), None);
}

#[test]
fn battery_discharging_time_and_status() {
    let r = battery_from_string(
        "Discharging",
        "42",
        10000,
        20000,
        5000,
        "chg {%} {time}",
        "{%}% {status} {time}",
        "full",
    );
    assert_eq!(r, "42% Discharging 02:00");
}

#[test]
fn battery_charging_rounds_minutes() {
    let r = battery_from_string(
        "Charging",
        "75",
        15000,
        20000,
        10000,
        "chg {%} {time}",
        "dis",
        "full",
    );
    assert_eq!(r, "chg 75 00:30");
}

#[test]
fn battery_without_draw_shows_no_time() {
    let r = battery_from_string("Full", "100", 1, 1, 0, "c", "d", "{%} {time}");
    assert_eq!(r, "100 --:--");
}

#[test]
fn battery_unknown_status_is_diagnosed() {
    let r = battery_from_string("Wat", "50", 1, 2, 1, "c", "d", "f");
    assert_eq!(r, "error: unknown battery status: Wat");
}

#[test]
fn network_speeds_in_all_units() {
    let (line, rx, tx) = network_info_from_string(
        "eth0",
        "{iface} {state} {ip} {down_speed_bit}b {down_speed_kbit}k {down_speed_mbit}M {up_speed_bit}b",
        "up",
        None,
        2000,
        1000,
        0,
        0,
        2,
    );
    // rx speed 1000 B/s = 8000 bit/s = 8.00 kbit/s = 0.01 Mbit/s; tx 4000 bit/s
    assert_eq!(line, "eth0 up unknown 8000b 8.00k 0.01M 4000b");
    assert_eq!((rx, tx), (2000, 1000));
}

#[test]
fn network_address_is_substituted_when_known() {
    let (line, _, _) = network_info_from_string(
        "wlan0",
        "{ip}",
        "up",
        Some("192.168.1.7"),
        0,
        0,
        0,
        0,
        1,
    );
    assert_eq!(line, "192.168.1.7");
}

#[test]
fn loadavg_averages_and_process_total() {
    let r = loadavg_from_string(
        "{1m} {5m} {15m} {total}",
        "0.52 0.58 0.59 3/973 12345\n",
    );
    assert_eq!(r, "0.52 0.58 0.59 973");
}

#[test]
fn loadavg_rounds_the_third_decimal() {
    let r = loadavg_from_string("{1m} {5m}", "1.999 0.5 0.1 1/3\n");
    assert_eq!(r, "2.00 0.50");
}

#[test]
fn loadavg_short_text_is_not_available() {
    assert_eq!(loadavg_from_string("{1m}", "0.52 0.58\n"), "load: n/a");
}

#[test]
fn audio_volume_from_tool_output() {
    let r = audio_from_string("vol {volume}%", "muted", "Volume: 0.65\n");
    assert_eq!(r, "vol 65%");
}

#[test]
fn audio_muted_uses_the_muted_format() {
    let r = audio_from_string("vol {volume}%", "M{volume}", "Volume: 0.40 [MUTED]\n");
    assert_eq!(r, "M40");
}

#[test]
fn audio_without_volume_line_is_zero() {
    let r = audio_from_string("{volume}", "muted", "no such line\n");
    assert_eq!(r, "0");
}

#[test]
fn cputemp_in_three_scales() {
    let r = cputemp_from_string("{c}C {k}K {f}F", Some(45000));
    assert_eq!(r, "45.0C 318.2K 113.0F");
}

#[test]
fn cputemp_below_zero() {
    let r = cputemp_from_string("{c} {k} {f}", Some(-5000));
    assert_eq!(r, "-5.0 268.2 23.0");
}

#[test]
fn cputemp_without_reading_keeps_the_format() {
    assert_eq!(cputemp_from_string("{c}C", None), "{c}C");
}

#[test]
fn temp_reading_is_trimmed_decimal() {
    assert_eq!(parse_temp_milli("45000\n"), Some(45000));
    assert_eq!(parse_temp_milli(" -273150 "), Some(-273150));
    assert_eq!(parse_temp_milli("abc"), None);
    assert_eq!(parse_temp_milli(""), None);
}

#[test]
fn filesystem_sizes_and_percentages() {
    let stats = FsStats { total: 10737418240, free: 4294967296, used: 6442450944 };
    let r = fs_info_from_string("{mount} {gib_total}G {gb_total}g {%_used} {%_free}", "/", Some(stats));
    assert_eq!(r, "/ 10G 10g 60.0 40.0");
}

#[test]
fn filesystem_free_percentage_is_the_complement() {
    // a rounding tie: the used share rounds up to 0.1, and the free share is
    // its complement 99.9, not an independently rounded 100.0
    let stats = FsStats { total: 2000, free: 1999, used: 1 };
    let r = fs_info_from_string("{%_used} {%_free}", "/", Some(stats));
    assert_eq!(r, "0.1 99.9");
}

#[test]
fn filesystem_without_reading_names_only_the_mountpoint() {
    let r = fs_info_from_string("{mount}: {gib_total}", "/home", None);
    assert_eq!(r, "/home: {gib_total}");
}

#[test]
fn unit_conversions_divide_down() {
    assert_eq!(kib(2048), 2);
    assert_eq!(mib(3 * 1024 * 1024), 3);
    assert_eq!(gib(5 * 1024 * 1024 * 1024), 5);
    assert_eq!(tib(1024 * 1024 * 1024 * 1024), 1);
    assert_eq!(kb(2000), 2);
    assert_eq!(mb(3_000_000), 3);
    assert_eq!(gb(5_000_000_000), 5);
    assert_eq!(tb(1_000_000_000_000), 1);
}

#[test]
fn brightness_between_the_parentheses() {
    let info = "Device 'intel_backlight':\n\tCurrent brightness: 38906 (30%)\n\tMax: 120000\n";
    assert_eq!(brightness_from_string("{%}", info), "30%");
}

#[test]
fn brightness_without_parentheses_is_diagnosed() {
    let info = "Current brightness: 38906\n";
    assert_eq!(
        brightness_from_string("{%}", info),
        "error: could not parse current brightness"
    );
    assert_eq!(
        brightness_from_string("{%}", "no such line"),
        "error: could not parse current brightness"
    );
}

#[test]
fn keyboard_layout_is_the_third_entry() {
    assert_eq!(layout_from_rules_names("evdev\u{0}pc105\u{0}us\u{0}\u{0}"), "us");
    assert_eq!(layout_from_rules_names("evdev"), "unknown");
    assert_eq!(layout_from_rules_names("a\u{0}b\u{0}\u{0}c"), "unknown");
}

#[test]
fn window_title_prefers_the_utf8_name() {
    assert_eq!(
        window_title_from_props(7, Some("Editor"), Some("old"), None, "desktop"),
        "Editor"
    );
    assert_eq!(window_title_from_props(7, None, Some("old"), None, "desktop"), "old");
    let latin: Vec<u8> = vec![72, 105];
    assert_eq!(window_title_from_props(7, None, None, Some(&latin), "desktop"), "Hi");
    assert_eq!(window_title_from_props(7, None, None, None, "desktop"), "Unknown window");
    assert_eq!(window_title_from_props(0, Some("Editor"), None, None, "desktop"), "desktop");
}

#[test]
fn workspaces_states_from_windows() {
    let names = desktop_names_from("one\u{0}two\u{0}three\u{0}four", 4);
    // desktop 1 has a calm window, desktop 3 has one demanding attention
    let windows: Vec<(u32, bool)> = vec![(1, false), (3, true), (9, true)];
    let ws = workspaces_from_props(4, 0, &names, &windows);
    let line = format_workspaces(&ws, "[{name}]", " {index} ", "*{name}*", "!{name}!", "|");
    assert_eq!(line, "[one]|*two*| 2 |!four!");
}

#[test]
fn workspaces_error_placeholder() {
    let ws = get_workspaces_result_wrapper(Err("no display".to_string()));
    assert_eq!(ws.len(), 1);
    assert_eq!(ws[0].name, "error: no display");
    assert!(matches!(ws[0].state, WorkspaceState::Error));
    let line = format_workspaces(&ws, "a", "b", "c", "d", "|");
    assert_eq!(line, "");
}

#[test]
fn workspaces_ok_passes_through() {
    let ws = get_workspaces_result_wrapper(Ok(vec![Workspace {
        index: 0,
        name: "w".to_string(),
        state: WorkspaceState::Active,
    }]));
    assert_eq!(ws.len(), 1);
    assert_eq!(ws[0].name, "w");
}

#[test]
fn memory_last_counter_line_wins() {
    let content = "MemTotal: 1000 kB\nMemTotal: 4000 kB\nMemAvailable: 1000 kB\n";
    assert_eq!(usage_from_string("{%}", content), "75");
}

#[test]
fn uptime_tolerates_leading_whitespace() {
    assert_eq!(uptime_from_string("{seconds}", "  59.99 12.0"), "59");
}

#[test]
fn missing_desktop_names_are_empty() {
    let names = desktop_names_from("one", 3);
    assert_eq!(names, vec!["one".to_string(), String::new(), String::new()]);
}
