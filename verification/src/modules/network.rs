use crate::config::NetworkConfig;
use crate::module_trait::Module;
use crate::num::{dec_of, dec_seq, fixed2_of, fixed2_seq, round_div};
use crate::text::{chars_string, replace_all, replace_seq, str_chars};
use crate::{clone_opt_str, ModuleOutput, SnapshotView};
use vstd::prelude::*;

verus! {

/// Shows state, address and transfer rates of a network interface, by a configured format.
pub struct NetworkModule {
    pub value: String,
    pub icon: Option<String>,
    pub icon_color: Option<String>,
    pub interval: u64,
    pub interface: String,
    pub format: String,
    pub prev_rx: u64,
    pub prev_tx: u64,
}

impl NetworkModule {
    /// Whether this module was built from `c` and has computed no value yet.
    pub open spec fn initialized_from(self, c: NetworkConfig) -> bool {
        &&& self.value@ == Seq::<char>::empty()
        &&& self.icon.deep_view() == c.icon.deep_view()
        &&& self.icon_color.deep_view() == c.icon_color.deep_view()
        &&& self.interval == c.interval
        &&& self.interface@ == c.interface@
        &&& self.format@ == c.format@
        &&& self.prev_rx == 0
        &&& self.prev_tx == 0
    }

    pub fn new(config: &NetworkConfig) -> (r: Self)
        ensures
            r.initialized_from(*config),
    {
        NetworkModule {
            value: String::new(),
            icon: clone_opt_str(&config.icon),
            icon_color: clone_opt_str(&config.icon_color),
            interval: config.interval,
            interface: config.interface.clone(),
            format: config.format.clone(),
            prev_rx: 0,
            prev_tx: 0,
        }
    }

    /// Whether `b` keeps every configuration field of `a`.
    pub open spec fn same_config(a: NetworkModule, b: NetworkModule) -> bool {
        &&& b.icon == a.icon
        &&& b.icon_color == a.icon_color
        &&& b.interval == a.interval
        &&& b.interface == a.interface
        &&& b.format == a.format
    }
}

/// Bytes per second since the previous reading: the growth of the byte
/// counter over the interval; a counter that went backwards counts as no
/// growth.
pub open spec fn speed_of(bytes: u64, prev: u64, delta: u64) -> int
    recommends
        delta > 0,
{
    (if bytes >= prev {
        bytes - prev
    } else {
        0int
    }) / (delta as int)
}

/// The network line: the address (or "unknown"), the interface name and the
/// state substituted, and the two transfer rates written in bits and in
/// kilobits, megabits and gigabits with two decimal places, rounded half up.
pub open spec fn net_value_seq(
    iface: Seq<char>,
    format: Seq<char>,
    state: Seq<char>,
    ip: Option<Seq<char>>,
    rx_bytes: u64,
    tx_bytes: u64,
    prev_rx: u64,
    prev_tx: u64,
    delta: u64,
) -> Seq<char>
    recommends
        delta > 0,
{
    let rx_bit: int = speed_of(rx_bytes, prev_rx, delta) * 8;
    let tx_bit: int = speed_of(tx_bytes, prev_tx, delta) * 8;
    let ip_text = match ip {
        Some(s) => s,
        None => "unknown"@,
    };
    let s1 = replace_seq(format, "{ip}"@, ip_text);
    let s2 = replace_seq(s1, "{iface}"@, iface);
    let s3 = replace_seq(s2, "{state}"@, state);
    let s4 = replace_seq(s3, "{down_speed_bit}"@, dec_seq(rx_bit as nat));
    let s5 = replace_seq(s4, "{down_speed_kbit}"@, fixed2_seq(((rx_bit + 5) / 10) as nat));
    let s6 = replace_seq(s5, "{down_speed_mbit}"@, fixed2_seq(((rx_bit + 5000) / 10000) as nat));
    let s7 = replace_seq(
        s6,
        "{down_speed_gbit}"@,
        fixed2_seq(((rx_bit + 5000000) / 10000000) as nat),
    );
    let s8 = replace_seq(s7, "{up_speed_bit}"@, dec_seq(tx_bit as nat));
    let s9 = replace_seq(s8, "{up_speed_kbit}"@, fixed2_seq(((tx_bit + 5) / 10) as nat));
    let s10 = replace_seq(s9, "{up_speed_mbit}"@, fixed2_seq(((tx_bit + 5000) / 10000) as nat));
    replace_seq(s10, "{up_speed_gbit}"@, fixed2_seq(((tx_bit + 5000000) / 10000000) as nat))
}

/// The configured format with the network reading substituted; also hands
/// back the byte counters, which become the previous reading next time.
pub fn network_info_from_string(
    iface: &str,
    format: &str,
    state: &str,
    ip: Option<&str>,
    rx_bytes: u64,
    tx_bytes: u64,
    prev_rx: u64,
    prev_tx: u64,
    delta_secs: u64,
) -> (r: (String, u64, u64))
    requires
        delta_secs > 0,
        speed_of(rx_bytes, prev_rx, delta_secs) * 8 <= u64::MAX,
        speed_of(tx_bytes, prev_tx, delta_secs) * 8 <= u64::MAX,
    ensures
        r.0@ == net_value_seq(
            iface@,
            format@,
            state@,
            match ip {
                Some(s) => Some(s@),
                None => None,
            },
            rx_bytes,
            tx_bytes,
            prev_rx,
            prev_tx,
            delta_secs,
        ),
        r.1 == rx_bytes,
        r.2 == tx_bytes,
{
    let rx_speed: u64 = (if rx_bytes >= prev_rx {
        rx_bytes - prev_rx
    } else {
        0
    }) / delta_secs;
    let tx_speed: u64 = (if tx_bytes >= prev_tx {
        tx_bytes - prev_tx
    } else {
        0
    }) / delta_secs;
    let rx_bit: u64 = rx_speed * 8;
    let tx_bit: u64 = tx_speed * 8;
    let ip_chars: Vec<char> = match ip {
        Some(s) => str_chars(s),
        None => str_chars("unknown"),
    };
    proof {
        reveal_strlit("{ip}");
        reveal_strlit("{iface}");
        reveal_strlit("{state}");
        reveal_strlit("{down_speed_bit}");
        reveal_strlit("{down_speed_kbit}");
        reveal_strlit("{down_speed_mbit}");
        reveal_strlit("{down_speed_gbit}");
        reveal_strlit("{up_speed_bit}");
        reveal_strlit("{up_speed_kbit}");
        reveal_strlit("{up_speed_mbit}");
        reveal_strlit("{up_speed_gbit}");
    }
    let f = str_chars(format);
    let s1 = replace_all(&f, &str_chars("{ip}"), &ip_chars);
    let s2 = replace_all(&s1, &str_chars("{iface}"), &str_chars(iface));
    let s3 = replace_all(&s2, &str_chars("{state}"), &str_chars(state));
    let s4 = replace_all(&s3, &str_chars("{down_speed_bit}"), &dec_of(rx_bit));
    let s5 = replace_all(&s4, &str_chars("{down_speed_kbit}"), &fixed2_of(round_div(rx_bit, 10)));
    let s6 = replace_all(
        &s5,
        &str_chars("{down_speed_mbit}"),
        &fixed2_of(round_div(rx_bit, 10000)),
    );
    let s7 = replace_all(
        &s6,
        &str_chars("{down_speed_gbit}"),
        &fixed2_of(round_div(rx_bit, 10000000)),
    );
    let s8 = replace_all(&s7, &str_chars("{up_speed_bit}"), &dec_of(tx_bit));
    let s9 = replace_all(&s8, &str_chars("{up_speed_kbit}"), &fixed2_of(round_div(tx_bit, 10)));
    let s10 = replace_all(&s9, &str_chars("{up_speed_mbit}"), &fixed2_of(round_div(tx_bit, 10000)));
    let s11 = replace_all(
        &s10,
        &str_chars("{up_speed_gbit}"),
        &fixed2_of(round_div(tx_bit, 10000000)),
    );
    (chars_string(&s11), rx_bytes, tx_bytes)
}

impl NetworkModule {
    /// Recomputes the value from fresh byte counters, which become the
    /// previous reading for the next time; configuration is kept.
    pub fn apply_reading(&mut self, state: &str, ip: Option<&str>, rx_bytes: u64, tx_bytes: u64)
        requires
            old(self).interval > 0,
            speed_of(rx_bytes, old(self).prev_rx, old(self).interval) * 8 <= u64::MAX,
            speed_of(tx_bytes, old(self).prev_tx, old(self).interval) * 8 <= u64::MAX,
        ensures
            final(self).value@ == net_value_seq(
                old(self).interface@,
                old(self).format@,
                state@,
                match ip {
                    Some(s) => Some(s@),
                    None => None,
                },
                rx_bytes,
                tx_bytes,
                old(self).prev_rx,
                old(self).prev_tx,
                old(self).interval,
            ),
            final(self).prev_rx == rx_bytes,
            final(self).prev_tx == tx_bytes,
            NetworkModule::same_config(*old(self), *final(self)),
    {
        let (v, new_rx, new_tx) = network_info_from_string(
            self.interface.as_str(),
            self.format.as_str(),
            state,
            ip,
            rx_bytes,
            tx_bytes,
            self.prev_rx,
            self.prev_tx,
            self.interval,
        );
        self.value = v;
        self.prev_rx = new_rx;
        self.prev_tx = new_tx;
    }
}

impl Module for NetworkModule {
    open spec fn snapshot_spec(&self) -> SnapshotView {
        SnapshotView {
            value: self.value@,
            icon: self.icon.deep_view(),
            icon_color: self.icon_color.deep_view(),
        }
    }

    open spec fn signal_spec(&self) -> Option<u8> {
        None
    }

    fn get_value(&self) -> (r: ModuleOutput) {
        ModuleOutput {
            value: self.value.clone(),
            icon: clone_opt_str(&self.icon),
            icon_color: clone_opt_str(&self.icon_color),
        }
    }

    fn signal_id(&self) -> (r: Option<u8>) {
        None
    }
}

} // verus!
