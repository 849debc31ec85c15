//! IRSS: UDP-to-raw-IP forwarding latency.
//!
//! The eBPF program keys each datagram on the tag in its first 4 payload
//! bytes. The BPF maps hold cumulative (sum, count) accumulators since
//! program load; each display tick converts them to deltas since the
//! previous tick and averages those, so the reported latency is a periodic
//! moving average. Both filters (listen port and raw-IP destination) default
//! to the compiled-in values and can be set in the program's settings:
//!
//! ```toml
//! [[ebpf_programs]]
//! name = "irss"
//! enabled = true
//!
//! [ebpf_programs.settings]
//! listen_port = 5020
//! raw_dest = "10.10.10.253"
//! ```

use vstd::prelude::*;

use crate::config::{config_setting, program_setting, EbpfProgramConfig, SettingValue, SettingView};
use crate::irss_common::{LISTEN_PORT, RAW_DEST};
use crate::text::{
    all_digits, chars_of, digits_value, segments_of, split_at_char, texts,
};

verus! {

/// The increase of a cumulative accumulator since its last reading, 0 if it
/// went backwards.
pub open spec fn accumulator_delta(reading: u64, last: u64) -> u64 {
    if reading >= last {
        (reading - last) as u64
    } else {
        0
    }
}

/// Compute the per-tick deltas of the cumulative (sum, count) latency
/// accumulators read from the BPF maps: the difference since the last values
/// seen (0 if a value went backwards, e.g. after a program reload). Updates
/// `last_sum`/`last_count`.
pub fn latency_deltas(last_sum: &mut u64, last_count: &mut u64, sum: u64, count: u64) -> (deltas: (
    u64,
    u64,
))
    ensures
        deltas.0 == accumulator_delta(sum, *old(last_sum)),
        deltas.1 == accumulator_delta(count, *old(last_count)),
        *final(last_sum) == sum,
        *final(last_count) == count,
{
    let sum_delta = sum.saturating_sub(*last_sum);
    let count_delta = count.saturating_sub(*last_count);
    *last_sum = sum;
    *last_count = count;
    (sum_delta, count_delta)
}

/// Average latency in microseconds for one display tick, or None when no
/// datagrams were matched since the previous tick.
pub fn avg_latency_us(sum_delta: u64, count_delta: u64) -> (avg: Option<u64>)
    ensures
        avg == (if count_delta == 0 {
            None
        } else {
            Some((sum_delta / count_delta / 1000) as u64)
        }),
{
    if count_delta == 0 {
        None
    } else {
        Some(sum_delta / count_delta / 1_000)
    }
}

/// The value of one dotted-quad component: one to three decimal digits, no
/// leading zero unless it is `0` itself, at most 255.
pub open spec fn octet_value(part: Seq<char>) -> Option<u8> {
    if 1 <= part.len() <= 3 && all_digits(part) && !(part.len() > 1 && part[0] == '0')
        && digits_value(part) <= 255 {
        Some(digits_value(part) as u8)
    } else {
        None
    }
}

/// What `Ipv4Addr::from_str` accepts, as address bytes: exactly four
/// dot-separated components, each an [`octet_value`].
pub open spec fn ipv4_octets(s: Seq<char>) -> Option<Seq<u8>> {
    let parts = segments_of(s, '.');
    if parts.len() == 4 && octet_value(parts[0]) is Some && octet_value(parts[1]) is Some
        && octet_value(parts[2]) is Some && octet_value(parts[3]) is Some {
        Some(
            seq![
                octet_value(parts[0]).unwrap(),
                octet_value(parts[1]).unwrap(),
                octet_value(parts[2]).unwrap(),
                octet_value(parts[3]).unwrap(),
            ],
        )
    } else {
        None
    }
}

/// The value of one dotted-quad component.
fn parse_octet(part: &Vec<char>) -> (octet: Option<u8>)
    ensures
        octet == octet_value(part@),
{
    if part.len() < 1 || part.len() > 3 {
        return None;
    }
    if part.len() > 1 && part[0] == '0' {
        return None;
    }
    let mut value: u32 = 0;
    let mut i: usize = 0;
    while i < part.len()
        invariant
            1 <= part.len() <= 3,
            i <= part.len(),
            all_digits(part@.take(i as int)),
            value == digits_value(part@.take(i as int)),
            value < (if i == 0 {
                1int
            } else if i == 1 {
                10int
            } else if i == 2 {
                100int
            } else {
                1000int
            }),
        decreases part.len() - i,
    {
        let c = part[i];
        if c < '0' || c > '9' {
            assert(!all_digits(part@));
            return None;
        }
        proof {
            let next = part@.take(i + 1);
            assert(next.drop_last() =~= part@.take(i as int));
            assert(next.last() == c);
            crate::text::lemma_digits_value_prefix(part@, i + 1);
        }
        value = value * 10 + (c as u32 - '0' as u32);
        i = i + 1;
        proof {
            crate::text::lemma_digits_value_prefix(part@, i as int);
        }
    }
    assert(part@.take(i as int) =~= part@);
    if value > 255 {
        return None;
    }
    Some(value as u8)
}

/// Parse a dotted-quad IPv4 address into its four address bytes, accepting
/// exactly what `Ipv4Addr::from_str` accepts.
pub fn parse_ipv4(text: &str) -> (octets: Option<[u8; 4]>)
    ensures
        match octets {
            Some(o) => ipv4_octets(text@) == Some(o@),
            None => ipv4_octets(text@) is None,
        },
{
    let chars = chars_of(text);
    let parts = split_at_char(&chars, '.');
    assert(texts(parts@) == segments_of(text@, '.'));
    if parts.len() != 4 {
        return None;
    }
    assert(texts(parts@)[0] == parts@[0]@ && texts(parts@)[1] == parts@[1]@ && texts(parts@)[2]
        == parts@[2]@ && texts(parts@)[3] == parts@[3]@);
    let a = match parse_octet(&parts[0]) {
        Some(v) => v,
        None => return None,
    };
    let b = match parse_octet(&parts[1]) {
        Some(v) => v,
        None => return None,
    };
    let c = match parse_octet(&parts[2]) {
        Some(v) => v,
        None => return None,
    };
    let d = match parse_octet(&parts[3]) {
        Some(v) => v,
        None => return None,
    };
    let octets = [a, b, c, d];
    assert(octets@ =~= seq![a, b, c, d]);
    Some(octets)
}

/// The raw-IP destination a `raw_dest` setting selects: a string holding a
/// valid IPv4 address gives that address, anything else (missing, not a
/// string, not an address) the default.
pub open spec fn raw_dest_choice(setting: Option<SettingView>) -> Seq<u8> {
    match setting {
        Some(SettingView::Str(s)) => match ipv4_octets(s) {
            Some(o) => o,
            None => RAW_DEST@,
        },
        _ => RAW_DEST@,
    }
}

/// The listen port a `listen_port` setting selects: an integer between 1
/// and 65535 gives that port, anything else (missing, not an integer, zero
/// or out of range) the default.
pub open spec fn listen_port_choice(setting: Option<SettingView>) -> u16 {
    match setting {
        Some(SettingView::Integer(v)) => if 1 <= v <= 65535 {
            v as u16
        } else {
            LISTEN_PORT
        },
        _ => LISTEN_PORT,
    }
}

/// The raw-IP destination selected by the value of the `raw_dest` setting.
pub fn raw_dest_from_setting(setting: Option<SettingValue>) -> (dest: [u8; 4])
    ensures
        dest@ == raw_dest_choice(crate::config::setting_view(setting)),
{
    match setting {
        Some(SettingValue::Str(s)) => match parse_ipv4(s.as_str()) {
            Some(octets) => octets,
            None => RAW_DEST,
        },
        _ => RAW_DEST,
    }
}

/// The listen port selected by the value of the `listen_port` setting.
pub fn listen_port_from_setting(setting: Option<SettingValue>) -> (port: u16)
    ensures
        port == listen_port_choice(crate::config::setting_view(setting)),
{
    match setting {
        Some(SettingValue::Integer(v)) => {
            if 1 <= v && v <= 65535 {
                v as u16
            } else {
                LISTEN_PORT
            }
        },
        _ => LISTEN_PORT,
    }
}

/// Parse the optional `raw_dest` IPv4 address from the program's settings
/// table. Falls back to the compiled-in default when the setting is missing,
/// not a string, or not a valid IPv4 address.
pub fn parse_raw_dest(config: &EbpfProgramConfig) -> (dest: [u8; 4])
    ensures
        dest@ == raw_dest_choice(config_setting(*config, seq!['r', 'a', 'w', '_', 'd', 'e', 's', 't'])),
{
    let setting = program_setting(config, "raw_dest");
    proof {
        reveal_strlit("raw_dest");
        assert("raw_dest"@ =~= seq!['r', 'a', 'w', '_', 'd', 'e', 's', 't']);
    }
    raw_dest_from_setting(setting)
}

/// Parse the optional `listen_port` UDP port from the program's settings
/// table. Falls back to the compiled-in default when the setting is missing,
/// not an integer, or out of range.
pub fn parse_listen_port(config: &EbpfProgramConfig) -> (port: u16)
    ensures
        port == listen_port_choice(
            config_setting(*config, seq!['l', 'i', 's', 't', 'e', 'n', '_', 'p', 'o', 'r', 't']),
        ),
{
    let setting = program_setting(config, "listen_port");
    proof {
        reveal_strlit("listen_port");
        assert("listen_port"@ =~= seq!['l', 'i', 's', 't', 'e', 'n', '_', 'p', 'o', 'r', 't']);
    }
    listen_port_from_setting(setting)
}


/// While the accumulators only grow, the per-tick deltas of two consecutive
/// ticks add up to the growth over both; a reading below the last one
/// (after a reload) counts as no growth.
pub proof fn lemma_deltas_telescope(first: u64, second: u64, third: u64)
    ensures
        first <= second <= third ==> accumulator_delta(second, first) + accumulator_delta(
            third,
            second,
        ) == accumulator_delta(third, first),
        third < second ==> accumulator_delta(third, second) == 0,
{
}

} // verus!
