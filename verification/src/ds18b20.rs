//! The one-wire temperature sensors: their settings, and the hex
//! serial numbers their device paths and topics are derived from.
use vstd::prelude::*;

verus! {

use core::time::Duration;
use vstd::string::StringExecFns;
use crate::hass::models::device_class::DeviceClass;
use crate::hass::models::sensor::Sensor;
use crate::hass::models::state_class::StateClass;
use crate::hass::models::unit::UnitOfMeasurement;

/// A one-wire temperature probe.
pub struct DS18B20 {}

/// One configured probe: its display name and its six-byte serial
/// number.
#[derive(Clone, Debug)]
pub struct SensorConfig {
    pub name: String,
    pub serial: [u8; 6],
}

/// How often to read the probes, and which bus master to trigger the
/// bulk read on.
#[derive(Clone, Debug)]
pub struct W1Config {
    pub interval: Duration,
    pub master: String,
}

/// The bus master used when the settings name none.
pub fn default_w1_master() -> (r: String)
    ensures
        r@ == "w1_bus_master1"@,
{
    "w1_bus_master1".to_owned()
}

/// The lower-case hex digit for a value below sixteen.
pub open spec fn spec_hex_digit(n: u8) -> char {
    if n == 0 {
        '0'
    } else if n == 1 {
        '1'
    } else if n == 2 {
        '2'
    } else if n == 3 {
        '3'
    } else if n == 4 {
        '4'
    } else if n == 5 {
        '5'
    } else if n == 6 {
        '6'
    } else if n == 7 {
        '7'
    } else if n == 8 {
        '8'
    } else if n == 9 {
        '9'
    } else if n == 10 {
        'a'
    } else if n == 11 {
        'b'
    } else if n == 12 {
        'c'
    } else if n == 13 {
        'd'
    } else if n == 14 {
        'e'
    } else {
        'f'
    }
}

/// A byte as two lower-case hex digits, high digit first.
pub open spec fn spec_byte_hex(b: u8) -> Seq<char> {
    seq![spec_hex_digit(b / 16), spec_hex_digit(b % 16)]
}

/// A byte string as lower-case hex digits, as serial numbers appear in
/// device paths and topics.
pub open spec fn spec_hex(s: Seq<u8>) -> Seq<char>
    decreases s.len(),
{
    if s.len() == 0 {
        Seq::empty()
    } else {
        spec_byte_hex(s[0]) + spec_hex(s.skip(1))
    }
}

proof fn lemma_spec_hex_push(s: Seq<u8>, b: u8)
    ensures
        spec_hex(s.push(b)) =~~= spec_hex(s) + spec_byte_hex(b),
    decreases s.len(),
{
    if s.len() == 0 {
        assert(s.push(b).skip(1) =~= Seq::<u8>::empty());
        assert(s.push(b)[0] == b);
        assert(spec_hex(Seq::<u8>::empty()) =~= Seq::<char>::empty());
        assert(spec_hex(s.push(b)) =~~= spec_byte_hex(b) + spec_hex(s.push(b).skip(1)));
        assert(spec_hex(s.push(b)) =~~= spec_byte_hex(b));
    } else {
        assert(s.push(b).skip(1) =~= s.skip(1).push(b));
        lemma_spec_hex_push(s.skip(1), b);
    }
}

fn hex_digit_str(n: u8) -> (r: &'static str)
    requires
        n < 16,
    ensures
        r@ =~= seq![spec_hex_digit(n)],
{
    proof {
        reveal_strlit("0");
        reveal_strlit("1");
        reveal_strlit("2");
        reveal_strlit("3");
        reveal_strlit("4");
        reveal_strlit("5");
        reveal_strlit("6");
        reveal_strlit("7");
        reveal_strlit("8");
        reveal_strlit("9");
        reveal_strlit("a");
        reveal_strlit("b");
        reveal_strlit("c");
        reveal_strlit("d");
        reveal_strlit("e");
        reveal_strlit("f");
    }
    if n == 0 {
        "0"
    } else if n == 1 {
        "1"
    } else if n == 2 {
        "2"
    } else if n == 3 {
        "3"
    } else if n == 4 {
        "4"
    } else if n == 5 {
        "5"
    } else if n == 6 {
        "6"
    } else if n == 7 {
        "7"
    } else if n == 8 {
        "8"
    } else if n == 9 {
        "9"
    } else if n == 10 {
        "a"
    } else if n == 11 {
        "b"
    } else if n == 12 {
        "c"
    } else if n == 13 {
        "d"
    } else if n == 14 {
        "e"
    } else {
        "f"
    }
}

/// Are all characters decimal digits?
pub open spec fn spec_all_digits(s: Seq<char>) -> bool {
    forall|i: int| 0 <= i < s.len() ==> '0' <= #[trigger] s[i] <= '9'
}

/// The value of a run of decimal digits, most significant first.
pub open spec fn spec_digits_value(s: Seq<char>) -> int
    decreases s.len(),
{
    if s.len() == 0 {
        0
    } else {
        spec_digits_value(s.drop_last()) * 10 + (s.last() as int - '0' as int)
    }
}

/// The signed decimal integer a string denotes, if it is well-formed:
/// an optional sign followed by at least one digit.
pub open spec fn spec_decimal(s: Seq<char>) -> Option<int> {
    let body = if s.len() > 0 && (s[0] == '-' || s[0] == '+') {
        s.skip(1)
    } else {
        s
    };
    if body.len() == 0 || !spec_all_digits(body) {
        None
    } else if s.len() > 0 && s[0] == '-' {
        Some(-spec_digits_value(body))
    } else {
        Some(spec_digits_value(body))
    }
}

proof fn lemma_digits_value_nonneg(s: Seq<char>)
    requires
        spec_all_digits(s),
    ensures
        spec_digits_value(s) >= 0,
    decreases s.len(),
{
    if s.len() > 0 {
        assert(spec_all_digits(s.drop_last()));
        lemma_digits_value_nonneg(s.drop_last());
    }
}

/// A digit run is worth at least any of its prefixes.
proof fn lemma_digits_value_monotonic(s: Seq<char>, k: int)
    requires
        spec_all_digits(s),
        0 <= k <= s.len(),
    ensures
        spec_digits_value(s) >= spec_digits_value(s.take(k)),
    decreases s.len(),
{
    if k == s.len() {
        assert(s.take(k) =~= s);
    } else {
        let shorter = s.drop_last();
        assert(spec_all_digits(shorter));
        assert(s.take(k) =~= shorter.take(k));
        lemma_digits_value_monotonic(shorter, k);
        lemma_digits_value_nonneg(shorter);
    }
}

/// Parse the reading a probe's device file reports: thousandths of a
/// degree Celsius as a signed decimal. Succeeds exactly on an optional
/// sign followed by at least one digit, denoting a value that fits the
/// result type.
pub fn parse_millidegrees(s: &str) -> (r: Option<i32>)
    ensures
        r is Some <==> (spec_decimal(s@) matches Some(v) && i32::MIN <= v <= i32::MAX),
        r matches Some(x) ==> spec_decimal(s@) == Some(x as int),
{
    let n = s.unicode_len();
    let mut start: usize = 0;
    let mut neg = false;
    if n > 0 {
        let c = s.get_char(0);
        if c == '-' {
            neg = true;
            start = 1;
        } else if c == '+' {
            start = 1;
        }
    }
    let ghost body = s@.skip(start as int);
    proof {
        if start == 0 {
            assert(body =~= s@);
        }
    }
    if start == n {
        proof {
            assert(body.len() == 0);
        }
        return None;
    }
    let mut acc: i64 = 0;
    for j in start..n
        invariant
            n == s@.len(),
            start <= j <= n,
            body == s@.skip(start as int),
            start == 0 || start == 1,
            start == 1 ==> s@.len() > 0 && (s@[0] == '-' || s@[0] == '+'),
            start == 0 ==> s@.len() == 0 || (s@[0] != '-' && s@[0] != '+'),
            start == 0 ==> body == s@,
            start == 1 ==> body == s@.skip(1),
            neg <==> (s@.len() > 0 && s@[0] == '-'),
            spec_all_digits(s@.subrange(start as int, j as int)),
            acc == spec_digits_value(s@.subrange(start as int, j as int)),
            0 <= acc <= 0x8000_0000,
    {
        let c = s.get_char(j);
        let code = c as u32;
        if code < 48 || code > 57 {
            proof {
                assert(body[j - start] == s@[j as int]);
                assert(!spec_all_digits(body));
            }
            return None;
        }
        let d = (code - 48) as i64;
        acc = acc * 10 + d;
        proof {
            assert(s@.subrange(start as int, j + 1).drop_last() =~= s@.subrange(
                start as int,
                j as int,
            ));
            assert(s@.subrange(start as int, j + 1).last() == s@[j as int]);
        }
        if acc > 0x8000_0000 {
            proof {
                if spec_decimal(s@) is Some {
                    assert(spec_all_digits(body));
                    assert(body.take(j + 1 - start) =~= s@.subrange(start as int, j + 1));
                    lemma_digits_value_monotonic(body, j + 1 - start);
                }
            }
            return None;
        }
    }
    proof {
        assert(s@.subrange(start as int, n as int) =~= body);
    }
    if neg {
        let v = -acc;
        proof {
            assert(spec_decimal(s@) == Some(-spec_digits_value(body)));
        }
        Some(v as i32)
    } else {
        if acc > 0x7FFF_FFFF {
            return None;
        }
        Some(acc as i32)
    }
}

/// The announced sensor entity for one probe: named after the probe,
/// identified by its hex serial, publishing degrees Celsius on the
/// topic prefix followed by the serial.
pub fn probe_sensor(cfg: &SensorConfig, topic_prefix: &str) -> (s: Sensor)
    ensures
        s.name@ == cfg.name@,
        s.object_id@ == "nrg_ds18b20_"@ + spec_hex(cfg.serial@),
        s.state_topic@ == topic_prefix@ + spec_hex(cfg.serial@),
        s.unique_id matches Some(u) && u@ == "nrg_ds18b20_"@ + spec_hex(cfg.serial@),
        s.device_class == Some(DeviceClass::Temperature),
        s.state_class == Some(StateClass::Measurement),
        s.unit_of_measurement == Some(UnitOfMeasurement::TempCelsius),
{
    let serial = serial_hex(&cfg.serial);
    let mut object_id = "nrg_ds18b20_".to_owned();
    object_id.append(serial.as_str());
    let mut state_topic = topic_prefix.to_owned();
    state_topic.append(serial.as_str());
    let mut s = Sensor::new(cfg.name.clone(), object_id.clone(), state_topic);
    s.device_class = Some(DeviceClass::Temperature);
    s.state_class = Some(StateClass::Measurement);
    s.unique_id = Some(object_id);
    s.unit_of_measurement = Some(UnitOfMeasurement::TempCelsius);
    s
}

/// A serial number as lower-case hex, the form it takes in device
/// paths, object ids and topics.
pub fn serial_hex(serial: &[u8; 6]) -> (r: String)
    ensures
        r@ == spec_hex(serial@),
{
    let mut r = String::new();
    proof {
        assert(serial@.take(0) =~= Seq::<u8>::empty());
        assert(r@ =~= spec_hex(serial@.take(0)));
    }
    for i in 0..6
        invariant
            r@ == spec_hex(serial@.take(i as int)),
    {
        let b = serial[i];
        r.append(hex_digit_str(b / 16));
        r.append(hex_digit_str(b % 16));
        proof {
            lemma_spec_hex_push(serial@.take(i as int), b);
            assert(serial@.take(i + 1) =~= serial@.take(i as int).push(b));
            assert(r@ =~= spec_hex(serial@.take(i + 1)));
        }
    }
    proof {
        assert(serial@.take(6) =~= serial@);
    }
    r
}

} // verus!
