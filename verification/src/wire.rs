//! The canonical wire text for a snapshot: a self-describing, field-tagged
//! object holding the timestamp and the ordered device list. Numeric pose
//! components appear as their IEEE 754 bit patterns, written in decimal,
//! which keeps the encoding exact: decoding reproduces every component
//! bit for bit.

use vstd::prelude::*;
use crate::f32_bits::f32_is_finite;
use crate::f32_bits::is_finite_bits;
use crate::tracking_messages::VrDevice;
use crate::tracking_messages::VrDeviceClass;

verus! {

/// The decimal digit characters of `n`, most significant first, with no
/// leading zeros (a single `'0'` for zero).
pub open spec fn spec_dec_digits(n: nat) -> Seq<char>
    decreases n,
{
    if n < 10 {
        seq![spec_digit_char(n)]
    } else {
        spec_dec_digits(n / 10).push(spec_digit_char(n % 10))
    }
}

pub open spec fn spec_digit_char(d: nat) -> char
    recommends
        d < 10,
{
    if d == 0 { '0' }
    else if d == 1 { '1' }
    else if d == 2 { '2' }
    else if d == 3 { '3' }
    else if d == 4 { '4' }
    else if d == 5 { '5' }
    else if d == 6 { '6' }
    else if d == 7 { '7' }
    else if d == 8 { '8' }
    else { '9' }
}

/// Appends the decimal digits of `n` to `out`.
fn push_dec(out: &mut String, n: u128)
    ensures
        final(out)@ == old(out)@ + spec_dec_digits(n as nat),
    decreases n,
{
    if n >= 10 {
        push_dec(out, n / 10);
    }
    let d: u128 = n % 10;
    let ghost before = out@;
    if d == 0 { out.append("0"); } else if d == 1 { out.append("1"); }
    else if d == 2 { out.append("2"); } else if d == 3 { out.append("3"); }
    else if d == 4 { out.append("4"); } else if d == 5 { out.append("5"); }
    else if d == 6 { out.append("6"); } else if d == 7 { out.append("7"); }
    else if d == 8 { out.append("8"); } else { out.append("9"); }
    proof {
        reveal_strlit("0");
        reveal_strlit("1");
        reveal_strlit("2");
        reveal_strlit("3");
        reveal_strlit("4");
        reveal_strlit("5");
        reveal_strlit("6");
        reveal_strlit("7");
        reveal_strlit("8");
        reveal_strlit("9");
        assert(out@ =~= before + seq![spec_digit_char((n % 10) as nat)]);
        if n >= 10 {
            assert(out@ =~= old(out)@ + spec_dec_digits((n / 10) as nat).push(
                spec_digit_char((n % 10) as nat),
            ));
        } else {
            assert(out@ =~= old(out)@ + seq![spec_digit_char(n as nat)]);
        }
    }
}

/// The numeric value a decimal digit character stands for.
pub open spec fn spec_digit_val(c: char) -> nat {
    if c == '0' { 0 }
    else if c == '1' { 1 }
    else if c == '2' { 2 }
    else if c == '3' { 3 }
    else if c == '4' { 4 }
    else if c == '5' { 5 }
    else if c == '6' { 6 }
    else if c == '7' { 7 }
    else if c == '8' { 8 }
    else { 9 }
}

/// The number a sequence of decimal digit characters denotes.
pub open spec fn spec_dec_value(s: Seq<char>) -> nat
    decreases s.len(),
{
    if s.len() == 0 {
        0
    } else {
        spec_dec_value(s.drop_last()) * 10 + spec_digit_val(s.last())
    }
}

/// Law: the decimal rendering of a number decodes back to the number.
/// Every numeric field of the wire text (the timestamp, each slot, each
/// pose bit pattern) is written this way, so decoding reproduces each of
/// them exactly.
pub proof fn lemma_dec_digits_round_trip(n: nat)
    ensures
        spec_dec_value(spec_dec_digits(n)) == n,
    decreases n,
{
    if n < 10 {
        let s = spec_dec_digits(n);
        assert(s == seq![spec_digit_char(n)]);
        assert(s.len() == 1);
        assert(s.last() == spec_digit_char(n));
        assert(s.drop_last().len() == 0);
        assert(spec_dec_value(s.drop_last()) == 0);
        assert(spec_dec_value(s) == spec_digit_val(spec_digit_char(n)));
        assert(spec_digit_val(spec_digit_char(n)) == n);
    } else {
        lemma_dec_digits_round_trip(n / 10);
        let s = spec_dec_digits(n / 10);
        assert(spec_dec_digits(n) == s.push(spec_digit_char(n % 10)));
        assert(s.push(spec_digit_char(n % 10)).drop_last() =~= s);
        assert(spec_dec_value(spec_dec_digits(n)) == spec_dec_value(s) * 10 + spec_digit_val(
            spec_digit_char(n % 10),
        ));
        assert(spec_dec_value(spec_dec_digits(n)) == (n / 10) * 10 + n % 10);
    }
}

/// Law: distinct categories get distinct wire tags, so the category is
/// decodable from the text.
pub proof fn lemma_class_text_injective(a: VrDeviceClass, b: VrDeviceClass)
    requires
        a != b,
    ensures
        spec_class_text(a) != spec_class_text(b),
{
    reveal_strlit("Controller");
    reveal_strlit("LeftController");
    reveal_strlit("RightController");
    reveal_strlit("Tracker");
    reveal_strlit("HMD");
    reveal_strlit("Sensor");
    reveal_strlit("Other");
    assert(spec_class_text(a).len() != spec_class_text(b).len());
}

pub open spec fn spec_bool_text(b: bool) -> Seq<char> {
    if b {
        "true"@
    } else {
        "false"@
    }
}

fn push_bool(out: &mut String, b: bool)
    ensures
        final(out)@ == old(out)@ + spec_bool_text(b),
{
    if b {
        out.append("true");
    } else {
        out.append("false");
    }
}

/// The category's tag on the wire: the category name itself.
pub open spec fn spec_class_text(c: VrDeviceClass) -> Seq<char> {
    match c {
        VrDeviceClass::Controller => "Controller"@,
        VrDeviceClass::LeftController => "LeftController"@,
        VrDeviceClass::RightController => "RightController"@,
        VrDeviceClass::Tracker => "Tracker"@,
        VrDeviceClass::HMD => "HMD"@,
        VrDeviceClass::Sensor => "Sensor"@,
        VrDeviceClass::Other => "Other"@,
    }
}

fn push_class(out: &mut String, c: VrDeviceClass)
    ensures
        final(out)@ == old(out)@ + spec_class_text(c),
{
    match c {
        VrDeviceClass::Controller => out.append("Controller"),
        VrDeviceClass::LeftController => out.append("LeftController"),
        VrDeviceClass::RightController => out.append("RightController"),
        VrDeviceClass::Tracker => out.append("Tracker"),
        VrDeviceClass::HMD => out.append("HMD"),
        VrDeviceClass::Sensor => out.append("Sensor"),
        VrDeviceClass::Other => out.append("Other"),
    }
}

/// Whether every pose component of the device is a finite value: the
/// serializer refuses records that carry a NaN or an infinity.
pub open spec fn spec_device_finite(d: VrDevice) -> bool {
    &&& f32_is_finite(d.position.x)
    &&& f32_is_finite(d.position.y)
    &&& f32_is_finite(d.position.z)
    &&& f32_is_finite(d.rotation.w)
    &&& f32_is_finite(d.rotation.x)
    &&& f32_is_finite(d.rotation.y)
    &&& f32_is_finite(d.rotation.z)
}

pub fn device_finite(d: &VrDevice) -> (r: bool)
    ensures
        r == spec_device_finite(*d),
{
    is_finite_bits(d.position.x) && is_finite_bits(d.position.y) && is_finite_bits(d.position.z)
        && is_finite_bits(d.rotation.w) && is_finite_bits(d.rotation.x) && is_finite_bits(
        d.rotation.y,
    ) && is_finite_bits(d.rotation.z)
}

pub open spec fn spec_all_finite(s: Seq<VrDevice>) -> bool {
    forall|i: int| 0 <= i < s.len() ==> spec_device_finite(#[trigger] s[i])
}

/// One device as a wire object: its slot, the two lifecycle flags, the
/// pose components (position x, y, z then rotation w, x, y, z, each a
/// bit pattern in decimal) and the category tag.
pub open spec fn spec_device_json(d: VrDevice) -> Seq<char> {
    "{\"id\":"@ + spec_dec_digits(d.id as nat) + ",\"tracked\":"@ + spec_bool_text(d.is_tracked)
        + ",\"seen\":"@ + spec_bool_text(d.seen) + ",\"position\":["@ + spec_dec_digits(
        d.position.x as nat,
    ) + ","@ + spec_dec_digits(d.position.y as nat) + ","@ + spec_dec_digits(d.position.z as nat)
        + "],\"rotation\":["@ + spec_dec_digits(d.rotation.w as nat) + ","@ + spec_dec_digits(
        d.rotation.x as nat,
    ) + ","@ + spec_dec_digits(d.rotation.y as nat) + ","@ + spec_dec_digits(d.rotation.z as nat)
        + "],\"class\":\""@ + spec_class_text(d.class) + "\"}"@
}

fn device_json(d: &VrDevice) -> (r: String)
    ensures
        r@ == spec_device_json(*d),
{
    let mut out = String::from_str("{\"id\":");
    push_dec(&mut out, d.id as u128);
    out.append(",\"tracked\":");
    push_bool(&mut out, d.is_tracked);
    out.append(",\"seen\":");
    push_bool(&mut out, d.seen);
    out.append(",\"position\":[");
    push_dec(&mut out, d.position.x as u128);
    out.append(",");
    push_dec(&mut out, d.position.y as u128);
    out.append(",");
    push_dec(&mut out, d.position.z as u128);
    out.append("],\"rotation\":[");
    push_dec(&mut out, d.rotation.w as u128);
    out.append(",");
    push_dec(&mut out, d.rotation.x as u128);
    out.append(",");
    push_dec(&mut out, d.rotation.y as u128);
    out.append(",");
    push_dec(&mut out, d.rotation.z as u128);
    out.append("],\"class\":\"");
    push_class(&mut out, d.class);
    out.append("\"}");
    proof {
        assert(out@ =~= spec_device_json(*d));
    }
    out
}

/// The device list on the wire: the objects in order, comma-separated.
pub open spec fn spec_trackers_json(s: Seq<VrDevice>) -> Seq<char>
    decreases s.len(),
{
    if s.len() == 0 {
        Seq::<char>::empty()
    } else if s.len() == 1 {
        spec_device_json(s[0])
    } else {
        spec_trackers_json(s.drop_last()) + ","@ + spec_device_json(s.last())
    }
}

/// The whole snapshot on the wire: the timestamp and the device list,
/// field-tagged.
pub open spec fn spec_snapshot_json(ts: nat, devices: Seq<VrDevice>) -> Seq<char> {
    "{\"ts\":"@ + spec_dec_digits(ts) + ",\"trackers\":["@ + spec_trackers_json(devices) + "]}"@
}

/// Renders the snapshot. Succeeds exactly when every device's pose
/// components are finite; a record carrying a NaN or an infinity is a
/// data error and the whole snapshot is refused.
pub fn serialize(ts: u128, devices: &Vec<VrDevice>) -> (r: Option<String>)
    ensures
        r is Some <==> spec_all_finite(devices@),
        r matches Some(text) ==> text@ == spec_snapshot_json(ts as nat, devices@),
{
    let n = devices.len();
    for i in 0..n
        invariant
            n == devices@.len(),
            forall|j: int| 0 <= j < i ==> spec_device_finite(#[trigger] devices@[j]),
    {
        if !device_finite(&devices[i]) {
            return None;
        }
    }
    let mut out = String::from_str("{\"ts\":");
    push_dec(&mut out, ts);
    out.append(",\"trackers\":[");
    let ghost head = out@;
    proof {
        assert(head + spec_trackers_json(devices@.take(0)) =~= head);
    }
    for i in 0..n
        invariant
            n == devices@.len(),
            out@ == head + spec_trackers_json(devices@.take(i as int)),
    {
        if i > 0 {
            out.append(",");
        }
        let dj = device_json(&devices[i]);
        out.append(dj.as_str());
        proof {
            assert(devices@.take(i + 1).drop_last() =~= devices@.take(i as int));
            assert(devices@.take(i + 1).last() == devices@[i as int]);
            if i == 0 {
                assert(out@ =~= head + spec_trackers_json(devices@.take(1)));
            } else {
                assert(out@ =~= head + spec_trackers_json(devices@.take(i + 1)));
            }
        }
    }
    out.append("]}");
    proof {
        assert(devices@.take(n as int) =~= devices@);
        assert(out@ =~= spec_snapshot_json(ts as nat, devices@));
    }
    Some(out)
}

} // verus!
