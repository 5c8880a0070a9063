use vstd::prelude::*;
use vstd::arithmetic::div_mod::lemma_fundamental_div_mod_converse;

verus! {

/// A calendar value in the device's terms: six plain fields, checked no further.
#[derive(Clone, Copy, Debug, PartialEq, Eq, Structural)]
pub struct DeviceTime {
    pub year: u32,
    pub month: u32,
    pub day: u32,
    pub hour: u32,
    pub minute: u32,
    pub second: u32,
}

/// The six fields packed in a device timestamp, taken apart by successive division.
pub open spec fn unpack_time(t: u32) -> DeviceTime {
    let t0 = t as int;
    let t1 = t0 / 60;
    let t2 = t1 / 60;
    let t3 = t2 / 24;
    let t4 = t3 / 31;
    let t5 = t4 / 12;
    DeviceTime {
        second: (t0 % 60) as u32,
        minute: (t1 % 60) as u32,
        hour: (t2 % 24) as u32,
        day: (t3 % 31 + 1) as u32,
        month: (t4 % 12 + 1) as u32,
        year: (t5 + 2000) as u32,
    }
}

/// The integer that a calendar value packs into.
pub open spec fn pack_time(d: DeviceTime) -> int {
    ((((((d.year - 2000) * 12 + (d.month - 1)) * 31 + (d.day - 1)) * 24 + d.hour) * 60
        + d.minute) * 60 + d.second)
}

impl DeviceTime {
    /// Every field within its range, and the packed value within 32 bits.
    pub open spec fn representable(self) -> bool {
        &&& 2000 <= self.year
        &&& 1 <= self.month <= 12
        &&& 1 <= self.day <= 31
        &&& self.hour < 24
        &&& self.minute < 60
        &&& self.second < 60
        &&& pack_time(self) <= u32::MAX
    }
}

/// Unpacks a device timestamp.
pub fn decode_time(raw: u32) -> (r: DeviceTime)
    ensures
        r == unpack_time(raw),
{
    let mut t = raw;
    let second = t % 60;
    t = t / 60;
    let minute = t % 60;
    t = t / 60;
    let hour = t % 24;
    t = t / 24;
    let day = t % 31 + 1;
    t = t / 31;
    let month = t % 12 + 1;
    t = t / 12;
    let year = t + 2000;
    DeviceTime { year, month, day, hour, minute, second }
}

/// Packs a calendar value into a device timestamp.
pub fn encode_time(d: &DeviceTime) -> (r: u32)
    requires
        d.representable(),
    ensures
        r == pack_time(*d),
{
    let y = (d.year - 2000) as u64;
    assert(y * 12 <= 0x1_0000_0000 * 12) by (nonlinear_arith)
        requires y <= 0x1_0000_0000;
    let a = y * 12 + (d.month - 1) as u64;
    assert(a * 31 <= 0x1_0000_0000 * 12 * 31) by (nonlinear_arith)
        requires a <= 0x1_0000_0000 * 12;
    let b = a * 31 + (d.day - 1) as u64;
    assert(b * 24 <= 0x1_0000_0000 * 12 * 31 * 24) by (nonlinear_arith)
        requires b <= 0x1_0000_0000 * 12 * 31;
    let c = b * 24 + d.hour as u64;
    assert(c * 60 <= 0x1_0000_0000 * 12 * 31 * 24 * 60) by (nonlinear_arith)
        requires c <= 0x1_0000_0000 * 12 * 31 * 24;
    let e = c * 60 + d.minute as u64;
    assert(e * 60 <= 0x1_0000_0000 * 12 * 31 * 24 * 60 * 60) by (nonlinear_arith)
        requires e <= 0x1_0000_0000 * 12 * 31 * 24 * 60;
    let f = e * 60 + d.second as u64;
    f as u32
}

/// Unpacking a packed calendar value gives it back, for every representable value.
pub proof fn lemma_time_round_trip(d: DeviceTime)
    requires
        d.representable(),
    ensures
        unpack_time(pack_time(d) as u32) == d,
{
    let q5 = (d.year - 2000) as int;
    let q4 = q5 * 12 + (d.month - 1);
    let q3 = q4 * 31 + (d.day - 1);
    let q2 = q3 * 24 + d.hour;
    let q1 = q2 * 60 + d.minute;
    let q0 = q1 * 60 + d.second;
    assert(q0 == pack_time(d));
    assert(q5 >= 0 && q4 >= 0 && q3 >= 0 && q2 >= 0 && q1 >= 0);
    lemma_fundamental_div_mod_converse(q0, 60, q1, d.second as int);
    lemma_fundamental_div_mod_converse(q1, 60, q2, d.minute as int);
    lemma_fundamental_div_mod_converse(q2, 24, q3, d.hour as int);
    lemma_fundamental_div_mod_converse(q3, 31, q4, d.day - 1);
    lemma_fundamental_div_mod_converse(q4, 12, q5, d.month - 1);
}

/// Packing the unpacked fields of any device timestamp gives it back.
pub proof fn lemma_time_pack_unpack(t: u32)
    ensures
        unpack_time(t).representable(),
        pack_time(unpack_time(t)) == t,
{
    let t0 = t as int;
    let t1 = t0 / 60;
    let t2 = t1 / 60;
    let t3 = t2 / 24;
    let t4 = t3 / 31;
    let t5 = t4 / 12;
    assert(t0 == t1 * 60 + t0 % 60);
    assert(t1 == t2 * 60 + t1 % 60);
    assert(t2 == t3 * 24 + t2 % 24);
    assert(t3 == t4 * 31 + t3 % 31);
    assert(t4 == t5 * 12 + t4 % 12);
    assert(t5 <= 134) by {
        assert(t1 <= 71582788);
        assert(t2 <= 1193046);
        assert(t3 <= 49710);
        assert(t4 <= 1603);
    }
}

} // verus!
