//! Register field sets that the FIFO carries: the raw little-endian bytes of a
//! sensor sample, with accessors for the values they encode.

use vstd::prelude::*;

verus! {

/// The signed 16-bit value whose two's-complement little-endian encoding is
/// the bytes `lo`, `hi`.
pub open spec fn le_i16(lo: u8, hi: u8) -> int {
    let u = hi as int * 256 + lo as int;
    if u < 0x8000 {
        u
    } else {
        u - 0x10000
    }
}

/// The unsigned value whose little-endian encoding is the three bytes.
pub open spec fn le_u24(b0: u8, b1: u8, b2: u8) -> int {
    b2 as int * 0x10000 + b1 as int * 0x100 + b0 as int
}

fn i16_from_le(lo: u8, hi: u8) -> (v: i16)
    ensures
        v as int == le_i16(lo, hi),
{
    let u: u16 = (hi as u16) << 8u16 | (lo as u16);
    assert(u == hi as int * 256 + lo as int) by (bit_vector)
        requires
            u == (hi as u16) << 8u16 | (lo as u16),
    ;
    let v: i16 = u as i16;
    assert(v as int == (if u < 0x8000 { u as int } else { u as int - 0x10000 })) by (bit_vector)
        requires
            v == u as i16,
    ;
    v
}

/// One accelerometer sample: x, y and z, each a little-endian `i16`.
#[derive(Debug, Clone, Copy)]
pub struct Acc {
    pub bits: [u8; 6],
}

/// One gyroscope sample: x, y and z, each a little-endian `i16`.
#[derive(Debug, Clone, Copy)]
pub struct Gyr {
    pub bits: [u8; 6],
}

/// The 24-bit sensor time counter, little-endian.
#[derive(Debug, Clone, Copy)]
pub struct SensorTime {
    pub bits: [u8; 3],
}

impl View for Acc {
    type V = Seq<u8>;

    open spec fn view(&self) -> Seq<u8> {
        self.bits@
    }
}

impl View for Gyr {
    type V = Seq<u8>;

    open spec fn view(&self) -> Seq<u8> {
        self.bits@
    }
}

impl View for SensorTime {
    type V = Seq<u8>;

    open spec fn view(&self) -> Seq<u8> {
        self.bits@
    }
}

impl From<[u8; 6]> for Acc {
    fn from(bits: [u8; 6]) -> (s: Acc) {
        Acc { bits }
    }
}

impl vstd::std_specs::convert::FromSpecImpl<[u8; 6]> for Acc {
    open spec fn obeys_from_spec() -> bool {
        true
    }

    open spec fn from_spec(bits: [u8; 6]) -> Acc {
        Acc { bits }
    }
}

impl From<[u8; 6]> for Gyr {
    fn from(bits: [u8; 6]) -> (s: Gyr) {
        Gyr { bits }
    }
}

impl vstd::std_specs::convert::FromSpecImpl<[u8; 6]> for Gyr {
    open spec fn obeys_from_spec() -> bool {
        true
    }

    open spec fn from_spec(bits: [u8; 6]) -> Gyr {
        Gyr { bits }
    }
}

impl From<[u8; 3]> for SensorTime {
    fn from(bits: [u8; 3]) -> (s: SensorTime) {
        SensorTime { bits }
    }
}

impl vstd::std_specs::convert::FromSpecImpl<[u8; 3]> for SensorTime {
    open spec fn obeys_from_spec() -> bool {
        true
    }

    open spec fn from_spec(bits: [u8; 3]) -> SensorTime {
        SensorTime { bits }
    }
}

impl Acc {
    /// Acceleration along x.
    pub fn x(&self) -> (v: i16)
        ensures
            v as int == le_i16(self.bits@[0], self.bits@[1]),
    {
        i16_from_le(self.bits[0], self.bits[1])
    }

    /// Acceleration along y.
    pub fn y(&self) -> (v: i16)
        ensures
            v as int == le_i16(self.bits@[2], self.bits@[3]),
    {
        i16_from_le(self.bits[2], self.bits[3])
    }

    /// Acceleration along z.
    pub fn z(&self) -> (v: i16)
        ensures
            v as int == le_i16(self.bits@[4], self.bits@[5]),
    {
        i16_from_le(self.bits[4], self.bits[5])
    }
}

impl Gyr {
    /// Angular rate about x.
    pub fn x(&self) -> (v: i16)
        ensures
            v as int == le_i16(self.bits@[0], self.bits@[1]),
    {
        i16_from_le(self.bits[0], self.bits[1])
    }

    /// Angular rate about y.
    pub fn y(&self) -> (v: i16)
        ensures
            v as int == le_i16(self.bits@[2], self.bits@[3]),
    {
        i16_from_le(self.bits[2], self.bits[3])
    }

    /// Angular rate about z.
    pub fn z(&self) -> (v: i16)
        ensures
            v as int == le_i16(self.bits@[4], self.bits@[5]),
    {
        i16_from_le(self.bits[4], self.bits[5])
    }
}

impl SensorTime {
    /// The counter value.
    pub fn sensor_time(&self) -> (v: u32)
        ensures
            v as int == le_u24(self.bits@[0], self.bits@[1], self.bits@[2]),
    {
        let b0 = self.bits[0] as u32;
        let b1 = self.bits[1] as u32;
        let b2 = self.bits[2] as u32;
        b2 * 0x10000 + b1 * 0x100 + b0
    }
}

} // verus!
