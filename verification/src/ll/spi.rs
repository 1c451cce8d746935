//! Framing of register transfers on the SPI bus.
//!
//! A register write sends the address and then the data; a register read sends
//! the address with the read bit set and one dummy byte, which gives the chip
//! time to fetch the data, and then clocks the data in.

use vstd::prelude::*;

verus! {

/// The read flag of the address byte: its most significant bit.
pub const READ_FLAG: u8 = 0x80;

/// The bytes sent before the data of a register write: the address alone.
pub fn write_preamble(address: u8) -> (p: [u8; 1])
    ensures
        p@ == seq![address],
{
    let p = [address];
    assert(p@ =~= seq![address]);
    p
}

/// The bytes sent before the data of a register read: the address with the
/// read flag set, then one dummy byte of zero.
pub fn read_preamble(address: u8) -> (p: [u8; 2])
    ensures
        p@.len() == 2,
        p@[0] == address | READ_FLAG,
        p@[0] as int == (address as int % 128) + 128,
        p@[1] == 0,
{
    let first = address | READ_FLAG;
    assert(first as int == (address as int % 128) + 128) by (bit_vector)
        requires
            first == address | 0x80u8,
    ;
    [first, 0x00]
}

} // verus!
