//! What the data registers hold.
//!
//! The device keeps a temperature count of twelve bits in two registers and a
//! sample of twenty bits for each axis in three. This file says which number
//! a group of register bytes stands for.

use vstd::prelude::*;

verus! {

/// The largest sample of an axis: 2^19 - 1, as a sample has a sign and
/// nineteen bits beside it.
pub const ACCEL_MAX_I20: u32 = 524_287;

/// The temperature count held by the two temperature registers: the low
/// nibble of the first register above the eight bits of the second.
pub open spec fn temperature_of(temp2: u8, temp1: u8) -> int {
    (temp2 % 16) * 256 + temp1
}

/// The sample held by the three data registers of one axis. The registers
/// hold a 20-bit number in two's complement, highest bits first; the low
/// nibble of the third register is no part of it.
pub open spec fn axis_of(data3: u8, data2: u8, data1: u8) -> int {
    let word = data3 * 4096 + data2 * 16 + data1 / 16;
    if word >= 524_288 {
        word - 1_048_576
    } else {
        word
    }
}

/// The sample of one axis from its three data registers.
///
/// The three bytes are packed into the top twenty bits of a 32-bit word, and
/// an arithmetic shift brings them down again with the sign extended.
pub fn axis(data3: u8, data2: u8, data1: u8) -> (sample: i32)
    ensures
        sample == axis_of(data3, data2, data1),
        -(ACCEL_MAX_I20 as int) - 1 <= sample <= ACCEL_MAX_I20 as int,
{
    assert((((data3 as i32) << 24) | ((data2 as i32) << 16) | (((data1 & 0xF0) as i32) << 8)) >> 12
        == (if data3 * 4096 + data2 * 16 + data1 / 16 >= 524_288 {
        data3 * 4096 + data2 * 16 + data1 / 16 - 1_048_576
    } else {
        data3 * 4096 + data2 * 16 + data1 / 16
    })) by (bit_vector);
    (((data3 as i32) << 24) | ((data2 as i32) << 16) | (((data1 & 0xF0) as i32) << 8)) >> 12
}

} // verus!
