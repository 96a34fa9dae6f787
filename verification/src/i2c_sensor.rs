//! The sensor on the I2C bus.

use vstd::prelude::*;

verus! {

/// Register from which the output values are read.
pub const OUTPUT_VALUES_ADDR: u8 = 0x00;

/// Number of bytes in one block of output values.
pub const OUTPUT_VALUES_LEN: usize = 16;

pub struct I2CSensor {
    pub addr: u8,
}

/// One block of output values. Each field is the bit pattern of a
/// single-precision number.
#[derive(Clone, Copy, Debug, PartialEq, Eq)]
pub struct SensorResult {
    pub pressure: u32,
    pub temperature: u32,
    pub f_p: u32,
    pub f_t: u32,
}

/// The 32-bit word whose four bytes start at `at`, least significant first.
pub open spec fn word_at(bytes: Seq<u8>, at: int) -> int {
    bytes[at] + 0x100 * bytes[at + 1] + 0x1_0000 * bytes[at + 2] + 0x100_0000 * bytes[at + 3]
}

fn read_word(bytes: &[u8; 16], at: usize) -> (word: u32)
    requires
        at + 4 <= 16,
    ensures
        word == word_at(bytes@, at as int),
{
    bytes[at] as u32 + 0x100 * (bytes[at + 1] as u32) + 0x1_0000 * (bytes[at + 2] as u32)
        + 0x100_0000 * (bytes[at + 3] as u32)
}

impl I2CSensor {
    pub fn new(i2c_addr: u8) -> (sensor: Self)
        ensures
            sensor.addr == i2c_addr,
    {
        Self { addr: i2c_addr }
    }

    /// Splits a block of output values, as read from the bus, into its four
    /// words.
    pub fn read(&self, dest: &[u8; 16]) -> (res: SensorResult)
        ensures
            res.pressure == word_at(dest@, 0),
            res.temperature == word_at(dest@, 4),
            res.f_p == word_at(dest@, 8),
            res.f_t == word_at(dest@, 12),
    {
        SensorResult {
            pressure: read_word(dest, 0),
            temperature: read_word(dest, 4),
            f_p: read_word(dest, 8),
            f_t: read_word(dest, 12),
        }
    }

    pub fn address(&self) -> (addr: u8)
        ensures
            addr == self.addr,
    {
        self.addr
    }
}

} // verus!
