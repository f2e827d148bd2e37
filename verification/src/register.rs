//! Register map of the ADXL355.
//!
//! See the ADXL354/ADXL355 data sheet, table "Register Map".

use vstd::prelude::*;

verus! {

/// Every addressable register of the device.
#[allow(non_camel_case_types)]
#[derive(Clone, Copy, Debug, PartialEq, Eq)]
pub enum Register {
    DEVID_AD,
    DEVID_MST,
    /// Device ID (read only); holds the fixed code 0xED (355 octal).
    DEVID,
    REVID,
    STATUS,
    FIFO_ENTRIES,
    TEMP2,
    TEMP1,
    XDATA3,
    XDATA2,
    XDATA1,
    YDATA3,
    YDATA2,
    YDATA1,
    ZDATA3,
    ZDATA2,
    ZDATA1,
    FIFO_DATA,
    OFFSET_X_H,
    OFFSET_X_L,
    OFFSET_Y_H,
    OFFSET_Y_L,
    OFFSET_Z_H,
    OFFSET_Z_L,
    ACT_EN,
    ACT_THRESH_H,
    ACT_THRESH_L,
    ACT_COUNT,
    FILTER,
    FIFO_SAMPLES,
    INT_MAP,
    SYNC,
    RANGE,
    POWER_CTL,
    SELF_TEST,
    RESET,
}

impl Register {
    /// The address of the register on the device.
    pub open spec fn spec_addr(self) -> u8 {
        match self {
            Register::DEVID_AD => 0x00,
            Register::DEVID_MST => 0x01,
            Register::DEVID => 0x02,
            Register::REVID => 0x03,
            Register::STATUS => 0x04,
            Register::FIFO_ENTRIES => 0x05,
            Register::TEMP2 => 0x06,
            Register::TEMP1 => 0x07,
            Register::XDATA3 => 0x08,
            Register::XDATA2 => 0x09,
            Register::XDATA1 => 0x0A,
            Register::YDATA3 => 0x0B,
            Register::YDATA2 => 0x0C,
            Register::YDATA1 => 0x0D,
            Register::ZDATA3 => 0x0E,
            Register::ZDATA2 => 0x0F,
            Register::ZDATA1 => 0x10,
            Register::FIFO_DATA => 0x11,
            Register::OFFSET_X_H => 0x1E,
            Register::OFFSET_X_L => 0x1F,
            Register::OFFSET_Y_H => 0x20,
            Register::OFFSET_Y_L => 0x21,
            Register::OFFSET_Z_H => 0x22,
            Register::OFFSET_Z_L => 0x23,
            Register::ACT_EN => 0x24,
            Register::ACT_THRESH_H => 0x25,
            Register::ACT_THRESH_L => 0x26,
            Register::ACT_COUNT => 0x27,
            Register::FILTER => 0x28,
            Register::FIFO_SAMPLES => 0x29,
            Register::INT_MAP => 0x2A,
            Register::SYNC => 0x2B,
            Register::RANGE => 0x2C,
            Register::POWER_CTL => 0x2D,
            Register::SELF_TEST => 0x2E,
            Register::RESET => 0x2F,
        }
    }

    /// Get register address
    #[verifier::when_used_as_spec(spec_addr)]
    pub fn addr(self) -> (a: u8)
        ensures
            a == self.spec_addr(),
    {
        match self {
            Register::DEVID_AD => 0x00,
            Register::DEVID_MST => 0x01,
            Register::DEVID => 0x02,
            Register::REVID => 0x03,
            Register::STATUS => 0x04,
            Register::FIFO_ENTRIES => 0x05,
            Register::TEMP2 => 0x06,
            Register::TEMP1 => 0x07,
            Register::XDATA3 => 0x08,
            Register::XDATA2 => 0x09,
            Register::XDATA1 => 0x0A,
            Register::YDATA3 => 0x0B,
            Register::YDATA2 => 0x0C,
            Register::YDATA1 => 0x0D,
            Register::ZDATA3 => 0x0E,
            Register::ZDATA2 => 0x0F,
            Register::ZDATA1 => 0x10,
            Register::FIFO_DATA => 0x11,
            Register::OFFSET_X_H => 0x1E,
            Register::OFFSET_X_L => 0x1F,
            Register::OFFSET_Y_H => 0x20,
            Register::OFFSET_Y_L => 0x21,
            Register::OFFSET_Z_H => 0x22,
            Register::OFFSET_Z_L => 0x23,
            Register::ACT_EN => 0x24,
            Register::ACT_THRESH_H => 0x25,
            Register::ACT_THRESH_L => 0x26,
            Register::ACT_COUNT => 0x27,
            Register::FILTER => 0x28,
            Register::FIFO_SAMPLES => 0x29,
            Register::INT_MAP => 0x2A,
            Register::SYNC => 0x2B,
            Register::RANGE => 0x2C,
            Register::POWER_CTL => 0x2D,
            Register::SELF_TEST => 0x2E,
            Register::RESET => 0x2F,
        }
    }

    /// Every register address fits in seven bits, so that the address byte of
    /// a frame has room for the direction bit.
    pub proof fn lemma_addr_is_seven_bit(self)
        ensures
            self.spec_addr() <= 0x2F,
            self.spec_addr() < 0x80,
    {
    }

    /// No two registers share an address.
    pub proof fn lemma_addr_is_injective(self, other: Register)
        requires
            self.spec_addr() == other.spec_addr(),
        ensures
            self == other,
    {
    }
}

} // verus!
