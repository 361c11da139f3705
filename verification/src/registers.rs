//! Addresses of the transceiver's registers.

use vstd::prelude::*;

verus! {

/// Window onto the FIFO data buffer.
pub const REG_FIFO: u8 = 0x00;

/// Mode control: operating mode in bits 2..=0, modulation scheme in bit 7.
pub const REG_OP_MODE: u8 = 0x01;

/// Most significant byte of the synthesizer word.
pub const REG_FR_MSB: u8 = 0x06;

/// Middle byte of the synthesizer word.
pub const REG_FR_MID: u8 = 0x07;

/// Least significant byte of the synthesizer word.
pub const REG_FR_LSB: u8 = 0x08;

/// Power amplifier: output power in bits 3..=0.
pub const REG_PA_CONFIG: u8 = 0x09;

/// Low-noise amplifier: gain in bits 7..=5.
pub const REG_LNA: u8 = 0x0c;

/// Address in the FIFO that the next access of `REG_FIFO` goes to.
pub const REG_FIFO_ADDR_PTR: u8 = 0x0d;

/// Address in the FIFO where data to transmit starts.
pub const REG_FIFO_TX_BASE_ADDR: u8 = 0x0e;

/// Address in the FIFO where the last packet received starts.
pub const REG_FIFO_RX_CURRENT_ADDR: u8 = 0x10;

/// Number of payload bytes of the last packet received.
pub const REG_RX_NB_BYTES: u8 = 0x13;

/// First modem configuration register: bandwidth in bits 7..=4.
pub const REG_MODEM_CONFIG_1: u8 = 0x1d;

/// Number of bytes that are read from the FIFO at a time.
pub const BUFFER_SIZE: usize = 256;

} // verus!
