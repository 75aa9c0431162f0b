//! STM32F4-specific constants and pure helpers: the memory map accepted by
//! the debug console, and the SPI baud-rate prescaler encoding.

use vstd::prelude::*;

verus! {

/// Whether an address lies in one of the regions the debug console may
/// touch: the system control space, the peripheral windows, SRAM, CCM RAM,
/// and flash.
pub open spec fn valid_memory_address_spec(address: u32) -> bool {
    ||| 0xE000E008 <= address <= 0xE000EF44
    ||| 0x40000000 <= address <= 0xA0000FFF
    ||| 0x20000000 <= address <= 0x2001FFFF
    ||| 0x10000000 <= address <= 0x1000FFFF
    ||| 0x08000000 <= address <= 0x080E0000
}

pub fn valid_memory_address(address: u32) -> (r: bool)
    ensures
        r == valid_memory_address_spec(address),
{
    match address {
        0xE000_E008..=0xE000_EF44 => true,
        0x4000_0000..=0xA000_0FFF => true,
        0x2000_0000..=0x2001_FFFF => true,
        0x1000_0000..=0x1000_FFFF => true,
        0x0800_0000..=0x080E_0000 => true,
        _ => false,
    }
}

/// The SPI prescaler bits for a clock ratio: each step doubles the divisor,
/// from /2 (`0b000`) up to /256 (`0b111`).
pub open spec fn baudrate_bits(ratio: u32) -> u32 {
    if ratio <= 2 {
        0u32
    } else if ratio <= 5 {
        1u32
    } else if ratio <= 11 {
        2u32
    } else if ratio <= 23 {
        3u32
    } else if ratio <= 47 {
        4u32
    } else if ratio <= 95 {
        5u32
    } else if ratio <= 191 {
        6u32
    } else {
        7u32
    }
}

/// The SPI baud-rate control field, derived from the peripheral clock and
/// the wanted transfer frequency.
pub struct BaudrateControl(pub u32);

impl BaudrateControl {
    /// The prescaler for running a bus clocked at `pclk` at `freq`; the
    /// frequency must not exceed the peripheral clock.
    pub fn new(pclk: u32, freq: u32) -> (r: Self)
        requires
            freq > 0,
            pclk >= freq,
        ensures
            r.0 == baudrate_bits(pclk / freq),
    {
        let ratio = pclk / freq;
        Self(
            match ratio {
                0..=2 => 0b000,
                3..=5 => 0b001,
                6..=11 => 0b010,
                12..=23 => 0b011,
                24..=47 => 0b100,
                48..=95 => 0b101,
                96..=191 => 0b110,
                _ => 0b111,
            },
        )
    }
}

} // verus!
