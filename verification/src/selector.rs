//! Register selectors: the values of the selector register that name a redirection table half.
use vstd::prelude::*;

verus! {

/// Register id: the APIC id of the controller.
pub const IOAPIC_REG_ID: u8 = 0x00;

/// Register id: version and number of entries. Read-only.
pub const IOAPIC_REG_VERSION: u8 = 0x01;

/// Register id: bus arbitration priority. Read-only.
pub const IOAPIC_REG_ARBITRATION_ID: u8 = 0x02;

/// Offset of the selector register in the memory window.
pub const IOREGSEL_OFF: u8 = 0x0;

/// Offset of the upper half of a 64-bit access to the selector register.
pub const IOREGSEL_DUMMY_UPPER_32_BITS_OFF: u8 = 0x4;

/// Offset of the data window, and the selector of the first redirection table entry.
pub const IOWIN_OFF: u8 = 0x10;

/// Number of selectors for each redirection table entry.
pub const IOWIN_SCALE: u8 = 0x2;

/// The selector of one half of the entry of pin `irq`.
pub open spec fn selector_of(irq: int, is_high_bits: bool) -> int {
    0x10 + 2 * irq + (if is_high_bits {
        1int
    } else {
        0int
    })
}

/// The pin whose entry the selector names.
pub open spec fn selected_irq(selector: u8) -> int {
    (selector - 0x10) / 2
}

/// Whether the selector names the high half of the entry.
pub open spec fn selects_high(selector: u8) -> bool {
    selector % 2 == 1
}

/// Given an IRQ and whether or not the selector should refer to the high bits, return a selector
/// suitable to use as an offset to read to/write from.
///
/// Only the lowest eight bits of `irq` count.
pub fn encode_selector_from_irq(irq: usize, is_high_bits: bool) -> (r: u8)
    requires
        selector_of((irq % 256) as int, is_high_bits) <= u8::MAX,
    ensures
        r == selector_of((irq % 256) as int, is_high_bits),
        r == 0x10 + 2 * (irq % 256) + (if is_high_bits {
            1int
        } else {
            0int
        }),
{
    assert(irq as u8 == irq % 256) by (bit_vector);
    let high: u8 = if is_high_bits {
        1
    } else {
        0
    };
    (irq as u8) * IOWIN_SCALE + IOWIN_OFF + high
}

/// Given an offset that was read from/written to, return a tuple of the relevant IRQ and whether
/// the offset refers to the high bits of that register.
pub fn decode_irq_from_selector(selector: u8) -> (r: (usize, bool))
    requires
        selector >= IOWIN_OFF,
    ensures
        r.0 == selected_irq(selector),
        r.1 == selects_high(selector),
        0x10 + 2 * r.0 + (if r.1 {
            1int
        } else {
            0int
        }) == selector,
{
    assert((selector & 1 != 0) == (selector % 2 == 1)) by (bit_vector);
    (((selector - IOWIN_OFF) / IOWIN_SCALE) as usize, selector & 1 != 0)
}

} // verus!
