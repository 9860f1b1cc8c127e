//! What holds of the registers as the bus shows them.
use crate::bits;
use crate::byte_order;
use crate::entry;
use crate::entry::{RedirectionEntry, TriggerMode};
use crate::model;
use crate::model::{AccessFault, Device, IOAPIC_VERSION_ID};
use crate::selector;
use crate::state::{Registers, NUM_IOAPIC_PINS};
use vstd::prelude::*;

verus! {

/// The controller after the selector has been written.
pub open spec fn select<E>(d: Device<E>, sel: u8) -> Device<E> {
    d.written(selector::IOREGSEL_OFF as u64, seq![sel])
}

/// The value of a register, read by way of the selector and four bytes of the data window.
pub open spec fn read_reg<E>(d: Device<E>, sel: u8) -> u32 {
    d.byte_order.value_of(
        select(d, sel).read_bytes(selector::IOWIN_OFF as u64, seq![0u8, 0u8, 0u8, 0u8]),
    )
}

/// The controller after a register has been written by way of the selector and the data window.
pub open spec fn write_reg<E>(d: Device<E>, sel: u8, val: u32) -> Device<E> {
    select(d, sel).written(selector::IOWIN_OFF as u64, d.byte_order.bytes_of(val))
}

/// The selector of one half of the entry of a pin.
pub open spec fn half_selector(irq: int, is_high_bits: bool) -> u8 {
    selector::selector_of(irq, is_high_bits) as u8
}

/// A pin and a half survive being made a selector.
pub proof fn law_selector_names_its_pin(irq: int, is_high_bits: bool)
    requires
        0 <= irq,
        selector::selector_of(irq, is_high_bits) <= u8::MAX,
    ensures
        half_selector(irq, is_high_bits) >= selector::IOWIN_OFF,
        selector::selected_irq(half_selector(irq, is_high_bits)) == irq,
        selector::selects_high(half_selector(irq, is_high_bits)) == is_high_bits,
{
}

/// A selector of the redirection table survives being taken apart.
pub proof fn law_pin_names_its_selector(sel: u8)
    requires
        sel >= selector::IOWIN_OFF,
    ensures
        selector::selector_of(selector::selected_irq(sel), selector::selects_high(sel)) == sel,
{
}

/// What `read_reg` reads is what the data window shows for the selector, and `write_reg` writes
/// its value to the data window.
pub proof fn lemma_register_access<E>(d: Device<E>, sel: u8, val: u32)
    ensures
        read_reg(d, sel) == select(d, sel).window(),
        write_reg(d, sel, val) == select(d, sel).window_written(val),
        select(d, sel) == (Device { regs: Registers { ioregsel: sel, ..d.regs }, ..d }),
{
    let buf = seq![0u8, 0u8, 0u8, 0u8];
    let s = select(d, sel);
    byte_order::lemma_bytes_round_trip(d.byte_order, s.window());
    byte_order::lemma_bytes_round_trip(d.byte_order, val);
    assert(s.read_bytes(selector::IOWIN_OFF as u64, buf) =~= d.byte_order.bytes_of(s.window()));
}

/// The selector register reads back what was written to it.
pub proof fn law_selector_reads_back<E>(d: Device<E>, data: Seq<u8>, buf: Seq<u8>)
    requires
        1 <= data.len() <= 8,
        1 <= buf.len() <= 8,
    ensures
        d.written(selector::IOREGSEL_OFF as u64, data).read_value(selector::IOREGSEL_OFF as u64)
            == Some(data[0] as u32),
        d.byte_order is Little ==> d.written(
            selector::IOREGSEL_OFF as u64,
            data,
        ).read_bytes(selector::IOREGSEL_OFF as u64, buf)[0] == data[0],
{
}

/// Only the lowest eight bits of an offset count.
pub proof fn law_offsets_alias<E>(d: Device<E>, offset: u64, data: Seq<u8>)
    ensures
        d.read_bytes(offset, data) == d.read_bytes(offset % 0x100, data),
        d.written(offset, data) == d.written(offset % 0x100, data),
        d.write_update(offset, data) == d.write_update(offset % 0x100, data),
{
}

/// An access of no bytes or of more than eight has no effect.
pub proof fn law_bad_sizes_are_ignored<E>(d: Device<E>, offset: u64, data: Seq<u8>)
    requires
        data.len() == 0 || data.len() > 8,
    ensures
        d.read_bytes(offset, data) == data,
        d.written(offset, data) == d,
        d.write_update(offset, data) is None,
{
}

/// An access with any fault but that of lying outside the window has no effect.
pub proof fn law_faulty_accesses_are_ignored<E>(
    d: Device<E>,
    offset: u64,
    data: Seq<u8>,
    fault: AccessFault,
)
    requires
        fault != AccessFault::Offset,
    ensures
        model::access_faults(false, offset, data.len()).contains(fault) ==> d.read_bytes(
            offset,
            data,
        ) == data,
        model::access_faults(true, offset, data.len()).contains(fault) ==> d.written(offset, data)
            == d && d.write_update(offset, data) is None,
{
}

/// A read inside the window is without fault exactly if it is of a good size and there is a value
/// for it.
pub proof fn law_sound_reads_give_a_value<E>(d: Device<E>, offset: u64, len: nat)
    requires
        offset < 0x100,
    ensures
        model::access_faults(false, offset, len) == Seq::<AccessFault>::empty() <==> 1 <= len <= 8
            && d.read_value(offset) is Some,
{
    let faults = model::access_faults(false, offset, len);
    if !(1 <= len <= 8 && d.read_value(offset) is Some) {
        assert(faults.len() == 1);
    }
}

/// The version register is read-only, whatever is written to whatever register.
pub proof fn law_version_is_read_only<E>(d: Device<E>, sel: u8, val: u32)
    ensures
        read_reg(write_reg(d, sel, val), selector::IOAPIC_REG_VERSION) == IOAPIC_VERSION_ID,
        write_reg(d, selector::IOAPIC_REG_VERSION, val) == select(d, selector::IOAPIC_REG_VERSION),
{
    lemma_register_access(d, sel, val);
    lemma_register_access(d, selector::IOAPIC_REG_VERSION, val);
    lemma_register_access(write_reg(d, sel, val), selector::IOAPIC_REG_VERSION, val);
}

/// Of the id register only bits 24 to 27 can be written and read.
pub proof fn law_id_has_four_bits<E>(d: Device<E>, val: u32)
    ensures
        read_reg(write_reg(d, selector::IOAPIC_REG_ID, val), selector::IOAPIC_REG_ID) == val
            & 0x0f00_0000,
{
    lemma_register_access(d, selector::IOAPIC_REG_ID, val);
    lemma_register_access(
        write_reg(d, selector::IOAPIC_REG_ID, val),
        selector::IOAPIC_REG_ID,
        val,
    );
    assert((val / 0x100_0000 % 0x10) % 0x10 * 0x100_0000 == val & 0x0f00_0000) by (bit_vector);
}

/// The arbitration register always shows the id, and cannot be written.
pub proof fn law_arbitration_mirrors_id<E>(d: Device<E>, val: u32)
    ensures
        read_reg(d, selector::IOAPIC_REG_ARBITRATION_ID) == read_reg(d, selector::IOAPIC_REG_ID),
        write_reg(d, selector::IOAPIC_REG_ARBITRATION_ID, val) == select(
            d,
            selector::IOAPIC_REG_ARBITRATION_ID,
        ),
{
    lemma_register_access(d, selector::IOAPIC_REG_ID, val);
    lemma_register_access(d, selector::IOAPIC_REG_ARBITRATION_ID, val);
}

/// Selectors between the fixed registers and the table show zero, those past the table show all
/// ones, and a write to either is ignored.
pub proof fn law_unused_selectors<E>(d: Device<E>, sel: u8, val: u32)
    requires
        sel > selector::IOAPIC_REG_ARBITRATION_ID,
        sel < selector::IOWIN_OFF || selector::selected_irq(sel) >= NUM_IOAPIC_PINS,
    ensures
        read_reg(d, sel) == if sel < selector::IOWIN_OFF {
            0u32
        } else {
            0xffff_ffffu32
        },
        write_reg(d, sel, val) == select(d, sel),
{
    lemma_register_access(d, sel, val);
}

/// The high half of an entry reads back what was written to it, and the low half is not touched.
pub proof fn law_high_half_reads_back<E>(d: Device<E>, irq: int, val: u32)
    requires
        d.wf(),
        0 <= irq < NUM_IOAPIC_PINS,
    ensures
        read_reg(write_reg(d, half_selector(irq, true), val), half_selector(irq, true)) == val,
        read_reg(write_reg(d, half_selector(irq, true), val), half_selector(irq, false))
            == read_reg(d, half_selector(irq, false)),
{
    let high = half_selector(irq, true);
    let low = half_selector(irq, false);
    law_selector_names_its_pin(irq, true);
    law_selector_names_its_pin(irq, false);
    lemma_register_access(d, high, val);
    lemma_register_access(d, low, val);
    lemma_register_access(write_reg(d, high, val), high, val);
    lemma_register_access(write_reg(d, high, val), low, val);
    let raw = d.regs.table[irq].to_bits();
    let new = bits::with_field(raw, 32, 32, val as u64);
    entry::lemma_bits_of_fields(new);
    bits::lemma_field_of_written(raw, 32, 32, val as u64);
    bits::lemma_field_of_other(raw, 32, 32, val as u64);
    assert(val as u64 & bits::low_mask(32) == val as u64) by (bit_vector);
}

/// The bits of an entry after its low half has been written.
pub proof fn lemma_low_written(e: RedirectionEntry, val: u32)
    requires
        e.fits(),
    ensures
        e.written(false, val).fits(),
        ({
            let raw = bits::with_field(e.to_bits(), 0, 32, val as u64);
            let status = e.delivery_status.code();
            let irr = entry::flag_code(e.remote_irr && val & 0x8000 != 0);
            e.written(false, val).to_bits() == bits::with_field(
                bits::with_field(raw, 12, 1, status),
                14,
                1,
                irr,
            )
        }),
        (e.written(false, val).trigger_mode is Level) == (val & 0x8000 != 0),
{
    let bits_before = e.to_bits();
    let raw = bits::with_field(bits_before, 0, 32, val as u64);
    let with_status = bits::with_field(raw, 12, 1, e.delivery_status.code());
    let irr = e.remote_irr && val & 0x8000 != 0;
    let with_irr = bits::with_field(with_status, 14, 1, entry::flag_code(irr));
    assert((bits::field(raw, 15, 1) == 0) == (val & 0x8000 == 0)) by (bit_vector)
        requires
            raw == bits::with_field(bits_before, 0, 32, val as u64),
    ;
    entry::lemma_written(raw, 12, 1, e.delivery_status.code());
    entry::lemma_written(with_status, 14, 1, entry::flag_code(irr));
    entry::lemma_bits_of_fields(with_irr);
    assert(e.written(false, val) == RedirectionEntry::of_bits(with_irr));
}

/// An entry after its high half has been written: nothing about when the pin raises interrupts
/// has changed.
pub proof fn lemma_high_written(e: RedirectionEntry, val: u32)
    requires
        e.fits(),
    ensures
        e.written(true, val).fits(),
        e.written(true, val).to_bits() == bits::with_field(e.to_bits(), 32, 32, val as u64),
        e.written(true, val).delivery_status == e.delivery_status,
        e.written(true, val).remote_irr == e.remote_irr,
        e.written(true, val).trigger_mode == e.trigger_mode,
        e.written(true, val).interrupt_mask == e.interrupt_mask,
        e.written(true, val).vector == e.vector,
{
    entry::lemma_bits_of_fields(bits::with_field(e.to_bits(), 32, 32, val as u64));
    entry::lemma_fields_of_bits(e);
    bits::lemma_field_of_other(e.to_bits(), 32, 32, val as u64);
}

/// Writing the low half of another entry takes over its trigger mode and its mask.
pub proof fn lemma_low_written_of_entry(e: RedirectionEntry, other: RedirectionEntry)
    requires
        e.fits(),
        other.fits(),
    ensures
        e.written(false, other.half(false)).trigger_mode == other.trigger_mode,
        e.written(false, other.half(false)).interrupt_mask == other.interrupt_mask,
        e.written(false, other.half(false)).remote_irr == (e.remote_irr
            && other.trigger_mode is Level),
{
    let x = other.to_bits();
    let lo = other.half(false);
    let before = e.to_bits();
    let raw = bits::with_field(before, 0, 32, lo as u64);
    entry::lemma_fields_of_bits(other);
    assert(bits::field(raw, 15, 1) == bits::field(x, 15, 1) && bits::field(raw, 16, 1)
        == bits::field(x, 16, 1)) by (bit_vector)
        requires
            raw == bits::with_field(before, 0, 32, lo as u64),
            lo == bits::field(x, 0, 32) as u32,
    ;
}

/// The low half of an entry reads back what was written to it, but for delivery status and remote
/// IRR. The status keeps its value, and so does the remote IRR if the pin is now level-triggered;
/// otherwise it is clear. The high half is not touched.
pub proof fn law_low_half_reads_back<E>(d: Device<E>, irq: int, val: u32)
    requires
        d.wf(),
        0 <= irq < NUM_IOAPIC_PINS,
    ensures
        ({
            let after = write_reg(d, half_selector(irq, false), val);
            let (old_entry, new_entry) = (d.regs.table[irq], after.regs.table[irq]);
            &&& read_reg(after, half_selector(irq, false)) & 0xffff_afff == val & 0xffff_afff
            &&& new_entry.delivery_status == old_entry.delivery_status
            &&& (new_entry.trigger_mode is Level) == (val & 0x8000 != 0)
            &&& new_entry.remote_irr == (old_entry.remote_irr && new_entry.trigger_mode is Level)
            &&& read_reg(after, half_selector(irq, true)) == read_reg(
                d,
                half_selector(irq, true),
            )
        }),
{
    let high = half_selector(irq, true);
    let low = half_selector(irq, false);
    law_selector_names_its_pin(irq, true);
    law_selector_names_its_pin(irq, false);
    lemma_register_access(d, high, val);
    lemma_register_access(d, low, val);
    let after = write_reg(d, low, val);
    lemma_register_access(after, high, val);
    lemma_register_access(after, low, val);
    let e = d.regs.table[irq];
    lemma_low_written(e, val);
    let before = e.to_bits();
    let status = e.delivery_status.code();
    let irr = entry::flag_code(e.remote_irr && val & 0x8000 != 0);
    let new = e.written(false, val).to_bits();
    assert((bits::field(new, 0, 32) as u32) & 0xffff_afff == val & 0xffff_afff && bits::field(
        new,
        32,
        32,
    ) == bits::field(before, 32, 32)) by (bit_vector)
        requires
            new == bits::with_field(
                bits::with_field(bits::with_field(before, 0, 32, val as u64), 12, 1, status),
                14,
                1,
                irr,
            ),
    ;
}

/// Nothing that is written over the bus changes a delivery status or sets a remote IRR, and a
/// remote IRR is cleared only where the pin has become edge-triggered.
pub proof fn law_status_bits_are_read_only<E>(d: Device<E>, offset: u64, data: Seq<u8>, irq: int)
    requires
        d.wf(),
        0 <= irq < NUM_IOAPIC_PINS,
    ensures
        ({
            let (old_entry, new_entry) = (
                d.regs.table[irq],
                d.written(offset, data).regs.table[irq],
            );
            &&& new_entry.delivery_status == old_entry.delivery_status
            &&& new_entry.remote_irr ==> old_entry.remote_irr
            &&& old_entry.remote_irr && !new_entry.remote_irr ==> new_entry.trigger_mode is Edge
        }),
{
    let val = d.byte_order.value_of(data);
    lemma_high_written(d.regs.table[irq], val);
    lemma_low_written(d.regs.table[irq], val);
}

/// The controller after both halves of an entry have been written, the low one first.
pub open spec fn write_entry<E>(d: Device<E>, irq: int, e: RedirectionEntry) -> Device<E> {
    write_reg(
        write_reg(d, half_selector(irq, false), e.half(false)),
        half_selector(irq, true),
        e.half(true),
    )
}

/// The entry of a pin, read half by half.
pub open spec fn read_entry<E>(d: Device<E>, irq: int) -> RedirectionEntry {
    RedirectionEntry::of_bits(
        (read_reg(d, half_selector(irq, false)) + 0x1_0000_0000 * read_reg(
            d,
            half_selector(irq, true),
        )) as u64,
    )
}

/// An entry that is read half by half is the entry of the pin.
pub proof fn law_entry_reads<E>(d: Device<E>, irq: int)
    requires
        d.wf(),
        0 <= irq < NUM_IOAPIC_PINS,
    ensures
        read_entry(d, irq) == d.regs.table[irq],
{
    law_selector_names_its_pin(irq, true);
    law_selector_names_its_pin(irq, false);
    lemma_register_access(d, half_selector(irq, true), 0);
    lemma_register_access(d, half_selector(irq, false), 0);
    let b = d.regs.table[irq].to_bits();
    entry::lemma_fields_of_bits(d.regs.table[irq]);
    assert(((bits::field(b, 0, 32) as u32) + 0x1_0000_0000 * (bits::field(b, 32, 32) as u32)) as u64
        == b) by (bit_vector);
}

/// An entry that is written half by half becomes the entry of the pin, but for delivery status and
/// remote IRR; every other pin, every line and the clock's flag stay as they were.
pub proof fn law_entry_writes<E>(d: Device<E>, irq: int, e: RedirectionEntry)
    requires
        d.wf(),
        e.fits(),
        0 <= irq < NUM_IOAPIC_PINS,
    ensures
        write_entry(d, irq, e) == (Device {
            regs: Registers {
                ioregsel: half_selector(irq, true),
                table: d.regs.table.update(
                    irq,
                    RedirectionEntry {
                        delivery_status: d.regs.table[irq].delivery_status,
                        remote_irr: d.regs.table[irq].remote_irr && e.trigger_mode is Level,
                        ..e
                    },
                ),
                ..d.regs
            },
            ..d
        }),
{
    let high = half_selector(irq, true);
    let low = half_selector(irq, false);
    law_selector_names_its_pin(irq, true);
    law_selector_names_its_pin(irq, false);
    let mid = write_reg(d, low, e.half(false));
    lemma_register_access(d, low, e.half(false));
    lemma_register_access(mid, high, e.half(true));
    let old_entry = d.regs.table[irq];
    lemma_low_written(old_entry, e.half(false));
    let x = e.to_bits();
    let lo = e.half(false);
    let hi = e.half(true);
    let before = old_entry.to_bits();
    let status = old_entry.delivery_status.code();
    let level = lo & 0x8000 != 0;
    let irr = entry::flag_code(old_entry.remote_irr && level);
    entry::lemma_fields_of_bits(e);
    entry::lemma_field_bounds(x);
    assert((bits::field(x, 15, 1) == 0) == (lo & 0x8000 == 0)) by (bit_vector)
        requires
            lo == bits::field(x, 0, 32) as u32,
    ;
    let mid_bits = mid.regs.table[irq].to_bits();
    let kept = bits::with_field(x, 12, 1, status);
    let target = bits::with_field(kept, 14, 1, irr);
    assert(bits::with_field(mid_bits, 32, 32, hi as u64) == target) by (bit_vector)
        requires
            mid_bits == bits::with_field(
                bits::with_field(bits::with_field(before, 0, 32, lo as u64), 12, 1, status),
                14,
                1,
                irr,
            ),
            lo == bits::field(x, 0, 32) as u32,
            hi == bits::field(x, 32, 32) as u32,
            kept == bits::with_field(x, 12, 1, status),
            target == bits::with_field(kept, 14, 1, irr),
    ;
    entry::lemma_written(x, 12, 1, status);
    entry::lemma_written(kept, 14, 1, irr);
    let after = write_entry(d, irq, e);
    assert(after.regs.table =~= d.regs.table.update(
        irq,
        RedirectionEntry {
            delivery_status: old_entry.delivery_status,
            remote_irr: old_entry.remote_irr && e.trigger_mode is Level,
            ..e
        },
    ));
}

/// Masking or unmasking a level-triggered pin by reading its entry, changing the mask and writing
/// it back changes nothing else about the pin; its remote IRR stays.
pub proof fn law_masking_keeps_remote_irr<E>(d: Device<E>, irq: int, mask: bool)
    requires
        d.wf(),
        0 <= irq < NUM_IOAPIC_PINS,
        d.regs.table[irq].trigger_mode is Level,
    ensures
        write_entry(
            d,
            irq,
            RedirectionEntry { interrupt_mask: mask, ..read_entry(d, irq) },
        ).regs.table[irq] == (RedirectionEntry { interrupt_mask: mask, ..d.regs.table[irq] }),
{
    law_entry_reads(d, irq);
    law_entry_writes(d, irq, RedirectionEntry { interrupt_mask: mask, ..read_entry(d, irq) });
}

/// Making a pin edge-triggered clears its remote IRR, and it stays clear when the pin is made
/// level-triggered again: that cycle ends the interrupt.
pub proof fn law_edge_cycle_clears_remote_irr<E>(d: Device<E>, irq: int, e: RedirectionEntry)
    requires
        d.wf(),
        e.fits(),
        0 <= irq < NUM_IOAPIC_PINS,
    ensures
        ({
            let edge = write_entry(
                d,
                irq,
                RedirectionEntry { trigger_mode: TriggerMode::Edge, ..e },
            );
            let level = write_entry(
                edge,
                irq,
                RedirectionEntry { trigger_mode: TriggerMode::Level, ..e },
            );
            &&& !edge.regs.table[irq].remote_irr
            &&& level.regs.table[irq].trigger_mode is Level
            &&& !level.regs.table[irq].remote_irr
        }),
{
    let as_edge = RedirectionEntry { trigger_mode: TriggerMode::Edge, ..e };
    let as_level = RedirectionEntry { trigger_mode: TriggerMode::Level, ..e };
    let edge = write_entry(d, irq, as_edge);
    law_entry_writes(d, irq, as_edge);
    assert forall|i: int| 0 <= i < NUM_IOAPIC_PINS implies (
    #[trigger] edge.regs.table[i]).fits() by {
        assert(d.regs.table[i].fits());
    }
    law_entry_writes(edge, irq, as_level);
}

} // verus!
