//! What the registers mean, bit by bit.
use crate::bits;
use crate::byte_order::ByteOrder;
use crate::entry;
use crate::entry::RedirectionEntry;
use crate::ioapic::{IOAPIC_BASE_ADDRESS, IOAPIC_MEM_LENGTH_BYTES};
use crate::model;
use crate::model::AccessFault;
use crate::selector;
use crate::state::IoapicState;
use vstd::prelude::*;

verus! {

/// The place of each field in the 64 bits of a redirection table entry, and what its bits stand
/// for.
pub proof fn law_entry_layout(b: u64)
    ensures
        RedirectionEntry::of_bits(b).to_bits() == b,
        RedirectionEntry::of_bits(b).vector == b & 0xff,
        RedirectionEntry::of_bits(b).delivery_mode is Fixed <==> (b >> 8) & 7 == 0,
        RedirectionEntry::of_bits(b).delivery_mode is Lowest <==> (b >> 8) & 7 == 1,
        RedirectionEntry::of_bits(b).delivery_mode is SMI <==> (b >> 8) & 7 == 2,
        RedirectionEntry::of_bits(b).delivery_mode is RemoteRead <==> (b >> 8) & 7 == 3,
        RedirectionEntry::of_bits(b).delivery_mode is NMI <==> (b >> 8) & 7 == 4,
        RedirectionEntry::of_bits(b).delivery_mode is Init <==> (b >> 8) & 7 == 5,
        RedirectionEntry::of_bits(b).delivery_mode is Startup <==> (b >> 8) & 7 == 6,
        RedirectionEntry::of_bits(b).delivery_mode is External <==> (b >> 8) & 7 == 7,
        RedirectionEntry::of_bits(b).dest_mode is Physical <==> (b >> 11) & 1 == 0,
        RedirectionEntry::of_bits(b).dest_mode is Logical <==> (b >> 11) & 1 == 1,
        RedirectionEntry::of_bits(b).delivery_status is Idle <==> (b >> 12) & 1 == 0,
        RedirectionEntry::of_bits(b).delivery_status is Pending <==> (b >> 12) & 1 == 1,
        RedirectionEntry::of_bits(b).polarity == (b >> 13) & 1,
        RedirectionEntry::of_bits(b).remote_irr <==> (b >> 14) & 1 == 1,
        RedirectionEntry::of_bits(b).trigger_mode is Edge <==> (b >> 15) & 1 == 0,
        RedirectionEntry::of_bits(b).trigger_mode is Level <==> (b >> 15) & 1 == 1,
        RedirectionEntry::of_bits(b).interrupt_mask <==> (b >> 16) & 1 == 1,
        RedirectionEntry::of_bits(b).reserved == (b >> 17) & 0x7f_ffff_ffff,
        RedirectionEntry::of_bits(b).dest_id == b >> 56,
{
    entry::lemma_bits_of_fields(b);
    entry::lemma_field_bounds(b);
    assert(bits::field(b, 0, 8) == b & 0xff && bits::field(b, 8, 3) == (b >> 8) & 7 && bits::field(
        b,
        11,
        1,
    ) == (b >> 11) & 1 && bits::field(b, 12, 1) == (b >> 12) & 1 && bits::field(b, 13, 1) == (b
        >> 13) & 1 && bits::field(b, 14, 1) == (b >> 14) & 1 && bits::field(b, 15, 1) == (b >> 15)
        & 1 && bits::field(b, 16, 1) == (b >> 16) & 1 && bits::field(b, 17, 39) == (b >> 17)
        & 0x7f_ffff_ffff && bits::field(b, 56, 8) == b >> 56) by (bit_vector);
}

/// The bits of an entry hold its fields, each in its place.
pub proof fn law_fields_in_bits(e: RedirectionEntry)
    requires
        e.polarity <= 1,
        e.reserved < 0x80_0000_0000,
    ensures
        RedirectionEntry::of_bits(e.to_bits()) == e,
        e.to_bits() & 0xff == e.vector,
        e.dest_mode is Logical <==> (e.to_bits() >> 11) & 1 == 1,
        e.delivery_status is Pending <==> (e.to_bits() >> 12) & 1 == 1,
        (e.to_bits() >> 13) & 1 == e.polarity,
        e.remote_irr <==> (e.to_bits() >> 14) & 1 == 1,
        e.trigger_mode is Level <==> (e.to_bits() >> 15) & 1 == 1,
        e.interrupt_mask <==> (e.to_bits() >> 16) & 1 == 1,
        (e.to_bits() >> 17) & 0x7f_ffff_ffff == e.reserved,
        e.to_bits() >> 56 == e.dest_id,
{
    entry::lemma_fields_of_bits(e);
    law_entry_layout(e.to_bits());
}

/// The data of the message that a pin sends is its vector in bits 0 to 7, its delivery mode in
/// bits 8 to 10 and its trigger mode in bit 15, as they stand in its entry, and nothing else.
pub proof fn law_message_data(b: u64)
    ensures
        RedirectionEntry::of_bits(b).msi_data() == b & 0x87ff,
{
    entry::lemma_field_bounds(b);
    let vector = bits::field(b, 0, 8);
    let mode = bits::field(b, 8, 3);
    let trig = bits::field(b, 15, 1);
    assert(vector + 0x100 * mode + 0x8000 * trig == b & 0x87ff) by (bit_vector)
        requires
            vector == bits::field(b, 0, 8),
            mode == bits::field(b, 8, 3),
            trig == bits::field(b, 15, 1),
    ;
}

/// The address of the message that a pin sends has 0xfee in bits 20 to 31, the destination id,
/// which is the highest byte of the entry, in bits 12 to 19, the destination mode, bit 11 of the
/// entry, in bit 2, and nothing else.
pub proof fn law_message_address(b: u64)
    ensures
        RedirectionEntry::of_bits(b).msi_address() == (0xfee0_0000u64 | ((b >> 56) << 12) | (((b
            >> 11) & 1) << 2)),
{
    entry::lemma_field_bounds(b);
    let id = bits::field(b, 56, 8);
    let dest = bits::field(b, 11, 1);
    assert(0xfee0_0000 + 0x1000 * id + 4 * dest == (0xfee0_0000u64 | ((b >> 56) << 12) | (((b
        >> 11) & 1) << 2))) by (bit_vector)
        requires
            id == bits::field(b, 56, 8),
            dest == bits::field(b, 11, 1),
    ;
}

/// Each field of the message can be read back from it, and its other bits are clear. Entries that
/// differ in nothing but polarity, mask, remote IRR, status or reserved bits send the same message.
pub proof fn law_message_fields(e: RedirectionEntry)
    ensures
        0 <= e.msi_data() < 0x1_0000,
        e.msi_data() % 0x100 == e.vector,
        e.msi_data() / 0x100 % 8 == e.delivery_mode.code(),
        e.msi_data() / 0x800 % 0x10 == 0,
        e.trigger_mode is Level <==> e.msi_data() / 0x8000 == 1,
        e.trigger_mode is Edge <==> e.msi_data() / 0x8000 == 0,
        0 <= e.msi_address() < 0x1_0000_0000,
        e.msi_address() / 0x10_0000 == 0xfee,
        e.msi_address() / 0x1000 % 0x100 == e.dest_id,
        e.msi_address() % 0x1000 == if e.dest_mode is Logical {
            4int
        } else {
            0int
        },
{
}

/// A field is the bits of its place, one by one, and a write to it replaces those and no others.
pub proof fn law_fields_bit_by_bit(b: u64, offset: u64, width: u64, val: u64, k: u64)
    requires
        offset < 64,
        width <= 64,
        offset + width <= 64,
        k < 64,
    ensures
        k < width ==> (bits::field(b, offset, width) >> k) & 1 == (b >> ((offset + k) as u64)) & 1,
        k >= width ==> (bits::field(b, offset, width) >> k) & 1 == 0,
        offset <= k < offset + width ==> (bits::with_field(b, offset, width, val) >> k) & 1 == (val
            >> ((k - offset) as u64)) & 1,
        k < offset || k >= offset + width ==> (bits::with_field(b, offset, width, val) >> k) & 1
            == (b >> k) & 1,
{
    if k < width {
        let j = (offset + k) as u64;
        assert((bits::field(b, offset, width) >> k) & 1 == (b >> j) & 1) by (bit_vector)
            requires
                offset < 64,
                width <= 64,
                offset + width <= 64,
                k < width,
                j == offset + k,
        ;
    } else {
        assert((bits::field(b, offset, width) >> k) & 1 == 0) by (bit_vector)
            requires
                width <= k < 64,
        ;
    }
    if offset <= k < offset + width {
        let j = (k - offset) as u64;
        assert((bits::with_field(b, offset, width, val) >> k) & 1 == (val >> j) & 1)
            by (bit_vector)
            requires
                offset < 64,
                width <= 64,
                offset + width <= 64,
                offset <= k < offset + width,
                j == k - offset,
        ;
    } else {
        assert((bits::with_field(b, offset, width, val) >> k) & 1 == (b >> k) & 1) by (bit_vector)
            requires
                offset < 64,
                width <= 64,
                offset + width <= 64,
                k < 64,
                k < offset || k >= offset + width,
        ;
    }
}

/// The registers of a state are its members; a line is asserted exactly if its bit of the bitmap
/// is set, and each pin's entry is the one at its place of the table.
pub proof fn law_registers_of_state(s: IoapicState, i: int)
    ensures
        s@.ioregsel == s.ioregsel,
        s@.ioapicid == s.ioapicid,
        s@.levels.contains(i) <==> 0 <= i < 32 && (s.current_interrupt_level_bitmap >> (i as u32))
            & 1 == 1,
        s@.table.len() == 24,
        0 <= i < 24 ==> s@.table[i].to_bits() == s.redirect_table@[i].bits,
        0 <= i < 24 ==> s@.table[i] == RedirectionEntry::of_bits(s.redirect_table@[i].bits),
{
    if 0 <= i < 32 {
        let m = s.current_interrupt_level_bitmap;
        let k = i as u32;
        assert((m & (1u32 << k) != 0) == ((m >> k) & 1 == 1)) by (bit_vector)
            requires
                k < 32,
        ;
    }
    if 0 <= i < 24 {
        entry::lemma_bits_of_fields(s.redirect_table@[i].bits);
    }
}

/// On a little-endian bus byte `k` of a value is its bits from `8 * k` on; on a big-endian bus the
/// bytes come in the opposite order.
pub proof fn law_bytes_of_value(val: u32)
    ensures
        ByteOrder::Little.bytes_of(val) == seq![
            (val & 0xff) as u8,
            ((val >> 8) & 0xff) as u8,
            ((val >> 16) & 0xff) as u8,
            (val >> 24) as u8,
        ],
        ByteOrder::Big.bytes_of(val) == seq![
            (val >> 24) as u8,
            ((val >> 16) & 0xff) as u8,
            ((val >> 8) & 0xff) as u8,
            (val & 0xff) as u8,
        ],
        ByteOrder::Little.value_of(ByteOrder::Little.bytes_of(val)) == val,
        ByteOrder::Big.value_of(ByteOrder::Big.bytes_of(val)) == val,
{
    assert(val & 0xff == val % 0x100 && (val >> 8) & 0xff == val / 0x100 % 0x100 && (val >> 16)
        & 0xff == val / 0x1_0000 % 0x100 && val >> 24 == val / 0x100_0000) by (bit_vector);
}

/// The value that bytes on the bus stand for, byte by byte.
pub proof fn law_value_of_bytes(data: Seq<u8>)
    requires
        data.len() == 4,
    ensures
        ByteOrder::Little.value_of(data) == data[0] + data[1] * 0x100 + data[2] * 0x1_0000 + data[3]
            * 0x100_0000,
        ByteOrder::Big.value_of(data) == data[3] + data[2] * 0x100 + data[1] * 0x1_0000 + data[0]
            * 0x100_0000,
{
}

/// From 0x10 on there are two selectors for each pin in turn, the low half before the high half.
pub proof fn law_selectors_count_pins(sel: u8, irq: int, is_high_bits: bool)
    ensures
        sel >= 0x10 ==> selector::selected_irq(sel) >= 0 && 0x10 + 2 * selector::selected_irq(sel)
            + (if selector::selects_high(sel) {
            1int
        } else {
            0int
        }) == sel,
        selector::selects_high(sel) <==> sel & 1 == 1,
        selector::selector_of(irq, false) == 0x10 + 2 * irq,
        selector::selector_of(irq, true) == 0x11 + 2 * irq,
{
    assert((sel & 1 == 1) == (sel % 2 == 1)) by (bit_vector);
}

/// Which faults an access has: a bad size hides the others; one outside the window is reported
/// before what is wrong with its place; nothing is reported twice.
pub proof fn law_access_faults(is_write: bool, offset: u64, len: nat)
    ensures
        ({
            let faults = model::access_faults(is_write, offset, len);
            let sized = 1 <= len <= 8;
            let off = offset % 0x100;
            &&& faults.contains(AccessFault::Size) <==> !sized
            &&& faults.contains(AccessFault::Offset) <==> sized && offset >= 0x100
            &&& faults.contains(AccessFault::Register) <==> sized && off != 0 && off != 4 && off
                != 0x10
            &&& faults.contains(AccessFault::WindowSize) <==> sized && is_write && off == 0x10
                && len != 4
            &&& faults.len() == (if sized && offset >= 0x100 {
                1int
            } else {
                0int
            }) + (if !sized || (off != 0 && off != 4 && (off != 0x10 || (is_write && len != 4))) {
                1int
            } else {
                0int
            })
            &&& sized && offset >= 0x100 ==> faults[0] == AccessFault::Offset
        }),
{
    let faults = model::access_faults(is_write, offset, len);
    if faults.len() > 0 {
        assert(faults.contains(faults[0]));
    }
    if faults.len() > 1 {
        assert(faults.contains(faults[1]));
    }
}

/// Where the controller lies in guest memory.
pub proof fn law_memory_window()
    ensures
        IOAPIC_BASE_ADDRESS == 0xfec0_0000,
        IOAPIC_MEM_LENGTH_BYTES == 0x100,
{
}

} // verus!
