//! What each operation does to each register, line, event and flag.
use crate::bits;
use crate::bus_laws;
use crate::byte_order::ByteOrder;
use crate::entry;
use crate::entry::RedirectionEntry;
use crate::interrupt_laws;
use crate::model::{Device, EoiAction, ServiceStep};
use crate::msi::{MsiRequest, MsiSetup, MsiStage, VmIrqRequest};
use crate::register_laws;
use crate::state::Registers;
use vstd::prelude::*;

verus! {

/// After power-up all registers are zero but for the mask bit of each of the 24 pins; no line is
/// asserted, no interrupt in service, and there are no events.
pub proof fn law_power_up<E>(byte_order: ByteOrder, i: int)
    ensures
        ({
            let d = Device::<E>::initial(byte_order);
            &&& d.regs.ioregsel == 0
            &&& d.regs.ioapicid == 0
            &&& !d.regs.levels.contains(i)
            &&& d.regs.table.len() == 24
            &&& 0 <= i < 24 ==> d.regs.table[i].to_bits() == 0x1_0000
            &&& 0 <= i < 24 ==> d.regs.table[i] == RedirectionEntry::of_bits(0x1_0000)
            &&& !d.rtc_remote_irr
            &&& d.out_events.len() == 24
            &&& 0 <= i < 24 ==> d.out_events[i] is None
            &&& d.resample_events.len() == 0
            &&& d.byte_order == byte_order
        }),
{
    entry::lemma_written(0, 16, 1, 1);
    let b = bits::with_field(0, 16, 1, 1);
    assert(b == 0x1_0000) by (bit_vector)
        requires
            b == bits::with_field(0, 16, 1, 1),
    ;
    entry::lemma_bits_of_fields(0x1_0000);
}

// Lines.

/// A line is recorded as asserted exactly while it is high at a pin with polarity 0, or low at a
/// pin with polarity 1, whatever else the entry of the pin says; nothing but that record changes.
/// A change that does not assert the line takes effect.
pub proof fn law_line_level_is_recorded<E>(d: Device<E>, i: int, level: bool, j: int)
    requires
        d.wf(),
        0 <= i < 24,
    ensures
        ({
            let after = d.serviced(i, d.asserts(i, level));
            let result = d.service_step(i, d.asserts(i, level));
            let polarity = d.regs.table[i].polarity;
            &&& polarity == 0 ==> (after.regs.levels.contains(i) <==> level)
            &&& polarity == 1 ==> (after.regs.levels.contains(i) <==> !level)
            &&& j != i ==> (after.regs.levels.contains(j) <==> d.regs.levels.contains(j))
            &&& after.regs.ioregsel == d.regs.ioregsel
            &&& after.regs.ioapicid == d.regs.ioapicid
            &&& after.regs.table == d.regs.table
            &&& after.rtc_remote_irr == d.rtc_remote_irr
            &&& after.out_events == d.out_events
            &&& after.resample_events == d.resample_events
            &&& after.byte_order == d.byte_order
            &&& polarity == 0 && !level ==> result == ServiceStep::Done(true)
            &&& polarity == 1 && level ==> result == ServiceStep::Done(true)
            &&& polarity == 0 && level ==> result != ServiceStep::Done(true)
            &&& polarity == 1 && !level ==> result != ServiceStep::Done(true)
        }),
{
}

/// A line change asks for an injection exactly if the level is the one that asserts the pin, the
/// pin is unmasked and has an event, an edge-triggered line was not asserted before, a
/// level-triggered pin has no remote IRR, and the clock's pin has no interrupt in service.
pub proof fn law_when_a_line_injects<E>(d: Device<E>, i: int, level: bool)
    requires
        d.wf(),
        0 <= i < 24,
    ensures
        ({
            let e = d.regs.table[i];
            d.service_step(i, d.asserts(i, level)) == ServiceStep::Inject <==> {
                &&& (if e.polarity == 1 {
                    !level
                } else {
                    level
                })
                &&& !e.interrupt_mask
                &&& d.out_events[i] is Some
                &&& e.trigger_mode is Edge ==> !d.regs.levels.contains(i)
                &&& e.trigger_mode is Level ==> !e.remote_irr
                &&& i == 8 ==> !d.rtc_remote_irr
            }
        }),
{
}

/// The level of the line and the polarity of the pin count only together: turning both over makes
/// no difference to what a line change does.
pub proof fn law_polarity_turns_the_line_over<E>(d: Device<E>, i: int, level: bool)
    requires
        d.wf(),
        0 <= i < 24,
    ensures
        ({
            let e = d.regs.table[i];
            let turned = d.with_entry(
                i,
                RedirectionEntry { polarity: (1 - e.polarity) as u8, ..e },
            );
            &&& turned.service_step(i, turned.asserts(i, !level)) == d.service_step(
                i,
                d.asserts(i, level),
            )
            &&& turned.serviced(i, turned.asserts(i, !level)).regs.levels == d.serviced(
                i,
                d.asserts(i, level),
            ).regs.levels
        }),
{
    assert(d.regs.table[i].fits());
}

/// A successful injection sets the remote IRR of a level-triggered pin, or the clock's flag if the
/// pin is the clock's and edge-triggered; an unsuccessful one changes nothing. Nothing else ever
/// changes.
pub proof fn law_injection_is_recorded<E>(d: Device<E>, i: int, success: bool, j: int)
    requires
        d.wf(),
        0 <= i < 24,
        0 <= j < 24,
    ensures
        ({
            let after = d.inject_result(i, success);
            let e = d.regs.table[i];
            &&& after.regs.table.len() == 24
            &&& after.regs.table[j].remote_irr <==> d.regs.table[j].remote_irr || (j == i && success
                && e.trigger_mode is Level)
            &&& (RedirectionEntry {
                remote_irr: d.regs.table[j].remote_irr,
                ..after.regs.table[j]
            }) == d.regs.table[j]
            &&& after.rtc_remote_irr <==> d.rtc_remote_irr || (i == 8 && success
                && e.trigger_mode is Edge)
            &&& after.regs.levels == d.regs.levels
            &&& after.regs.ioregsel == d.regs.ioregsel
            &&& after.regs.ioapicid == d.regs.ioapicid
            &&& after.out_events == d.out_events
            &&& after.resample_events == d.resample_events
            &&& after.byte_order == d.byte_order
        }),
{
}

// End of interrupt.

/// At the end of an interrupt the resample events of a pin have to be written exactly if the pin
/// has that vector, is level-triggered and has such events; its line counts as released exactly
/// then. Mask, remote IRR, line and all other fields play no part.
pub proof fn law_who_is_resampled<E>(d: Device<E>, vector: u8, i: usize)
    requires
        d.wf(),
        i < 24,
    ensures
        ({
            let e = d.regs.table[i as int];
            let told = {
                &&& e.vector == vector
                &&& e.trigger_mode is Level
                &&& i < d.resample_events.len()
                &&& d.resample_events[i as int].len() > 0
            };
            &&& d.eoi_actions(vector, 24).contains(EoiAction::Resample(i)) <==> told
            &&& d.ended(vector).regs.levels.contains(i as int) <==> d.regs.levels.contains(i as int)
                && !told
        }),
{
    interrupt_laws::law_end_of_interrupt_actions(d, vector, 24);
}

/// At the end of an interrupt another one has to be injected for a pin exactly if its line is
/// asserted and not released by resampling, the pin is level-triggered, unmasked and has an event,
/// and it is not in service for an interrupt with another vector.
pub proof fn law_who_is_reinjected<E>(d: Device<E>, vector: u8, i: usize)
    requires
        d.wf(),
        i < 24,
    ensures
        ({
            let e = d.regs.table[i as int];
            d.eoi_actions(vector, 24).contains(EoiAction::Inject(i)) <==> {
                &&& d.regs.levels.contains(i as int)
                &&& e.trigger_mode is Level
                &&& !e.interrupt_mask
                &&& d.out_events[i as int] is Some
                &&& e.vector == vector ==> i >= d.resample_events.len()
                    || d.resample_events[i as int].len() == 0
                &&& e.vector != vector ==> !e.remote_irr
                &&& i == 8 && e.vector != vector ==> !d.rtc_remote_irr
            }
        }),
{
    interrupt_laws::law_end_of_interrupt_actions(d, vector, 24);
}

/// The end of an interrupt clears the remote IRR of the level-triggered pins with its vector and
/// no other, and the clock's flag exactly if the clock's pin has its vector. Nothing else changes
/// in the registers but lines that are released.
pub proof fn law_what_an_end_of_interrupt_clears<E>(d: Device<E>, vector: u8, i: int)
    requires
        d.wf(),
    ensures
        ({
            let after = d.ended(vector);
            let e = d.regs.table[i];
            &&& after.regs.table.len() == 24
            &&& 0 <= i < 24 ==> (after.regs.table[i].remote_irr <==> e.remote_irr && !(e.vector
                == vector && e.trigger_mode is Level))
            &&& 0 <= i < 24 ==> (RedirectionEntry {
                remote_irr: e.remote_irr,
                ..after.regs.table[i]
            }) == e
            &&& after.rtc_remote_irr <==> d.rtc_remote_irr && d.regs.table[8].vector != vector
            &&& after.regs.levels.contains(i) ==> d.regs.levels.contains(i)
            &&& !(0 <= i < 24) ==> (after.regs.levels.contains(i) <==> d.regs.levels.contains(i))
            &&& after.regs.ioregsel == d.regs.ioregsel
            &&& after.regs.ioapicid == d.regs.ioapicid
            &&& after.out_events == d.out_events
            &&& after.resample_events == d.resample_events
            &&& after.byte_order == d.byte_order
        }),
{
}

/// The pin that an action is about.
pub open spec fn pin_of(action: EoiAction) -> int {
    match action {
        EoiAction::Resample(irq) => irq as int,
        EoiAction::Inject(irq) => irq as int,
    }
}

/// What has to be done at the end of an interrupt comes in the order of the pins, each at most
/// once.
pub proof fn law_actions_come_in_pin_order<E>(d: Device<E>, vector: u8, pins: nat)
    requires
        d.wf(),
        pins <= 24,
    ensures
        forall|k: int|
            0 <= k < d.eoi_actions(vector, pins).len() ==> 0 <= pin_of(
                #[trigger] d.eoi_actions(vector, pins)[k],
            ) < pins,
        forall|k: int, l: int|
            0 <= k < l < d.eoi_actions(vector, pins).len() ==> pin_of(
                #[trigger] d.eoi_actions(vector, pins)[k],
            ) < pin_of(#[trigger] d.eoi_actions(vector, pins)[l]),
    decreases pins,
{
    if pins > 0 {
        let n = (pins - 1) as nat;
        law_actions_come_in_pin_order(d, vector, n);
        let init = d.eoi_actions(vector, n);
        let last = d.eoi_actions_at(vector, n as int);
        let all = d.eoi_actions(vector, pins);
        assert(all == init + last);
        assert(last.len() <= 1);
        assert forall|k: int| 0 <= k < all.len() implies 0 <= pin_of(#[trigger] all[k]) < pins by {
            if k < init.len() {
                assert(all[k] == init[k]);
            } else {
                assert(all[k] == last[k - init.len()]);
            }
        }
        assert forall|k: int, l: int| 0 <= k < l < all.len() implies pin_of(#[trigger] all[k])
            < pin_of(#[trigger] all[l]) by {
            assert(all[k] == init[k]);
            if l < init.len() {
                assert(all[l] == init[l]);
            } else {
                assert(all[l] == last[l - init.len()]);
            }
        }
    }
}

// The bus.

/// The four bytes of a value, the lowest eight bits first on a little-endian bus and last on a
/// big-endian one.
pub open spec fn on_bus(byte_order: ByteOrder, val: u32) -> Seq<u8> {
    match byte_order {
        ByteOrder::Little => seq![
            (val & 0xff) as u8,
            ((val >> 8) & 0xff) as u8,
            ((val >> 16) & 0xff) as u8,
            (val >> 24) as u8,
        ],
        ByteOrder::Big => seq![
            (val >> 24) as u8,
            ((val >> 16) & 0xff) as u8,
            ((val >> 8) & 0xff) as u8,
            (val & 0xff) as u8,
        ],
    }
}

/// The bits of an entry after its low half was written: bit 12 stays, bit 14 stays if bit 15 was
/// written as one and is clear otherwise, all other bits of the half are those that were written.
pub open spec fn low_half_written(b: u64, val: u32) -> u64 {
    (b & 0xffff_ffff_0000_0000) | ((val as u64) & 0xffff_afff) | (b & 0x1000) | (if val & 0x8000
        != 0 {
        b & 0x4000
    } else {
        0
    })
}

/// The bits of an entry after its high half was written.
pub open spec fn high_half_written(b: u64, val: u32) -> u64 {
    (b & 0xffff_ffff) | ((val as u64) << 32)
}

/// The bits of an entry after one of its halves was written.
pub open spec fn half_written(b: u64, is_high_bits: bool, val: u32) -> u64 {
    if is_high_bits {
        high_half_written(b, val)
    } else {
        low_half_written(b, val)
    }
}

/// The bits of an entry that was written over the bus.
pub proof fn law_bits_of_written_entry(e: RedirectionEntry, is_high_bits: bool, val: u32)
    requires
        e.polarity <= 1,
        e.reserved < 0x80_0000_0000,
    ensures
        e.written(is_high_bits, val).to_bits() == half_written(e.to_bits(), is_high_bits, val),
        e.written(is_high_bits, val) == RedirectionEntry::of_bits(
            half_written(e.to_bits(), is_high_bits, val),
        ),
{
    let b = e.to_bits();
    register_laws::law_fields_in_bits(e);
    if is_high_bits {
        bus_laws::lemma_high_written(e, val);
        let w = e.written(true, val).to_bits();
        assert(w == (b & 0xffff_ffff) | ((val as u64) << 32)) by (bit_vector)
            requires
                w == bits::with_field(b, 32, 32, val as u64),
        ;
        entry::lemma_fields_of_bits(e.written(true, val));
    } else {
        bus_laws::lemma_low_written(e, val);
        let status = e.delivery_status.code();
        let irr = entry::flag_code(e.remote_irr && val & 0x8000 != 0);
        let w = e.written(false, val).to_bits();
        assert((b >> 12) & 1 < 2 && (b >> 14) & 1 < 2) by (bit_vector);
        assert(w == (b & 0xffff_ffff_0000_0000) | ((val as u64) & 0xffff_afff) | (b & 0x1000) | (
        if val & 0x8000 != 0 {
            b & 0x4000
        } else {
            0
        })) by (bit_vector)
            requires
                w == bits::with_field(
                    bits::with_field(bits::with_field(b, 0, 32, val as u64), 12, 1, status),
                    14,
                    1,
                    irr,
                ),
                status == (b >> 12) & 1,
                irr == if val & 0x8000 != 0 {
                    (b >> 14) & 1
                } else {
                    0
                },
        ;
        entry::lemma_fields_of_bits(e.written(false, val));
    }
}

/// The selector of the low half of pin `i`'s entry is `0x10 + 2 * i`, that of its high half one
/// more. Writing the selector and then a value writes that half of that entry: no other entry,
/// no line, no event and no flag changes.
pub proof fn law_guest_writes_entry<E>(d: Device<E>, i: int, is_high_bits: bool, val: u32, j: int)
    requires
        d.wf(),
        0 <= i < 24,
        0 <= j < 24,
    ensures
        ({
            let sel = (if is_high_bits {
                0x11 + 2 * i
            } else {
                0x10 + 2 * i
            }) as u8;
            let selected = d.written(0x0, seq![sel]);
            let after = selected.written(0x10, on_bus(d.byte_order, val));
            &&& d.write_update(0x0, seq![sel]) is None
            &&& after.regs.ioregsel == sel
            &&& after.regs.table.len() == 24
            &&& after.regs.table[i].to_bits() == half_written(
                d.regs.table[i].to_bits(),
                is_high_bits,
                val,
            )
            &&& after.regs.table[i] == RedirectionEntry::of_bits(
                half_written(d.regs.table[i].to_bits(), is_high_bits, val),
            )
            &&& j != i ==> after.regs.table[j] == d.regs.table[j]
            &&& after.regs.ioapicid == d.regs.ioapicid
            &&& after.regs.levels == d.regs.levels
            &&& after.rtc_remote_irr == d.rtc_remote_irr
            &&& after.out_events == d.out_events
            &&& after.resample_events == d.resample_events
            &&& after.byte_order == d.byte_order
        }),
{
    let sel = (if is_high_bits {
        0x11 + 2 * i
    } else {
        0x10 + 2 * i
    }) as u8;
    register_laws::law_selectors_count_pins(sel, i, is_high_bits);
    register_laws::law_bytes_of_value(val);
    assert(d.regs.table[i].fits());
    law_bits_of_written_entry(d.regs.table[i], is_high_bits, val);
}

/// After either half of a pin's entry was written, whatever its trigger mode and its mask, the pin
/// needs a route for the message of the new entry, but for a message without data: for its event
/// if it has one, otherwise with a new event. An interrupt has to be injected exactly if the pin
/// is now level-triggered, unmasked and without remote IRR, its line is asserted, it has an event,
/// and it is not the clock's with an interrupt in service.
pub proof fn law_what_an_entry_write_asks_for<E>(
    d: Device<E>,
    i: int,
    is_high_bits: bool,
    val: u32,
)
    requires
        d.wf(),
        0 <= i < 24,
    ensures
        ({
            let sel = (if is_high_bits {
                0x11 + 2 * i
            } else {
                0x10 + 2 * i
            }) as u8;
            let update = d.written(0x0, seq![sel]).write_update(
                0x10,
                on_bus(d.byte_order, val),
            );
            let b = half_written(d.regs.table[i].to_bits(), is_high_bits, val);
            &&& update is Some
            &&& update->0.index == i
            &&& update->0.inject <==> {
                &&& (b >> 15) & 1 == 1
                &&& (b >> 16) & 1 == 0
                &&& (b >> 14) & 1 == 0
                &&& d.regs.levels.contains(i)
                &&& d.out_events[i] is Some
                &&& i == 8 ==> !d.rtc_remote_irr
            }
            &&& update->0.route is Some <==> b & 0x87ff != 0
            &&& update->0.route matches Some(setup) ==> {
                &&& setup.index == i
                &&& setup.msi_data == b & 0x87ff
                &&& setup.msi_address == (0xfee0_0000u64 | ((b >> 56) << 12) | (((b >> 11) & 1)
                    << 2))
                &&& match d.out_events[i] {
                    Some(irq_event) => setup.stage == MsiStage::<E>::RouteSend {
                        gsi: irq_event.gsi,
                    },
                    None => setup.stage == MsiStage::<E>::CreateEvent,
                }
            }
        }),
{
    let sel = (if is_high_bits {
        0x11 + 2 * i
    } else {
        0x10 + 2 * i
    }) as u8;
    let b = half_written(d.regs.table[i].to_bits(), is_high_bits, val);
    register_laws::law_selectors_count_pins(sel, i, is_high_bits);
    register_laws::law_bytes_of_value(val);
    assert(d.regs.table[i].fits());
    law_bits_of_written_entry(d.regs.table[i], is_high_bits, val);
    register_laws::law_entry_layout(b);
    register_laws::law_message_data(b);
    register_laws::law_message_address(b);
    assert(b & 0x87ff <= 0x87ff && (0xfee0_0000u64 | ((b >> 56) << 12) | (((b >> 11) & 1) << 2))
        <= 0xffff_ffff && ((b >> 16) & 1 == 0 || (b >> 16) & 1 == 1) && ((b >> 14) & 1 == 0 || (b
        >> 14) & 1 == 1)) by (bit_vector);
}

/// A read of a pin's selector shows that half of its entry.
pub proof fn law_guest_reads_entry<E>(d: Device<E>, i: int, is_high_bits: bool, buf: Seq<u8>)
    requires
        d.wf(),
        0 <= i < 24,
        buf.len() == 4,
    ensures
        ({
            let sel = (if is_high_bits {
                0x11 + 2 * i
            } else {
                0x10 + 2 * i
            }) as u8;
            let b = d.regs.table[i].to_bits();
            d.written(0x0, seq![sel]).read_bytes(0x10, buf) == on_bus(
                d.byte_order,
                (if is_high_bits {
                    b >> 32
                } else {
                    b & 0xffff_ffff
                }) as u32,
            )
        }),
{
    let sel = (if is_high_bits {
        0x11 + 2 * i
    } else {
        0x10 + 2 * i
    }) as u8;
    let b = d.regs.table[i].to_bits();
    register_laws::law_selectors_count_pins(sel, i, is_high_bits);
    let half = d.regs.table[i].half(is_high_bits);
    register_laws::law_bytes_of_value(half);
    assert(bits::field(b, 32, 32) == b >> 32 && bits::field(b, 0, 32) == b & 0xffff_ffff)
        by (bit_vector);
    assert(d.written(0x0, seq![sel]).read_bytes(0x10, buf) =~= on_bus(d.byte_order, half));
}

/// What the data window shows for the selectors that name no entry: 0 and 2 the lowest four bits
/// of the id in bits 24 to 27, 1 the version, other low ones zero, those past the table all ones.
pub proof fn law_guest_reads_other_registers<E>(d: Device<E>, sel: u8, buf: Seq<u8>)
    requires
        d.wf(),
        sel < 0x10 || sel >= 0x40,
        buf.len() == 4,
    ensures
        d.written(0x0, seq![sel]).read_bytes(0x10, buf) == on_bus(
            d.byte_order,
            if sel == 0 || sel == 2 {
                (d.regs.ioapicid & 0xf) << 24
            } else if sel == 1 {
                0x0017_0011
            } else if sel < 0x10 {
                0
            } else {
                0xffff_ffff
            },
        ),
{
    register_laws::law_selectors_count_pins(sel, 0, false);
    let id = d.regs.ioapicid;
    assert((id & 0xf) << 24 == (id % 0x10 * 0x100_0000) as u32) by (bit_vector);
    let shown = d.written(0x0, seq![sel]).window();
    register_laws::law_bytes_of_value(shown);
    assert(d.written(0x0, seq![sel]).read_bytes(0x10, buf) =~= on_bus(d.byte_order, shown));
}

/// A write to a selector that names no entry sets the id to bits 24 to 27 of the value if the
/// selector is 0, changes nothing otherwise, and asks for nothing.
pub proof fn law_guest_writes_other_registers<E>(d: Device<E>, sel: u8, val: u32)
    requires
        d.wf(),
        sel < 0x10 || sel >= 0x40,
    ensures
        ({
            let selected = d.written(0x0, seq![sel]);
            let bytes = on_bus(d.byte_order, val);
            &&& selected.write_update(0x10, bytes) is None
            &&& selected.written(0x10, bytes) == (Device {
                regs: Registers {
                    ioregsel: sel,
                    ioapicid: if sel == 0 {
                        (val >> 24) & 0xf
                    } else {
                        d.regs.ioapicid
                    },
                    ..d.regs
                },
                ..d
            })
        }),
{
    register_laws::law_selectors_count_pins(sel, 0, false);
    register_laws::law_bytes_of_value(val);
    assert((val >> 24) & 0xf == val / 0x100_0000 % 0x10) by (bit_vector);
}

/// A read fills in the first four bytes, or as many as there are, of what is at its place: the
/// selector at 0, zero at 4, the data window at 0x10. The other bytes stay as they were, and all
/// of them do if the size is bad or there is nothing at the place.
pub proof fn law_reads_fill_bytes<E>(d: Device<E>, offset: u64, data: Seq<u8>, full: Seq<u8>, k: int)
    requires
        d.wf(),
        0 <= k < data.len(),
        full.len() == 4,
    ensures
        ({
            let off = offset % 0x100;
            let r = d.read_bytes(offset, data);
            let answered = data.len() <= 8 && (off == 0 || off == 4 || off == 0x10);
            &&& r.len() == data.len()
            &&& !answered || k >= 4 ==> r[k] == data[k]
            &&& answered && k < 4 && off == 0 ==> r[k] == on_bus(
                d.byte_order,
                d.regs.ioregsel as u32,
            )[k]
            &&& answered && k < 4 && off == 4 ==> r[k] == 0
            &&& answered && k < 4 && off == 0x10 ==> r[k] == d.read_bytes(0x10, full)[k]
        }),
{
    register_laws::law_bytes_of_value(d.regs.ioregsel as u32);
    register_laws::law_bytes_of_value(0);
    assert(0u32 & 0xff == 0 && (0u32 >> 8) & 0xff == 0 && (0u32 >> 16) & 0xff == 0 && 0u32 >> 24
        == 0) by (bit_vector);
}

/// A write has an effect only at place 0, where its first byte becomes the selector, and with four
/// bytes at place 0x10; both also under offsets that name the place in their lowest eight bits.
pub proof fn law_where_writes_have_an_effect<E>(d: Device<E>, offset: u64, data: Seq<u8>)
    requires
        d.wf(),
    ensures
        ({
            let off = offset % 0x100;
            let after = d.written(offset, data);
            let sized = 1 <= data.len() <= 8;
            &&& sized && off == 0 ==> after == (Device {
                regs: Registers { ioregsel: data[0], ..d.regs },
                ..d
            })
            &&& off == 0x10 && data.len() == 4 ==> after == d.written(0x10, data)
                && d.write_update(offset, data) == d.write_update(0x10, data)
            &&& !(sized && off == 0) && !(off == 0x10 && data.len() == 4) ==> after == d
            &&& !(off == 0x10 && data.len() == 4) ==> d.write_update(offset, data) is None
        }),
{
}

/// Four bytes on the bus are those of one value, so that what is said of values holds of all
/// writes to the data window.
pub proof fn law_all_bytes_are_of_a_value(byte_order: ByteOrder, data: Seq<u8>)
    requires
        data.len() == 4,
    ensures
        on_bus(byte_order, byte_order.value_of(data)) == data,
{
    let val = byte_order.value_of(data);
    register_laws::law_value_of_bytes(data);
    let (b0, b1, b2, b3) = match byte_order {
        ByteOrder::Little => (data[0], data[1], data[2], data[3]),
        ByteOrder::Big => (data[3], data[2], data[1], data[0]),
    };
    assert((val & 0xff) as u8 == b0 && ((val >> 8) & 0xff) as u8 == b1 && ((val >> 16) & 0xff) as u8
        == b2 && (val >> 24) as u8 == b3) by (bit_vector)
        requires
            val == b0 + b1 * 0x100 + b2 * 0x1_0000 + b3 * 0x100_0000,
    ;
    assert(on_bus(byte_order, val) =~= data);
}

// Routes.

/// A route is begun for every message with data: for the event of the pin if it has one, otherwise
/// with the creation of an event; it is about that pin and that message.
pub proof fn law_how_a_route_begins<E>(d: Device<E>, index: usize, msi_address: u64, msi_data: u32)
    requires
        d.wf(),
        index < 24,
    ensures
        d.msi_setup(index, msi_address, msi_data) is Some <==> msi_data != 0,
        d.msi_setup(index, msi_address, msi_data) matches Some(setup) ==> {
            &&& setup.index == index
            &&& setup.msi_address == msi_address
            &&& setup.msi_data == msi_data
            &&& setup.stage is CreateEvent <==> d.out_events[index as int] is None
            &&& setup.stage is RouteSend <==> d.out_events[index as int] is Some
            &&& d.out_events[index as int] matches Some(irq_event) ==> setup.stage
                == MsiStage::<E>::RouteSend { gsi: irq_event.gsi }
        },
{
}

/// What each stage of a conversation asks for: the request for a new route is about the event that
/// was created, the request to set a message about the route of the stage and the message that the
/// conversation was begun with.
pub proof fn law_what_each_stage_asks_for<E>(setup: MsiSetup<E>)
    ensures
        setup.stage is CreateEvent ==> setup.next_request() is CreateEvent,
        setup.stage matches MsiStage::AllocateSend { event } ==> setup.next_request()
            == MsiRequest::<E>::Send(VmIrqRequest::AllocateOneMsi { irqfd: &event }),
        setup.stage is AllocateRecv ==> setup.next_request() is Receive,
        setup.stage matches MsiStage::RouteSend { gsi } ==> setup.next_request()
            == MsiRequest::<E>::Send(
            VmIrqRequest::AddMsiRoute {
                gsi,
                msi_address: setup.msi_address,
                msi_data: setup.msi_data,
            },
        ),
        setup.stage is RouteRecv ==> setup.next_request() is Receive,
{
}

} // verus!
