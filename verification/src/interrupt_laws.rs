//! What holds of interrupts, from the assertion of a line to the end of the interrupt.
use crate::bus_laws;
use crate::entry::RedirectionEntry;
use crate::model::{Device, EoiAction, ServiceStep, RTC_IRQ};
use crate::msi::{MsiReply, MsiSetup};
use crate::selector;
use crate::state::{Registers, NUM_IOAPIC_PINS};
use vstd::prelude::*;

verus! {

/// An interrupt of the pin has been injected and the guest has not said that it has ended.
pub open spec fn in_service<E>(d: Device<E>, irq: int) -> bool {
    ||| d.regs.table[irq].trigger_mode is Level && d.regs.table[irq].remote_irr
    ||| irq == RTC_IRQ && d.rtc_remote_irr
}

/// Something that happens between two ends of interrupt.
pub enum Activity {
    /// The line is asserted or released.
    Line(int, bool),
    /// The outgoing event of the pin has been written, with success or without.
    InjectResult(int, bool),
}

impl Activity {
    /// It happens at a pin that the controller has.
    pub open spec fn at_a_pin(self) -> bool {
        match self {
            Activity::Line(irq, _) => 0 <= irq < NUM_IOAPIC_PINS,
            Activity::InjectResult(irq, _) => 0 <= irq < NUM_IOAPIC_PINS,
        }
    }
}

/// The controller after one thing has happened.
pub open spec fn step<E>(d: Device<E>, activity: Activity) -> Device<E> {
    match activity {
        Activity::Line(irq, asserted) => d.serviced(irq, asserted),
        Activity::InjectResult(irq, success) => d.inject_result(irq, success),
    }
}

/// The controller after several things have happened.
pub open spec fn steps<E>(d: Device<E>, activities: Seq<Activity>) -> Device<E>
    decreases activities.len(),
{
    if activities.len() == 0 {
        d
    } else {
        step(steps(d, activities.drop_last()), activities.last())
    }
}

/// The controller after a line has changed and, where an interrupt had to be injected for it, has
/// been told what came of that; and whether the change took effect.
pub open spec fn serviced_with<E>(d: Device<E>, irq: int, asserted: bool, success: bool) -> (
    Device<E>,
    bool,
) {
    match d.service_step(irq, asserted) {
        ServiceStep::Done(result) => (d.serviced(irq, asserted), result),
        ServiceStep::Inject => (d.serviced(irq, asserted).inject_result(irq, success), success),
    }
}

/// Releasing a line always takes effect; asserting it does exactly if an interrupt was injected.
/// Where none was, the controller has only noted that the line is asserted. Other pins are not
/// concerned.
pub proof fn law_change_takes_effect_if_injected<E>(
    d: Device<E>,
    irq: int,
    asserted: bool,
    success: bool,
    other: int,
)
    requires
        d.wf(),
        0 <= irq < NUM_IOAPIC_PINS,
        0 <= other < NUM_IOAPIC_PINS,
        other != irq,
    ensures
        serviced_with(d, irq, asserted, success).1 <==> !asserted || d.delivers(irq) && success,
        asserted && !serviced_with(d, irq, asserted, success).1 ==> serviced_with(
            d,
            irq,
            asserted,
            success,
        ).0 == d.with_levels(d.regs.levels.insert(irq)),
        serviced_with(d, irq, asserted, success).0.regs.levels.contains(irq) == asserted,
        serviced_with(d, irq, asserted, success).0.regs.levels.contains(other)
            == d.regs.levels.contains(other),
        serviced_with(d, irq, asserted, success).0.regs.table[other] == d.regs.table[other],
        serviced_with(d, irq, asserted, success).0.out_events == d.out_events,
{
}

/// The level that asserts a low-active pin's interrupt is the one that releases a high-active
/// pin's: at an unmasked low-active pin that is not in service and whose line was released, a low
/// line injects an interrupt, and a high line only counts as released.
pub proof fn law_low_line_asserts_low_active_pin<E>(d: Device<E>, irq: int)
    requires
        d.wf(),
        0 <= irq < NUM_IOAPIC_PINS,
        d.regs.table[irq].polarity == 1,
        !d.regs.table[irq].interrupt_mask,
        d.out_events[irq] is Some,
        !d.regs.levels.contains(irq),
        !in_service(d, irq),
    ensures
        d.service_step(irq, d.asserts(irq, false)) == ServiceStep::Inject,
        d.serviced(irq, d.asserts(irq, false)).regs.levels.contains(irq),
        d.service_step(irq, d.asserts(irq, true)) == ServiceStep::Done(true),
        !d.serviced(irq, d.asserts(irq, true)).regs.levels.contains(irq),
{
}

/// An interrupt that has been injected at a level-triggered pin or at the clock's pin is in
/// service.
pub proof fn law_injection_enters_service<E>(d: Device<E>, irq: int)
    requires
        d.wf(),
        0 <= irq < NUM_IOAPIC_PINS,
        d.regs.table[irq].trigger_mode is Level || irq == RTC_IRQ,
    ensures
        in_service(d.inject_result(irq, true), irq),
{
}

/// Interrupts are coalesced: while one is in service, no assertion of the line injects another,
/// however often the line is released and asserted and whatever happens at other pins.
pub proof fn law_interrupts_in_service_coalesce<E>(d: Device<E>, irq: int, activities: Seq<Activity>)
    requires
        d.wf(),
        0 <= irq < NUM_IOAPIC_PINS,
        in_service(d, irq),
        forall|k: int| 0 <= k < activities.len() ==> (#[trigger] activities[k]).at_a_pin(),
    ensures
        steps(d, activities).wf(),
        in_service(steps(d, activities), irq),
        steps(d, activities).service_step(irq, true) == ServiceStep::Done(false),
    decreases activities.len(),
{
    if activities.len() > 0 {
        law_interrupts_in_service_coalesce(d, irq, activities.drop_last());
        let before = steps(d, activities.drop_last());
        assert(activities.last().at_a_pin());
        assert(before.regs.table.len() == NUM_IOAPIC_PINS);
    }
}

/// A write over the bus that leaves the trigger mode of the pin as it was keeps its interrupt in
/// service, and does not inject another at the pin.
pub proof fn law_writes_keep_service<E>(d: Device<E>, irq: int, offset: u64, data: Seq<u8>)
    requires
        d.wf(),
        0 <= irq < NUM_IOAPIC_PINS,
        in_service(d, irq),
        d.written(offset, data).regs.table[irq].trigger_mode == d.regs.table[irq].trigger_mode,
    ensures
        in_service(d.written(offset, data), irq),
        d.write_update(offset, data) matches Some(update) ==> update.index == irq ==> !update.inject,
{
    bus_laws::law_status_bits_are_read_only(d, offset, data, irq);
}

/// The end of an interrupt with another vector keeps the pin's interrupt in service, and injects
/// no other at the pin.
pub proof fn law_other_vectors_keep_service<E>(d: Device<E>, irq: usize, vector: u8)
    requires
        d.wf(),
        irq < NUM_IOAPIC_PINS,
        in_service(d, irq as int),
        d.regs.table[irq as int].vector != vector,
    ensures
        in_service(d.ended(vector), irq as int),
        !d.eoi_actions(vector, NUM_IOAPIC_PINS as nat).contains(EoiAction::Inject(irq)),
{
    law_end_of_interrupt_actions(d, vector, NUM_IOAPIC_PINS as nat);
}

/// The end of an interrupt takes exactly the pins with its vector out of service.
pub proof fn law_end_of_interrupt_ends_service<E>(d: Device<E>, irq: int, vector: u8)
    requires
        d.wf(),
        0 <= irq < NUM_IOAPIC_PINS,
        in_service(d, irq),
    ensures
        in_service(d.ended(vector), irq) <==> d.regs.table[irq].vector != vector,
{
}

/// After the end of an interrupt the next assertion of the released line is injected again.
pub proof fn law_next_interrupt_is_injected<E>(d: Device<E>, irq: int, vector: u8)
    requires
        d.wf(),
        0 <= irq < NUM_IOAPIC_PINS,
        d.regs.table[irq].vector == vector,
        !d.regs.table[irq].interrupt_mask,
        d.out_events[irq] is Some,
        !d.regs.levels.contains(irq),
    ensures
        d.ended(vector).service_step(irq, true) == ServiceStep::Inject,
{
}

/// What has to be done at the end of an interrupt: the resample events of each pin that it is one
/// of, and one more interrupt for each pin whose line calls for it; nothing twice.
pub proof fn law_end_of_interrupt_actions<E>(d: Device<E>, vector: u8, pins: nat)
    requires
        d.wf(),
        pins <= NUM_IOAPIC_PINS,
    ensures
        forall|i: usize|
            #[trigger] d.eoi_actions(vector, pins).contains(EoiAction::Resample(i)) <==> i < pins
                && d.resamples(i as int, vector),
        forall|i: usize|
            #[trigger] d.eoi_actions(vector, pins).contains(EoiAction::Inject(i)) <==> i < pins
                && d.reinjects(i as int, vector),
        d.eoi_actions(vector, pins).no_duplicates(),
    decreases pins,
{
    if pins > 0 {
        let n = (pins - 1) as nat;
        law_end_of_interrupt_actions(d, vector, n);
        let init = d.eoi_actions(vector, n);
        let last = d.eoi_actions_at(vector, n as int);
        let all = d.eoi_actions(vector, pins);
        assert(all == init + last);
        assert forall|a: EoiAction| #[trigger] all.contains(a) <==> init.contains(a)
            || last.contains(a) by {
            if init.contains(a) {
                let k = init.index_of(a);
                assert(all[k] == a);
            }
            if last.contains(a) {
                let k = last.index_of(a);
                assert(all[init.len() + k] == a);
            }
            if all.contains(a) {
                let k = all.index_of(a);
                if k < init.len() {
                    assert(init[k] == a);
                } else {
                    assert(last[k - init.len()] == a);
                }
            }
        }
        let k = n as usize;
        assert forall|a: EoiAction| #[trigger] last.contains(a) <==> (a == EoiAction::Resample(k)
            && d.resamples(n as int, vector)) || (a == EoiAction::Inject(k) && d.reinjects(
            n as int,
            vector,
        )) by {
            if d.resamples(n as int, vector) {
                assert(last[0] == EoiAction::Resample(k));
            }
            if d.reinjects(n as int, vector) {
                assert(last.last() == EoiAction::Inject(k));
            }
        }
        assert forall|i: int, j: int| 0 <= i < j < all.len() implies all[i] != all[j] by {
            if j < init.len() {
                assert(init[i] != init[j]);
            } else {
                assert(last.contains(last[j - init.len()]));
                if i < init.len() {
                    assert(init.contains(init[i]));
                }
            }
        }
    }
}

/// A level-triggered line that is still asserted at the end of its interrupt raises another, and
/// that is in service once it has been injected.
pub proof fn law_asserted_level_is_reinjected<E>(d: Device<E>, irq: usize, vector: u8)
    requires
        d.wf(),
        irq < NUM_IOAPIC_PINS,
        d.ends(irq as int, vector),
        !d.resamples(irq as int, vector),
        d.regs.levels.contains(irq as int),
        !d.regs.table[irq as int].interrupt_mask,
        d.out_events[irq as int] is Some,
    ensures
        d.eoi_actions(vector, NUM_IOAPIC_PINS as nat).contains(EoiAction::Inject(irq)),
        in_service(d.ended(vector).inject_result(irq as int, true), irq as int),
{
    law_end_of_interrupt_actions(d, vector, NUM_IOAPIC_PINS as nat);
}

/// Where resample events are registered for a level-triggered pin, the end of its interrupt has
/// them written and releases the line; no interrupt is injected for it.
pub proof fn law_resampled_line_is_released<E>(d: Device<E>, irq: usize, vector: u8)
    requires
        d.wf(),
        irq < NUM_IOAPIC_PINS,
        d.resamples(irq as int, vector),
    ensures
        !d.ended(vector).regs.levels.contains(irq as int),
        d.eoi_actions(vector, NUM_IOAPIC_PINS as nat).contains(EoiAction::Resample(irq)),
        !d.eoi_actions(vector, NUM_IOAPIC_PINS as nat).contains(EoiAction::Inject(irq)),
{
    law_end_of_interrupt_actions(d, vector, NUM_IOAPIC_PINS as nat);
}

/// Once an edge-triggered line is asserted, further assertions are ignored, also after an end of
/// interrupt, which injects nothing for it either.
pub proof fn law_asserted_edge_is_ignored<E>(d: Device<E>, irq: usize, vector: u8)
    requires
        d.wf(),
        irq < NUM_IOAPIC_PINS,
        d.regs.table[irq as int].trigger_mode is Edge,
        d.regs.levels.contains(irq as int),
    ensures
        d.service_step(irq as int, true) == ServiceStep::Done(false),
        d.serviced(irq as int, true) == d,
        d.ended(vector).regs.levels.contains(irq as int),
        d.ended(vector).service_step(irq as int, true) == ServiceStep::Done(false),
        !d.eoi_actions(vector, NUM_IOAPIC_PINS as nat).contains(EoiAction::Inject(irq)),
{
    law_end_of_interrupt_actions(d, vector, NUM_IOAPIC_PINS as nat);
    assert(d.regs.levels.insert(irq as int) =~= d.regs.levels);
}

/// An edge-triggered line that is released and asserted again injects an interrupt each time: no
/// end of interrupt is needed in between, but at the clock's pin.
pub proof fn law_edges_inject<E>(d: Device<E>, irq: int)
    requires
        d.wf(),
        0 <= irq < NUM_IOAPIC_PINS,
        irq != RTC_IRQ,
        d.regs.table[irq].trigger_mode is Edge,
        !d.regs.table[irq].interrupt_mask,
        d.out_events[irq] is Some,
    ensures
        d.serviced(irq, false).service_step(irq, true) == ServiceStep::Inject,
        ({
            let again = d.serviced(irq, false).serviced(irq, true).inject_result(irq, true);
            again.serviced(irq, false).service_step(irq, true) == ServiceStep::Inject
        }),
{
}

/// A masked pin injects nothing, but its line is tracked.
pub proof fn law_masked_line_is_tracked<E>(d: Device<E>, irq: int, asserted: bool)
    requires
        d.wf(),
        0 <= irq < NUM_IOAPIC_PINS,
        d.regs.table[irq].interrupt_mask,
    ensures
        d.service_step(irq, asserted) == ServiceStep::Done(!asserted),
        d.serviced(irq, asserted).regs.levels.contains(irq) == asserted,
{
}

/// Whatever is written over the bus, the write itself injects an interrupt only at a
/// level-triggered, unmasked pin whose line is asserted and which is not in service.
pub proof fn law_write_injects_asserted_levels_only<E>(d: Device<E>, offset: u64, data: Seq<u8>)
    requires
        d.wf(),
    ensures
        d.write_update(offset, data) matches Some(update) ==> {
            let after = d.written(offset, data);
            let irq = update.index as int;
            &&& irq < NUM_IOAPIC_PINS
            &&& update.inject <==> after.regs.table[irq].trigger_mode is Level
                && !after.regs.table[irq].interrupt_mask && after.regs.levels.contains(irq)
                && !in_service(after, irq) && after.out_events[irq] is Some
        },
{
}

/// A level-triggered line that was asserted while the pin was masked injects an interrupt when
/// the pin is unmasked by a write of the low half of its entry.
pub proof fn law_unmasking_injects_asserted_level<E>(d: Device<E>, irq: int)
    requires
        d.wf(),
        0 <= irq < NUM_IOAPIC_PINS,
        d.regs.table[irq].trigger_mode is Level,
        d.regs.levels.contains(irq),
        !in_service(d, irq),
        d.out_events[irq] is Some,
    ensures
        ({
            let entry = RedirectionEntry { interrupt_mask: false, ..d.regs.table[irq] };
            let selected = bus_laws::select(d, bus_laws::half_selector(irq, false));
            let update = selected.write_update(
                selector::IOWIN_OFF as u64,
                d.byte_order.bytes_of(entry.half(false)),
            );
            update is Some && update->0.index == irq && update->0.inject
        }),
{
    let entry = RedirectionEntry { interrupt_mask: false, ..d.regs.table[irq] };
    let val = entry.half(false);
    let low = bus_laws::half_selector(irq, false);
    bus_laws::law_selector_names_its_pin(irq, false);
    bus_laws::lemma_register_access(d, low, val);
    crate::byte_order::lemma_bytes_round_trip(d.byte_order, val);
    bus_laws::lemma_low_written_of_entry(d.regs.table[irq], entry);
}

/// An edge-triggered pin that is unmasked after its line was asserted and released injects an
/// interrupt at the next assertion.
pub proof fn law_unmasked_edge_injects<E>(d: Device<E>, irq: int)
    requires
        d.wf(),
        0 <= irq < NUM_IOAPIC_PINS,
        irq != RTC_IRQ,
        d.regs.table[irq].trigger_mode is Edge,
        d.out_events[irq] is Some,
    ensures
        ({
            let released = d.serviced(irq, true).serviced(irq, false);
            let unmasked = bus_laws::write_entry(
                released,
                irq,
                RedirectionEntry { interrupt_mask: false, ..d.regs.table[irq] },
            );
            unmasked.service_step(irq, true) == ServiceStep::Inject
        }),
{
    let released = d.serviced(irq, true).serviced(irq, false);
    bus_laws::law_entry_writes(
        released,
        irq,
        RedirectionEntry { interrupt_mask: false, ..d.regs.table[irq] },
    );
}

/// No edge-triggered pin has its remote IRR set.
pub open spec fn edges_are_clear<E>(d: Device<E>) -> bool {
    forall|i: int|
        0 <= i < NUM_IOAPIC_PINS && d.regs.table[i].trigger_mode is Edge ==> !(
        #[trigger] d.regs.table[i]).remote_irr
}

/// From power-up on no edge-triggered pin ever has its remote IRR set, unless a register state
/// that has one is put in place.
pub proof fn law_edge_pins_have_no_remote_irr<E, S, M>(
    d: Device<E>,
    irq: int,
    flag: bool,
    vector: u8,
    offset: u64,
    data: Seq<u8>,
    setup: MsiSetup<E>,
    reply: MsiReply<E, S, M>,
    resample_events: Seq<Seq<E>>,
    regs: Registers,
)
    requires
        d.wf(),
        0 <= irq < NUM_IOAPIC_PINS,
        edges_are_clear(d),
    ensures
        edges_are_clear(Device::<E>::initial(d.byte_order)),
        edges_are_clear(d.serviced(irq, flag)),
        edges_are_clear(d.inject_result(irq, flag)),
        edges_are_clear(d.ended(vector)),
        edges_are_clear(d.written(offset, data)),
        edges_are_clear(d.msi_replied(setup, reply)),
        edges_are_clear(Device { resample_events, ..d }),
        edges_are_clear(Device { regs, ..d }) <==> forall|i: int|
            0 <= i < NUM_IOAPIC_PINS && regs.table[i].trigger_mode is Edge ==> !(
            #[trigger] regs.table[i]).remote_irr,
{
    let b0 = 0u64;
    assert(crate::bits::field(b0, 14, 1) == 0) by (bit_vector)
        requires
            b0 == 0,
    ;
    let val = d.byte_order.value_of(data);
    assert forall|i: int|
        0 <= i < NUM_IOAPIC_PINS && d.written(offset, data).regs.table[i].trigger_mode is Edge
        implies !(#[trigger] d.written(offset, data).regs.table[i]).remote_irr by {
        assert(d.regs.table[i].fits());
        bus_laws::law_status_bits_are_read_only(d, offset, data, i);
        bus_laws::lemma_high_written(d.regs.table[i], val);
    }
}

// An end of interrupt that is carried out pin by pin.

/// The controller after the interrupt has ended at one pin, where it is known at once whether an
/// interrupt that has to be injected then could be injected.
pub open spec fn ended_at<E>(d: Device<E>, vector: u8, irq: int, success: bool) -> Device<E> {
    let released = if d.resamples(irq, vector) {
        d.serviced(irq, false)
    } else {
        d
    };
    let acknowledged = if d.ends(irq, vector) {
        released.with_entry(
            irq,
            RedirectionEntry { remote_irr: false, ..released.regs.table[irq] },
        )
    } else {
        released
    };
    if !acknowledged.regs.levels.contains(irq) {
        acknowledged
    } else if acknowledged.service_step(irq, true) == ServiceStep::Inject {
        acknowledged.serviced(irq, true).inject_result(irq, success)
    } else {
        acknowledged.serviced(irq, true)
    }
}

/// The controller after the interrupt has ended at the clock's flag and then, one after the other,
/// at the lowest `pins` pins.
pub open spec fn ended_pin_by_pin<E>(
    d: Device<E>,
    vector: u8,
    success: spec_fn(int) -> bool,
    pins: nat,
) -> Device<E>
    decreases pins,
{
    if pins == 0 {
        Device {
            rtc_remote_irr: d.rtc_remote_irr && d.regs.table[RTC_IRQ as int].vector != vector,
            ..d
        }
    } else {
        let n = (pins - 1) as nat;
        ended_at(ended_pin_by_pin(d, vector, success, n), vector, n as int, success(n as int))
    }
}

/// The controller after it has been told what came of the actions.
pub open spec fn reported<E>(
    d: Device<E>,
    actions: Seq<EoiAction>,
    success: spec_fn(int) -> bool,
) -> Device<E>
    decreases actions.len(),
{
    if actions.len() == 0 {
        d
    } else {
        let before = reported(d, actions.drop_last(), success);
        match actions.last() {
            EoiAction::Resample(_) => before,
            EoiAction::Inject(irq) => before.inject_result(irq as int, success(irq as int)),
        }
    }
}

/// `d` with the remote IRR set at those of the lowest `pins` pins where `origin` injects another
/// interrupt and that succeeds.
spec fn marked<E>(
    d: Device<E>,
    origin: Device<E>,
    vector: u8,
    success: spec_fn(int) -> bool,
    pins: int,
) -> Device<E> {
    Device {
        regs: Registers {
            table: Seq::new(
                d.regs.table.len(),
                |i: int|
                    if i < pins && origin.reinjects(i, vector) && success(i) {
                        RedirectionEntry { remote_irr: true, ..d.regs.table[i] }
                    } else {
                        d.regs.table[i]
                    },
            ),
            ..d.regs
        },
        ..d
    }
}

proof fn lemma_reported_append<E>(
    d: Device<E>,
    a: Seq<EoiAction>,
    b: Seq<EoiAction>,
    success: spec_fn(int) -> bool,
)
    ensures
        reported(d, a + b, success) == reported(reported(d, a, success), b, success),
    decreases b.len(),
{
    if b.len() == 0 {
        assert(a + b =~= a);
    } else {
        assert((a + b).drop_last() =~= a + b.drop_last());
        assert((a + b).last() == b.last());
        lemma_reported_append(d, a, b.drop_last(), success);
    }
}

proof fn lemma_reported_marks<E>(
    origin: Device<E>,
    vector: u8,
    success: spec_fn(int) -> bool,
    pins: nat,
)
    requires
        origin.wf(),
        pins <= NUM_IOAPIC_PINS,
    ensures
        reported(origin.ended(vector), origin.eoi_actions(vector, pins), success) == marked(
            origin.ended(vector),
            origin,
            vector,
            success,
            pins as int,
        ),
    decreases pins,
{
    let d = origin.ended(vector);
    let after = marked(d, origin, vector, success, pins as int);
    if pins == 0 {
        assert(after.regs.table =~= d.regs.table);
    } else {
        let n = (pins - 1) as nat;
        lemma_reported_marks(origin, vector, success, n);
        let init = origin.eoi_actions(vector, n);
        let last = origin.eoi_actions_at(vector, n as int);
        let before = marked(d, origin, vector, success, n as int);
        lemma_reported_append(d, init, last, success);
        reveal_with_fuel(reported, 3);
        let r = reported(before, last, success);
        if origin.resamples(n as int, vector) {
            assert(last.drop_last().len() == 0 || last.drop_last() =~= seq![
                EoiAction::Resample(n as usize),
            ]);
        }
        if origin.reinjects(n as int, vector) {
            assert(last.last() == EoiAction::Inject(n as usize));
            assert(r == before.inject_result(n as int, success(n as int)));
        } else {
            assert(r == before);
        }
        assert(r.regs.table =~= after.regs.table);
    }
}

proof fn lemma_pin_by_pin_marks<E>(
    d: Device<E>,
    vector: u8,
    success: spec_fn(int) -> bool,
    pins: nat,
)
    requires
        d.wf(),
        pins <= NUM_IOAPIC_PINS,
    ensures
        ended_pin_by_pin(d, vector, success, pins) == marked(
            d.ended_up_to(vector, pins as int),
            d,
            vector,
            success,
            pins as int,
        ),
    decreases pins,
{
    let after = marked(d.ended_up_to(vector, pins as int), d, vector, success, pins as int);
    let result = ended_pin_by_pin(d, vector, success, pins);
    if pins > 0 {
        let n = (pins - 1) as nat;
        lemma_pin_by_pin_marks(d, vector, success, n);
        let before = ended_pin_by_pin(d, vector, success, n);
        assert(before.regs.table[n as int] == d.regs.table[n as int]);
        assert(before.regs.levels.contains(n as int) == d.regs.levels.contains(n as int));
        assert(before.resamples(n as int, vector) == d.resamples(n as int, vector));
    }
    assert(result.regs.levels =~= after.regs.levels);
    assert(result.regs.table =~= after.regs.table);
}

/// It makes no difference whether an end of interrupt is carried out pin by pin, each injection
/// with its result, or all at once, with the results of the injections reported afterwards.
pub proof fn law_end_of_interrupt_in_one_go<E>(
    d: Device<E>,
    vector: u8,
    success: spec_fn(int) -> bool,
)
    requires
        d.wf(),
    ensures
        ended_pin_by_pin(d, vector, success, NUM_IOAPIC_PINS as nat) == reported(
            d.ended(vector),
            d.eoi_actions(vector, NUM_IOAPIC_PINS as nat),
            success,
        ),
{
    lemma_pin_by_pin_marks(d, vector, success, NUM_IOAPIC_PINS as nat);
    lemma_reported_marks(d, vector, success, NUM_IOAPIC_PINS as nat);
}

} // verus!
