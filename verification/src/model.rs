//! What the controller does, as transitions between mathematical states.
use crate::bits;
use crate::byte_order::ByteOrder;
use crate::entry::RedirectionEntry;
use crate::msi::{IoapicError, IrqEvent, MsiProgress, MsiReply, MsiSetup, MsiStage, VmIrqResponse};
use crate::selector;
use crate::state::{Registers, NUM_IOAPIC_PINS};
use vstd::prelude::*;

verus! {

/// The value of the version register: version 0x11, 24 entries.
pub const IOAPIC_VERSION_ID: u32 = 0x00170011;

/// The pin of the real time clock.
///
/// Guests that make up for lost clock ticks need to know when a clock interrupt was merged with
/// an earlier one. Clock interrupts are therefore merged until the guest has acknowledged them,
/// as level-triggered ones are, although the pin is edge-triggered.
pub const RTC_IRQ: usize = 0x8;

/// What is left to do after a line has changed.
#[derive(Clone, Copy, Debug, PartialEq, Eq, Structural)]
pub enum ServiceStep {
    /// Nothing; the value tells whether the change took effect.
    Done(bool),
    /// The outgoing event of the pin has to be written, and the result reported.
    Inject,
}

/// What has to be done at the end of an interrupt.
#[derive(Clone, Copy, Debug, PartialEq, Eq, Structural)]
pub enum EoiAction {
    /// Every resample event that is registered for the pin has to be written.
    Resample(usize),
    /// The outgoing event of the pin has to be written, and the result reported.
    Inject(usize),
}

/// What has to be done after a redirection table entry was written.
pub struct PinUpdate<E> {
    /// The pin whose entry was written.
    pub index: usize,
    /// Whether the outgoing event of the pin has to be written first, and the result reported.
    pub inject: bool,
    /// The conversation by which the pin gets a route for its new message, if it needs any.
    pub route: Option<MsiSetup<E>>,
}

/// What is wrong with a bus access.
#[derive(Clone, Copy, Debug, PartialEq, Eq, Structural)]
pub enum AccessFault {
    /// It is of no bytes or of more than eight.
    Size,
    /// It lies outside the register window.
    Offset,
    /// There is no register at its place.
    Register,
    /// It writes other than four bytes to the data window.
    WindowSize,
}

/// What is wrong with a read or write of `len` bytes at the offset. A bad size is the only fault
/// where there is one. An access outside the window is one all the same: it goes to the place in
/// the window that the lowest eight bits of the offset name.
pub open spec fn access_faults(is_write: bool, offset: u64, len: nat) -> Seq<AccessFault> {
    if len == 0 || len > 8 {
        seq![AccessFault::Size]
    } else {
        let off = offset % 0x100;
        (if offset >= 0x100 {
            seq![AccessFault::Offset]
        } else {
            seq![]
        }) + (if off == selector::IOWIN_OFF {
            if is_write && len != 4 {
                seq![AccessFault::WindowSize]
            } else {
                seq![]
            }
        } else if off == selector::IOREGSEL_OFF || off
            == selector::IOREGSEL_DUMMY_UPPER_32_BITS_OFF {
            seq![]
        } else {
            seq![AccessFault::Register]
        })
    }
}

impl RedirectionEntry {
    /// The entry after one half of it was written over the bus. Delivery status and remote IRR
    /// are read-only there, but an edge-triggered pin has no remote IRR.
    pub open spec fn written(self, is_high_bits: bool, val: u32) -> RedirectionEntry {
        if is_high_bits {
            RedirectionEntry::of_bits(bits::with_field(self.to_bits(), 32, 32, val as u64))
        } else {
            let raw = RedirectionEntry::of_bits(
                bits::with_field(self.to_bits(), 0, 32, val as u64),
            );
            RedirectionEntry {
                delivery_status: self.delivery_status,
                remote_irr: self.remote_irr && raw.trigger_mode is Level,
                ..raw
            }
        }
    }

    /// One half of the entry, as the bus shows it.
    pub open spec fn half(self, is_high_bits: bool) -> u32 {
        if is_high_bits {
            bits::field(self.to_bits(), 32, 32) as u32
        } else {
            bits::field(self.to_bits(), 0, 32) as u32
        }
    }
}

/// The state of the controller.
#[verifier::ext_equal]
#[verifier::reject_recursive_types(E)]
pub struct Device<E> {
    pub regs: Registers,
    /// A clock interrupt has been injected and not yet been acknowledged.
    pub rtc_remote_irr: bool,
    /// For each pin the event that its interrupts go out by, once it has one.
    pub out_events: Seq<Option<IrqEvent<E>>>,
    /// For each pin the events that are written when its interrupt ends.
    pub resample_events: Seq<Seq<E>>,
    /// The order of the bytes on the bus.
    pub byte_order: ByteOrder,
}

impl<E> Device<E> {
    /// There is an entry and a place for an event for each pin.
    pub open spec fn wf(self) -> bool {
        &&& self.regs.table.len() == NUM_IOAPIC_PINS
        &&& self.out_events.len() == NUM_IOAPIC_PINS
        &&& forall|i: int| 0 <= i < NUM_IOAPIC_PINS ==> (#[trigger] self.regs.table[i]).fits()
    }

    /// A controller after power-up.
    pub open spec fn initial(byte_order: ByteOrder) -> Device<E> {
        Device {
            regs: Registers::initial(),
            rtc_remote_irr: false,
            out_events: Seq::new(NUM_IOAPIC_PINS as nat, |i: int| None),
            resample_events: Seq::empty(),
            byte_order,
        }
    }

    pub open spec fn with_levels(self, levels: Set<int>) -> Device<E> {
        Device { regs: Registers { levels, ..self.regs }, ..self }
    }

    pub open spec fn with_entry(self, irq: int, entry: RedirectionEntry) -> Device<E> {
        Device { regs: Registers { table: self.regs.table.update(irq, entry), ..self.regs }, ..self }
    }

    // Interrupt lines.

    /// An assertion of the line is passed on. It is not if the pin is edge-triggered and the line
    /// was asserted before, if the pin is masked, if an earlier interrupt of it is still being
    /// serviced, or if there is no event to pass it on by.
    pub open spec fn delivers(self, irq: int) -> bool {
        let entry = self.regs.table[irq];
        &&& !(entry.trigger_mode is Edge && self.regs.levels.contains(irq))
        &&& !entry.interrupt_mask
        &&& !(entry.trigger_mode is Level && entry.remote_irr)
        &&& !(irq == RTC_IRQ && self.rtc_remote_irr)
        &&& self.out_events[irq] is Some
    }

    /// A line at this level (`true` is high) asserts the pin's interrupt: a high one does if the
    /// pin is high-active (polarity 0), a low one if it is low-active (polarity 1).
    pub open spec fn asserts(self, irq: int, level: bool) -> bool {
        level != (self.regs.table[irq].polarity == 1)
    }

    /// The line has been asserted or released.
    pub open spec fn serviced(self, irq: int, asserted: bool) -> Device<E> {
        if asserted {
            self.with_levels(self.regs.levels.insert(irq))
        } else {
            self.with_levels(self.regs.levels.remove(irq))
        }
    }

    /// What is left to do when the line is asserted or released.
    pub open spec fn service_step(self, irq: int, asserted: bool) -> ServiceStep {
        if !asserted {
            ServiceStep::Done(true)
        } else if self.delivers(irq) {
            ServiceStep::Inject
        } else {
            ServiceStep::Done(false)
        }
    }

    /// An interrupt of the pin has been injected: it is in service until the guest says that it
    /// has ended.
    pub open spec fn injected(self, irq: int) -> Device<E> {
        let entry = self.regs.table[irq];
        if entry.trigger_mode is Level {
            self.with_entry(irq, RedirectionEntry { remote_irr: true, ..entry })
        } else if irq == RTC_IRQ {
            Device { rtc_remote_irr: true, ..self }
        } else {
            self
        }
    }

    /// The outgoing event of the pin has been written, with success or without.
    pub open spec fn inject_result(self, irq: int, success: bool) -> Device<E> {
        if success {
            self.injected(irq)
        } else {
            self
        }
    }

    // End of interrupt.

    /// The interrupt that ends is a level-triggered one of the pin.
    pub open spec fn ends(self, irq: int, vector: u8) -> bool {
        &&& self.regs.table[irq].vector == vector
        &&& self.regs.table[irq].trigger_mode is Level
    }

    /// The interrupt that ends is one of the pin, and somebody wants to be told.
    pub open spec fn resamples(self, irq: int, vector: u8) -> bool {
        &&& self.ends(irq, vector)
        &&& irq < self.resample_events.len()
        &&& self.resample_events[irq].len() > 0
    }

    /// The state after the interrupt has ended at the lowest `pins` pins.
    pub open spec fn ended_up_to(self, vector: u8, pins: int) -> Device<E> {
        Device {
            regs: Registers {
                levels: self.regs.levels.filter(
                    |i: int| !(0 <= i < pins && self.resamples(i, vector)),
                ),
                table: Seq::new(
                    self.regs.table.len(),
                    |i: int|
                        if i < pins && self.ends(i, vector) {
                            RedirectionEntry { remote_irr: false, ..self.regs.table[i] }
                        } else {
                            self.regs.table[i]
                        },
                ),
                ..self.regs
            },
            rtc_remote_irr: self.rtc_remote_irr && self.regs.table[RTC_IRQ as int].vector != vector,
            ..self
        }
    }

    /// The state after the interrupt has ended: pins that it is one of are no longer in service,
    /// and their lines count as released where somebody is told to assert them again.
    pub open spec fn ended(self, vector: u8) -> Device<E> {
        self.ended_up_to(vector, NUM_IOAPIC_PINS as int)
    }

    /// A line that is still asserted then raises another interrupt.
    pub open spec fn reinjects(self, irq: int, vector: u8) -> bool {
        &&& self.ended(vector).regs.levels.contains(irq)
        &&& self.ended(vector).delivers(irq)
    }

    /// What has to be done at the end of the interrupt for one pin.
    pub open spec fn eoi_actions_at(self, vector: u8, irq: int) -> Seq<EoiAction> {
        (if self.resamples(irq, vector) {
            seq![EoiAction::Resample(irq as usize)]
        } else {
            seq![]
        }) + (if self.reinjects(irq, vector) {
            seq![EoiAction::Inject(irq as usize)]
        } else {
            seq![]
        })
    }

    /// What has to be done at the end of the interrupt for the lowest `pins` pins.
    pub open spec fn eoi_actions(self, vector: u8, pins: nat) -> Seq<EoiAction>
        decreases pins,
    {
        if pins == 0 {
            seq![]
        } else {
            self.eoi_actions(vector, (pins - 1) as nat) + self.eoi_actions_at(vector, pins - 1)
        }
    }

    // Registers on the bus.

    /// The register that the data window shows.
    pub open spec fn window(self) -> u32 {
        let sel = self.regs.ioregsel;
        if sel == selector::IOAPIC_REG_VERSION {
            IOAPIC_VERSION_ID
        } else if sel == selector::IOAPIC_REG_ID || sel == selector::IOAPIC_REG_ARBITRATION_ID {
            (self.regs.ioapicid % 0x10 * 0x100_0000) as u32
        } else if sel < selector::IOWIN_OFF {
            0
        } else if selector::selected_irq(sel) < NUM_IOAPIC_PINS {
            self.regs.table[selector::selected_irq(sel)].half(selector::selects_high(sel))
        } else {
            0xffff_ffff
        }
    }

    /// The value that a read at the offset gives; only the lowest eight bits of the offset count.
    pub open spec fn read_value(self, offset: u64) -> Option<u32> {
        let off = offset % 0x100;
        if off == selector::IOREGSEL_OFF {
            Some(self.regs.ioregsel as u32)
        } else if off == selector::IOREGSEL_DUMMY_UPPER_32_BITS_OFF {
            Some(0)
        } else if off == selector::IOWIN_OFF {
            Some(self.window())
        } else {
            None
        }
    }

    /// What a read at the offset makes of the bytes that it is to fill.
    pub open spec fn read_bytes(self, offset: u64, data: Seq<u8>) -> Seq<u8> {
        match self.read_value(offset) {
            Some(val) if 1 <= data.len() <= 8 => Seq::new(
                data.len(),
                |i: int|
                    if i < 4 {
                        self.byte_order.bytes_of(val)[i]
                    } else {
                        data[i]
                    },
            ),
            _ => data,
        }
    }

    /// The selector names an entry of the redirection table.
    pub open spec fn selects_entry(self) -> bool {
        &&& self.regs.ioregsel >= selector::IOWIN_OFF
        &&& selector::selected_irq(self.regs.ioregsel) < NUM_IOAPIC_PINS
    }

    /// The state after a write to the data window.
    pub open spec fn window_written(self, val: u32) -> Device<E> {
        let sel = self.regs.ioregsel;
        if sel == selector::IOAPIC_REG_ID {
            Device {
                regs: Registers { ioapicid: (val / 0x100_0000 % 0x10) as u32, ..self.regs },
                ..self
            }
        } else if self.selects_entry() {
            let irq = selector::selected_irq(sel);
            self.with_entry(
                irq,
                self.regs.table[irq].written(selector::selects_high(sel), val),
            )
        } else {
            self
        }
    }

    /// An entry has just been written. A level-triggered pin whose line is asserted raises its
    /// interrupt if it now can.
    pub open spec fn catches_up(self, irq: int) -> bool {
        &&& self.regs.table[irq].trigger_mode is Level
        &&& self.regs.levels.contains(irq)
        &&& self.delivers(irq)
    }

    /// What has to be done after a write to the data window.
    pub open spec fn window_update(self, val: u32) -> Option<PinUpdate<E>> {
        if self.selects_entry() {
            let irq = selector::selected_irq(self.regs.ioregsel);
            let after = self.window_written(val);
            Some(
                PinUpdate {
                    index: irq as usize,
                    inject: after.catches_up(irq),
                    route: after.msi_setup(
                        irq as usize,
                        after.regs.table[irq].msi_address() as u64,
                        after.regs.table[irq].msi_data() as u32,
                    ),
                },
            )
        } else {
            None
        }
    }

    /// A write of the bytes at the offset is one to the data window.
    pub open spec fn writes_window(self, offset: u64, data: Seq<u8>) -> bool {
        offset % 0x100 == selector::IOWIN_OFF && data.len() == 4
    }

    /// The state after a write of the bytes at the offset; only the lowest eight bits of the
    /// offset count.
    pub open spec fn written(self, offset: u64, data: Seq<u8>) -> Device<E> {
        if offset % 0x100 == selector::IOREGSEL_OFF && 1 <= data.len() <= 8 {
            Device { regs: Registers { ioregsel: data[0], ..self.regs }, ..self }
        } else if self.writes_window(offset, data) {
            self.window_written(self.byte_order.value_of(data))
        } else {
            self
        }
    }

    /// What has to be done after a write of the bytes at the offset.
    pub open spec fn write_update(self, offset: u64, data: Seq<u8>) -> Option<PinUpdate<E>> {
        if self.writes_window(offset, data) {
            self.window_update(self.byte_order.value_of(data))
        } else {
            None
        }
    }

    // Routes.

    /// The conversation that a route for the message needs, if it needs any: none for a message
    /// without data, and no new event where the pin has one.
    pub open spec fn msi_setup(self, index: usize, msi_address: u64, msi_data: u32) -> Option<
        MsiSetup<E>,
    > {
        if msi_data == 0 {
            None
        } else {
            let stage = match self.out_events[index as int] {
                Some(irq_event) => MsiStage::RouteSend { gsi: irq_event.gsi },
                None => MsiStage::CreateEvent,
            };
            Some(MsiSetup { index, msi_address, msi_data, stage })
        }
    }

    /// The conversation is not about to give a second event to a pin that has one.
    pub open spec fn admits(self, setup: MsiSetup<E>) -> bool {
        &&& setup.index < NUM_IOAPIC_PINS
        &&& setup.stage is AllocateRecv ==> self.out_events[setup.index as int] is None
    }

    /// The state after a reply in the conversation about a route: the pin has got its event once
    /// a route has been allocated for it.
    pub open spec fn msi_replied<S, M>(
        self,
        setup: MsiSetup<E>,
        reply: MsiReply<E, S, M>,
    ) -> Device<E> {
        match (setup.stage, reply) {
            (
                MsiStage::AllocateRecv { event },
                MsiReply::Received(Ok(VmIrqResponse::AllocateOneMsi { gsi })),
            ) => Device {
                out_events: self.out_events.update(
                    setup.index as int,
                    Some(IrqEvent { gsi, event, resample_event: None }),
                ),
                ..self
            },
            _ => self,
        }
    }
}

/// How the conversation about a route goes on after a reply.
pub open spec fn msi_progress<E, S, M>(
    setup: MsiSetup<E>,
    reply: MsiReply<E, S, M>,
) -> MsiProgress<E, S, M> {
    match (setup.stage, reply) {
        (MsiStage::CreateEvent, MsiReply::EventCreated(Ok(event))) => MsiProgress::Pending(
            MsiSetup { stage: MsiStage::AllocateSend { event }, ..setup },
        ),
        (MsiStage::CreateEvent, MsiReply::EventCreated(Err(e))) => MsiProgress::Finished(
            Err(IoapicError::CreateEvent(e)),
        ),
        (MsiStage::AllocateSend { event }, MsiReply::Sent(Ok(_))) => MsiProgress::Pending(
            MsiSetup { stage: MsiStage::AllocateRecv { event }, ..setup },
        ),
        (MsiStage::AllocateSend { .. }, MsiReply::Sent(Err(e))) => MsiProgress::Finished(
            Err(IoapicError::AllocateOneMsiSend(e)),
        ),
        (
            MsiStage::AllocateRecv { .. },
            MsiReply::Received(Ok(VmIrqResponse::AllocateOneMsi { gsi })),
        ) => MsiProgress::Pending(MsiSetup { stage: MsiStage::RouteSend { gsi }, ..setup }),
        (
            MsiStage::AllocateRecv { .. },
            MsiReply::Received(Ok(VmIrqResponse::Refused(e))),
        ) => MsiProgress::Finished(Err(IoapicError::AllocateOneMsi(e))),
        (MsiStage::AllocateRecv { .. }, MsiReply::Received(Err(e))) => MsiProgress::Finished(
            Err(IoapicError::AllocateOneMsiRecv(e)),
        ),
        (MsiStage::RouteSend { .. }, MsiReply::Sent(Ok(_))) => MsiProgress::Pending(
            MsiSetup { stage: MsiStage::RouteRecv, ..setup },
        ),
        (MsiStage::RouteSend { .. }, MsiReply::Sent(Err(e))) => MsiProgress::Finished(
            Err(IoapicError::AddMsiRouteSend(e)),
        ),
        (
            MsiStage::RouteRecv,
            MsiReply::Received(Ok(VmIrqResponse::Refused(e))),
        ) => MsiProgress::Finished(Err(IoapicError::AddMsiRoute(e))),
        (MsiStage::RouteRecv, MsiReply::Received(Err(e))) => MsiProgress::Finished(
            Err(IoapicError::AddMsiRouteRecv(e)),
        ),
        _ => MsiProgress::Finished(Ok(())),
    }
}

} // verus!
