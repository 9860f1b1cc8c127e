//! The controller.
//!
//! The controller decides; it does no input or output of its own. Where an event has to be
//! written or the owner of the interrupt routes has to be asked, the methods say so in their
//! result, and the caller reports back what came of it.
use crate::byte_order::ByteOrder;
use crate::entry::TriggerMode;
use crate::model;
use crate::model::{AccessFault, Device, EoiAction, PinUpdate, ServiceStep, IOAPIC_VERSION_ID, RTC_IRQ};
use crate::msi::{IoapicError, IrqEvent, MsiProgress, MsiReply, MsiSetup, MsiStage, VmIrqResponse};
use crate::selector::{
    decode_irq_from_selector, IOAPIC_REG_ARBITRATION_ID, IOAPIC_REG_ID, IOAPIC_REG_VERSION,
    IOREGSEL_DUMMY_UPPER_32_BITS_OFF, IOREGSEL_OFF, IOWIN_OFF,
};
use crate::state::{IoapicState, NUM_IOAPIC_PINS};
use vstd::prelude::*;

verus! {

/// Where the registers of the controller lie in guest memory.
pub const IOAPIC_BASE_ADDRESS: u64 = 0xfec00000;

/// Size of the register window, the same as in KVM.
pub const IOAPIC_MEM_LENGTH_BYTES: u64 = 0x100;

/// What is wrong with a read or write of `len` bytes at the offset, for those who want to log it.
pub fn access_faults(is_write: bool, offset: u64, len: usize) -> (r: Vec<AccessFault>)
    ensures
        r@ == model::access_faults(is_write, offset, len as nat),
{
    let mut faults: Vec<AccessFault> = Vec::new();
    if len > 8 || len == 0 {
        faults.push(AccessFault::Size);
        return faults;
    }
    if offset >= IOAPIC_MEM_LENGTH_BYTES {
        faults.push(AccessFault::Offset);
    }
    assert(offset as u8 == offset % 0x100) by (bit_vector);
    let register: u8 = offset as u8;
    if register == IOWIN_OFF {
        if is_write && len != 4 {
            faults.push(AccessFault::WindowSize);
        }
    } else if register != IOREGSEL_OFF && register != IOREGSEL_DUMMY_UPPER_32_BITS_OFF {
        faults.push(AccessFault::Register);
    }
    faults
}

/// The controller could not be made; the number is that of the system error.
#[derive(Clone, Copy, Debug, PartialEq, Eq, Structural)]
pub struct Error {
    pub errno: i32,
}

/// An I/O APIC. `E` is the type of an event object.
pub struct Ioapic<E> {
    /// State of the ioapic registers
    state: IoapicState,
    /// Remote IRR for Edge Triggered Real Time Clock interrupts, which allows the CMOS to know
    /// when one of its interrupts is being coalesced.
    rtc_remote_irr: bool,
    /// Outgoing irq events that are used to inject MSI interrupts.
    out_events: [Option<IrqEvent<E>>; NUM_IOAPIC_PINS],
    /// Events that should be triggered on an EOI. The outer Vec is indexed by GSI, and the inner
    /// Vec is an unordered list of registered resample events for the GSI.
    resample_events: Vec<Vec<E>>,
    /// The order of the bytes of a register value on the bus.
    byte_order: ByteOrder,
}

impl<E> View for Ioapic<E> {
    type V = Device<E>;

    closed spec fn view(&self) -> Device<E> {
        Device {
            regs: self.state@,
            rtc_remote_irr: self.rtc_remote_irr,
            out_events: self.out_events@,
            resample_events: self.resample_events@.map_values(|v: Vec<E>| v@),
            byte_order: self.byte_order,
        }
    }
}

impl<E> Ioapic<E> {
    /// A controller after power-up, on the bus of this machine.
    pub fn new() -> (r: Result<Ioapic<E>, Error>)
        ensures
            r is Ok,
            r->Ok_0@ == Device::<E>::initial(r->Ok_0@.byte_order),
            r->Ok_0@.byte_order.is_native(),
    {
        Ok(Self::with_byte_order(ByteOrder::native()))
    }

    /// A controller after power-up, on a bus with the given byte order.
    pub fn with_byte_order(byte_order: ByteOrder) -> (r: Ioapic<E>)
        ensures
            r@ == Device::<E>::initial(byte_order),
    {
        let mut state = IoapicState::default();
        for i in 0..NUM_IOAPIC_PINS
            invariant
                state.ioregsel == 0,
                state.ioapicid == 0,
                state@.levels == Set::<int>::empty(),
                forall|j: int|
                    0 <= j < NUM_IOAPIC_PINS ==> #[trigger] state@.table[j] == if j < i {
                        Device::<E>::initial(byte_order).regs.table[j]
                    } else {
                        crate::entry::RedirectionEntry::of_bits(0)
                    },
        {
            let mut entry = state.entry(i);
            entry.set_interrupt_mask(true);
            state.set_entry(i, entry);
        }
        let r = Ioapic {
            state,
            rtc_remote_irr: false,
            out_events: [
                None, None, None, None, None, None, None, None,
                None, None, None, None, None, None, None, None,
                None, None, None, None, None, None, None, None,
            ],
            resample_events: Vec::new(),
            byte_order,
        };
        proof {
            let d = Device::<E>::initial(byte_order);
            assert(r@.regs.levels =~= d.regs.levels);
            assert(r@.regs.table =~= d.regs.table);
            assert(r@.out_events =~= d.out_events);
            assert(r@.resample_events =~= d.resample_events);
        }
        r
    }

    /// The controller has an entry and a place for an event for each pin.
    pub proof fn lemma_wf(&self)
        ensures
            self@.wf(),
    {
        assert forall|i: int| 0 <= i < NUM_IOAPIC_PINS implies (
        #[trigger] self@.regs.table[i]).fits() by {
            crate::entry::lemma_bits_of_fields(self.state.redirect_table@[i].bits);
        }
    }

    /// The registers, bit by bit.
    pub closed spec fn state(&self) -> IoapicState {
        self.state
    }

    /// A copy of the registers.
    pub fn get_ioapic_state(&self) -> (r: IoapicState)
        ensures
            r == self.state(),
            r@ == self@.regs,
    {
        self.state
    }

    /// Replaces all registers.
    pub fn set_ioapic_state(&mut self, state: &IoapicState)
        ensures
            final(self).state() == *state,
            final(self)@ == (Device { regs: state@, ..old(self)@ }),
    {
        self.state = *state;
    }

    /// Replaces the events that are written when an interrupt ends: a list for each pin.
    pub fn register_resample_events(&mut self, resample_events: Vec<Vec<E>>)
        ensures
            final(self)@ == (Device {
                resample_events: resample_events@.map_values(|v: Vec<E>| v@),
                ..old(self)@
            }),
    {
        self.resample_events = resample_events;
    }

    /// Reports the level of an interrupt line: `true` for high, `false` for low. A high line
    /// asserts the interrupt of a high-active pin, a low line that of a low-active one.
    ///
    /// The result is `Done` with whether the change took effect, or `Inject`: then 1 has to be
    /// written to the outgoing event of the pin, and `inject_result` be told what came of it.
    pub fn service_irq(&mut self, irq: usize, level: bool) -> (r: ServiceStep)
        requires
            irq < NUM_IOAPIC_PINS,
        ensures
            final(self)@ == old(self)@.serviced(irq as int, old(self)@.asserts(irq as int, level)),
            r == old(self)@.service_step(irq as int, old(self)@.asserts(irq as int, level)),
            final(self)@.regs.levels.contains(irq as int) <==> level != (old(
                self,
            )@.regs.table[irq as int].polarity == 1),
            r == ServiceStep::Done(true) <==> level == (old(
                self,
            )@.regs.table[irq as int].polarity == 1),
    {
        let low_active = self.state.entry(irq).get_polarity() == 1;
        self.service_line(irq, level != low_active)
    }

    /// Takes note that a line is asserted or released.
    fn service_line(&mut self, irq: usize, asserted: bool) -> (r: ServiceStep)
        requires
            irq < NUM_IOAPIC_PINS,
        ensures
            final(self)@ == old(self)@.serviced(irq as int, asserted),
            r == old(self)@.service_step(irq as int, asserted),
    {
        let entry = self.state.entry(irq);

        // De-assert the interrupt.
        if !asserted {
            self.state.lower(irq);
            return ServiceStep::Done(true);
        }

        // If it's an edge-triggered interrupt that's already asserted we ignore it.
        if entry.get_trigger_mode() == TriggerMode::Edge && self.state.line(irq) {
            assert(self@.regs.levels.insert(irq as int) =~= self@.regs.levels);
            return ServiceStep::Done(false);
        }

        self.state.raise(irq);

        // Interrupts are masked, so don't inject.
        if entry.get_interrupt_mask() {
            return ServiceStep::Done(false);
        }

        // Level-triggered and remote irr is already active, so we don't inject a new interrupt.
        // (Coalesce with the prior one(s)).
        if entry.get_trigger_mode() == TriggerMode::Level && entry.get_remote_irr() {
            return ServiceStep::Done(false);
        }

        // Coalesce RTC interrupt to make tick stuffing work.
        if irq == RTC_IRQ && self.rtc_remote_irr {
            return ServiceStep::Done(false);
        }

        match &self.out_events[irq] {
            Some(_) => ServiceStep::Inject,
            None => ServiceStep::Done(false),
        }
    }

    /// Reports whether 1 could be written to the outgoing event of the pin, that is, whether an
    /// interrupt was injected. Returns the same.
    pub fn inject_result(&mut self, irq: usize, injected: bool) -> (r: bool)
        requires
            irq < NUM_IOAPIC_PINS,
        ensures
            final(self)@ == old(self)@.inject_result(irq as int, injected),
            r == injected,
    {
        let mut entry = self.state.entry(irq);
        if entry.get_trigger_mode() == TriggerMode::Level && injected {
            entry.set_remote_irr(true);
            self.state.set_entry(irq, entry);
        } else if irq == RTC_IRQ && injected {
            self.rtc_remote_irr = true;
        }
        injected
    }

    /// The event that the interrupts of the pin go out by.
    pub fn out_event(&self, irq: usize) -> (r: Option<&IrqEvent<E>>)
        requires
            irq < NUM_IOAPIC_PINS,
        ensures
            match r {
                Some(irq_event) => self@.out_events[irq as int] == Some(*irq_event),
                None => self@.out_events[irq as int] is None,
            },
    {
        self.out_events[irq].as_ref()
    }

    /// The events that are written when an interrupt of the pin ends.
    pub fn resample_events_of(&self, irq: usize) -> (r: Option<&Vec<E>>)
        ensures
            match r {
                Some(events) => irq < self@.resample_events.len() && events@
                    == self@.resample_events[irq as int],
                None => irq >= self@.resample_events.len(),
            },
    {
        if irq < self.resample_events.len() {
            Some(&self.resample_events[irq])
        } else {
            None
        }
    }

    /// Reports that the guest has finished an interrupt with the vector. The ioapic must be
    /// informed about EOIs in order to avoid sending multiple interrupts of the same type at the
    /// same time.
    ///
    /// The result is what has to be done, in this order. No step depends on what comes of an
    /// earlier one; what comes of an `Inject` has to be told to `inject_result`.
    pub fn end_of_interrupt(&mut self, vector: u8) -> (r: Vec<EoiAction>)
        ensures
            final(self)@ == old(self)@.ended(vector),
            r@ == old(self)@.eoi_actions(vector, NUM_IOAPIC_PINS as nat),
            forall|i: usize|
                i < NUM_IOAPIC_PINS ==> (#[trigger] r@.contains(EoiAction::Resample(i)) <==> {
                    &&& old(self)@.regs.table[i as int].vector == vector
                    &&& old(self)@.regs.table[i as int].trigger_mode is Level
                    &&& i < old(self)@.resample_events.len()
                    &&& old(self)@.resample_events[i as int].len() > 0
                }),
    {
        let ghost before = self@;
        let mut actions: Vec<EoiAction> = Vec::new();
        if self.state.entry(RTC_IRQ).get_vector() == vector && self.rtc_remote_irr {
            // Specifically clear RTC IRQ field
            self.rtc_remote_irr = false;
        }
        proof {
            self.lemma_wf();
            assert(self@.regs.levels =~= before.ended_up_to(vector, 0).regs.levels);
            assert(self@.regs.table =~= before.ended_up_to(vector, 0).regs.table);
        }
        for i in 0..NUM_IOAPIC_PINS
            invariant
                before.wf(),
                self@ == before.ended_up_to(vector, i as int),
                actions@ == before.eoi_actions(vector, i as nat),
        {
            let mut entry = self.state.entry(i);
            if entry.get_vector() == vector && entry.get_trigger_mode() == TriggerMode::Level {
                if i < self.resample_events.len() && self.resample_events[i].len() > 0 {
                    self.service_line(i, false);
                    actions.push(EoiAction::Resample(i));
                }
                entry.set_remote_irr(false);
                self.state.set_entry(i, entry);
            }
            proof {
                let after = before.ended_up_to(vector, i + 1);
                assert(self@.regs.levels =~= after.regs.levels);
                assert(self@.regs.table =~= after.regs.table);
                assert(self@ == after);
                assert(after.regs.levels.contains(i as int) == before.ended(
                    vector,
                ).regs.levels.contains(i as int));
                assert(after.regs.table[i as int] == before.ended(vector).regs.table[i as int]);
            }
            // There is an inherent race condition in hardware if the OS is finished processing an
            // interrupt and a new interrupt is delivered between issuing an EOI and the EOI being
            // completed.  When that happens the ioapic is supposed to re-inject the interrupt.
            if self.state.line(i) {
                assert(self@.regs.levels.insert(i as int) =~= self@.regs.levels);
                if self.service_line(i, true) == ServiceStep::Inject {
                    actions.push(EoiAction::Inject(i));
                }
            }
            assert(actions@ =~= before.eoi_actions(vector, i as nat) + before.eoi_actions_at(
                vector,
                i as int,
            ));
        }
        proof {
            assert forall|i: usize| i < NUM_IOAPIC_PINS implies (
            #[trigger] actions@.contains(EoiAction::Resample(i)) <==> before.resamples(
                i as int,
                vector,
            )) by {
                crate::operation_laws::law_who_is_resampled(before, vector, i);
            }
        }
        actions
    }

    /// The name of the device.
    pub fn debug_label(&self) -> (r: String)
        ensures
            r@ == "userspace IOAPIC"@,
    {
        "userspace IOAPIC".to_owned()
    }

    /// A read over the bus. `data` is left alone if its size or the offset is bad.
    pub fn read(&mut self, offset: u64, data: &mut [u8])
        ensures
            *final(self) == *old(self),
            final(data)@ == old(self)@.read_bytes(offset, old(data)@),
    {
        if data.len() > 8 || data.len() == 0 {
            return;
        }
        assert(offset as u8 == offset % 0x100) by (bit_vector);
        let register: u8 = offset as u8;
        let out: u32 = if register == IOREGSEL_OFF {
            self.state.ioregsel as u32
        } else if register == IOREGSEL_DUMMY_UPPER_32_BITS_OFF {
            0
        } else if register == IOWIN_OFF {
            self.ioapic_read()
        } else {
            return;
        };
        let out_arr = self.byte_order.to_bytes(out);
        let ghost before = data@;
        for i in 0..4usize
            invariant
                out_arr@ == self.byte_order.bytes_of(out),
                data@ == Seq::new(
                    before.len(),
                    |j: int|
                        if j < i {
                            out_arr@[j]
                        } else {
                            before[j]
                        },
                ),
        {
            if i < data.len() {
                data[i] = out_arr[i];
            }
        }
        assert(data@ =~= self@.read_bytes(offset, before));
    }

    /// A write over the bus. It has no effect if the size of `data` or the offset is bad.
    ///
    /// The result is what is left to do where an entry of the redirection table was written: to
    /// write the outgoing event of the pin, if so said, and tell `inject_result` what came of it;
    /// then to carry on the conversation about its route, if there is one, with `resume_msi`.
    pub fn write(&mut self, offset: u64, data: &[u8]) -> (r: Option<PinUpdate<E>>)
        ensures
            final(self)@ == old(self)@.written(offset, data@),
            r == old(self)@.write_update(offset, data@),
    {
        if data.len() > 8 || data.len() == 0 {
            return None;
        }
        assert(offset as u8 == offset % 0x100) by (bit_vector);
        let register: u8 = offset as u8;
        if register == IOREGSEL_OFF {
            self.state.ioregsel = data[0];
            None
        } else if register == IOREGSEL_DUMMY_UPPER_32_BITS_OFF {
            // Ignored.
            None
        } else if register == IOWIN_OFF {
            if data.len() != 4 {
                return None;
            }
            let data_arr: [u8; 4] = [data[0], data[1], data[2], data[3]];
            assert(data_arr@ =~= data@);
            let val: u32 = self.byte_order.from_bytes(data_arr);
            self.ioapic_write(val)
        } else {
            None
        }
    }

    /// A write to the data window.
    fn ioapic_write(&mut self, val: u32) -> (r: Option<PinUpdate<E>>)
        ensures
            final(self)@ == old(self)@.window_written(val),
            r == old(self)@.window_update(val),
    {
        let selector: u8 = self.state.ioregsel;
        if selector == IOAPIC_REG_VERSION || selector == IOAPIC_REG_ARBITRATION_ID {
            // Read-only registers.
            return None;
        }
        if selector == IOAPIC_REG_ID {
            assert((val >> 24) & 0xf == val / 0x100_0000 % 0x10) by (bit_vector);
            self.state.ioapicid = (val >> 24) & 0xf;
            return None;
        }
        if selector < IOWIN_OFF {
            // Invalid write; ignore.
            return None;
        }
        let (index, is_high_bits) = decode_irq_from_selector(selector);
        if index >= NUM_IOAPIC_PINS {
            // Invalid write; ignore.
            return None;
        }

        let mut entry = self.state.entry(index);
        proof {
            crate::entry::lemma_bits_of_fields(entry.bits);
        }
        if is_high_bits {
            entry.set(32, 32, val as u64);
        } else {
            let before = entry;
            entry.set(0, 32, val as u64);

            // respect R/O bits.
            entry.set_delivery_status(before.get_delivery_status());
            entry.set_remote_irr(before.get_remote_irr());

            // Clear remote_irr when switching to edge_triggered.
            if entry.get_trigger_mode() == TriggerMode::Edge {
                entry.set_remote_irr(false);
            }
        }
        self.state.set_entry(index, entry);
        assert(self@ == old(self)@.window_written(val));

        let mut inject = false;
        if entry.get_trigger_mode() == TriggerMode::Level && self.state.line(index)
            && !entry.get_interrupt_mask() {
            assert(self@.regs.levels.insert(index as int) =~= self@.regs.levels);
            inject = self.service_line(index, true) == ServiceStep::Inject;
        }

        let route = self.setup_msi(index, entry.msi_address(), entry.msi_data());
        Some(PinUpdate { index, inject, route })
    }

    /// A read of the data window.
    fn ioapic_read(&mut self) -> (r: u32)
        ensures
            *final(self) == *old(self),
            r == old(self)@.window(),
    {
        let selector: u8 = self.state.ioregsel;
        if selector == IOAPIC_REG_VERSION {
            IOAPIC_VERSION_ID
        } else if selector == IOAPIC_REG_ID || selector == IOAPIC_REG_ARBITRATION_ID {
            let id: u32 = self.state.ioapicid;
            assert((id & 0xf) << 24 == (id % 0x10 * 0x100_0000) as u32) by (bit_vector);
            (id & 0xf) << 24
        } else if selector < IOWIN_OFF {
            // Invalid read; ignore and return 0.
            0
        } else {
            let (index, is_high_bits) = decode_irq_from_selector(selector);
            if index < NUM_IOAPIC_PINS {
                let offset: u64 = if is_high_bits {
                    32
                } else {
                    0
                };
                let entry = self.state.entry(index);
                proof {
                    crate::entry::lemma_bits_of_fields(entry.bits);
                }
                entry.get(offset, 32) as u32
            } else {
                // Invalid index - return all 1s
                0xffff_ffff
            }
        }
    }

    /// Begins to set up the route by which the pin sends the message. `None` means that there is
    /// nothing to do.
    ///
    /// During boot, Linux first configures all ioapic pins with msi_data == 0; the routes aren't
    /// yet assigned to devices and aren't usable.  We skip MSI setup if msi_data is 0.
    ///
    /// The GSI and event are allocated only once for each ioapic irq line, when the guest first
    /// sets up the ioapic with a valid route. If the guest later reconfigures an ioapic irq line,
    /// the same GSI and event are reused, and we change the GSI's route to the new MSI data+addr
    /// destination.
    pub fn setup_msi(&self, index: usize, msi_address: u64, msi_data: u32) -> (r: Option<
        MsiSetup<E>,
    >)
        requires
            msi_data != 0 ==> index < NUM_IOAPIC_PINS,
        ensures
            r == self@.msi_setup(index, msi_address, msi_data),
    {
        if msi_data == 0 {
            return None;
        }
        let stage = match &self.out_events[index] {
            Some(irq_event) => MsiStage::RouteSend { gsi: irq_event.gsi },
            None => MsiStage::CreateEvent,
        };
        Some(MsiSetup { index, msi_address, msi_data, stage })
    }

    /// Carries the conversation about a route on with the reply to the step that was due.
    ///
    /// A pin has one conversation at a time; where another has given it an event meanwhile, this
    /// one cannot give it a second.
    pub fn resume_msi<S, M>(&mut self, setup: MsiSetup<E>, reply: MsiReply<E, S, M>) -> (r:
        MsiProgress<E, S, M>)
        requires
            old(self)@.admits(setup),
            setup.expects(reply),
        ensures
            final(self)@ == old(self)@.msi_replied(setup, reply),
            r == model::msi_progress(setup, reply),
    {
        let MsiSetup { index, msi_address, msi_data, stage } = setup;
        let next = match (stage, reply) {
            (MsiStage::CreateEvent, MsiReply::EventCreated(Ok(event))) => MsiStage::AllocateSend {
                event,
            },
            (MsiStage::CreateEvent, MsiReply::EventCreated(Err(e))) => {
                return MsiProgress::Finished(Err(IoapicError::CreateEvent(e)));
            },
            (MsiStage::AllocateSend { event }, MsiReply::Sent(Ok(_))) => MsiStage::AllocateRecv {
                event,
            },
            (MsiStage::AllocateSend { event: _ }, MsiReply::Sent(Err(e))) => {
                return MsiProgress::Finished(Err(IoapicError::AllocateOneMsiSend(e)));
            },
            (
                MsiStage::AllocateRecv { event },
                MsiReply::Received(Ok(VmIrqResponse::AllocateOneMsi { gsi })),
            ) => {
                self.out_events[index] = Some(IrqEvent { gsi, event, resample_event: None });
                MsiStage::RouteSend { gsi }
            },
            (
                MsiStage::AllocateRecv { event: _ },
                MsiReply::Received(Ok(VmIrqResponse::Refused(e))),
            ) => {
                return MsiProgress::Finished(Err(IoapicError::AllocateOneMsi(e)));
            },
            (MsiStage::AllocateRecv { event: _ }, MsiReply::Received(Err(e))) => {
                return MsiProgress::Finished(Err(IoapicError::AllocateOneMsiRecv(e)));
            },
            (MsiStage::RouteSend { gsi: _ }, MsiReply::Sent(Ok(_))) => MsiStage::RouteRecv,
            (MsiStage::RouteSend { gsi: _ }, MsiReply::Sent(Err(e))) => {
                return MsiProgress::Finished(Err(IoapicError::AddMsiRouteSend(e)));
            },
            (MsiStage::RouteRecv, MsiReply::Received(Ok(VmIrqResponse::Refused(e)))) => {
                return MsiProgress::Finished(Err(IoapicError::AddMsiRoute(e)));
            },
            (MsiStage::RouteRecv, MsiReply::Received(Err(e))) => {
                return MsiProgress::Finished(Err(IoapicError::AddMsiRouteRecv(e)));
            },
            _ => {
                return MsiProgress::Finished(Ok(()));
            },
        };
        MsiProgress::Pending(MsiSetup { index, msi_address, msi_data, stage: next })
    }
}

} // verus!
