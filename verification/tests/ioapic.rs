//! The controller, driven through the bus and through its interrupt lines.
use ioapic::{
    encode_selector_from_irq, ByteOrder, DeliveryMode, DeliveryStatus, DestinationMode, EoiAction,
    Ioapic, IoapicRedirectionTableEntry, MsiProgress, MsiReply, MsiRequest, MsiSetup, ServiceStep,
    TriggerMode, VmIrqRequest, VmIrqResponse, IOAPIC_MEM_LENGTH_BYTES, IOAPIC_REG_ARBITRATION_ID,
    IOAPIC_REG_ID, IOAPIC_REG_VERSION, IOREGSEL_OFF, IOWIN_OFF, NUM_IOAPIC_PINS, RTC_IRQ,
};

const DEFAULT_VECTOR: u8 = 0x3a;
const DEFAULT_DESTINATION_ID: u8 = 0x5f;

/// A controller whose events are numbers, with a record of what it had done.
struct Vm {
    ioapic: Ioapic<u32>,
    next_event: u32,
    next_gsi: u32,
    /// Whether writing an outgoing event succeeds.
    writable: bool,
    /// The outgoing events that were written.
    injected: Vec<u32>,
    /// The resample events that were written.
    resampled: Vec<u32>,
    /// The routes that were set: number, address, data.
    routes: Vec<(u32, u64, u32)>,
}

impl Vm {
    fn on(ioapic: Ioapic<u32>) -> Vm {
        Vm {
            ioapic,
            next_event: 100,
            next_gsi: NUM_IOAPIC_PINS as u32,
            writable: true,
            injected: Vec::new(),
            resampled: Vec::new(),
            routes: Vec::new(),
        }
    }

    fn inject(&mut self, irq: usize) -> bool {
        let event = self.ioapic.out_event(irq).unwrap().event;
        if self.writable {
            self.injected.push(event);
        }
        self.ioapic.inject_result(irq, self.writable)
    }

    fn service_irq(&mut self, irq: usize, level: bool) -> bool {
        match self.ioapic.service_irq(irq, level) {
            ServiceStep::Done(result) => result,
            ServiceStep::Inject => self.inject(irq),
        }
    }

    fn end_of_interrupt(&mut self, vector: u8) {
        for action in self.ioapic.end_of_interrupt(vector) {
            match action {
                EoiAction::Resample(irq) => {
                    for event in self.ioapic.resample_events_of(irq).unwrap() {
                        self.resampled.push(*event);
                    }
                }
                EoiAction::Inject(irq) => {
                    self.inject(irq);
                }
            }
        }
    }

    fn set_up_route(&mut self, setup: MsiSetup<u32>) {
        let mut progress: MsiProgress<u32, i32, &str> = MsiProgress::Pending(setup);
        loop {
            let setup = match progress {
                MsiProgress::Finished(result) => {
                    assert!(result.is_ok());
                    return;
                }
                MsiProgress::Pending(setup) => setup,
            };
            let allocating = matches!(setup.stage, ioapic::MsiStage::AllocateRecv { .. });
            let reply = match setup.request() {
                MsiRequest::CreateEvent => {
                    self.next_event += 1;
                    MsiReply::EventCreated(Ok(self.next_event))
                }
                MsiRequest::Send(VmIrqRequest::AllocateOneMsi { irqfd }) => {
                    assert_eq!(*irqfd, self.next_event);
                    MsiReply::Sent(Ok(()))
                }
                MsiRequest::Send(VmIrqRequest::AddMsiRoute { gsi, msi_address, msi_data }) => {
                    self.routes.push((gsi, msi_address, msi_data));
                    MsiReply::Sent(Ok(()))
                }
                MsiRequest::Receive => {
                    if allocating {
                        let gsi = self.next_gsi;
                        self.next_gsi += 1;
                        MsiReply::Received(Ok(VmIrqResponse::AllocateOneMsi { gsi }))
                    } else {
                        MsiReply::Received(Ok(VmIrqResponse::Accepted))
                    }
                }
            };
            progress = self.ioapic.resume_msi(setup, reply);
        }
    }

    fn write(&mut self, offset: u64, data: &[u8]) {
        if let Some(update) = self.ioapic.write(offset, data) {
            if update.inject {
                self.inject(update.index);
            }
            if let Some(setup) = update.route {
                self.set_up_route(setup);
            }
        }
    }

    fn read(&mut self, offset: u64, data: &mut [u8]) {
        self.ioapic.read(offset, data);
    }

    fn entry(&self, irq: usize) -> IoapicRedirectionTableEntry {
        self.ioapic.get_ioapic_state().redirect_table[irq]
    }

    fn change_entry(&mut self, irq: usize, change: fn(&mut IoapicRedirectionTableEntry)) {
        let mut state = self.ioapic.get_ioapic_state();
        change(&mut state.redirect_table[irq]);
        self.ioapic.set_ioapic_state(&state);
    }

    fn line(&self, irq: usize) -> bool {
        self.ioapic.get_ioapic_state().current_interrupt_level_bitmap & (1 << irq) != 0
    }
}

fn new() -> Vm {
    Vm::on(Ioapic::new().unwrap())
}

fn set_up(trigger: TriggerMode) -> (Vm, usize) {
    let irq = NUM_IOAPIC_PINS - 1;
    let vm = set_up_with_irq(irq, trigger);
    (vm, irq)
}

fn set_up_with_irq(irq: usize, trigger: TriggerMode) -> Vm {
    let mut vm = new();
    set_up_redirection_table_entry(&mut vm, irq, trigger);
    let out_event = vm.ioapic.out_event(irq).unwrap();
    assert_eq!(out_event.gsi, NUM_IOAPIC_PINS as u32);
    assert!(out_event.resample_event.is_none());
    vm
}

fn read_reg(vm: &mut Vm, selector: u8) -> u32 {
    let mut data = [0; 4];
    vm.write(IOREGSEL_OFF.into(), &[selector]);
    vm.read(IOWIN_OFF.into(), &mut data);
    u32::from_ne_bytes(data)
}

fn write_reg(vm: &mut Vm, selector: u8, value: u32) {
    vm.write(IOREGSEL_OFF.into(), &[selector]);
    vm.write(IOWIN_OFF.into(), &value.to_ne_bytes());
}

fn read_entry(vm: &mut Vm, irq: usize) -> IoapicRedirectionTableEntry {
    let mut entry = IoapicRedirectionTableEntry::new();
    entry.set(0, 32, read_reg(vm, encode_selector_from_irq(irq, false)).into());
    entry.set(32, 32, read_reg(vm, encode_selector_from_irq(irq, true)).into());
    entry
}

fn write_entry(vm: &mut Vm, irq: usize, entry: IoapicRedirectionTableEntry) {
    write_reg(vm, encode_selector_from_irq(irq, false), entry.get(0, 32) as u32);
    write_reg(vm, encode_selector_from_irq(irq, true), entry.get(32, 32) as u32);
}

fn set_up_redirection_table_entry(vm: &mut Vm, irq: usize, trigger_mode: TriggerMode) {
    let mut entry = IoapicRedirectionTableEntry::new();
    entry.set_vector(DEFAULT_DESTINATION_ID);
    entry.set_delivery_mode(DeliveryMode::Startup);
    entry.set_delivery_status(DeliveryStatus::Pending);
    entry.set_dest_id(DEFAULT_VECTOR);
    entry.set_trigger_mode(trigger_mode);
    write_entry(vm, irq, entry);
}

fn set_mask(vm: &mut Vm, irq: usize, mask: bool) {
    let mut entry = read_entry(vm, irq);
    entry.set_interrupt_mask(mask);
    write_entry(vm, irq, entry);
}

#[test]
fn write_read_ioregsel() {
    let mut vm = new();
    let data_write = [0x0f, 0xf0, 0x01, 0xff];
    let mut data_read = [0; 4];

    for i in 0..data_write.len() {
        vm.write(IOREGSEL_OFF.into(), &data_write[i..i + 1]);
        vm.read(IOREGSEL_OFF.into(), &mut data_read[i..i + 1]);
        assert_eq!(data_write[i], data_read[i]);
    }
}

// Verify that version register is actually read-only.
#[test]
fn write_read_ioaic_reg_version() {
    let mut vm = new();
    let before = read_reg(&mut vm, IOAPIC_REG_VERSION);
    let data_write = !before;

    write_reg(&mut vm, IOAPIC_REG_VERSION, data_write);
    assert_eq!(read_reg(&mut vm, IOAPIC_REG_VERSION), before);
    assert_eq!(before, 0x00170011);
}

// Verify that only bits 27:24 of the IOAPICID are readable/writable.
#[test]
fn write_read_ioapic_reg_id() {
    let mut vm = new();

    write_reg(&mut vm, IOAPIC_REG_ID, 0x1f3e5d7c);
    assert_eq!(read_reg(&mut vm, IOAPIC_REG_ID), 0x0f000000);
}

// Write to read-only register IOAPICARB.
#[test]
fn write_read_ioapic_arbitration_id() {
    let mut vm = new();

    let data_write_id = 0x1f3e5d7c;
    let expected_result = 0x0f000000;

    // Write to IOAPICID.  This should also change IOAPICARB.
    write_reg(&mut vm, IOAPIC_REG_ID, data_write_id);

    // Read IOAPICARB
    assert_eq!(read_reg(&mut vm, IOAPIC_REG_ARBITRATION_ID), expected_result);

    // Try to write to IOAPICARB and verify unchanged result.
    write_reg(&mut vm, IOAPIC_REG_ARBITRATION_ID, !data_write_id);
    assert_eq!(read_reg(&mut vm, IOAPIC_REG_ARBITRATION_ID), expected_result);
}

#[test]
#[should_panic(expected = "index out of bounds: the len is 24 but the index is 24")]
fn service_invalid_irq() {
    let mut vm = new();
    vm.service_irq(NUM_IOAPIC_PINS, false);
}

// Test a level triggered IRQ interrupt.
#[test]
fn service_level_irq() {
    let (mut vm, irq) = set_up(TriggerMode::Level);

    assert!(vm.service_irq(irq, true));
    assert_eq!(vm.injected.len(), 1);
    assert!(vm.service_irq(irq, false));
    assert_eq!(vm.injected.len(), 1);
}

#[test]
fn service_multiple_level_irqs() {
    let (mut vm, irq) = set_up(TriggerMode::Level);
    vm.service_irq(irq, true);
    vm.service_irq(irq, false);
    vm.end_of_interrupt(DEFAULT_DESTINATION_ID);
    vm.service_irq(irq, true);
    assert_eq!(vm.injected.len(), 2);
}

// Test multiple level interrupts without an EOI and verify that only one interrupt is
// delivered.
#[test]
fn coalesce_multiple_level_irqs() {
    let (mut vm, irq) = set_up(TriggerMode::Level);

    assert!(vm.service_irq(irq, true));
    vm.service_irq(irq, false);
    assert!(!vm.service_irq(irq, true));
    assert_eq!(vm.injected.len(), 1);
}

// Test multiple RTC interrupts without an EOI and verify that only one interrupt is delivered.
#[test]
fn coalesce_multiple_rtc_irqs() {
    let irq = RTC_IRQ;
    let mut vm = set_up_with_irq(irq, TriggerMode::Edge);

    assert!(vm.service_irq(irq, true));
    vm.service_irq(irq, false);
    assert!(!vm.service_irq(irq, true));
    assert_eq!(vm.injected.len(), 1);
}

// Test that a level interrupt that has been coalesced is re-raised if a guest issues an
// EndOfInterrupt after the interrupt was coalesced while the line  is still asserted.
#[test]
fn reinject_level_interrupt() {
    let (mut vm, irq) = set_up(TriggerMode::Level);

    vm.service_irq(irq, true);
    vm.service_irq(irq, false);
    vm.service_irq(irq, true);
    assert_eq!(vm.injected.len(), 1);

    vm.end_of_interrupt(DEFAULT_DESTINATION_ID);
    assert_eq!(vm.injected.len(), 2);
    assert!(vm.entry(irq).get_remote_irr());
}

#[test]
fn service_edge_triggered_irq() {
    let (mut vm, irq) = set_up(TriggerMode::Edge);

    assert!(vm.service_irq(irq, true));
    assert!(!vm.service_irq(irq, true)); // Repeated asserts before a deassert should be ignored.
    vm.service_irq(irq, false);
    assert_eq!(vm.injected.len(), 1);
}

// Verify that the state of an edge-triggered interrupt is properly tracked even when the
// interrupt is disabled.
#[test]
fn edge_trigger_unmask_test() {
    let (mut vm, irq) = set_up(TriggerMode::Edge);

    vm.service_irq(irq, true);
    assert_eq!(vm.injected.len(), 1);

    set_mask(&mut vm, irq, true);
    vm.service_irq(irq, false);

    // No interrupt triggered while masked.
    vm.service_irq(irq, true);
    vm.service_irq(irq, false);
    assert_eq!(vm.injected.len(), 1);

    set_mask(&mut vm, irq, false);

    // Interrupt triggered while unmasked, even though when it was masked the level was high.
    vm.service_irq(irq, true);
    vm.service_irq(irq, false);
    assert_eq!(vm.injected.len(), 2);
}

// Verify that a level-triggered interrupt that is triggered while masked will fire once the
// interrupt is unmasked.
#[test]
fn level_trigger_unmask_test() {
    let (mut vm, irq) = set_up(TriggerMode::Level);

    set_mask(&mut vm, irq, true);
    vm.service_irq(irq, true);
    assert_eq!(vm.injected.len(), 0);

    set_mask(&mut vm, irq, false);
    assert_eq!(vm.injected.len(), 1);
}

// Verify that multiple asserts before a deassert are ignored even if there's an EOI between
// them.
#[test]
fn end_of_interrupt_edge_triggered_irq() {
    let (mut vm, irq) = set_up(TriggerMode::Edge);

    vm.service_irq(irq, true);
    vm.end_of_interrupt(DEFAULT_DESTINATION_ID);
    // Repeated asserts before a de-assert should be ignored.
    vm.service_irq(irq, true);
    vm.service_irq(irq, false);
    assert_eq!(vm.injected.len(), 1);
}

// Send multiple edge-triggered interrupts in a row.
#[test]
fn service_multiple_edge_irqs() {
    let (mut vm, irq) = set_up(TriggerMode::Edge);

    vm.service_irq(irq, true);
    assert_eq!(vm.injected.len(), 1);
    vm.service_irq(irq, false);

    vm.service_irq(irq, true);
    assert_eq!(vm.injected.len(), 2);
    vm.service_irq(irq, false);
}

// Test an interrupt line with negative polarity.
#[test]
fn service_negative_polarity_irq() {
    let (mut vm, irq) = set_up(TriggerMode::Level);

    let mut entry = read_entry(&mut vm, irq);
    entry.set_polarity(1);
    write_entry(&mut vm, irq, entry);
    assert_eq!(read_entry(&mut vm, irq).get_polarity(), 1);

    assert!(vm.service_irq(irq, false));
    assert_eq!(vm.injected.len(), 1);
    assert!(vm.line(irq));
}

#[test]
fn a_high_line_releases_a_low_active_pin() {
    let (mut vm, irq) = set_up(TriggerMode::Edge);
    let mut entry = read_entry(&mut vm, irq);
    entry.set_polarity(1);
    write_entry(&mut vm, irq, entry);

    assert!(vm.service_irq(irq, true));
    assert_eq!(vm.injected.len(), 0);
    assert!(vm.service_irq(irq, false));
    assert!(!vm.service_irq(irq, false));
    assert!(vm.service_irq(irq, true));
    assert!(!vm.line(irq));
    assert!(vm.service_irq(irq, false));
    assert_eq!(vm.injected.len(), 2);
}

#[test]
fn writes_and_other_vectors_keep_service() {
    let (mut vm, irq) = set_up(TriggerMode::Level);
    vm.service_irq(irq, true);
    set_mask(&mut vm, irq, true);
    set_mask(&mut vm, irq, false);
    vm.end_of_interrupt(DEFAULT_DESTINATION_ID + 1);
    assert!(vm.entry(irq).get_remote_irr());
    assert_eq!(vm.injected.len(), 1);
}

#[test]
fn end_of_interrupt_releases_a_resampled_low_active_pin() {
    let mut vm = set_up_with_irq(2, TriggerMode::Level);
    let mut entry = read_entry(&mut vm, 2);
    entry.set_polarity(1);
    write_entry(&mut vm, 2, entry);
    vm.ioapic.register_resample_events(vec![vec![], vec![], vec![7]]);
    vm.service_irq(2, false);
    vm.end_of_interrupt(DEFAULT_DESTINATION_ID);
    assert_eq!(vm.resampled, vec![7]);
    assert!(!vm.line(2));
    assert_eq!(vm.injected.len(), 1);
}

// Ensure that remote IRR can't be edited via mmio.
#[test]
fn remote_irr_read_only() {
    let (mut vm, irq) = set_up(TriggerMode::Level);

    vm.change_entry(irq, |entry| entry.set_remote_irr(true));

    let mut entry = read_entry(&mut vm, irq);
    entry.set_remote_irr(false);
    write_entry(&mut vm, irq, entry);

    assert_eq!(read_entry(&mut vm, irq).get_remote_irr(), true);
}

#[test]
fn delivery_status_read_only() {
    let (mut vm, irq) = set_up(TriggerMode::Level);

    vm.change_entry(irq, |entry| entry.set_delivery_status(DeliveryStatus::Pending));

    let mut entry = read_entry(&mut vm, irq);
    entry.set_delivery_status(DeliveryStatus::Idle);
    write_entry(&mut vm, irq, entry);

    assert_eq!(read_entry(&mut vm, irq).get_delivery_status(), DeliveryStatus::Pending);
}

#[test]
fn level_to_edge_transition_clears_remote_irr() {
    let (mut vm, irq) = set_up(TriggerMode::Level);

    vm.change_entry(irq, |entry| entry.set_remote_irr(true));

    let mut entry = read_entry(&mut vm, irq);
    entry.set_trigger_mode(TriggerMode::Edge);
    write_entry(&mut vm, irq, entry);

    assert_eq!(read_entry(&mut vm, irq).get_remote_irr(), false);
}

#[test]
fn masking_preserves_remote_irr() {
    let (mut vm, irq) = set_up(TriggerMode::Level);

    vm.change_entry(irq, |entry| entry.set_remote_irr(true));

    set_mask(&mut vm, irq, true);
    set_mask(&mut vm, irq, false);

    assert_eq!(read_entry(&mut vm, irq).get_remote_irr(), true);
}

// Test reconfiguration racing with EOIs.
#[test]
fn reconfiguration_race() {
    let (mut vm, irq) = set_up(TriggerMode::Level);

    // Fire one level-triggered interrupt.
    vm.service_irq(irq, true);
    assert_eq!(vm.injected.len(), 1);

    // Read the redirection table entry before the EOI...
    let mut entry = read_entry(&mut vm, irq);
    entry.set_trigger_mode(TriggerMode::Edge);

    vm.service_irq(irq, false);
    vm.end_of_interrupt(DEFAULT_DESTINATION_ID);

    // ... and write back that (modified) value.
    write_entry(&mut vm, irq, entry);

    // Fire one *edge* triggered interrupt
    vm.service_irq(irq, true);
    vm.service_irq(irq, false);
    assert_eq!(vm.injected.len(), 2);
}

// Ensure that swapping to edge triggered and back clears the remote irr bit.
#[test]
fn implicit_eoi() {
    let (mut vm, irq) = set_up(TriggerMode::Level);

    // Fire one level-triggered interrupt.
    vm.service_irq(irq, true);
    assert_eq!(vm.injected.len(), 1);
    vm.service_irq(irq, false);

    // Do an implicit EOI by cycling between edge and level triggered.
    let mut entry = read_entry(&mut vm, irq);
    entry.set_trigger_mode(TriggerMode::Edge);
    write_entry(&mut vm, irq, entry);
    entry.set_trigger_mode(TriggerMode::Level);
    write_entry(&mut vm, irq, entry);

    // Fire one level-triggered interrupt.
    vm.service_irq(irq, true);
    assert_eq!(vm.injected.len(), 2);
    vm.service_irq(irq, false);
}

#[test]
fn set_redirection_entry_by_bits() {
    let mut entry = IoapicRedirectionTableEntry::new();
    //                                                          destination_mode
    //                                                         polarity |
    //                                                  trigger_mode |  |
    //                                                             | |  |
    // 0011 1010 0000 0000 0000 0000 0000 0000 0000 0000 0000 0000 1001 0110 0101 1111
    // |_______| |______________________________________________||  | |  |_| |_______|
    //  dest_id                      reserved                    |  | |   |    vector
    //                                               interrupt_mask | |   |
    //                                                     remote_irr |   |
    //                                                    delivery_status |
    //                                                              delivery_mode
    entry.set(0, 64, 0x3a0000000000965f);
    assert_eq!(entry.get_vector(), 0x5f);
    assert_eq!(entry.get_delivery_mode(), DeliveryMode::Startup);
    assert_eq!(entry.get_dest_mode(), DestinationMode::Physical);
    assert_eq!(entry.get_delivery_status(), DeliveryStatus::Pending);
    assert_eq!(entry.get_polarity(), 0);
    assert_eq!(entry.get_remote_irr(), false);
    assert_eq!(entry.get_trigger_mode(), TriggerMode::Level);
    assert_eq!(entry.get_interrupt_mask(), false);
    assert_eq!(entry.get_reserved(), 0);
    assert_eq!(entry.get_dest_id(), 0x3a);

    let (mut vm, irq) = set_up(TriggerMode::Edge);
    write_entry(&mut vm, irq, entry);
    assert_eq!(read_entry(&mut vm, irq).get_trigger_mode(), TriggerMode::Level);

    assert!(vm.service_irq(irq, true));
    assert_eq!(vm.injected.len(), 1);
}

#[test]
fn power_up_masks_every_pin() {
    let mut vm = new();
    for irq in 0..NUM_IOAPIC_PINS {
        assert_eq!(read_reg(&mut vm, encode_selector_from_irq(irq, false)), 0x0001_0000);
        assert_eq!(read_reg(&mut vm, encode_selector_from_irq(irq, true)), 0);
        assert!(vm.ioapic.out_event(irq).is_none());
        assert!(!vm.line(irq));
    }
    assert_eq!(vm.ioapic.debug_label(), "userspace IOAPIC");
}

#[test]
fn bad_reads_leave_the_data_alone() {
    let mut vm = new();
    let mut nine = [7u8; 9];
    vm.read(IOWIN_OFF.into(), &mut nine);
    assert_eq!(nine, [7u8; 9]);
    let mut none: [u8; 0] = [];
    vm.read(IOWIN_OFF.into(), &mut none);
    let mut four = [7u8; 4];
    vm.read(0x8, &mut four);
    assert_eq!(four, [7u8; 4]);
}

#[test]
fn long_reads_fill_four_bytes() {
    let mut vm = Vm::on(Ioapic::with_byte_order(ByteOrder::Little));
    vm.write(IOREGSEL_OFF.into(), &[IOAPIC_REG_VERSION]);
    let mut eight = [7u8; 8];
    vm.read(IOWIN_OFF.into(), &mut eight);
    assert_eq!(eight, [0x11, 0x00, 0x17, 0x00, 7, 7, 7, 7]);
    let mut two = [7u8; 2];
    vm.read(IOWIN_OFF.into(), &mut two);
    assert_eq!(two, [0x11, 0x00]);
    // The upper half of the selector register.
    vm.read(0x4, &mut eight);
    assert_eq!(eight, [0, 0, 0, 0, 7, 7, 7, 7]);
}

#[test]
fn big_endian_bus() {
    let mut vm = Vm::on(Ioapic::with_byte_order(ByteOrder::Big));
    vm.write(IOREGSEL_OFF.into(), &[IOAPIC_REG_VERSION]);
    let mut four = [7u8; 4];
    vm.read(IOWIN_OFF.into(), &mut four);
    assert_eq!(four, [0x00, 0x17, 0x00, 0x11]);
    vm.write(IOREGSEL_OFF.into(), &[IOAPIC_REG_ID]);
    vm.write(IOWIN_OFF.into(), &[0x1f, 0x3e, 0x5d, 0x7c]);
    vm.read(IOWIN_OFF.into(), &mut four);
    assert_eq!(four, [0x0f, 0, 0, 0]);
}

#[test]
fn bad_writes_have_no_effect() {
    let mut vm = new();
    vm.write(IOREGSEL_OFF.into(), &[IOAPIC_REG_ID]);
    vm.write(IOREGSEL_OFF.into(), &[]);
    vm.write(IOREGSEL_OFF.into(), &[0x17; 9]);
    vm.write(0x8, &[0x17; 4]);
    // The data window takes four bytes only.
    vm.write(IOWIN_OFF.into(), &[0xff; 3]);
    vm.write(IOWIN_OFF.into(), &[0xff; 8]);
    assert_eq!(vm.ioapic.get_ioapic_state().ioregsel, IOAPIC_REG_ID);
    assert_eq!(read_reg(&mut vm, IOAPIC_REG_ID), 0);
    vm.write(IOREGSEL_OFF.into(), &[0x17; 8]);
    assert_eq!(vm.ioapic.get_ioapic_state().ioregsel, 0x17);
}

#[test]
fn offsets_wrap_at_the_window_size() {
    let mut vm = new();
    vm.write(IOAPIC_MEM_LENGTH_BYTES, &[IOAPIC_REG_VERSION]);
    let mut four = [0u8; 4];
    vm.read(3 * IOAPIC_MEM_LENGTH_BYTES + u64::from(IOWIN_OFF), &mut four);
    assert_eq!(u32::from_ne_bytes(four), 0x00170011);
}

#[test]
fn unused_selectors() {
    let mut vm = new();
    assert_eq!(read_reg(&mut vm, 0x03), 0);
    assert_eq!(read_reg(&mut vm, 0x0f), 0);
    assert_eq!(read_reg(&mut vm, 0x40), 0xffff_ffff);
    assert_eq!(read_reg(&mut vm, 0xff), 0xffff_ffff);
    let before = vm.ioapic.get_ioapic_state();
    write_reg(&mut vm, 0x0f, 0x1234_5678);
    write_reg(&mut vm, 0x40, 0x1234_5678);
    let after = vm.ioapic.get_ioapic_state();
    assert_eq!(after.ioapicid, before.ioapicid);
    assert_eq!(after.redirect_table, before.redirect_table);
    assert!(vm.routes.is_empty());
}

#[test]
fn halves_are_independent() {
    let mut vm = new();
    write_reg(&mut vm, encode_selector_from_irq(5, true), 0xa1b2_c3d4);
    write_reg(&mut vm, encode_selector_from_irq(5, false), 0xffff_ffff);
    assert_eq!(read_reg(&mut vm, encode_selector_from_irq(5, true)), 0xa1b2_c3d4);
    // Delivery status and remote IRR stay clear.
    assert_eq!(read_reg(&mut vm, encode_selector_from_irq(5, false)), 0xffff_afff);
    assert_eq!(read_reg(&mut vm, encode_selector_from_irq(4, false)), 0x0001_0000);
    assert_eq!(read_reg(&mut vm, encode_selector_from_irq(6, true)), 0);
}

#[test]
fn a_failed_injection_is_not_in_service() {
    let (mut vm, irq) = set_up(TriggerMode::Level);
    vm.writable = false;
    assert!(!vm.service_irq(irq, true));
    assert!(!vm.entry(irq).get_remote_irr());
    assert!(vm.line(irq));
    // The end of any interrupt tries again.
    vm.writable = true;
    vm.end_of_interrupt(DEFAULT_DESTINATION_ID + 1);
    assert_eq!(vm.injected.len(), 1);
    assert!(vm.entry(irq).get_remote_irr());
}

#[test]
fn a_pin_without_event_injects_nothing() {
    let mut vm = new();
    vm.change_entry(3, |entry| {
        entry.set_interrupt_mask(false);
        entry.set_trigger_mode(TriggerMode::Level);
    });
    assert!(!vm.service_irq(3, true));
    assert!(vm.line(3));
}

#[test]
fn end_of_interrupt_ends_service_by_vector() {
    let (mut vm, irq) = set_up(TriggerMode::Level);
    vm.service_irq(irq, true);
    vm.service_irq(irq, false);
    vm.end_of_interrupt(DEFAULT_DESTINATION_ID + 1);
    assert!(vm.entry(irq).get_remote_irr());
    vm.end_of_interrupt(DEFAULT_DESTINATION_ID);
    assert!(!vm.entry(irq).get_remote_irr());
}

#[test]
fn clock_interrupts_resume_after_end_of_interrupt() {
    let mut vm = set_up_with_irq(RTC_IRQ, TriggerMode::Edge);
    assert!(vm.service_irq(RTC_IRQ, true));
    vm.service_irq(RTC_IRQ, false);
    vm.end_of_interrupt(DEFAULT_DESTINATION_ID + 1);
    assert!(!vm.service_irq(RTC_IRQ, true));
    vm.service_irq(RTC_IRQ, false);
    vm.end_of_interrupt(DEFAULT_DESTINATION_ID);
    assert!(vm.service_irq(RTC_IRQ, true));
    assert_eq!(vm.injected.len(), 2);
}

#[test]
fn resample_events_release_the_line() {
    let mut vm = set_up_with_irq(2, TriggerMode::Level);
    vm.ioapic.register_resample_events(vec![vec![], vec![], vec![7, 8], vec![9]]);
    vm.service_irq(2, true);
    vm.end_of_interrupt(DEFAULT_DESTINATION_ID);
    assert_eq!(vm.resampled, vec![7, 8]);
    assert!(!vm.line(2));
    assert_eq!(vm.injected.len(), 1);
    assert!(!vm.entry(2).get_remote_irr());
}

#[test]
fn end_of_interrupt_lists_actions_by_pin() {
    let mut vm = new();
    for irq in [4, 2, 9] {
        set_up_redirection_table_entry(&mut vm, irq, TriggerMode::Level);
        vm.service_irq(irq, true);
    }
    vm.ioapic.register_resample_events(vec![vec![]; 4].into_iter().chain(vec![vec![1]]).collect());
    let actions = vm.ioapic.end_of_interrupt(DEFAULT_DESTINATION_ID);
    assert_eq!(
        actions,
        vec![EoiAction::Inject(2), EoiAction::Resample(4), EoiAction::Inject(9)]
    );
    assert!(vm.ioapic.resample_events_of(5).is_none());
}

#[test]
fn state_is_saved_and_restored() {
    let (mut vm, irq) = set_up(TriggerMode::Level);
    vm.service_irq(irq, true);
    let state = vm.ioapic.get_ioapic_state();
    let mut other = new();
    other.ioapic.set_ioapic_state(&state);
    assert!(other.line(irq));
    assert!(other.entry(irq).get_remote_irr());
    assert_eq!(other.ioapic.get_ioapic_state().ioregsel, state.ioregsel);
    assert_eq!(other.ioapic.get_ioapic_state().redirect_table, state.redirect_table);
}

#[test]
fn routes_follow_the_entry() {
    let (mut vm, irq) = set_up(TriggerMode::Level);
    // The low half was written first, with destination id 0.
    assert_eq!(vm.routes, vec![(24, 0xfee0_0000, 0x865f), (24, 0xfee3_a000, 0x865f)]);
    let event = vm.ioapic.out_event(irq).unwrap().event;

    let mut entry = read_entry(&mut vm, irq);
    entry.set(11, 1, 1);
    entry.set_delivery_mode(DeliveryMode::Fixed);
    write_entry(&mut vm, irq, entry);
    assert_eq!(vm.routes[2..], [(24, 0xfee3_a004, 0x805f), (24, 0xfee3_a004, 0x805f)]);
    // The event and its number were allocated once.
    assert_eq!(vm.ioapic.out_event(irq).unwrap().event, event);
    assert_eq!(vm.ioapic.out_event(irq).unwrap().gsi, 24);
}

#[test]
fn no_route_for_an_empty_message() {
    let mut vm = new();
    write_entry(&mut vm, 3, IoapicRedirectionTableEntry::new());
    assert!(vm.routes.is_empty());
    assert!(vm.ioapic.out_event(3).is_none());
}

#[test]
fn a_pin_keeps_its_event() {
    let (mut vm, irq) = set_up(TriggerMode::Level);
    let event = vm.ioapic.out_event(irq).unwrap().event;
    vm.service_irq(irq, true);
    vm.end_of_interrupt(DEFAULT_DESTINATION_ID);
    set_mask(&mut vm, irq, true);
    set_up_redirection_table_entry(&mut vm, irq - 1, TriggerMode::Edge);
    vm.ioapic.register_resample_events(vec![vec![1]]);
    let fresh: Ioapic<u32> = Ioapic::new().unwrap();
    vm.ioapic.set_ioapic_state(&fresh.get_ioapic_state());
    assert_eq!(vm.ioapic.out_event(irq).unwrap().event, event);
    assert_eq!(vm.ioapic.out_event(irq).unwrap().gsi, 24);
    assert_eq!(vm.ioapic.out_event(irq - 1).unwrap().gsi, 25);
}
