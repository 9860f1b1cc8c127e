//! The parts that the controller is made of.
use ioapic::{
    access_faults, decode_irq_from_selector, encode_selector_from_irq, AccessFault, ByteOrder,
    DeliveryMode, DestinationMode, Ioapic,
    IoapicError, IoapicRedirectionTableEntry, MsiProgress, MsiReply, MsiRequest, MsiSetup,
    MsiStage, VmIrqRequest, VmIrqResponse,
};

type Reply = MsiReply<u32, i32, &'static str>;

fn begin(ioapic: &Ioapic<u32>) -> MsiSetup<u32> {
    ioapic.setup_msi(5, 0xfee0_1000, 0x41).unwrap()
}

/// Gives the replies in turn, and returns the error that the last one leads to.
fn fail_after(replies: Vec<Reply>) -> (Ioapic<u32>, IoapicError<i32, &'static str>) {
    let mut ioapic = Ioapic::new().unwrap();
    let mut setup = begin(&ioapic);
    for reply in replies {
        match ioapic.resume_msi(setup, reply) {
            MsiProgress::Pending(next) => setup = next,
            MsiProgress::Finished(result) => return (ioapic, result.unwrap_err()),
        }
    }
    unreachable!()
}

#[test]
fn selectors_round_trip() {
    assert_eq!(encode_selector_from_irq(0, false), 0x10);
    assert_eq!(encode_selector_from_irq(23, true), 0x3f);
    assert_eq!(encode_selector_from_irq(119, true), 0xff);
    // Only the lowest eight bits of the pin number count.
    assert_eq!(encode_selector_from_irq(0x203, false), 0x16);
    for selector in 0x10..=0xffu8 {
        let (irq, is_high_bits) = decode_irq_from_selector(selector);
        assert_eq!(encode_selector_from_irq(irq, is_high_bits), selector);
    }
}

#[test]
fn fields_have_their_place() {
    let mut entry = IoapicRedirectionTableEntry::new();
    entry.set_vector(0xab);
    entry.set_delivery_mode(DeliveryMode::NMI);
    entry.set_polarity(1);
    entry.set_interrupt_mask(true);
    entry.set_dest_id(0xcd);
    assert_eq!(entry.get(0, 64), 0xcd00_0000_0001_24ab);
    entry.set_interrupt_mask(false);
    assert_eq!(entry.get(0, 64), 0xcd00_0000_0000_24ab);
    entry.set(17, 39, u64::MAX);
    assert_eq!(entry.get_reserved(), 0x7f_ffff_ffff);
    assert_eq!(entry.get_dest_id(), 0xcd);
    assert_eq!(entry.get_vector(), 0xab);
    assert_eq!(entry.get_dest_mode(), DestinationMode::Physical);
}

#[test]
fn every_delivery_mode_has_its_code() {
    let modes = [
        DeliveryMode::Fixed,
        DeliveryMode::Lowest,
        DeliveryMode::SMI,
        DeliveryMode::RemoteRead,
        DeliveryMode::NMI,
        DeliveryMode::Init,
        DeliveryMode::Startup,
        DeliveryMode::External,
    ];
    for (code, mode) in modes.iter().enumerate() {
        let mut entry = IoapicRedirectionTableEntry::new();
        entry.set_delivery_mode(*mode);
        assert_eq!(entry.get(0, 64), (code as u64) << 8);
        assert_eq!(entry.get_delivery_mode(), *mode);
        assert_eq!(entry.msi_data(), (code as u32) << 8);
    }
}

#[test]
fn messages_are_composed_from_the_entry() {
    let mut entry = IoapicRedirectionTableEntry::new();
    assert_eq!(entry.msi_address(), 0xfee0_0000);
    assert_eq!(entry.msi_data(), 0);
    entry.set(0, 64, 0x3a0000000000965f);
    assert_eq!(entry.msi_address(), 0xfee3_a000);
    assert_eq!(entry.msi_data(), 0x865f);
    entry.set(11, 1, 1);
    assert_eq!(entry.msi_address(), 0xfee3_a004);
    entry.set_dest_id(0xff);
    assert_eq!(entry.msi_address(), 0xfeef_f004);
}

#[test]
fn a_route_is_set_up_step_by_step() {
    let mut ioapic: Ioapic<u32> = Ioapic::new().unwrap();
    assert!(ioapic.setup_msi(5, 0xfee0_1000, 0).is_none());
    let setup = begin(&ioapic);
    assert!(matches!(setup.request(), MsiRequest::CreateEvent));

    let replies: Vec<Reply> = vec![
        MsiReply::EventCreated(Ok(77)),
        MsiReply::Sent(Ok(())),
        MsiReply::Received(Ok(VmIrqResponse::AllocateOneMsi { gsi: 30 })),
        MsiReply::Sent(Ok(())),
    ];
    let mut setup = setup;
    for (step, reply) in replies.into_iter().enumerate() {
        setup = match ioapic.resume_msi(setup, reply) {
            MsiProgress::Pending(next) => next,
            MsiProgress::Finished(_) => panic!("finished at step {}", step),
        };
        let expected = match step {
            0 => matches!(
                setup.request(),
                MsiRequest::Send(VmIrqRequest::AllocateOneMsi { irqfd: 77 })
            ),
            2 => matches!(
                setup.request(),
                MsiRequest::Send(VmIrqRequest::AddMsiRoute {
                    gsi: 30,
                    msi_address: 0xfee0_1000,
                    msi_data: 0x41
                })
            ),
            _ => matches!(setup.request(), MsiRequest::Receive),
        };
        assert!(expected);
    }
    let last: Reply = MsiReply::Received(Ok(VmIrqResponse::Accepted));
    assert!(matches!(ioapic.resume_msi(setup, last), MsiProgress::Finished(Ok(()))));

    let out_event = ioapic.out_event(5).unwrap();
    assert_eq!((out_event.gsi, out_event.event), (30, 77));
    assert!(ioapic.out_event(4).is_none());
    // The next time only the message is set.
    let setup = ioapic.setup_msi(5, 0xfee0_2000, 0x42).unwrap();
    assert!(matches!(setup.stage, MsiStage::RouteSend { gsi: 30 }));
}

#[test]
fn event_cannot_be_created() {
    let (ioapic, e) = fail_after(vec![MsiReply::EventCreated(Err(24))]);
    assert!(matches!(e, IoapicError::CreateEvent(24)));
    assert_eq!(e.message("no files"), "failed to create event object: no files");
    assert!(ioapic.out_event(5).is_none());
}

#[test]
fn allocation_cannot_be_sent() {
    let (ioapic, e) =
        fail_after(vec![MsiReply::EventCreated(Ok(1)), MsiReply::Sent(Err("closed"))]);
    assert!(matches!(e, IoapicError::AllocateOneMsiSend("closed")));
    assert_eq!(e.message("closed"), "failed to send AllocateOneMsi request: closed");
    assert!(ioapic.out_event(5).is_none());
}

#[test]
fn allocation_gets_no_answer() {
    let (ioapic, e) = fail_after(vec![
        MsiReply::EventCreated(Ok(1)),
        MsiReply::Sent(Ok(())),
        MsiReply::Received(Err("closed")),
    ]);
    assert!(matches!(e, IoapicError::AllocateOneMsiRecv("closed")));
    assert_eq!(e.message("closed"), "failed to receive AllocateOneMsi response: closed");
    assert!(ioapic.out_event(5).is_none());
}

#[test]
fn allocation_is_refused() {
    let (ioapic, e) = fail_after(vec![
        MsiReply::EventCreated(Ok(1)),
        MsiReply::Sent(Ok(())),
        MsiReply::Received(Ok(VmIrqResponse::Refused(28))),
    ]);
    assert!(matches!(e, IoapicError::AllocateOneMsi(28)));
    assert_eq!(e.message("full"), "AllocateOneMsi failed: full");
    assert!(ioapic.out_event(5).is_none());
}

fn allocated() -> Vec<Reply> {
    vec![
        MsiReply::EventCreated(Ok(1)),
        MsiReply::Sent(Ok(())),
        MsiReply::Received(Ok(VmIrqResponse::AllocateOneMsi { gsi: 30 })),
    ]
}

#[test]
fn route_cannot_be_sent() {
    let mut replies = allocated();
    replies.push(MsiReply::Sent(Err("closed")));
    let (ioapic, e) = fail_after(replies);
    assert!(matches!(e, IoapicError::AddMsiRouteSend("closed")));
    assert_eq!(e.message("closed"), "failed to send AddMsiRoute request: closed");
    // The pin keeps its event.
    assert_eq!(ioapic.out_event(5).unwrap().gsi, 30);
}

#[test]
fn route_gets_no_answer() {
    let mut replies = allocated();
    replies.push(MsiReply::Sent(Ok(())));
    replies.push(MsiReply::Received(Err("closed")));
    let (ioapic, e) = fail_after(replies);
    assert!(matches!(e, IoapicError::AddMsiRouteRecv("closed")));
    assert_eq!(e.message("closed"), "failed to receive AddMsiRoute response: closed");
    assert_eq!(ioapic.out_event(5).unwrap().gsi, 30);
}

#[test]
fn route_is_refused() {
    let mut replies = allocated();
    replies.push(MsiReply::Sent(Ok(())));
    replies.push(MsiReply::Received(Ok(VmIrqResponse::Refused(22))));
    let (ioapic, e) = fail_after(replies);
    assert!(matches!(e, IoapicError::AddMsiRoute(22)));
    assert_eq!(e.message("invalid"), "AddMsiRoute failed: invalid");
    assert_eq!(ioapic.out_event(5).unwrap().gsi, 30);
}

#[test]
fn byte_order_of_a_representation() {
    assert_eq!(ByteOrder::of_one([1, 0, 0, 0]), ByteOrder::Little);
    assert_eq!(ByteOrder::of_one([0, 0, 0, 1]), ByteOrder::Big);
    assert_eq!(ByteOrder::of_one(1u32.to_ne_bytes()).to_bytes(0x0102_0304), 0x0102_0304u32.to_ne_bytes());
}

#[test]
fn a_new_controller_has_the_byte_order_of_the_machine() {
    let mut ioapic: Ioapic<u32> = Ioapic::new().unwrap();
    assert!(ioapic.write(0, &[1]).is_none());
    let mut data = [0u8; 4];
    ioapic.read(0x10, &mut data);
    assert_eq!(data, 0x0017_0011u32.to_ne_bytes());
}

#[test]
fn faults_of_bus_accesses() {
    assert_eq!(access_faults(false, 0x10, 4), vec![]);
    assert_eq!(access_faults(true, 0x10, 4), vec![]);
    assert_eq!(access_faults(true, 0x0, 8), vec![]);
    assert_eq!(access_faults(true, 0x4, 1), vec![]);
    // A bad size is the only fault.
    assert_eq!(access_faults(false, 0x1ff, 0), vec![AccessFault::Size]);
    assert_eq!(access_faults(true, 0x10, 9), vec![AccessFault::Size]);
    assert_eq!(access_faults(false, 0x8, 4), vec![AccessFault::Register]);
    assert_eq!(access_faults(false, 0x110, 4), vec![AccessFault::Offset]);
    assert_eq!(access_faults(true, 0x108, 4), vec![AccessFault::Offset, AccessFault::Register]);
    // Only writes to the data window have to be of four bytes.
    assert_eq!(access_faults(false, 0x10, 3), vec![]);
    assert_eq!(access_faults(true, 0x10, 3), vec![AccessFault::WindowSize]);
    assert_eq!(access_faults(true, 0x210, 8), vec![AccessFault::Offset, AccessFault::WindowSize]);
}
