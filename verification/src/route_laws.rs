//! What holds of the routes by which pins send their messages.
use crate::model;
use crate::model::Device;
use crate::msi::{
    IoapicError, IrqEvent, MsiProgress, MsiReply, MsiRequest, MsiSetup, MsiStage, VmIrqRequest,
    VmIrqResponse,
};
use crate::state::{Registers, NUM_IOAPIC_PINS};
use vstd::prelude::*;

verus! {

/// What comes of each step of a conversation about a route, should it be taken.
pub struct Outcomes<E, S, M> {
    pub created: Result<E, S>,
    pub allocate_sent: Result<(), M>,
    pub allocate_answer: Result<VmIrqResponse<S>, M>,
    pub route_sent: Result<(), M>,
    pub route_answer: Result<VmIrqResponse<S>, M>,
}

impl<E, S, M> Outcomes<E, S, M> {
    /// A request for a new route is answered by the route or by an error.
    pub open spec fn proper(self) -> bool {
        !(self.allocate_answer matches Ok(VmIrqResponse::Accepted))
    }

    /// The reply to the step that is due.
    pub open spec fn reply(self, stage: MsiStage<E>) -> MsiReply<E, S, M> {
        match stage {
            MsiStage::CreateEvent => MsiReply::EventCreated(self.created),
            MsiStage::AllocateSend { .. } => MsiReply::Sent(self.allocate_sent),
            MsiStage::AllocateRecv { .. } => MsiReply::Received(self.allocate_answer),
            MsiStage::RouteSend { .. } => MsiReply::Sent(self.route_sent),
            MsiStage::RouteRecv => MsiReply::Received(self.route_answer),
        }
    }

    /// The event that the pin gets, or why it gets none.
    pub open spec fn allocated(self) -> Result<IrqEvent<E>, IoapicError<S, M>> {
        match (self.created, self.allocate_sent, self.allocate_answer) {
            (Err(e), _, _) => Err(IoapicError::CreateEvent(e)),
            (_, Err(e), _) => Err(IoapicError::AllocateOneMsiSend(e)),
            (_, _, Err(e)) => Err(IoapicError::AllocateOneMsiRecv(e)),
            (_, _, Ok(VmIrqResponse::Refused(e))) => Err(IoapicError::AllocateOneMsi(e)),
            (Ok(event), _, Ok(VmIrqResponse::AllocateOneMsi { gsi })) => Ok(
                IrqEvent { gsi, event, resample_event: None },
            ),
            _ => arbitrary(),
        }
    }

    /// Whether the message of the route has been set, or why not.
    pub open spec fn routed(self) -> Result<(), IoapicError<S, M>> {
        match (self.route_sent, self.route_answer) {
            (Err(e), _) => Err(IoapicError::AddMsiRouteSend(e)),
            (_, Err(e)) => Err(IoapicError::AddMsiRouteRecv(e)),
            (_, Ok(VmIrqResponse::Refused(e))) => Err(IoapicError::AddMsiRoute(e)),
            _ => Ok(()),
        }
    }
}

/// The controller and the conversation after at most `turns` replies.
pub open spec fn converse<E, S, M>(
    d: Device<E>,
    progress: MsiProgress<E, S, M>,
    outcomes: Outcomes<E, S, M>,
    turns: nat,
) -> (Device<E>, MsiProgress<E, S, M>)
    decreases turns,
{
    match progress {
        MsiProgress::Pending(setup) if turns > 0 => {
            let reply = outcomes.reply(setup.stage);
            converse(
                d.msi_replied(setup, reply),
                model::msi_progress(setup, reply),
                outcomes,
                (turns - 1) as nat,
            )
        },
        _ => (d, progress),
    }
}

/// The controller after the pin has got the event.
pub open spec fn with_event<E>(d: Device<E>, index: int, irq_event: IrqEvent<E>) -> Device<E> {
    Device { out_events: d.out_events.update(index, Some(irq_event)), ..d }
}

/// A conversation about a route is over after at most five replies, each of which it expects. If
/// the pin has no event, one is created and a route allocated for it; the first step that fails
/// ends the conversation with its error and leaves the pin without. Then the message of the route
/// is set; the pin keeps its event even if that fails.
pub proof fn law_conversation<E, S, M>(
    d: Device<E>,
    index: usize,
    msi_address: u64,
    msi_data: u32,
    outcomes: Outcomes<E, S, M>,
)
    requires
        d.wf(),
        index < NUM_IOAPIC_PINS,
        msi_data != 0,
        outcomes.proper(),
    ensures
        d.msi_setup(index, msi_address, msi_data) is Some,
        converse(
            d,
            MsiProgress::Pending(d.msi_setup(index, msi_address, msi_data)->0),
            outcomes,
            5,
        ) == match d.out_events[index as int] {
            Some(_) => (d, MsiProgress::<E, S, M>::Finished(outcomes.routed())),
            None => match outcomes.allocated() {
                Ok(irq_event) => (
                    with_event(d, index as int, irq_event),
                    MsiProgress::Finished(outcomes.routed()),
                ),
                Err(e) => (d, MsiProgress::Finished(Err(e))),
            },
        },
{
    reveal_with_fuel(converse, 6);
}

/// The step that is due expects the reply to it.
pub proof fn law_replies_are_expected<E, S, M>(setup: MsiSetup<E>, outcomes: Outcomes<E, S, M>)
    requires
        outcomes.proper(),
    ensures
        setup.expects(outcomes.reply(setup.stage)),
{
}

/// A message without data gets no route.
pub proof fn law_no_route_without_data<E>(d: Device<E>, index: usize, msi_address: u64)
    ensures
        d.msi_setup(index, msi_address, 0) is None,
{
}

/// A pin that has got an event keeps it, and with it the number of its route, whatever happens:
/// line changes, injections, ends of interrupt, writes over the bus, conversations about this or
/// any other pin, new resample events, another register state.
pub proof fn law_pin_keeps_its_event<E, S, M>(
    d: Device<E>,
    pin: int,
    irq: int,
    flag: bool,
    vector: u8,
    offset: u64,
    data: Seq<u8>,
    setup: MsiSetup<E>,
    reply: MsiReply<E, S, M>,
    resample_events: Seq<Seq<E>>,
    regs: Registers,
)
    requires
        d.wf(),
        0 <= pin < NUM_IOAPIC_PINS,
        d.out_events[pin] is Some,
        d.admits(setup),
    ensures
        d.serviced(irq, flag).out_events[pin] == d.out_events[pin],
        d.inject_result(irq, flag).out_events[pin] == d.out_events[pin],
        d.ended(vector).out_events[pin] == d.out_events[pin],
        d.written(offset, data).out_events[pin] == d.out_events[pin],
        d.msi_replied(setup, reply).out_events[pin] == d.out_events[pin],
        (Device { resample_events, ..d }).out_events[pin] == d.out_events[pin],
        (Device { regs, ..d }).out_events[pin] == d.out_events[pin],
{
}

/// The event and the number of a pin's route are allocated once: when the entry of a pin that has
/// them is written again, only the message of the same route is set anew.
pub proof fn law_event_is_allocated_once<E, S, M>(
    d: Device<E>,
    index: usize,
    msi_address: u64,
    msi_data: u32,
    outcomes: Outcomes<E, S, M>,
)
    requires
        d.wf(),
        index < NUM_IOAPIC_PINS,
        msi_data != 0,
        outcomes.proper(),
        d.out_events[index as int] is Some,
    ensures
        ({
            let setup = d.msi_setup(index, msi_address, msi_data)->0;
            let irq_event = d.out_events[index as int]->0;
            &&& setup.next_request() == MsiRequest::<E>::Send(
                VmIrqRequest::AddMsiRoute { gsi: irq_event.gsi, msi_address, msi_data },
            )
            &&& converse(d, MsiProgress::Pending(setup), outcomes, 5).0 == d
        }),
{
    law_conversation(d, index, msi_address, msi_data, outcomes);
}

/// The conversation belongs to the state: it is about to get the pin an event if and only if the
/// pin has none, and the route whose message it is about to set is that of the pin's event.
pub open spec fn means_own_route<E>(d: Device<E>, setup: MsiSetup<E>) -> bool {
    match setup.stage {
        MsiStage::RouteSend { gsi } => d.out_events[setup.index as int] is Some
            && d.out_events[setup.index as int]->0.gsi == gsi,
        MsiStage::RouteRecv => d.out_events[setup.index as int] is Some,
        _ => d.out_events[setup.index as int] is None,
    }
}

/// Every conversation means the route of the pin's own event, and the message it was begun with,
/// from its beginning to its end; it can be carried on at every step.
pub proof fn law_conversation_means_own_route<E, S, M>(
    d: Device<E>,
    index: usize,
    msi_address: u64,
    msi_data: u32,
    setup: MsiSetup<E>,
    reply: MsiReply<E, S, M>,
)
    requires
        d.wf(),
        index < NUM_IOAPIC_PINS,
        setup.index < NUM_IOAPIC_PINS,
        setup.expects(reply),
        means_own_route(d, setup),
    ensures
        d.admits(setup),
        d.msi_setup(index, msi_address, msi_data) matches Some(begun) ==> means_own_route(d, begun)
            && begun.index == index && begun.msi_address == msi_address && begun.msi_data
            == msi_data,
        model::msi_progress(setup, reply) matches MsiProgress::Pending(next) ==> means_own_route(
            d.msi_replied(setup, reply),
            next,
        ) && next.index == setup.index && next.msi_address == setup.msi_address && next.msi_data
            == setup.msi_data,
{
}

/// A conversation about the route of one pin changes nothing about any other pin, and of its own
/// pin only the event.
pub proof fn law_conversation_touches_one_event<E, S, M>(
    d: Device<E>,
    setup: MsiSetup<E>,
    reply: MsiReply<E, S, M>,
    other: int,
)
    requires
        d.wf(),
        setup.index < NUM_IOAPIC_PINS,
        0 <= other < NUM_IOAPIC_PINS,
        other != setup.index,
    ensures
        d.msi_replied(setup, reply).out_events[other] == d.out_events[other],
        d.msi_replied(setup, reply) == (Device {
            out_events: d.msi_replied(setup, reply).out_events,
            ..d
        }),
{
}

/// What comes of an injection has no bearing on the route.
pub proof fn law_injection_leaves_route_alone<E>(
    d: Device<E>,
    irq: int,
    success: bool,
    index: usize,
    msi_address: u64,
    msi_data: u32,
)
    ensures
        d.inject_result(irq, success).msi_setup(index, msi_address, msi_data) == d.msi_setup(
            index,
            msi_address,
            msi_data,
        ),
{
}

} // verus!
