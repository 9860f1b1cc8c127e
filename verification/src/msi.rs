//! Message signalled interrupts: the message that a pin sends, and the conversation that sets up
//! its route.
use crate::entry::{IoapicRedirectionTableEntry, RedirectionEntry};
use crate::register_laws;
use vstd::prelude::*;

verus! {

/// An event that carries interrupts out of the controller, with the route it was given.
///
/// `E` is the type of an event object; it is only ever carried around here.
pub struct IrqEvent<E> {
    /// The global system interrupt number of the route.
    pub gsi: u32,
    /// Written to inject an interrupt.
    pub event: E,
    /// Written when the interrupt has been serviced.
    pub resample_event: Option<E>,
}

/// A request to the owner of the interrupt routes.
pub enum VmIrqRequest<'a, E> {
    /// Allocate a route that is triggered by the event.
    AllocateOneMsi { irqfd: &'a E },
    /// Send the message whenever the route is triggered.
    AddMsiRoute { gsi: u32, msi_address: u64, msi_data: u32 },
}

/// The answer to a [`VmIrqRequest`]; `S` is the type of a system error.
pub enum VmIrqResponse<S> {
    /// The route that was allocated.
    AllocateOneMsi { gsi: u32 },
    /// The request was carried out.
    Accepted,
    /// The request failed.
    Refused(S),
}

/// Why a route could not be set up; `S` is a system error, `M` an error of the message channel.
#[derive(Debug)]
pub enum IoapicError<S, M> {
    AddMsiRoute(S),
    AddMsiRouteRecv(M),
    AddMsiRouteSend(M),
    AllocateOneMsi(S),
    AllocateOneMsiRecv(M),
    AllocateOneMsiSend(M),
    CreateEvent(S),
}

impl<S, M> IoapicError<S, M> {
    /// What went wrong, without the cause.
    pub open spec fn what(self) -> Seq<char> {
        match self {
            IoapicError::AddMsiRoute(_) => "AddMsiRoute failed: "@,
            IoapicError::AddMsiRouteRecv(_) => "failed to receive AddMsiRoute response: "@,
            IoapicError::AddMsiRouteSend(_) => "failed to send AddMsiRoute request: "@,
            IoapicError::AllocateOneMsi(_) => "AllocateOneMsi failed: "@,
            IoapicError::AllocateOneMsiRecv(_) => "failed to receive AllocateOneMsi response: "@,
            IoapicError::AllocateOneMsiSend(_) => "failed to send AllocateOneMsi request: "@,
            IoapicError::CreateEvent(_) => "failed to create event object: "@,
        }
    }

    /// The text of the error, given the text of its cause.
    pub fn message(&self, cause: &str) -> (r: String)
        ensures
            r@ == self.what() + cause@,
    {
        let what = match self {
            IoapicError::AddMsiRoute(_) => "AddMsiRoute failed: ",
            IoapicError::AddMsiRouteRecv(_) => "failed to receive AddMsiRoute response: ",
            IoapicError::AddMsiRouteSend(_) => "failed to send AddMsiRoute request: ",
            IoapicError::AllocateOneMsi(_) => "AllocateOneMsi failed: ",
            IoapicError::AllocateOneMsiRecv(_) => "failed to receive AllocateOneMsi response: ",
            IoapicError::AllocateOneMsiSend(_) => "failed to send AllocateOneMsi request: ",
            IoapicError::CreateEvent(_) => "failed to create event object: ",
        };
        let mut text = what.to_owned();
        text.append(cause);
        text
    }
}

impl RedirectionEntry {
    /// The address of the message: 0xfee in the highest twelve bits, then the destination.
    pub open spec fn msi_address(self) -> int {
        0xfee0_0000 + 0x1000 * self.dest_id + 4 * self.dest_mode.code()
    }

    /// The data of the message: vector, delivery mode and trigger mode.
    pub open spec fn msi_data(self) -> int {
        self.vector + 0x100 * self.delivery_mode.code() + 0x8000 * self.trigger_mode.code()
    }
}

impl IoapicRedirectionTableEntry {
    /// The address of the message that delivers the pin's interrupts.
    pub fn msi_address(&self) -> (r: u64)
        ensures
            r == self@.msi_address(),
            r == (0xfee0_0000u64 | ((self.bits >> 56) << 12) | (((self.bits >> 11) & 1) << 2)),
    {
        proof {
            register_laws::law_message_address(self.bits);
        }
        0xfee0_0000 + 0x1000 * (self.get_dest_id() as u64) + 4 * self.get_dest_mode().to_code()
    }

    /// The data of the message that delivers the pin's interrupts.
    pub fn msi_data(&self) -> (r: u32)
        ensures
            r == self@.msi_data(),
            r == self.bits & 0x87ff,
    {
        proof {
            register_laws::law_message_data(self.bits);
        }
        let mode: u64 = self.get_delivery_mode().to_code();
        let trigger: u64 = self.get_trigger_mode().to_code();
        self.get_vector() as u32 + 0x100 * (mode as u32) + 0x8000 * (trigger as u32)
    }
}

/// How far the conversation about one route has come: what has to happen next.
pub enum MsiStage<E> {
    /// An event has to be created for the pin.
    CreateEvent,
    /// A route has to be requested for the new event.
    AllocateSend { event: E },
    /// The answer to that request has to be received.
    AllocateRecv { event: E },
    /// The message of the route has to be set.
    RouteSend { gsi: u32 },
    /// The answer to that has to be received.
    RouteRecv,
}

/// A conversation about the route of one pin.
pub struct MsiSetup<E> {
    /// The pin.
    pub index: usize,
    /// The address of the message to route.
    pub msi_address: u64,
    /// The data of the message to route.
    pub msi_data: u32,
    pub stage: MsiStage<E>,
}

/// What the surroundings have to do to carry a conversation on.
pub enum MsiRequest<'a, E> {
    /// Create an event.
    CreateEvent,
    /// Send a request.
    Send(VmIrqRequest<'a, E>),
    /// Receive the answer to the last request.
    Receive,
}

/// What came of an [`MsiRequest`].
pub enum MsiReply<E, S, M> {
    EventCreated(Result<E, S>),
    Sent(Result<(), M>),
    Received(Result<VmIrqResponse<S>, M>),
}

/// A conversation after a reply.
pub enum MsiProgress<E, S, M> {
    /// It is over.
    Finished(Result<(), IoapicError<S, M>>),
    /// It goes on.
    Pending(MsiSetup<E>),
}

impl<E> MsiSetup<E> {
    /// The step that has to be taken next.
    pub open spec fn next_request(&self) -> MsiRequest<'_, E> {
        match &self.stage {
            MsiStage::CreateEvent => MsiRequest::CreateEvent,
            MsiStage::AllocateSend { event } => MsiRequest::Send(
                VmIrqRequest::AllocateOneMsi { irqfd: event },
            ),
            MsiStage::AllocateRecv { event } => MsiRequest::Receive,
            MsiStage::RouteSend { gsi } => MsiRequest::Send(
                VmIrqRequest::AddMsiRoute {
                    gsi: *gsi,
                    msi_address: self.msi_address,
                    msi_data: self.msi_data,
                },
            ),
            MsiStage::RouteRecv => MsiRequest::Receive,
        }
    }

    /// The step that has to be taken next.
    pub fn request(&self) -> (r: MsiRequest<'_, E>)
        ensures
            r == self.next_request(),
    {
        match &self.stage {
            MsiStage::CreateEvent => MsiRequest::CreateEvent,
            MsiStage::AllocateSend { event } => MsiRequest::Send(
                VmIrqRequest::AllocateOneMsi { irqfd: event },
            ),
            MsiStage::AllocateRecv { event: _ } => MsiRequest::Receive,
            MsiStage::RouteSend { gsi } => MsiRequest::Send(
                VmIrqRequest::AddMsiRoute {
                    gsi: *gsi,
                    msi_address: self.msi_address,
                    msi_data: self.msi_data,
                },
            ),
            MsiStage::RouteRecv => MsiRequest::Receive,
        }
    }

    /// The reply is one to the step that was due. A request for a new route is answered by the
    /// route or by an error, never by a bare acceptance.
    pub open spec fn expects<S, M>(self, reply: MsiReply<E, S, M>) -> bool {
        match self.stage {
            MsiStage::CreateEvent => reply is EventCreated,
            MsiStage::AllocateSend { event } => reply is Sent,
            MsiStage::AllocateRecv { event } => {
                &&& reply is Received
                &&& !(reply matches MsiReply::Received(Ok(VmIrqResponse::Accepted)))
            },
            MsiStage::RouteSend { gsi } => reply is Sent,
            MsiStage::RouteRecv => reply is Received,
        }
    }
}

} // verus!
