//! A verified model of the Intel 82093AA I/O Advanced Programmable Interrupt Controller.
//!
//! [`Ioapic`] holds the registers and decides what has to happen; whoever owns it writes the
//! events and talks to the owner of the interrupt routes. What the controller does is stated as
//! transitions of a [`model::Device`]; the `*_laws` modules state what follows from them.
pub mod bits;
pub mod bus_laws;
pub mod byte_order;
pub mod entry;
pub mod interrupt_laws;
pub mod ioapic;
pub mod model;
pub mod msi;
pub mod operation_laws;
pub mod register_laws;
pub mod route_laws;
pub mod selector;
pub mod state;

pub use crate::byte_order::ByteOrder;
pub use crate::entry::{
    DeliveryMode, DeliveryStatus, DestinationMode, IoapicRedirectionTableEntry, TriggerMode,
};
pub use crate::ioapic::{
    access_faults, Error, Ioapic, IOAPIC_BASE_ADDRESS, IOAPIC_MEM_LENGTH_BYTES,
};
pub use crate::model::{AccessFault, EoiAction, PinUpdate, ServiceStep, IOAPIC_VERSION_ID, RTC_IRQ};
pub use crate::msi::{
    IoapicError, IrqEvent, MsiProgress, MsiReply, MsiRequest, MsiSetup, MsiStage, VmIrqRequest,
    VmIrqResponse,
};
pub use crate::selector::{
    decode_irq_from_selector, encode_selector_from_irq, IOAPIC_REG_ARBITRATION_ID, IOAPIC_REG_ID,
    IOAPIC_REG_VERSION, IOREGSEL_OFF, IOWIN_OFF,
};
pub use crate::state::{IoapicState, NUM_IOAPIC_PINS};
