# ioapic

A verified model of the Intel 82093AA I/O Advanced Programmable Interrupt Controller, as a virtual
machine monitor presents it to its guest.

The controller decides and does no input or output of its own. Where an event has to be written or
the owner of the interrupt routes has to be asked, its methods say so in their result, and the
caller reports back what came of it.

- `src/ioapic.rs`: the controller.
- `src/model.rs`: its behaviour, as transitions between mathematical states.
- `src/entry.rs`, `src/state.rs`, `src/selector.rs`, `src/byte_order.rs`, `src/bits.rs`: the
  registers and how the bus shows them.
- `src/msi.rs`: the messages that pins send, and the conversation that sets up their routes.
- `src/bus_laws.rs`, `src/interrupt_laws.rs`, `src/route_laws.rs`: what holds of the controller as
  a whole.
- `app/`: the device on a bus, which writes the events and talks over the request channel.
