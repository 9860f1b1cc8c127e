//! The register state of the controller.
use crate::entry::{IoapicRedirectionTableEntry, RedirectionEntry};
use vstd::prelude::*;

verus! {

/// Number of interrupt pins, each with its own redirection table entry.
pub const NUM_IOAPIC_PINS: usize = 24;

/// The registers of the controller.
#[derive(Clone, Copy)]
pub struct IoapicState {
    /// The selector: which register the data window shows.
    pub ioregsel: u8,
    /// The APIC id of the controller.
    pub ioapicid: u32,
    /// One bit for each interrupt line, set while the line is asserted.
    pub current_interrupt_level_bitmap: u32,
    /// How the interrupts of each pin are delivered.
    pub redirect_table: [IoapicRedirectionTableEntry; NUM_IOAPIC_PINS],
}

/// What the registers hold.
#[verifier::ext_equal]
pub struct Registers {
    pub ioregsel: u8,
    pub ioapicid: u32,
    /// The lines that are asserted.
    pub levels: Set<int>,
    pub table: Seq<RedirectionEntry>,
}

/// The numbers of the bits that are set.
pub open spec fn bits_set(bitmap: u32) -> Set<int> {
    Set::new(|i: int| 0 <= i < 32 && bitmap & (1u32 << (i as u32)) != 0)
}

impl View for IoapicState {
    type V = Registers;

    open spec fn view(&self) -> Registers {
        Registers {
            ioregsel: self.ioregsel,
            ioapicid: self.ioapicid,
            levels: bits_set(self.current_interrupt_level_bitmap),
            table: self.redirect_table@.map_values(|e: IoapicRedirectionTableEntry| e@),
        }
    }
}

impl Registers {
    /// All registers zero but for the mask bit of every pin.
    pub open spec fn initial() -> Registers {
        Registers {
            ioregsel: 0,
            ioapicid: 0,
            levels: Set::empty(),
            table: Seq::new(
                NUM_IOAPIC_PINS as nat,
                |i: int| RedirectionEntry { interrupt_mask: true, ..RedirectionEntry::of_bits(0) },
            ),
        }
    }
}

impl IoapicState {
    /// Whether the line is asserted.
    pub(crate) fn line(&self, irq: usize) -> (r: bool)
        requires
            irq < NUM_IOAPIC_PINS,
        ensures
            r == self@.levels.contains(irq as int),
    {
        self.current_interrupt_level_bitmap & (1u32 << (irq as u32)) != 0
    }

    /// Records the line as asserted.
    pub(crate) fn raise(&mut self, irq: usize)
        requires
            irq < NUM_IOAPIC_PINS,
        ensures
            final(self)@ == (Registers { levels: old(self)@.levels.insert(irq as int), ..old(self)@ }),
    {
        let ghost before = self.current_interrupt_level_bitmap;
        self.current_interrupt_level_bitmap =
        self.current_interrupt_level_bitmap | (1u32 << (irq as u32));
        proof {
            let k = irq as u32;
            assert forall|i: int| 0 <= i < 32 implies (#[trigger] bits_set(before | (1u32 << k)).contains(
                i,
            ) <==> bits_set(before).contains(i) || i == irq) by {
                let j = i as u32;
                assert(((before | (1u32 << k)) & (1u32 << j) != 0) == (before & (1u32 << j) != 0 || j
                    == k)) by (bit_vector)
                    requires
                        j < 32,
                        k < 24,
                ;
            }
            assert(self@.levels =~= old(self)@.levels.insert(irq as int));
        }
    }

    /// Records the line as no longer asserted.
    pub(crate) fn lower(&mut self, irq: usize)
        requires
            irq < NUM_IOAPIC_PINS,
        ensures
            final(self)@ == (Registers { levels: old(self)@.levels.remove(irq as int), ..old(self)@ }),
    {
        let ghost before = self.current_interrupt_level_bitmap;
        self.current_interrupt_level_bitmap =
        self.current_interrupt_level_bitmap & !(1u32 << (irq as u32));
        proof {
            let k = irq as u32;
            assert forall|i: int| 0 <= i < 32 implies (#[trigger] bits_set(before & !(1u32 << k)).contains(
                i,
            ) <==> bits_set(before).contains(i) && i != irq) by {
                let j = i as u32;
                assert(((before & !(1u32 << k)) & (1u32 << j) != 0) == (before & (1u32 << j) != 0 && j
                    != k)) by (bit_vector)
                    requires
                        j < 32,
                        k < 24,
                ;
            }
            assert(self@.levels =~= old(self)@.levels.remove(irq as int));
        }
    }

    /// One entry of the redirection table.
    pub(crate) fn entry(&self, irq: usize) -> (r: IoapicRedirectionTableEntry)
        requires
            irq < NUM_IOAPIC_PINS,
        ensures
            r@ == self@.table[irq as int],
    {
        self.redirect_table[irq]
    }

    /// Replaces one entry of the redirection table.
    pub(crate) fn set_entry(&mut self, irq: usize, entry: IoapicRedirectionTableEntry)
        requires
            irq < NUM_IOAPIC_PINS,
        ensures
            final(self)@ == (Registers {
                table: old(self)@.table.update(irq as int, entry@),
                ..old(self)@
            }),
    {
        self.redirect_table[irq] = entry;
        assert(self@.table =~= old(self)@.table.update(irq as int, entry@));
    }
}

impl Default for IoapicState {
    fn default() -> (r: IoapicState)
        ensures
            r.ioregsel == 0,
            r.ioapicid == 0,
            r.current_interrupt_level_bitmap == 0,
            r@.levels == Set::<int>::empty(),
            forall|i: int| 0 <= i < NUM_IOAPIC_PINS ==> (#[trigger] r.redirect_table@[i]).bits == 0,
    {
        proof {
            assert forall|i: int| !(#[trigger] bits_set(0).contains(i)) by {
                let j = i as u32;
                assert(0u32 & (1u32 << j) == 0) by (bit_vector);
            }
            assert(bits_set(0) =~= Set::<int>::empty());
        }
        IoapicState {
            ioregsel: 0,
            ioapicid: 0,
            current_interrupt_level_bitmap: 0,
            redirect_table: [IoapicRedirectionTableEntry { bits: 0 };24],
        }
    }
}

} // verus!
