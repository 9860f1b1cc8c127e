//! One entry of the redirection table: how the interrupts of one pin are delivered.
//!
//! ```text
//!  63    56 55            17  16     15      14     13     12     11    10   8 7    0
//! | dest_id | reserved      | mask | trig | r_irr | pol | status | dest | mode | vector |
//! ```
use crate::bits;
use vstd::prelude::*;

verus! {

/// How the destination field is interpreted.
#[derive(Clone, Copy, Debug, PartialEq, Eq, Structural)]
pub enum DestinationMode {
    Physical,
    Logical,
}

/// What a pin reacts to: a rising edge, or the level itself.
#[derive(Clone, Copy, Debug, PartialEq, Eq, Structural)]
pub enum TriggerMode {
    Edge,
    Level,
}

/// Whether an interrupt has been sent and not yet been accepted.
#[derive(Clone, Copy, Debug, PartialEq, Eq, Structural)]
pub enum DeliveryStatus {
    Idle,
    Pending,
}

/// How the destination APICs act on the interrupt.
#[derive(Clone, Copy, Debug, PartialEq, Eq, Structural)]
pub enum DeliveryMode {
    Fixed,
    Lowest,
    SMI,
    RemoteRead,
    NMI,
    Init,
    Startup,
    External,
}

impl DestinationMode {
    /// The bit that stands for the mode.
    pub open spec fn code(self) -> u64 {
        match self {
            DestinationMode::Physical => 0,
            DestinationMode::Logical => 1,
        }
    }

    pub open spec fn of_code(code: u64) -> DestinationMode {
        if code == 0 {
            DestinationMode::Physical
        } else {
            DestinationMode::Logical
        }
    }

    pub(crate) fn to_code(self) -> (r: u64)
        ensures
            r == self.code(),
    {
        match self {
            DestinationMode::Physical => 0,
            DestinationMode::Logical => 1,
        }
    }
}

impl TriggerMode {
    /// The bit that stands for the mode.
    pub open spec fn code(self) -> u64 {
        match self {
            TriggerMode::Edge => 0,
            TriggerMode::Level => 1,
        }
    }

    pub open spec fn of_code(code: u64) -> TriggerMode {
        if code == 0 {
            TriggerMode::Edge
        } else {
            TriggerMode::Level
        }
    }

    pub(crate) fn to_code(self) -> (r: u64)
        ensures
            r == self.code(),
    {
        match self {
            TriggerMode::Edge => 0,
            TriggerMode::Level => 1,
        }
    }
}

impl DeliveryStatus {
    /// The bit that stands for the status.
    pub open spec fn code(self) -> u64 {
        match self {
            DeliveryStatus::Idle => 0,
            DeliveryStatus::Pending => 1,
        }
    }

    pub open spec fn of_code(code: u64) -> DeliveryStatus {
        if code == 0 {
            DeliveryStatus::Idle
        } else {
            DeliveryStatus::Pending
        }
    }

    pub(crate) fn to_code(self) -> (r: u64)
        ensures
            r == self.code(),
    {
        match self {
            DeliveryStatus::Idle => 0,
            DeliveryStatus::Pending => 1,
        }
    }
}

impl DeliveryMode {
    /// The three bits that stand for the mode.
    pub open spec fn code(self) -> u64 {
        match self {
            DeliveryMode::Fixed => 0,
            DeliveryMode::Lowest => 1,
            DeliveryMode::SMI => 2,
            DeliveryMode::RemoteRead => 3,
            DeliveryMode::NMI => 4,
            DeliveryMode::Init => 5,
            DeliveryMode::Startup => 6,
            DeliveryMode::External => 7,
        }
    }

    pub open spec fn of_code(code: u64) -> DeliveryMode {
        if code == 0 {
            DeliveryMode::Fixed
        } else if code == 1 {
            DeliveryMode::Lowest
        } else if code == 2 {
            DeliveryMode::SMI
        } else if code == 3 {
            DeliveryMode::RemoteRead
        } else if code == 4 {
            DeliveryMode::NMI
        } else if code == 5 {
            DeliveryMode::Init
        } else if code == 6 {
            DeliveryMode::Startup
        } else {
            DeliveryMode::External
        }
    }

    pub(crate) fn to_code(self) -> (r: u64)
        ensures
            r == self.code(),
    {
        match self {
            DeliveryMode::Fixed => 0,
            DeliveryMode::Lowest => 1,
            DeliveryMode::SMI => 2,
            DeliveryMode::RemoteRead => 3,
            DeliveryMode::NMI => 4,
            DeliveryMode::Init => 5,
            DeliveryMode::Startup => 6,
            DeliveryMode::External => 7,
        }
    }
}

/// The bit that stands for a flag.
pub open spec fn flag_code(flag: bool) -> u64 {
    if flag {
        1
    } else {
        0
    }
}

fn flag_to_code(flag: bool) -> (r: u64)
    ensures
        r == flag_code(flag),
{
    if flag {
        1
    } else {
        0
    }
}

/// The fields of a redirection table entry.
pub struct RedirectionEntry {
    pub vector: u8,
    pub delivery_mode: DeliveryMode,
    pub dest_mode: DestinationMode,
    pub delivery_status: DeliveryStatus,
    pub polarity: u8,
    pub remote_irr: bool,
    pub trigger_mode: TriggerMode,
    pub interrupt_mask: bool,
    pub reserved: u64,
    pub dest_id: u8,
}

impl RedirectionEntry {
    /// The fields that 64 register bits hold.
    pub open spec fn of_bits(b: u64) -> RedirectionEntry {
        RedirectionEntry {
            vector: bits::field(b, 0, 8) as u8,
            delivery_mode: DeliveryMode::of_code(bits::field(b, 8, 3)),
            dest_mode: DestinationMode::of_code(bits::field(b, 11, 1)),
            delivery_status: DeliveryStatus::of_code(bits::field(b, 12, 1)),
            polarity: bits::field(b, 13, 1) as u8,
            remote_irr: bits::field(b, 14, 1) == 1,
            trigger_mode: TriggerMode::of_code(bits::field(b, 15, 1)),
            interrupt_mask: bits::field(b, 16, 1) == 1,
            reserved: bits::field(b, 17, 39),
            dest_id: bits::field(b, 56, 8) as u8,
        }
    }

    /// The 64 register bits that hold the fields.
    pub open spec fn to_bits(self) -> u64 {
        (self.vector as u64) | (self.delivery_mode.code() << 8) | (self.dest_mode.code() << 11) | (
        self.delivery_status.code() << 12) | ((self.polarity as u64) << 13) | (flag_code(
            self.remote_irr,
        ) << 14) | (self.trigger_mode.code() << 15) | (flag_code(self.interrupt_mask) << 16) | (
        self.reserved << 17) | ((self.dest_id as u64) << 56)
    }

    /// The polarity fits its one bit and the reserved part its 39 bits.
    pub open spec fn fits(self) -> bool {
        &&& self.polarity <= 1
        &&& self.reserved < 0x80_0000_0000
    }
}

/// Fields are never wider than their place in the register.
pub proof fn lemma_field_bounds(b: u64)
    ensures
        bits::field(b, 0, 8) < 0x100,
        bits::field(b, 8, 3) < 8,
        bits::field(b, 11, 1) < 2,
        bits::field(b, 12, 1) < 2,
        bits::field(b, 13, 1) < 2,
        bits::field(b, 14, 1) < 2,
        bits::field(b, 15, 1) < 2,
        bits::field(b, 16, 1) < 2,
        bits::field(b, 17, 39) < 0x80_0000_0000,
        bits::field(b, 56, 8) < 0x100,
{
    assert(bits::field(b, 0, 8) < 0x100 && bits::field(b, 8, 3) < 8 && bits::field(b, 11, 1) < 2
        && bits::field(b, 12, 1) < 2 && bits::field(b, 13, 1) < 2 && bits::field(b, 14, 1) < 2
        && bits::field(b, 15, 1) < 2 && bits::field(b, 16, 1) < 2 && bits::field(b, 17, 39)
        < 0x80_0000_0000 && bits::field(b, 56, 8) < 0x100) by (bit_vector);
}

/// The fields of an entry determine its bits.
pub proof fn lemma_bits_of_fields(b: u64)
    ensures
        RedirectionEntry::of_bits(b).to_bits() == b,
        RedirectionEntry::of_bits(b).fits(),
{
    lemma_field_bounds(b);
    let vector = bits::field(b, 0, 8);
    let mode = bits::field(b, 8, 3);
    let dest = bits::field(b, 11, 1);
    let status = bits::field(b, 12, 1);
    let pol = bits::field(b, 13, 1);
    let irr = bits::field(b, 14, 1);
    let trig = bits::field(b, 15, 1);
    let mask = bits::field(b, 16, 1);
    let res = bits::field(b, 17, 39);
    let id = bits::field(b, 56, 8);
    assert(vector | (mode << 8) | (dest << 11) | (status << 12) | (pol << 13) | (irr << 14) | (trig
        << 15) | (mask << 16) | (res << 17) | (id << 56) == b) by (bit_vector)
        requires
            vector == bits::field(b, 0, 8),
            mode == bits::field(b, 8, 3),
            dest == bits::field(b, 11, 1),
            status == bits::field(b, 12, 1),
            pol == bits::field(b, 13, 1),
            irr == bits::field(b, 14, 1),
            trig == bits::field(b, 15, 1),
            mask == bits::field(b, 16, 1),
            res == bits::field(b, 17, 39),
            id == bits::field(b, 56, 8),
    ;
}

/// The bits of an entry determine its fields.
pub proof fn lemma_fields_of_bits(e: RedirectionEntry)
    requires
        e.fits(),
    ensures
        RedirectionEntry::of_bits(e.to_bits()) == e,
{
    let vector = e.vector as u64;
    let mode = e.delivery_mode.code();
    let dest = e.dest_mode.code();
    let status = e.delivery_status.code();
    let pol = e.polarity as u64;
    let irr = flag_code(e.remote_irr);
    let trig = e.trigger_mode.code();
    let mask = flag_code(e.interrupt_mask);
    let res = e.reserved;
    let id = e.dest_id as u64;
    let b = e.to_bits();
    assert(bits::field(b, 0, 8) == vector && bits::field(b, 8, 3) == mode && bits::field(b, 11, 1)
        == dest && bits::field(b, 12, 1) == status && bits::field(b, 13, 1) == pol && bits::field(
        b,
        14,
        1,
    ) == irr && bits::field(b, 15, 1) == trig && bits::field(b, 16, 1) == mask && bits::field(
        b,
        17,
        39,
    ) == res && bits::field(b, 56, 8) == id) by (bit_vector)
        requires
            b == vector | (mode << 8) | (dest << 11) | (status << 12) | (pol << 13) | (irr << 14)
                | (trig << 15) | (mask << 16) | (res << 17) | (id << 56),
            vector < 0x100,
            mode < 8,
            dest < 2,
            status < 2,
            pol < 2,
            irr < 2,
            trig < 2,
            mask < 2,
            res < 0x80_0000_0000,
            id < 0x100,
    ;
}

/// A redirection table entry as the register holds it.
#[derive(Clone, Copy, Debug, PartialEq, Eq, Structural)]
pub struct IoapicRedirectionTableEntry {
    pub bits: u64,
}

impl View for IoapicRedirectionTableEntry {
    type V = RedirectionEntry;

    open spec fn view(&self) -> RedirectionEntry {
        RedirectionEntry::of_bits(self.bits)
    }
}

impl IoapicRedirectionTableEntry {
    /// An entry with every bit clear.
    pub fn new() -> (r: Self)
        ensures
            r.bits == 0,
    {
        IoapicRedirectionTableEntry { bits: 0 }
    }

    /// The `width` bits from bit `offset` on.
    pub fn get(&self, offset: u64, width: u64) -> (r: u64)
        requires
            offset < 64,
            width <= 64,
            offset + width <= 64,
        ensures
            r == bits::field(self.bits, offset, width),
    {
        bits::get_field(self.bits, offset, width)
    }

    /// Replaces the `width` bits from bit `offset` on by the lowest `width` bits of `val`.
    pub fn set(&mut self, offset: u64, width: u64, val: u64)
        requires
            offset < 64,
            width <= 64,
            offset + width <= 64,
        ensures
            final(self).bits == bits::with_field(old(self).bits, offset, width, val),
    {
        self.bits = bits::set_field(self.bits, offset, width, val);
    }

    pub fn get_vector(&self) -> (r: u8)
        ensures
            r == self@.vector,
    {
        self.get(0, 8) as u8
    }

    pub fn set_vector(&mut self, val: u8)
        ensures
            final(self)@ == (RedirectionEntry { vector: val, ..old(self)@ }),
    {
        proof {
            lemma_written(self.bits, 0, 8, val as u64);
        }
        self.set(0, 8, val as u64);
    }

    pub fn get_delivery_mode(&self) -> (r: DeliveryMode)
        ensures
            r == self@.delivery_mode,
    {
        match self.get(8, 3) {
            0 => DeliveryMode::Fixed,
            1 => DeliveryMode::Lowest,
            2 => DeliveryMode::SMI,
            3 => DeliveryMode::RemoteRead,
            4 => DeliveryMode::NMI,
            5 => DeliveryMode::Init,
            6 => DeliveryMode::Startup,
            _ => DeliveryMode::External,
        }
    }

    pub fn set_delivery_mode(&mut self, val: DeliveryMode)
        ensures
            final(self)@ == (RedirectionEntry { delivery_mode: val, ..old(self)@ }),
    {
        proof {
            lemma_written(self.bits, 8, 3, val.code());
        }
        self.set(8, 3, val.to_code());
    }

    pub fn get_dest_mode(&self) -> (r: DestinationMode)
        ensures
            r == self@.dest_mode,
    {
        if self.get(11, 1) == 0 {
            DestinationMode::Physical
        } else {
            DestinationMode::Logical
        }
    }

    pub fn get_delivery_status(&self) -> (r: DeliveryStatus)
        ensures
            r == self@.delivery_status,
    {
        if self.get(12, 1) == 0 {
            DeliveryStatus::Idle
        } else {
            DeliveryStatus::Pending
        }
    }

    pub fn set_delivery_status(&mut self, val: DeliveryStatus)
        ensures
            final(self)@ == (RedirectionEntry { delivery_status: val, ..old(self)@ }),
    {
        proof {
            lemma_written(self.bits, 12, 1, val.code());
        }
        self.set(12, 1, val.to_code());
    }

    pub fn get_polarity(&self) -> (r: u8)
        ensures
            r == self@.polarity,
    {
        self.get(13, 1) as u8
    }

    pub fn set_polarity(&mut self, val: u8)
        requires
            val <= 1,
        ensures
            final(self)@ == (RedirectionEntry { polarity: val, ..old(self)@ }),
    {
        proof {
            lemma_written(self.bits, 13, 1, val as u64);
        }
        self.set(13, 1, val as u64);
    }

    pub fn get_remote_irr(&self) -> (r: bool)
        ensures
            r == self@.remote_irr,
    {
        self.get(14, 1) == 1
    }

    pub fn set_remote_irr(&mut self, val: bool)
        ensures
            final(self)@ == (RedirectionEntry { remote_irr: val, ..old(self)@ }),
    {
        proof {
            lemma_written(self.bits, 14, 1, flag_code(val));
        }
        self.set(14, 1, flag_to_code(val));
    }

    pub fn get_trigger_mode(&self) -> (r: TriggerMode)
        ensures
            r == self@.trigger_mode,
    {
        if self.get(15, 1) == 0 {
            TriggerMode::Edge
        } else {
            TriggerMode::Level
        }
    }

    pub fn set_trigger_mode(&mut self, val: TriggerMode)
        ensures
            final(self)@ == (RedirectionEntry { trigger_mode: val, ..old(self)@ }),
    {
        proof {
            lemma_written(self.bits, 15, 1, val.code());
        }
        self.set(15, 1, val.to_code());
    }

    pub fn get_interrupt_mask(&self) -> (r: bool)
        ensures
            r == self@.interrupt_mask,
    {
        self.get(16, 1) == 1
    }

    pub fn set_interrupt_mask(&mut self, val: bool)
        ensures
            final(self)@ == (RedirectionEntry { interrupt_mask: val, ..old(self)@ }),
    {
        proof {
            lemma_written(self.bits, 16, 1, flag_code(val));
        }
        self.set(16, 1, flag_to_code(val));
    }

    pub fn get_reserved(&self) -> (r: u64)
        ensures
            r == self@.reserved,
    {
        self.get(17, 39)
    }

    pub fn get_dest_id(&self) -> (r: u8)
        ensures
            r == self@.dest_id,
    {
        self.get(56, 8) as u8
    }

    pub fn set_dest_id(&mut self, val: u8)
        ensures
            final(self)@ == (RedirectionEntry { dest_id: val, ..old(self)@ }),
    {
        proof {
            lemma_written(self.bits, 56, 8, val as u64);
        }
        self.set(56, 8, val as u64);
    }
}

/// A value that fits a field reads back from it, and the other fields keep theirs.
pub proof fn lemma_written(b: u64, offset: u64, width: u64, val: u64)
    requires
        offset < 64,
        width == 1 || width == 3 || width == 8,
        offset + width <= 64,
        width == 1 ==> val < 2,
        width == 3 ==> val < 8,
        width == 8 ==> val < 0x100,
    ensures
        bits::field(bits::with_field(b, offset, width, val), offset, width) == val,
        forall|o: u64, w: u64|
            bits::disjoint(offset, width, o, w) ==> #[trigger] bits::field(
                bits::with_field(b, offset, width, val),
                o,
                w,
            ) == bits::field(b, o, w),
{
    bits::lemma_field_of_written(b, offset, width, val);
    bits::lemma_field_of_other(b, offset, width, val);
    assert(val & bits::low_mask(width) == val) by (bit_vector)
        requires
            width == 1 && val < 2 || width == 3 && val < 8 || width == 8 && val < 0x100,
    ;
}

} // verus!
