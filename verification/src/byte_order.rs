//! The order in which a 32-bit register value travels over the bus.
use vstd::prelude::*;

verus! {

/// Which byte of a register value comes first.
#[derive(Clone, Copy, Debug, PartialEq, Eq, Structural)]
pub enum ByteOrder {
    /// The lowest byte.
    Little,
    /// The highest byte.
    Big,
}

/// The bytes of `val`, the lowest first.
pub open spec fn little_endian(val: u32) -> Seq<u8> {
    seq![
        (val % 0x100) as u8,
        (val / 0x100 % 0x100) as u8,
        (val / 0x1_0000 % 0x100) as u8,
        (val / 0x100_0000) as u8,
    ]
}

/// The bytes of `val`, the highest first.
pub open spec fn big_endian(val: u32) -> Seq<u8> {
    seq![
        (val / 0x100_0000) as u8,
        (val / 0x1_0000 % 0x100) as u8,
        (val / 0x100 % 0x100) as u8,
        (val % 0x100) as u8,
    ]
}

/// Calls `u32::to_ne_bytes`: the memory representation of the value, that is its four bytes in
/// the order of the machine. Which of the two orders that is, is left open.
#[verifier::external_body]
fn native_bytes(val: u32) -> (r: [u8; 4])
    ensures
        r@ == little_endian(val) || r@ == big_endian(val),
{
    val.to_ne_bytes()
}

impl ByteOrder {
    /// The four bytes that stand for `val`.
    pub open spec fn bytes_of(self, val: u32) -> Seq<u8> {
        match self {
            ByteOrder::Little => little_endian(val),
            ByteOrder::Big => big_endian(val),
        }
    }

    /// The value that the first four bytes stand for.
    pub open spec fn value_of(self, bytes: Seq<u8>) -> u32 {
        match self {
            ByteOrder::Little => (bytes[0] + 0x100 * bytes[1] + 0x1_0000 * bytes[2] + 0x100_0000
                * bytes[3]) as u32,
            ByteOrder::Big => (bytes[3] + 0x100 * bytes[2] + 0x1_0000 * bytes[1] + 0x100_0000
                * bytes[0]) as u32,
        }
    }

    /// The order in which the bytes of the value 1 stand as given.
    pub fn of_one(bytes: [u8; 4]) -> (r: ByteOrder)
        requires
            bytes@ == little_endian(1) || bytes@ == big_endian(1),
        ensures
            r.bytes_of(1) == bytes@,
            r is Little <==> bytes@ == little_endian(1),
    {
        assert(little_endian(1)[0] == 1 && big_endian(1)[0] == 0);
        if bytes[0] == 1 {
            ByteOrder::Little
        } else {
            ByteOrder::Big
        }
    }

    /// The order is that of the machine: one in which its representation of the value 1 stands.
    pub closed spec fn is_native(self) -> bool {
        exists|bytes: [u8; 4]| #[trigger]
            call_ensures(native_bytes, (1u32,), bytes) && self.bytes_of(1) == bytes@
    }

    /// The order of the machine that runs this. Which of the two that is, is left open.
    pub(crate) fn native() -> (r: ByteOrder)
        ensures
            r.is_native(),
    {
        ByteOrder::of_one(native_bytes(1))
    }

    /// The four bytes that stand for `val`.
    pub fn to_bytes(self, val: u32) -> (r: [u8; 4])
        ensures
            r@ == self.bytes_of(val),
    {
        let b0: u8 = (val % 0x100) as u8;
        let b1: u8 = (val / 0x100 % 0x100) as u8;
        let b2: u8 = (val / 0x1_0000 % 0x100) as u8;
        let b3: u8 = (val / 0x100_0000) as u8;
        match self {
            ByteOrder::Little => [b0, b1, b2, b3],
            ByteOrder::Big => [b3, b2, b1, b0],
        }
    }

    /// The value that the four bytes stand for.
    pub fn from_bytes(self, bytes: [u8; 4]) -> (r: u32)
        ensures
            r == self.value_of(bytes@),
    {
        match self {
            ByteOrder::Little => bytes[0] as u32 + 0x100 * (bytes[1] as u32) + 0x1_0000 * (
            bytes[2] as u32) + 0x100_0000 * (bytes[3] as u32),
            ByteOrder::Big => bytes[3] as u32 + 0x100 * (bytes[2] as u32) + 0x1_0000 * (
            bytes[1] as u32) + 0x100_0000 * (bytes[0] as u32),
        }
    }
}

/// A value survives the trip over the bus, whichever order both ends use.
pub proof fn lemma_bytes_round_trip(order: ByteOrder, val: u32)
    ensures
        order.bytes_of(val).len() == 4,
        order.value_of(order.bytes_of(val)) == val,
{
}

} // verus!
