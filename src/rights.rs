//! Handle rights: a 32-bit permission mask with primitive bits and the
//! composite defaults that each kernel object kind is created with.
use vstd::prelude::*;

verus! {

pub const DUPLICATE: u32 = 0x1;
pub const TRANSFER: u32 = 0x2;
pub const READ: u32 = 0x4;
pub const WRITE: u32 = 0x8;
pub const EXECUTE: u32 = 0x10;
pub const MAP: u32 = 0x20;
pub const GET_PROPERTY: u32 = 0x40;
pub const SET_PROPERTY: u32 = 0x80;
pub const ENUMERATE: u32 = 0x100;
pub const DESTROY: u32 = 0x200;
pub const SET_POLICY: u32 = 0x400;
pub const GET_POLICY: u32 = 0x800;
pub const SIGNAL: u32 = 0x1000;
pub const SIGNAL_PEER: u32 = 0x2000;
pub const WAIT: u32 = 0x4000;
pub const INSPECT: u32 = 0x8000;
pub const MANAGE_JOB: u32 = 0x10000;
pub const MANAGE_PROCESS: u32 = 0x20000;
pub const MANAGE_THREAD: u32 = 0x40000;
pub const APPLY_PROFILE: u32 = 0x80000;
pub const SAME_RIGHTS: u32 = 0x8000_0000;

pub const BASIC: u32 = TRANSFER | DUPLICATE | WAIT | INSPECT;
pub const IO: u32 = READ | WRITE;
pub const PROPERTY: u32 = GET_PROPERTY | SET_PROPERTY;
pub const POLICY: u32 = GET_POLICY | SET_POLICY;

pub const DEFAULT_CHANNEL: u32 = BASIC & !DUPLICATE | IO | SIGNAL | SIGNAL_PEER;
pub const DEFAULT_PROCESS: u32 = BASIC | IO | PROPERTY | ENUMERATE | DESTROY | SIGNAL
    | MANAGE_PROCESS | MANAGE_THREAD;
pub const DEFAULT_THREAD: u32 = BASIC | IO | PROPERTY | DESTROY | SIGNAL | MANAGE_THREAD;
pub const DEFAULT_VMAR: u32 = BASIC & !WAIT;
pub const DEFAULT_JOB: u32 = BASIC | IO | PROPERTY | POLICY | ENUMERATE | DESTROY | SIGNAL
    | MANAGE_JOB | MANAGE_PROCESS | MANAGE_THREAD;
pub const DEFAULT_VMO: u32 = BASIC | IO | PROPERTY | MAP | SIGNAL;
pub const DEFAULT_RESOURCE: u32 = TRANSFER | DUPLICATE | WRITE | INSPECT;

/// A permission mask carried by a handle.
#[derive(Clone, Copy, Debug, PartialEq, Eq, Structural)]
pub struct Rights {
    pub bits: u32,
}

/// `a` holds every bit of `b`.
pub open spec fn mask_contains(a: u32, b: u32) -> bool {
    a & b == b
}

impl Rights {
    pub fn empty() -> (r: Rights)
        ensures
            r.bits == 0,
    {
        Rights { bits: 0 }
    }

    pub fn from_bits(bits: u32) -> (r: Rights)
        ensures
            r.bits == bits,
    {
        Rights { bits }
    }

    pub fn bits(&self) -> (r: u32)
        ensures
            r == self.bits,
    {
        self.bits
    }

    pub fn is_empty(&self) -> (r: bool)
        ensures
            r == (self.bits == 0),
    {
        self.bits == 0
    }

    pub fn contains(&self, other: Rights) -> (r: bool)
        ensures
            r == mask_contains(self.bits, other.bits),
    {
        self.bits & other.bits == other.bits
    }

    pub fn union(&self, other: Rights) -> (r: Rights)
        ensures
            r.bits == self.bits | other.bits,
    {
        Rights { bits: self.bits | other.bits }
    }

    pub fn intersection(&self, other: Rights) -> (r: Rights)
        ensures
            r.bits == self.bits & other.bits,
    {
        Rights { bits: self.bits & other.bits }
    }

    pub fn difference(&self, other: Rights) -> (r: Rights)
        ensures
            r.bits == self.bits & !other.bits,
    {
        Rights { bits: self.bits & !other.bits }
    }

    pub fn complement(&self) -> (r: Rights)
        ensures
            r.bits == !self.bits,
    {
        Rights { bits: !self.bits }
    }
}

/// Wire values of the composite masks, as fixed by the emulated kernel's ABI.
pub open spec fn composite_bit_patterns() -> bool {
    &&& BASIC == 0xC003u32
    &&& IO == 0xCu32
    &&& PROPERTY == 0xC0u32
    &&& POLICY == 0xC00u32
    &&& DEFAULT_CHANNEL == 0xF00Eu32
    &&& DEFAULT_PROCESS == 0x6D3CFu32
    &&& DEFAULT_THREAD == 0x4D2CFu32
    &&& DEFAULT_VMAR == 0x8003u32
    &&& DEFAULT_JOB == 0x7DFCFu32
    &&& DEFAULT_VMO == 0xD0EFu32
    &&& DEFAULT_RESOURCE == 0x800Bu32
}

/// The default masks relate as the capability model requires: a VMO handle
/// may do I/O and property access; a channel handle may be transferred but
/// not duplicated; every composite, rebuilt from its primitive bits, has the
/// exact wire value.
pub proof fn lemma_rights_algebra()
    ensures
        mask_contains(DEFAULT_VMO, IO),
        mask_contains(DEFAULT_VMO, PROPERTY),
        DEFAULT_CHANNEL & DUPLICATE == 0,
        mask_contains(DEFAULT_CHANNEL, TRANSFER),
        composite_bit_patterns(),
{
    assert(0xD0EFu32 & 0xCu32 == 0xCu32) by (bit_vector);
    assert(0xD0EFu32 & 0xC0u32 == 0xC0u32) by (bit_vector);
    assert(0xF00Eu32 & 0x1u32 == 0u32) by (bit_vector);
    assert(0xF00Eu32 & 0x2u32 == 0x2u32) by (bit_vector);
    assert(0x2u32 | 0x1u32 | 0x4000u32 | 0x8000u32 == 0xC003u32) by (bit_vector);
    assert(0x4u32 | 0x8u32 == 0xCu32) by (bit_vector);
    assert(0x40u32 | 0x80u32 == 0xC0u32) by (bit_vector);
    assert(0x800u32 | 0x400u32 == 0xC00u32) by (bit_vector);
    assert(0xC003u32 & !0x1u32 | 0xCu32 | 0x1000u32 | 0x2000u32 == 0xF00Eu32) by (bit_vector);
    assert(0xC003u32 | 0xCu32 | 0xC0u32 | 0x100u32 | 0x200u32 | 0x1000u32 | 0x20000u32
        | 0x40000u32 == 0x6D3CFu32) by (bit_vector);
    assert(0xC003u32 | 0xCu32 | 0xC0u32 | 0x200u32 | 0x1000u32 | 0x40000u32 == 0x4D2CFu32)
        by (bit_vector);
    assert(0xC003u32 & !0x4000u32 == 0x8003u32) by (bit_vector);
    assert(0xC003u32 | 0xCu32 | 0xC0u32 | 0xC00u32 | 0x100u32 | 0x200u32 | 0x1000u32
        | 0x10000u32 | 0x20000u32 | 0x40000u32 == 0x7DFCFu32) by (bit_vector);
    assert(0xC003u32 | 0xCu32 | 0xC0u32 | 0x20u32 | 0x1000u32 == 0xD0EFu32) by (bit_vector);
    assert(0x2u32 | 0x1u32 | 0x8u32 | 0x8000u32 == 0x800Bu32) by (bit_vector);
}

/// Rights combine as a bit set: union and intersection are commutative,
/// associative and idempotent, and taking away a mask leaves none of it.
pub proof fn lemma_rights_set_algebra(a: Rights, b: Rights, c: Rights)
    ensures
        a.bits | b.bits == b.bits | a.bits,
        a.bits & b.bits == b.bits & a.bits,
        (a.bits | b.bits) | c.bits == a.bits | (b.bits | c.bits),
        (a.bits & b.bits) & c.bits == a.bits & (b.bits & c.bits),
        a.bits | a.bits == a.bits,
        a.bits & a.bits == a.bits,
        (a.bits & !b.bits) & b.bits == 0,
        mask_contains(a.bits | b.bits, a.bits),
{
    let (x, y, z) = (a.bits, b.bits, c.bits);
    assert(x | y == y | x) by (bit_vector);
    assert(x & y == y & x) by (bit_vector);
    assert((x | y) | z == x | (y | z)) by (bit_vector);
    assert((x & y) & z == x & (y & z)) by (bit_vector);
    assert(x | x == x) by (bit_vector);
    assert(x & x == x) by (bit_vector);
    assert((x & !y) & y == 0) by (bit_vector);
    assert((x | y) & x == x) by (bit_vector);
}

} // verus!
