use vstd::prelude::*;

verus! {

/// Bit of each capability in the native encoding.
pub open spec fn cap_bit(c: FmtCap) -> u32 {
    match c {
        FmtCap::FMT_CAP_SAMPLEABLE => 1u32,
        FmtCap::FMT_CAP_STORABLE => 2u32,
        FmtCap::FMT_CAP_LINEAR => 4u32,
        FmtCap::FMT_CAP_RENDERABLE => 8u32,
        FmtCap::FMT_CAP_BLENDABLE => 16u32,
        FmtCap::FMT_CAP_BLITTABLE => 32u32,
        FmtCap::FMT_CAP_VERTEX => 64u32,
        FmtCap::FMT_CAP_TEXEL_UNIFORM => 128u32,
        FmtCap::FMT_CAP_TEXEL_STORAGE => 256u32,
    }
}

/// Union of all the known capability bits.
pub const ALL_CAPS: u32 = 511;

/// One capability that a format may advertise.
#[allow(non_camel_case_types)]
#[derive(Clone, Copy, Debug, PartialEq, Eq, Structural)]
pub enum FmtCap {
    FMT_CAP_SAMPLEABLE,
    FMT_CAP_STORABLE,
    FMT_CAP_LINEAR,
    FMT_CAP_RENDERABLE,
    FMT_CAP_BLENDABLE,
    FMT_CAP_BLITTABLE,
    FMT_CAP_VERTEX,
    FMT_CAP_TEXEL_UNIFORM,
    FMT_CAP_TEXEL_STORAGE,
}

impl FmtCap {
    /// The native bit of this capability.
    pub fn bit(&self) -> (r: u32)
        ensures
            r == cap_bit(*self),
    {
        match self {
            FmtCap::FMT_CAP_SAMPLEABLE => 1,
            FmtCap::FMT_CAP_STORABLE => 2,
            FmtCap::FMT_CAP_LINEAR => 4,
            FmtCap::FMT_CAP_RENDERABLE => 8,
            FmtCap::FMT_CAP_BLENDABLE => 16,
            FmtCap::FMT_CAP_BLITTABLE => 32,
            FmtCap::FMT_CAP_VERTEX => 64,
            FmtCap::FMT_CAP_TEXEL_UNIFORM => 128,
            FmtCap::FMT_CAP_TEXEL_STORAGE => 256,
        }
    }
}

/// A set of format capabilities, held as its native bit encoding.
#[derive(Clone, Copy, Debug, PartialEq, Eq, Structural)]
pub struct FmtCaps {
    bits: u32,
}

impl View for FmtCaps {
    type V = u32;

    closed spec fn view(&self) -> u32 {
        self.bits
    }
}

impl FmtCaps {
    /// Only known capability bits are set.
    #[verifier::type_invariant]
    closed spec fn inv(&self) -> bool {
        self.bits & !ALL_CAPS == 0
    }

    /// Only known capability bits are set.
    pub open spec fn wf(&self) -> bool {
        self@ & !ALL_CAPS == 0
    }

    /// Whether capability `c` is in the set.
    pub open spec fn has_spec(&self, c: FmtCap) -> bool {
        self@ & cap_bit(c) != 0
    }

    /// The empty set.
    pub fn empty() -> (r: FmtCaps)
        ensures
            r@ == 0,
            r.wf(),
    {
        proof {
            assert(0u32 & !ALL_CAPS == 0) by (bit_vector);
        }
        FmtCaps { bits: 0 }
    }

    /// The set holding `c` alone.
    pub fn of(c: FmtCap) -> (r: FmtCaps)
        ensures
            r@ == cap_bit(c),
            r.wf(),
            r.has_spec(c),
    {
        let b = c.bit();
        proof {
            assert(1u32 & !ALL_CAPS == 0 && 2u32 & !ALL_CAPS == 0 && 4u32 & !ALL_CAPS == 0
                && 8u32 & !ALL_CAPS == 0 && 16u32 & !ALL_CAPS == 0 && 32u32 & !ALL_CAPS == 0
                && 64u32 & !ALL_CAPS == 0 && 128u32 & !ALL_CAPS == 0 && 256u32 & !ALL_CAPS == 0)
                by (bit_vector);
            assert(1u32 & 1u32 != 0 && 2u32 & 2u32 != 0 && 4u32 & 4u32 != 0 && 8u32 & 8u32 != 0
                && 16u32 & 16u32 != 0 && 32u32 & 32u32 != 0 && 64u32 & 64u32 != 0
                && 128u32 & 128u32 != 0 && 256u32 & 256u32 != 0) by (bit_vector);
        }
        FmtCaps { bits: b }
    }

    /// The set of all capabilities in `self` or in `other`.
    pub fn union(&self, other: &FmtCaps) -> (r: FmtCaps)
        ensures
            r@ == self@ | other@,
            r.wf(),
    {
        proof {
            use_type_invariant(self);
            use_type_invariant(other);
        }
        let a = self.bits;
        let b = other.bits;
        proof {
            assert(a & !ALL_CAPS == 0 && b & !ALL_CAPS == 0 ==> (a | b) & !ALL_CAPS == 0)
                by (bit_vector);
        }
        FmtCaps { bits: a | b }
    }

    /// Whether every capability of `other` is in `self`.
    pub fn contains(&self, other: &FmtCaps) -> (r: bool)
        ensures
            r == (self@ & other@ == other@),
    {
        self.bits & other.bits == other.bits
    }

    /// Whether every capability of `self` is in `other`.
    pub fn is_subset_of(&self, other: &FmtCaps) -> (r: bool)
        ensures
            r == (other@ & self@ == self@),
    {
        other.contains(self)
    }

    /// Whether capability `c` is in the set.
    pub fn has(&self, c: FmtCap) -> (r: bool)
        ensures
            r == self.has_spec(c),
    {
        self.bits & c.bit() != 0
    }

    /// The native encoding of the set.
    pub fn to_native(&self) -> (r: u32)
        ensures
            r == self@,
            self.wf(),
    {
        proof {
            use_type_invariant(self);
        }
        self.bits
    }

    /// The set that a native encoding stands for; bits that name no known
    /// capability are dropped.
    pub fn from_native(n: u32) -> (r: FmtCaps)
        ensures
            r@ == n & ALL_CAPS,
            r.wf(),
    {
        proof {
            assert((n & ALL_CAPS) & !ALL_CAPS == 0) by (bit_vector);
        }
        FmtCaps { bits: n & ALL_CAPS }
    }
}

/// Union of capability sets does not depend on the order of its operands.
pub proof fn lemma_union_commutative(a: FmtCaps, b: FmtCaps)
    ensures
        a@ | b@ == b@ | a@,
{
    let x = a@;
    let y = b@;
    assert(x | y == y | x) by (bit_vector);
}

/// Union of capability sets does not depend on how operands are grouped.
pub proof fn lemma_union_associative(a: FmtCaps, b: FmtCaps, c: FmtCaps)
    ensures
        (a@ | b@) | c@ == a@ | (b@ | c@),
{
    let x = a@;
    let y = b@;
    let z = c@;
    assert((x | y) | z == x | (y | z)) by (bit_vector);
}

/// Every capability set is a subset of itself.
pub proof fn lemma_subset_reflexive(a: FmtCaps)
    ensures
        a@ & a@ == a@,
{
    let x = a@;
    assert(x & x == x) by (bit_vector);
}

/// Each operand of a union is a subset of the union.
pub proof fn lemma_union_contains_operands(a: FmtCaps, b: FmtCaps)
    ensures
        (a@ | b@) & a@ == a@,
        (a@ | b@) & b@ == b@,
{
    let x = a@;
    let y = b@;
    assert((x | y) & x == x && (x | y) & y == y) by (bit_vector);
}

/// A capability set comes back unchanged from its native encoding: decoding
/// the code of a set keeps every bit of it.
pub proof fn lemma_native_round_trip(a: FmtCaps)
    requires
        a.wf(),
    ensures
        a@ & ALL_CAPS == a@,
{
    let x = a@;
    assert(x & !ALL_CAPS == 0 ==> x & ALL_CAPS == x) by (bit_vector);
}

} // verus!
