//! Access permissions of a mapping.

use vstd::prelude::*;

verus! {

/// The bit of the permission to read.
pub const READ: u32 = 0x1;

/// The bit of the permission to write.
pub const WRITE: u32 = 0x2;

/// The bit of the permission to execute.
pub const EXEC: u32 = 0x4;

/// Every bit that names a permission.
pub const ALL: u32 = 0x7;

/// Whether `bits` holds no bit but those of permissions.
pub open spec fn is_protection_bits(bits: u32) -> bool {
    bits & !ALL == 0
}

/// The named bits, and none and all of them, are valid.
proof fn lemma_named_bits()
    by (bit_vector)
    ensures
        0u32 & !ALL == 0,
        READ & !ALL == 0,
        WRITE & !ALL == 0,
        EXEC & !ALL == 0,
        ALL & !ALL == 0,
{
}

/// Truncation makes bits valid; union and difference keep them valid.
proof fn lemma_set_operations(a: u32, b: u32)
    by (bit_vector)
    ensures
        (a & ALL) & !ALL == 0,
        (a & !ALL == 0 && b & !ALL == 0) ==> (a | b) & !ALL == 0,
        a & !ALL == 0 ==> (a & !b) & !ALL == 0,
{
}

/// A set of access permissions: any of read, write and execute.
///
/// The view of a set is the integer whose bits are the permissions in it.
#[derive(Clone, Copy, Debug, PartialEq, Eq, PartialOrd, Ord, Hash, Structural)]
pub struct Protections {
    bits: u32,
}

impl View for Protections {
    type V = u32;

    closed spec fn view(&self) -> u32 {
        self.bits
    }
}

impl Protections {
    /// The set holds no bit but those of permissions. Every value that
    /// executable code holds satisfies this.
    #[verifier::type_invariant]
    pub open spec fn valid(&self) -> bool {
        is_protection_bits(self@)
    }

    /// Two sets with the same bits are the same set.
    pub proof fn lemma_view_injective(a: Protections, b: Protections)
        requires
            a@ == b@,
        ensures
            a == b,
    {
    }

    /// The set without any permission.
    pub fn empty() -> (p: Protections)
        ensures
            p@ == 0,
    {
        proof {
            lemma_named_bits();
        }
        Protections { bits: 0 }
    }

    /// The set of all three permissions.
    pub fn all() -> (p: Protections)
        ensures
            p@ == ALL,
    {
        proof {
            lemma_named_bits();
        }
        Protections { bits: ALL }
    }

    /// The permission to read.
    pub fn read() -> (p: Protections)
        ensures
            p@ == READ,
    {
        proof {
            lemma_named_bits();
        }
        Protections { bits: READ }
    }

    /// The permission to write.
    pub fn write() -> (p: Protections)
        ensures
            p@ == WRITE,
    {
        proof {
            lemma_named_bits();
        }
        Protections { bits: WRITE }
    }

    /// The permission to execute.
    pub fn exec() -> (p: Protections)
        ensures
            p@ == EXEC,
    {
        proof {
            lemma_named_bits();
        }
        Protections { bits: EXEC }
    }

    /// The bits of the set.
    pub fn bits(&self) -> (bits: u32)
        ensures
            bits == self@,
            is_protection_bits(bits),
    {
        proof {
            use_type_invariant(self);
        }
        self.bits
    }

    /// The set with the bits `bits`, if each of them names a permission.
    pub fn from_bits(bits: u32) -> (p: Option<Protections>)
        ensures
            p is Some <==> is_protection_bits(bits),
            p matches Some(q) ==> q@ == bits,
    {
        if bits & !ALL == 0 {
            Some(Protections { bits })
        } else {
            None
        }
    }

    /// The set with those bits of `bits` that name a permission.
    pub fn from_bits_truncate(bits: u32) -> (p: Protections)
        ensures
            p@ == bits & ALL,
    {
        proof {
            lemma_set_operations(bits, 0);
        }
        Protections { bits: bits & ALL }
    }

    /// Whether the set holds no permission.
    pub fn is_empty(&self) -> (b: bool)
        ensures
            b == (self@ == 0),
    {
        self.bits == 0
    }

    /// Whether every permission of `other` is in the set.
    pub fn contains(&self, other: Protections) -> (b: bool)
        ensures
            b == (self@ & other@ == other@),
    {
        (self.bits & other.bits) == other.bits
    }

    /// The spec-level result of [`Protections::union`].
    pub closed spec fn spec_union(self, other: Protections) -> Protections {
        Protections { bits: self.bits | other.bits }
    }

    /// The permissions that are in `self` or in `other`.
    #[verifier::when_used_as_spec(spec_union)]
    pub fn union(self, other: Protections) -> (p: Protections)
        ensures
            p == self.spec_union(other),
            p@ == self@ | other@,
    {
        proof {
            use_type_invariant(&self);
            use_type_invariant(&other);
            lemma_set_operations(self.bits, other.bits);
        }
        Protections { bits: self.bits | other.bits }
    }

    /// Adds the permissions of `other` to the set.
    pub fn insert(&mut self, other: Protections)
        ensures
            final(self)@ == old(self)@ | other@,
    {
        *self = self.union(other);
    }

    /// Takes the permissions of `other` out of the set.
    pub fn remove(&mut self, other: Protections)
        ensures
            final(self)@ == old(self)@ & !other@,
    {
        proof {
            use_type_invariant(&*self);
            lemma_set_operations(self.bits, other.bits);
        }
        self.bits = self.bits & !other.bits;
    }
}

impl core::ops::BitOr for Protections {
    type Output = Protections;

    /// The permissions that are in `self` or in `other`.
    fn bitor(self, other: Protections) -> (p: Protections)
        ensures
            p@ == self@ | other@,
    {
        self.union(other)
    }
}

impl vstd::std_specs::ops::BitOrSpecImpl for Protections {
    open spec fn obeys_bitor_spec() -> bool {
        true
    }

    open spec fn bitor_req(self, other: Protections) -> bool {
        true
    }

    open spec fn bitor_spec(self, other: Protections) -> Protections {
        self.union(other)
    }
}

} // verus!
