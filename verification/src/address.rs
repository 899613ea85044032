//! Physical addresses of page frames.

use vstd::prelude::*;

verus! {

/// The size of the smallest page frame, in bytes.
pub const PAGE_SIZE: u64 = 0x1000;

/// The first address beyond what a page-table entry can name: 2 to the 52nd.
pub const ADDRESS_LIMIT: u64 = 0x10_0000_0000_0000;

/// Bits 12 to 51 of a word, where a page-table entry keeps the frame address.
pub const ADDRESS_MASK: u64 = 0x000f_ffff_ffff_f000;

/// Whether `raw` is the address of a page frame: a multiple of the page size
/// below the address limit.
pub open spec fn is_frame_address(raw: u64) -> bool {
    raw % PAGE_SIZE == 0 && raw < ADDRESS_LIMIT
}

/// A frame address is a word without a bit outside the address field, and the
/// other way round.
pub proof fn lemma_frame_address_bits(raw: u64)
    ensures
        is_frame_address(raw) <==> raw & !ADDRESS_MASK == 0,
{
    assert((raw % 0x1000 == 0 && raw < 0x10_0000_0000_0000) <==> raw & !0x000f_ffff_ffff_f000u64
        == 0) by (bit_vector);
}

/// The physical address of a page frame.
///
/// A value of this type is always aligned to the page size and below the
/// address limit, so it fits the address field of a page-table entry as it is.
/// Its view is the address as an integer.
#[derive(Clone, Copy, Debug, PartialEq, Eq, PartialOrd, Ord, Hash, Structural)]
pub struct PhysAddr {
    raw: u64,
}

impl View for PhysAddr {
    type V = u64;

    closed spec fn view(&self) -> u64 {
        self.raw
    }
}

impl PhysAddr {
    /// The address is that of a page frame. Every value that executable code
    /// holds satisfies this.
    #[verifier::type_invariant]
    pub open spec fn valid(&self) -> bool {
        is_frame_address(self@)
    }

    /// Two addresses with the same view are the same address.
    pub proof fn lemma_view_injective(a: PhysAddr, b: PhysAddr)
        requires
            a@ == b@,
        ensures
            a == b,
    {
    }

    /// Makes a frame address of `raw`, or nothing where `raw` is unaligned or
    /// beyond the address limit.
    pub fn new(raw: u64) -> (addr: Option<PhysAddr>)
        ensures
            addr is Some <==> is_frame_address(raw),
            addr matches Some(a) ==> a@ == raw,
    {
        if raw % PAGE_SIZE == 0 && raw < ADDRESS_LIMIT {
            Some(PhysAddr { raw })
        } else {
            None
        }
    }

    /// The address as an integer.
    pub fn raw(&self) -> (raw: u64)
        ensures
            raw == self@,
            is_frame_address(raw),
    {
        proof {
            use_type_invariant(self);
        }
        self.raw
    }
}

} // verus!
