//! The entry of a page table: one word that holds the address of a page frame
//! and the flags of the mapping.

use vstd::prelude::*;
use crate::address::ADDRESS_MASK;
use crate::address::PhysAddr;
use crate::address::lemma_frame_address_bits;
use crate::entry_flags;
use crate::entry_flags::EntryFlags;
use crate::entry_flags::HUGE_PAGE;
use crate::entry_flags::PRESENT;

verus! {

/// Whether `word` can be an entry: no bit is set outside the address field
/// and the flags.
pub open spec fn is_entry_word(word: u64) -> bool {
    word & !(ADDRESS_MASK | entry_flags::ALL) == 0
}

/// The word that holds the address `addr` and the flags `flags`.
pub open spec fn pack(addr: u64, flags: u64) -> u64 {
    addr | flags
}

/// The address field of `word`.
pub open spec fn address_of(word: u64) -> u64 {
    word & ADDRESS_MASK
}

/// The flags of `word`.
pub open spec fn flags_of(word: u64) -> u64 {
    word & entry_flags::ALL
}

/// Whether the present bit of `word` is set.
pub open spec fn is_present_word(word: u64) -> bool {
    word & PRESENT != 0
}

/// Whether the huge-page bit of `word` is set.
pub open spec fn is_huge_word(word: u64) -> bool {
    word & HUGE_PAGE != 0
}

/// `word` after its address field is replaced by `addr`.
pub open spec fn with_address(word: u64, addr: u64) -> u64 {
    pack(addr, flags_of(word))
}

/// `word` after its flags are replaced by `flags`.
pub open spec fn with_flags(word: u64, flags: u64) -> u64 {
    pack(address_of(word), flags)
}

/// The word of an entry that maps nothing.
pub open spec fn unused_word() -> u64 {
    0
}

/// `word` after it is cleared: the word of an unused entry, whatever `word`
/// was.
pub open spec fn cleared(word: u64) -> u64 {
    unused_word()
}

/// Whether `word` is in one of the states of an entry: unused, with no bit
/// set, or present.
pub open spec fn is_unused_or_present(word: u64) -> bool {
    word == unused_word() || is_present_word(word)
}

/// The two fields of an entry lie in separate bits, and each is read back as
/// it was packed.
proof fn lemma_fields(addr: u64, flags: u64)
    by (bit_vector)
    requires
        addr & !ADDRESS_MASK == 0,
        flags & !entry_flags::ALL == 0,
    ensures
        (addr | flags) & ADDRESS_MASK == addr,
        (addr | flags) & entry_flags::ALL == flags,
        (addr | flags) & !(ADDRESS_MASK | entry_flags::ALL) == 0,
        (flags | PRESENT) & !entry_flags::ALL == 0,
        (addr | flags) & PRESENT == flags & PRESENT,
        (addr | flags) & HUGE_PAGE == flags & HUGE_PAGE,
{
}

/// Either field of any word is valid for its kind, and the flags of a word
/// hold its present and huge-page bits.
proof fn lemma_parts(word: u64)
    by (bit_vector)
    ensures
        (word & ADDRESS_MASK) & !ADDRESS_MASK == 0,
        (word & entry_flags::ALL) & !entry_flags::ALL == 0,
        (word & entry_flags::ALL) & PRESENT == word & PRESENT,
        (word & entry_flags::ALL) & HUGE_PAGE == word & HUGE_PAGE,
        (word & PRESENT == PRESENT) == (word & PRESENT != 0),
        (word & HUGE_PAGE == HUGE_PAGE) == (word & HUGE_PAGE != 0),
        (word | PRESENT) & PRESENT != 0,
        0u64 & !(ADDRESS_MASK | entry_flags::ALL) == 0,
        0u64 & PRESENT == 0,
        0u64 & HUGE_PAGE == 0,
        0u64 & ADDRESS_MASK == 0,
        0u64 & entry_flags::ALL == 0,
{
}

/// An entry made of an address and flags is present, whatever the flags
/// were.
pub proof fn lemma_new_is_present(addr: PhysAddr, flags: EntryFlags)
    ensures
        is_present_word(pack(addr@, flags@ | PRESENT)),
{
    let a = addr@;
    let f = flags@;
    assert((a | (f | PRESENT)) & PRESENT != 0) by (bit_vector);
}

/// What is packed is read back: the address and the flags of a word made of
/// a valid address and valid flags are that address and those flags.
pub proof fn lemma_pack_unpack(addr: PhysAddr, flags: EntryFlags)
    requires
        addr.valid(),
        flags.valid(),
    ensures
        address_of(pack(addr@, flags@)) == addr@,
        flags_of(pack(addr@, flags@)) == flags@,
        is_entry_word(pack(addr@, flags@)),
{
    lemma_frame_address_bits(addr@);
    lemma_fields(addr@, flags@);
}

/// Setting the address leaves the flags as they were, and the new address is
/// the one that was set.
pub proof fn lemma_set_addr_keeps_flags(entry: Entry, addr: PhysAddr)
    requires
        addr.valid(),
    ensures
        flags_of(with_address(entry@, addr@)) == flags_of(entry@),
        address_of(with_address(entry@, addr@)) == addr@,
        is_present_word(with_address(entry@, addr@)) == is_present_word(entry@),
        is_huge_word(with_address(entry@, addr@)) == is_huge_word(entry@),
{
    lemma_frame_address_bits(addr@);
    lemma_parts(entry@);
    lemma_fields(addr@, flags_of(entry@));
}

/// Setting the flags leaves the address as it was, and the new flags are the
/// ones that were set.
pub proof fn lemma_set_flags_keeps_addr(entry: Entry, flags: EntryFlags)
    requires
        flags.valid(),
    ensures
        address_of(with_flags(entry@, flags@)) == address_of(entry@),
        flags_of(with_flags(entry@, flags@)) == flags@,
        is_present_word(with_flags(entry@, flags@)) == (flags@ & PRESENT != 0),
        is_huge_word(with_flags(entry@, flags@)) == (flags@ & HUGE_PAGE != 0),
{
    lemma_parts(entry@);
    lemma_fields(address_of(entry@), flags@);
}

/// An unused entry is not present, and its word is zero.
pub proof fn lemma_unused_is_not_present()
    ensures
        !is_present_word(unused_word()),
        !is_huge_word(unused_word()),
        unused_word() == 0,
{
    lemma_parts(0);
}

/// Clearing twice is clearing once: the second call changes nothing.
pub proof fn lemma_clear_idempotent(entry: Entry)
    ensures
        cleared(cleared(entry@)) == cleared(entry@),
        cleared(entry@) == unused_word(),
{
}

/// A word that fits in an entry.
///
/// An entry is unused, with no bit set, or present with the address of a page
/// frame and the flags of the mapping. It is a plain value: it is copied into
/// a slot of a table and overwritten there. Its view is the word itself.
#[derive(Clone, Copy, Debug, PartialEq, Eq, PartialOrd, Ord, Hash, Structural)]
pub struct Entry(u64);

impl View for Entry {
    type V = u64;

    closed spec fn view(&self) -> u64 {
        self.0
    }
}

impl Entry {
    /// No bit is set outside the address field and the flags. Every value
    /// that executable code holds satisfies this.
    #[verifier::type_invariant]
    pub open spec fn valid(&self) -> bool {
        is_entry_word(self@)
    }

    /// Two entries with the same word are the same entry.
    pub proof fn lemma_view_injective(a: Entry, b: Entry)
        requires
            a@ == b@,
        ensures
            a == b,
    {
    }

    fn new_internal(addr: PhysAddr, flags: EntryFlags) -> (entry: Entry)
        ensures
            entry@ == pack(addr@, flags@),
            address_of(entry@) == addr@,
            flags_of(entry@) == flags@,
    {
        let a = addr.raw();
        let f = flags.bits();
        proof {
            lemma_frame_address_bits(a);
            lemma_fields(a, f);
        }
        Entry(a | f)
    }

    /// An entry that is present, with the address `addr` and the flags
    /// `flags`. The present flag is set whether or not `flags` holds it.
    pub fn new(addr: PhysAddr, flags: EntryFlags) -> (entry: Entry)
        ensures
            entry@ == pack(addr@, flags@ | PRESENT),
            is_present_word(entry@),
            is_unused_or_present(entry@),
            address_of(entry@) == addr@,
            flags_of(entry@) == flags@ | PRESENT,
    {
        proof {
            lemma_new_is_present(addr, flags);
        }
        Self::new_internal(addr, flags | EntryFlags::present())
    }

    /// The word of the entry.
    pub fn raw(&self) -> (word: u64)
        ensures
            word == self@,
            is_entry_word(word),
    {
        proof {
            use_type_invariant(self);
        }
        self.0
    }

    /// An entry that maps nothing.
    pub fn new_unused() -> (entry: Entry)
        ensures
            entry@ == unused_word(),
            !is_present_word(entry@),
            is_unused_or_present(entry@),
    {
        proof {
            lemma_parts(0);
        }
        Entry(0)
    }

    /// Whether the entry maps a huge page. What size that is depends on the
    /// level of the table that holds the entry, which the caller knows.
    pub fn is_huge(&self) -> (huge: bool)
        ensures
            huge == is_huge_word(self@),
    {
        proof {
            lemma_parts(self@);
        }
        self.flags().contains(EntryFlags::huge_page())
    }

    /// Whether the entry is present. Only the present bit is looked at.
    pub fn is_present(&self) -> (present: bool)
        ensures
            present == is_present_word(self@),
    {
        proof {
            lemma_parts(self@);
        }
        self.flags().contains(EntryFlags::present())
    }

    /// The address in the entry.
    pub fn addr(&self) -> (addr: PhysAddr)
        ensures
            addr@ == address_of(self@),
    {
        proof {
            lemma_parts(self@);
            lemma_frame_address_bits(self@ & ADDRESS_MASK);
        }
        PhysAddr::new(self.0 & ADDRESS_MASK).unwrap()
    }

    /// Replaces the address in the entry by `addr` and keeps the flags.
    pub fn set_addr(&mut self, addr: PhysAddr)
        ensures
            final(self)@ == with_address(old(self)@, addr@),
            address_of(final(self)@) == addr@,
            flags_of(final(self)@) == flags_of(old(self)@),
            is_present_word(final(self)@) == is_present_word(old(self)@),
            is_huge_word(final(self)@) == is_huge_word(old(self)@),
            is_present_word(old(self)@) ==> is_unused_or_present(final(self)@),
    {
        proof {
            use_type_invariant(&addr);
            lemma_set_addr_keeps_flags(*self, addr);
        }
        *self = Entry::new_internal(addr, self.flags());
    }

    /// Clears the entry: afterwards it maps nothing. This is the one way from
    /// a present entry to an unused one.
    pub fn clear(&mut self)
        ensures
            final(self)@ == cleared(old(self)@),
            final(self)@ == unused_word(),
            !is_present_word(final(self)@),
            is_unused_or_present(final(self)@),
    {
        proof {
            lemma_parts(0);
        }
        self.0 = 0;
    }

    /// The flags of the entry.
    pub fn flags(&self) -> (flags: EntryFlags)
        ensures
            flags@ == flags_of(self@),
    {
        EntryFlags::from_bits_truncate(self.0)
    }

    /// Replaces the flags of the entry by `flags` and keeps the address.
    pub fn set_flags(&mut self, flags: EntryFlags)
        ensures
            final(self)@ == with_flags(old(self)@, flags@),
            address_of(final(self)@) == address_of(old(self)@),
            flags_of(final(self)@) == flags@,
            is_present_word(final(self)@) == (flags@ & PRESENT != 0),
            is_huge_word(final(self)@) == (flags@ & HUGE_PAGE != 0),
            flags@ & PRESENT != 0 ==> is_unused_or_present(final(self)@),
    {
        proof {
            use_type_invariant(&flags);
            lemma_set_flags_keeps_addr(*self, flags);
        }
        *self = Entry::new_internal(self.addr(), flags);
    }
}

} // verus!
