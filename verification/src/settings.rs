//! The settings of one mapping, whatever the architecture.

use vstd::prelude::*;
use core::cmp::Ordering;
use crate::cache::CacheType;
use crate::protections::Protections;
use crate::protections::is_protection_bits;

verus! {

/// The bit of the flag for a global mapping.
pub const GLOBAL: u64 = 0x1;

/// The bit of the flag for a mapping that user code may use.
pub const USER: u64 = 0x2;

/// Every bit that names a mapping flag.
pub const ALL: u64 = 0x3;

/// Whether `bits` holds no bit but those of mapping flags.
pub open spec fn is_mapping_flag_bits(bits: u64) -> bool {
    bits & !ALL == 0
}

/// The named bits, and none and all of them, are valid.
proof fn lemma_named_bits()
    by (bit_vector)
    ensures
        0u64 & !ALL == 0,
        GLOBAL & !ALL == 0,
        USER & !ALL == 0,
        ALL & !ALL == 0,
{
}

/// Truncation makes bits valid; union and difference keep them valid.
proof fn lemma_set_operations(a: u64, b: u64)
    by (bit_vector)
    ensures
        (a & ALL) & !ALL == 0,
        (a & !ALL == 0 && b & !ALL == 0) ==> (a | b) & !ALL == 0,
        a & !ALL == 0 ==> (a & !b) & !ALL == 0,
{
}

/// A set of flags that say how far a mapping reaches.
///
/// A global mapping may stay in the translation caches when the address space
/// is switched; a user mapping is open to the lowest privilege level. With
/// neither flag a mapping is for the kernel alone and not global. The view of a
/// set is the integer whose bits are the flags in it.
#[derive(Clone, Copy, Debug, PartialEq, Eq, PartialOrd, Ord, Hash, Structural)]
pub struct MappingFlags {
    bits: u64,
}

impl View for MappingFlags {
    type V = u64;

    closed spec fn view(&self) -> u64 {
        self.bits
    }
}

impl MappingFlags {
    /// The set holds no bit but those of mapping flags. Every value that
    /// executable code holds satisfies this.
    #[verifier::type_invariant]
    pub open spec fn valid(&self) -> bool {
        is_mapping_flag_bits(self@)
    }

    /// Two sets with the same bits are the same set.
    pub proof fn lemma_view_injective(a: MappingFlags, b: MappingFlags)
        requires
            a@ == b@,
        ensures
            a == b,
    {
    }

    /// The set without any flag.
    pub fn empty() -> (f: MappingFlags)
        ensures
            f@ == 0,
    {
        proof {
            lemma_named_bits();
        }
        MappingFlags { bits: 0 }
    }

    /// The set of both flags.
    pub fn all() -> (f: MappingFlags)
        ensures
            f@ == ALL,
    {
        proof {
            lemma_named_bits();
        }
        MappingFlags { bits: ALL }
    }

    /// The flag of a mapping that may stay in the translation caches across a
    /// switch of address space.
    pub fn global() -> (f: MappingFlags)
        ensures
            f@ == GLOBAL,
    {
        proof {
            lemma_named_bits();
        }
        MappingFlags { bits: GLOBAL }
    }

    /// The flag of a mapping that user code may use.
    pub fn user() -> (f: MappingFlags)
        ensures
            f@ == USER,
    {
        proof {
            lemma_named_bits();
        }
        MappingFlags { bits: USER }
    }

    /// The bits of the set.
    pub fn bits(&self) -> (bits: u64)
        ensures
            bits == self@,
            is_mapping_flag_bits(bits),
    {
        proof {
            use_type_invariant(self);
        }
        self.bits
    }

    /// The set with the bits `bits`, if each of them names a flag.
    pub fn from_bits(bits: u64) -> (f: Option<MappingFlags>)
        ensures
            f is Some <==> is_mapping_flag_bits(bits),
            f matches Some(g) ==> g@ == bits,
    {
        if bits & !ALL == 0 {
            Some(MappingFlags { bits })
        } else {
            None
        }
    }

    /// The set with those bits of `bits` that name a flag.
    pub fn from_bits_truncate(bits: u64) -> (f: MappingFlags)
        ensures
            f@ == bits & ALL,
    {
        proof {
            lemma_set_operations(bits, 0);
        }
        MappingFlags { bits: bits & ALL }
    }

    /// Whether the set holds no flag.
    pub fn is_empty(&self) -> (b: bool)
        ensures
            b == (self@ == 0),
    {
        self.bits == 0
    }

    /// Whether every flag of `other` is in the set.
    pub fn contains(&self, other: MappingFlags) -> (b: bool)
        ensures
            b == (self@ & other@ == other@),
    {
        (self.bits & other.bits) == other.bits
    }

    /// The spec-level result of [`MappingFlags::union`].
    pub closed spec fn spec_union(self, other: MappingFlags) -> MappingFlags {
        MappingFlags { bits: self.bits | other.bits }
    }

    /// The flags that are in `self` or in `other`.
    #[verifier::when_used_as_spec(spec_union)]
    pub fn union(self, other: MappingFlags) -> (f: MappingFlags)
        ensures
            f == self.spec_union(other),
            f@ == self@ | other@,
    {
        proof {
            use_type_invariant(&self);
            use_type_invariant(&other);
            lemma_set_operations(self.bits, other.bits);
        }
        MappingFlags { bits: self.bits | other.bits }
    }

    /// Adds the flags of `other` to the set.
    pub fn insert(&mut self, other: MappingFlags)
        ensures
            final(self)@ == old(self)@ | other@,
    {
        *self = self.union(other);
    }

    /// Takes the flags of `other` out of the set.
    pub fn remove(&mut self, other: MappingFlags)
        ensures
            final(self)@ == old(self)@ & !other@,
    {
        proof {
            use_type_invariant(&*self);
            lemma_set_operations(self.bits, other.bits);
        }
        self.bits = self.bits & !other.bits;
    }
}

impl core::ops::BitOr for MappingFlags {
    type Output = MappingFlags;

    /// The flags that are in `self` or in `other`.
    fn bitor(self, other: MappingFlags) -> (f: MappingFlags)
        ensures
            f@ == self@ | other@,
    {
        self.union(other)
    }
}

impl vstd::std_specs::ops::BitOrSpecImpl for MappingFlags {
    open spec fn obeys_bitor_spec() -> bool {
        true
    }

    open spec fn bitor_req(self, other: MappingFlags) -> bool {
        true
    }

    open spec fn bitor_spec(self, other: MappingFlags) -> MappingFlags {
        self.union(other)
    }
}

/// What a [`MappingSettings`] value holds, as plain values: the bits of its
/// permissions, its cache policy and the bits of its flags.
pub struct MappingSettingsView {
    pub perms: u32,
    pub cache: CacheType,
    pub flags: u64,
}

impl MappingSettingsView {
    /// The permissions and the flags hold no bit that names nothing.
    pub open spec fn valid(self) -> bool {
        is_protection_bits(self.perms) && is_mapping_flag_bits(self.flags)
    }
}

/// All the settings of one mapping: who may do what through it, how it is
/// cached, and how far it reaches.
///
/// A value is made once for each decision to map and not changed afterwards.
#[derive(Clone, Copy, Debug, PartialEq, Eq, Structural)]
pub struct MappingSettings {
    perms: Protections,
    cache: CacheType,
    flags: MappingFlags,
}

impl View for MappingSettings {
    type V = MappingSettingsView;

    closed spec fn view(&self) -> MappingSettingsView {
        MappingSettingsView { perms: self.perms@, cache: self.cache, flags: self.flags@ }
    }
}

impl MappingSettingsView {
    /// How `self` stands to `other` in the order of settings: by the
    /// permissions first, then by the cache policy, then by the flags, each
    /// set by its bits and the cache policy by its rank.
    pub open spec fn compare(self, other: MappingSettingsView) -> Ordering {
        if self.perms < other.perms {
            Ordering::Less
        } else if self.perms > other.perms {
            Ordering::Greater
        } else if self.cache.rank() < other.cache.rank() {
            Ordering::Less
        } else if self.cache.rank() > other.cache.rank() {
            Ordering::Greater
        } else if self.flags < other.flags {
            Ordering::Less
        } else if self.flags > other.flags {
            Ordering::Greater
        } else {
            Ordering::Equal
        }
    }
}

/// The order of settings agrees with their equality, and turns round when
/// the two sides are swapped.
pub proof fn lemma_compare_is_an_order(a: MappingSettingsView, b: MappingSettingsView)
    ensures
        (a.compare(b) == Ordering::Equal) <==> a == b,
        (a.compare(b) == Ordering::Less) <==> (b.compare(a) == Ordering::Greater),
{
}

impl PartialOrd for MappingSettings {
    /// How `self` stands to `other`: any two settings can be compared.
    fn partial_cmp(&self, other: &MappingSettings) -> (order: Option<Ordering>)
        ensures
            order == Some(self@.compare(other@)),
    {
        let perms = self.perms.bits();
        let other_perms = other.perms.bits();
        let cache = self.cache.rank();
        let other_cache = other.cache.rank();
        let flags = self.flags.bits();
        let other_flags = other.flags.bits();
        if perms < other_perms {
            Some(Ordering::Less)
        } else if perms > other_perms {
            Some(Ordering::Greater)
        } else if cache < other_cache {
            Some(Ordering::Less)
        } else if cache > other_cache {
            Some(Ordering::Greater)
        } else if flags < other_flags {
            Some(Ordering::Less)
        } else if flags > other_flags {
            Some(Ordering::Greater)
        } else {
            Some(Ordering::Equal)
        }
    }
}

impl vstd::std_specs::cmp::PartialOrdSpecImpl for MappingSettings {
    open spec fn obeys_partial_cmp_spec() -> bool {
        true
    }

    open spec fn partial_cmp_spec(&self, other: &MappingSettings) -> Option<Ordering> {
        Some(self@.compare(other@))
    }
}

impl MappingSettings {
    /// Both sets in the settings are valid. Every value that executable code
    /// holds satisfies this.
    #[verifier::type_invariant]
    pub open spec fn valid(&self) -> bool {
        self@.valid()
    }

    /// Two settings with the same view are the same settings.
    pub proof fn lemma_view_injective(a: MappingSettings, b: MappingSettings)
        requires
            a@ == b@,
        ensures
            a == b,
    {
        Protections::lemma_view_injective(a.perms, b.perms);
        MappingFlags::lemma_view_injective(a.flags, b.flags);
    }

    /// The settings with the permissions `perms`, the cache policy `cache` and
    /// the flags `flags`.
    pub fn new(perms: Protections, cache: CacheType, flags: MappingFlags) -> (settings: Self)
        ensures
            settings@ == (MappingSettingsView { perms: perms@, cache: cache, flags: flags@ }),
            settings.valid(),
    {
        proof {
            use_type_invariant(&perms);
            use_type_invariant(&flags);
        }
        Self { perms, cache, flags }
    }

    /// The permissions of the mapping.
    pub fn perms(&self) -> (perms: Protections)
        ensures
            perms@ == self@.perms,
    {
        self.perms
    }

    /// The cache policy of the mapping.
    pub fn cache(&self) -> (cache: CacheType)
        ensures
            cache == self@.cache,
    {
        self.cache
    }

    /// The flags of the mapping.
    pub fn flags(&self) -> (flags: MappingFlags)
        ensures
            flags@ == self@.flags,
    {
        self.flags
    }
}

} // verus!
