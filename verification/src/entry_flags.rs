//! The flag bits of a page-table entry, and how the settings of a mapping are
//! encoded in them and decoded from them.
//!
//! The layout is that of an x86-64 entry in long mode: the low nine bits and
//! the top bit are flags, bits 12 to 51 are the frame address, and the rest is
//! left clear.

use vstd::prelude::*;
use crate::cache::CacheType;
use crate::protections;
use crate::protections::Protections;
use crate::settings;
use crate::settings::MappingFlags;
use crate::settings::MappingSettings;
use crate::settings::MappingSettingsView;

verus! {

/// Bit 0: the entry is a translation that the processor may use.
pub const PRESENT: u64 = 0x1;

/// Bit 1: writes through the mapping are allowed.
pub const WRITE: u64 = 0x2;

/// Bit 2: the lowest privilege level may use the mapping.
pub const USER: u64 = 0x4;

/// Bit 3: writes go through the cache to memory.
pub const WRITE_THROUGH: u64 = 0x8;

/// Bit 4: accesses are not cached.
pub const CACHE_DISABLE: u64 = 0x10;

/// Bit 5: set by the processor when the mapping is used.
pub const ACCESSED: u64 = 0x20;

/// Bit 6: set by the processor when the mapping is written through.
pub const DIRTY: u64 = 0x40;

/// Bit 7: the entry maps a huge page and points to no further table.
pub const HUGE_PAGE: u64 = 0x80;

/// Bit 8: the translation survives a switch of address space.
pub const GLOBAL: u64 = 0x100;

/// Bit 63: instructions are not fetched through the mapping.
pub const NO_EXECUTE: u64 = 0x8000_0000_0000_0000;

/// Every bit that names an entry flag.
pub const ALL: u64 = 0x8000_0000_0000_01ff;

/// Whether `bits` holds no bit but those of entry flags.
pub open spec fn is_entry_flag_bits(bits: u64) -> bool {
    bits & !ALL == 0
}

/// The entry flags that stand for the permissions `perms`: the write bit
/// where writing is allowed, the no-execute bit where executing is not.
/// Reading needs no bit: whatever is mapped can be read.
pub open spec fn encode_perms(perms: u32) -> u64 {
    (if perms & protections::WRITE != 0 {
        WRITE
    } else {
        0
    }) | (if perms & protections::EXEC != 0 {
        0
    } else {
        NO_EXECUTE
    })
}

/// The entry flags that stand for the cache policy `cache`. Write-combining
/// has no bits of its own here and is mapped as write-back.
pub open spec fn encode_cache(cache: CacheType) -> u64 {
    match cache {
        CacheType::WriteBack => 0,
        CacheType::WriteThrough => WRITE_THROUGH,
        CacheType::WriteCombining => 0,
        CacheType::Uncacheable => CACHE_DISABLE,
    }
}

/// The entry flags that stand for the mapping flags `flags`.
pub open spec fn encode_scope(flags: u64) -> u64 {
    (if flags & settings::GLOBAL != 0 {
        GLOBAL
    } else {
        0
    }) | (if flags & settings::USER != 0 {
        USER
    } else {
        0
    })
}

/// The entry flags that stand for `settings`. The present bit is not among
/// them, nor any bit that the processor maintains.
pub open spec fn encode(settings: MappingSettingsView) -> u64 {
    encode_perms(settings.perms) | encode_cache(settings.cache) | encode_scope(settings.flags)
}

/// The permissions that the entry flags `flags` grant: always reading,
/// writing with the write bit, executing without the no-execute bit.
pub open spec fn decode_perms(flags: u64) -> u32 {
    protections::READ | (if flags & WRITE != 0 {
        protections::WRITE
    } else {
        0
    }) | (if flags & NO_EXECUTE != 0 {
        0
    } else {
        protections::EXEC
    })
}

/// The cache policy that the entry flags `flags` select. The cache-disable bit
/// is looked at first: with it the mapping is uncacheable whatever the
/// write-through bit says.
pub open spec fn decode_cache(flags: u64) -> CacheType {
    if flags & CACHE_DISABLE != 0 {
        CacheType::Uncacheable
    } else if flags & WRITE_THROUGH != 0 {
        CacheType::WriteThrough
    } else {
        CacheType::WriteBack
    }
}

/// The mapping flags that the entry flags `flags` stand for.
pub open spec fn decode_scope(flags: u64) -> u64 {
    (if flags & GLOBAL != 0 {
        settings::GLOBAL
    } else {
        0
    }) | (if flags & USER != 0 {
        settings::USER
    } else {
        0
    })
}

/// The settings that the entry flags `flags` stand for.
pub open spec fn decode(flags: u64) -> MappingSettingsView {
    MappingSettingsView {
        perms: decode_perms(flags),
        cache: decode_cache(flags),
        flags: decode_scope(flags),
    }
}

/// Whether entry flags can hold `settings` as they are: reading is among the
/// permissions, and the cache policy is not write-combining.
pub open spec fn is_expressible(settings: MappingSettingsView) -> bool {
    settings.perms & protections::READ != 0 && settings.cache != CacheType::WriteCombining
}

/// The settings that entry flags hold in place of `settings`: reading is added
/// to the permissions, and write-combining becomes write-back.
pub open spec fn nearest_expressible(settings: MappingSettingsView) -> MappingSettingsView {
    MappingSettingsView {
        perms: settings.perms | protections::READ,
        cache: if settings.cache == CacheType::WriteCombining {
            CacheType::WriteBack
        } else {
            settings.cache
        },
        flags: settings.flags,
    }
}

/// The named bits, and none and all of them, are valid.
proof fn lemma_named_bits()
    by (bit_vector)
    ensures
        0u64 & !ALL == 0,
        PRESENT & !ALL == 0,
        WRITE & !ALL == 0,
        USER & !ALL == 0,
        WRITE_THROUGH & !ALL == 0,
        CACHE_DISABLE & !ALL == 0,
        ACCESSED & !ALL == 0,
        DIRTY & !ALL == 0,
        HUGE_PAGE & !ALL == 0,
        GLOBAL & !ALL == 0,
        NO_EXECUTE & !ALL == 0,
        ALL & !ALL == 0,
        (USER | WRITE | PRESENT) & !ALL == 0,
{
}

/// Truncation makes bits valid; union and difference keep them valid.
proof fn lemma_set_operations(a: u64, b: u64)
    by (bit_vector)
    ensures
        (a & ALL) & !ALL == 0,
        (a & !ALL == 0 && b & !ALL == 0) ==> (a | b) & !ALL == 0,
        a & !ALL == 0 ==> (a & !b) & !ALL == 0,
{
}

/// A union with nothing changes nothing.
proof fn lemma_union_with_nothing()
    by (bit_vector)
    ensures
        forall|x: u64| #[trigger] (x | 0) == x,
        forall|x: u64| #[trigger] (0 | x) == x,
{
}

/// What the three parts of an encoding are, each by the bits it may hold.
proof fn lemma_encode_parts(perms: u32, cache: CacheType, flags: u64)
    ensures
        encode_perms(perms) & !(WRITE | NO_EXECUTE) == 0,
        (encode_perms(perms) & WRITE != 0) == (perms & protections::WRITE != 0),
        (encode_perms(perms) & NO_EXECUTE != 0) == (perms & protections::EXEC == 0),
        encode_cache(cache) & !(WRITE_THROUGH | CACHE_DISABLE) == 0,
        (encode_cache(cache) & CACHE_DISABLE != 0) == (cache == CacheType::Uncacheable),
        (encode_cache(cache) & WRITE_THROUGH != 0) == (cache == CacheType::WriteThrough),
        encode_scope(flags) & !(GLOBAL | USER) == 0,
        (encode_scope(flags) & GLOBAL != 0) == (flags & settings::GLOBAL != 0),
        (encode_scope(flags) & USER != 0) == (flags & settings::USER != 0),
{
    assert(encode_perms(perms) & !(WRITE | NO_EXECUTE) == 0 && (encode_perms(perms) & WRITE != 0)
        == (perms & protections::WRITE != 0) && (encode_perms(perms) & NO_EXECUTE != 0) == (perms
        & protections::EXEC == 0)) by (bit_vector);
    assert(encode_scope(flags) & !(GLOBAL | USER) == 0 && (encode_scope(flags) & GLOBAL != 0) == (
    flags & settings::GLOBAL != 0) && (encode_scope(flags) & USER != 0) == (flags & settings::USER
        != 0)) by (bit_vector);
    assert(0u64 & !(WRITE_THROUGH | CACHE_DISABLE) == 0 && WRITE_THROUGH & !(WRITE_THROUGH
        | CACHE_DISABLE) == 0 && CACHE_DISABLE & !(WRITE_THROUGH | CACHE_DISABLE) == 0 && 0u64
        & CACHE_DISABLE == 0 && 0u64 & WRITE_THROUGH == 0 && WRITE_THROUGH & CACHE_DISABLE == 0
        && CACHE_DISABLE & WRITE_THROUGH == 0 && WRITE_THROUGH & WRITE_THROUGH != 0 && CACHE_DISABLE
        & CACHE_DISABLE != 0) by (bit_vector);
}

/// The three parts of an encoding lie in separate bits: each flag of the whole
/// is the flag of its part, and no other flag is set.
proof fn lemma_parts_apart(p: u64, c: u64, s: u64)
    by (bit_vector)
    requires
        p & !(WRITE | NO_EXECUTE) == 0,
        c & !(WRITE_THROUGH | CACHE_DISABLE) == 0,
        s & !(GLOBAL | USER) == 0,
    ensures
        (p | c | s) & WRITE == p & WRITE,
        (p | c | s) & NO_EXECUTE == p & NO_EXECUTE,
        (p | c | s) & WRITE_THROUGH == c & WRITE_THROUGH,
        (p | c | s) & CACHE_DISABLE == c & CACHE_DISABLE,
        (p | c | s) & GLOBAL == s & GLOBAL,
        (p | c | s) & USER == s & USER,
        (p | c | s) & !ALL == 0,
        (p | c | s) & (PRESENT | ACCESSED | DIRTY | HUGE_PAGE) == 0,
{
}

/// Valid permissions and mapping flags are made of their named bits.
proof fn lemma_bits_of_sets(perms: u32, flags: u64)
    by (bit_vector)
    requires
        perms & !protections::ALL == 0,
        flags & !settings::ALL == 0,
    ensures
        perms | protections::READ == protections::READ | (if perms & protections::WRITE != 0 {
            protections::WRITE
        } else {
            0
        }) | (if perms & protections::EXEC != 0 {
            protections::EXEC
        } else {
            0
        }),
        perms & protections::READ != 0 ==> perms | protections::READ == perms,
        flags == (if flags & settings::GLOBAL != 0 {
            settings::GLOBAL
        } else {
            0
        }) | (if flags & settings::USER != 0 {
            settings::USER
        } else {
            0
        }),
{
}

/// What decoding gives is valid, whatever the entry flags are, and reading is
/// among the permissions.
pub proof fn lemma_decode_valid(flags: EntryFlags)
    ensures
        decode(flags@).valid(),
        decode(flags@).perms & protections::READ != 0,
{
    let bits = flags@;
    assert(decode_perms(bits) & !protections::ALL == 0 && decode_perms(bits) & protections::READ
        != 0) by (bit_vector);
    assert(decode_scope(bits) & !settings::ALL == 0) by (bit_vector);
}

/// Encoding yields entry flags, and sets each of them for its own reason
/// alone: the write bit where writing was asked for, the no-execute bit where
/// executing was not, the cache bits by the cache policy, the global and user
/// bits where they were asked for. The present bit, the bits that the
/// processor maintains and the huge-page bit are never set.
pub proof fn lemma_encode_flags(settings: MappingSettingsView)
    ensures
        is_entry_flag_bits(encode(settings)),
        encode(settings) & (PRESENT | ACCESSED | DIRTY | HUGE_PAGE) == 0,
        (encode(settings) & WRITE != 0) == (settings.perms & protections::WRITE != 0),
        (encode(settings) & NO_EXECUTE != 0) == (settings.perms & protections::EXEC == 0),
        (encode(settings) & WRITE_THROUGH != 0) == (settings.cache == CacheType::WriteThrough),
        (encode(settings) & CACHE_DISABLE != 0) == (settings.cache == CacheType::Uncacheable),
        (encode(settings) & GLOBAL != 0) == (settings.flags & settings::GLOBAL != 0),
        (encode(settings) & USER != 0) == (settings.flags & settings::USER != 0),
{
    lemma_encode_parts(settings.perms, settings.cache, settings.flags);
    lemma_parts_apart(
        encode_perms(settings.perms),
        encode_cache(settings.cache),
        encode_scope(settings.flags),
    );
}

/// Decoding the encoding of valid settings gives the nearest settings that
/// entry flags can hold: the same ones but for reading, which is always
/// granted, and for write-combining, which is held as write-back.
pub proof fn lemma_decode_encode(settings: MappingSettings)
    requires
        settings.valid(),
    ensures
        decode(encode(settings@)) == nearest_expressible(settings@),
{
    let v = settings@;
    lemma_encode_parts(v.perms, v.cache, v.flags);
    lemma_parts_apart(encode_perms(v.perms), encode_cache(v.cache), encode_scope(v.flags));
    lemma_bits_of_sets(v.perms, v.flags);
}

/// Round trip: decoding the encoding of valid settings that entry flags can
/// hold as they are gives the same settings again.
pub proof fn lemma_round_trip(settings: MappingSettings)
    requires
        settings.valid(),
        is_expressible(settings@),
    ensures
        decode(encode(settings@)) == settings@,
{
    lemma_decode_encode(settings);
    lemma_bits_of_sets(settings@.perms, settings@.flags);
}

/// The set of flags of a page-table entry.
///
/// The view of a set is the integer whose bits are the flags in it, each at
/// the place that it has in an entry.
#[derive(Clone, Copy, Debug, PartialEq, Eq, PartialOrd, Ord, Hash, Structural)]
pub struct EntryFlags {
    bits: u64,
}

impl View for EntryFlags {
    type V = u64;

    closed spec fn view(&self) -> u64 {
        self.bits
    }
}

impl EntryFlags {
    /// The set holds no bit but those of entry flags. Every value that
    /// executable code holds satisfies this.
    #[verifier::type_invariant]
    pub open spec fn valid(&self) -> bool {
        is_entry_flag_bits(self@)
    }

    /// Two sets with the same bits are the same set.
    pub proof fn lemma_view_injective(a: EntryFlags, b: EntryFlags)
        requires
            a@ == b@,
        ensures
            a == b,
    {
    }

    /// The set without any flag.
    pub fn empty() -> (f: EntryFlags)
        ensures
            f@ == 0,
    {
        proof {
            lemma_named_bits();
        }
        EntryFlags { bits: 0 }
    }

    /// The set of all flags.
    pub fn all() -> (f: EntryFlags)
        ensures
            f@ == ALL,
    {
        proof {
            lemma_named_bits();
        }
        EntryFlags { bits: ALL }
    }

    /// The flag of an entry that the processor may use.
    pub fn present() -> (f: EntryFlags)
        ensures
            f@ == PRESENT,
    {
        proof {
            lemma_named_bits();
        }
        EntryFlags { bits: PRESENT }
    }

    /// The flag that allows writes.
    pub fn write() -> (f: EntryFlags)
        ensures
            f@ == WRITE,
    {
        proof {
            lemma_named_bits();
        }
        EntryFlags { bits: WRITE }
    }

    /// The flag that opens the mapping to the lowest privilege level.
    pub fn user() -> (f: EntryFlags)
        ensures
            f@ == USER,
    {
        proof {
            lemma_named_bits();
        }
        EntryFlags { bits: USER }
    }

    /// The flag of write-through caching.
    pub fn write_through() -> (f: EntryFlags)
        ensures
            f@ == WRITE_THROUGH,
    {
        proof {
            lemma_named_bits();
        }
        EntryFlags { bits: WRITE_THROUGH }
    }

    /// The flag that switches caching off.
    pub fn cache_disable() -> (f: EntryFlags)
        ensures
            f@ == CACHE_DISABLE,
    {
        proof {
            lemma_named_bits();
        }
        EntryFlags { bits: CACHE_DISABLE }
    }

    /// The flag that the processor sets when it uses the mapping.
    pub fn accessed() -> (f: EntryFlags)
        ensures
            f@ == ACCESSED,
    {
        proof {
            lemma_named_bits();
        }
        EntryFlags { bits: ACCESSED }
    }

    /// The flag that the processor sets when it writes through the mapping.
    pub fn dirty() -> (f: EntryFlags)
        ensures
            f@ == DIRTY,
    {
        proof {
            lemma_named_bits();
        }
        EntryFlags { bits: DIRTY }
    }

    /// The flag of an entry that maps a huge page.
    pub fn huge_page() -> (f: EntryFlags)
        ensures
            f@ == HUGE_PAGE,
    {
        proof {
            lemma_named_bits();
        }
        EntryFlags { bits: HUGE_PAGE }
    }

    /// The flag of a translation that survives a switch of address space.
    pub fn global() -> (f: EntryFlags)
        ensures
            f@ == GLOBAL,
    {
        proof {
            lemma_named_bits();
        }
        EntryFlags { bits: GLOBAL }
    }

    /// The flag that forbids fetching instructions.
    pub fn no_execute() -> (f: EntryFlags)
        ensures
            f@ == NO_EXECUTE,
    {
        proof {
            lemma_named_bits();
        }
        EntryFlags { bits: NO_EXECUTE }
    }

    /// The bits of the set, each at its place in an entry.
    pub fn bits(&self) -> (bits: u64)
        ensures
            bits == self@,
            is_entry_flag_bits(bits),
    {
        proof {
            use_type_invariant(self);
        }
        self.bits
    }

    /// The set with the bits `bits`, if each of them names a flag.
    pub fn from_bits(bits: u64) -> (f: Option<EntryFlags>)
        ensures
            f is Some <==> is_entry_flag_bits(bits),
            f matches Some(g) ==> g@ == bits,
    {
        if bits & !ALL == 0 {
            Some(EntryFlags { bits })
        } else {
            None
        }
    }

    /// The set with those bits of `bits` that name a flag.
    pub fn from_bits_truncate(bits: u64) -> (f: EntryFlags)
        ensures
            f@ == bits & ALL,
    {
        proof {
            lemma_set_operations(bits, 0);
        }
        EntryFlags { bits: bits & ALL }
    }

    /// Whether the set holds no flag.
    pub fn is_empty(&self) -> (b: bool)
        ensures
            b == (self@ == 0),
    {
        self.bits == 0
    }

    /// Whether every flag of `other` is in the set.
    pub fn contains(&self, other: EntryFlags) -> (b: bool)
        ensures
            b == (self@ & other@ == other@),
    {
        (self.bits & other.bits) == other.bits
    }

    /// The spec-level result of [`EntryFlags::union`].
    pub closed spec fn spec_union(self, other: EntryFlags) -> EntryFlags {
        EntryFlags { bits: self.bits | other.bits }
    }

    /// The flags that are in `self` or in `other`.
    #[verifier::when_used_as_spec(spec_union)]
    pub fn union(self, other: EntryFlags) -> (f: EntryFlags)
        ensures
            f == self.spec_union(other),
            f@ == self@ | other@,
    {
        proof {
            use_type_invariant(&self);
            use_type_invariant(&other);
            lemma_set_operations(self.bits, other.bits);
        }
        EntryFlags { bits: self.bits | other.bits }
    }

    /// Adds the flags of `other` to the set.
    pub fn insert(&mut self, other: EntryFlags)
        ensures
            final(self)@ == old(self)@ | other@,
    {
        *self = self.union(other);
    }

    /// Takes the flags of `other` out of the set.
    pub fn remove(&mut self, other: EntryFlags)
        ensures
            final(self)@ == old(self)@ & !other@,
    {
        proof {
            use_type_invariant(&*self);
            lemma_set_operations(self.bits, other.bits);
        }
        self.bits = self.bits & !other.bits;
    }

    /// The settings of the mapping that an entry with these flags makes.
    pub fn settings(&self) -> (settings: MappingSettings)
        ensures
            settings@ == decode(self@),
            self@ & CACHE_DISABLE != 0 ==> settings@.cache == CacheType::Uncacheable,
    {
        MappingSettings::new(self.perms(), self.cache_type(), self.flags())
    }

    /// The mapping flags that these entry flags stand for.
    pub fn flags(&self) -> (flags: MappingFlags)
        ensures
            flags@ == decode_scope(self@),
    {
        let mut flags = MappingFlags::empty();
        if self.contains(EntryFlags::global()) {
            flags.insert(MappingFlags::global());
        }
        if self.contains(EntryFlags::user()) {
            flags.insert(MappingFlags::user());
        }
        proof {
            let bits = self@;
            let built = flags@;
            lemma_union_with_nothing();
            assert(built == decode_scope(bits)) by (bit_vector)
                requires
                    built == (0u64 | (if bits & GLOBAL == GLOBAL {
                        settings::GLOBAL
                    } else {
                        0
                    })) | (if bits & USER == USER {
                        settings::USER
                    } else {
                        0
                    }),
            ;
        }
        flags
    }

    /// The permissions that these entry flags grant.
    pub fn perms(&self) -> (perms: Protections)
        ensures
            perms@ == decode_perms(self@),
    {
        let rw = if self.contains(Self::write()) {
            Protections::write() | Protections::read()
        } else {
            Protections::read()
        };
        let ex = if self.contains(Self::no_execute()) {
            Protections::empty()
        } else {
            Protections::exec()
        };
        proof {
            let bits = self@;
            let built = rw@ | ex@;
            assert(built == decode_perms(bits)) by (bit_vector)
                requires
                    built == (if bits & WRITE == WRITE {
                        protections::WRITE | protections::READ
                    } else {
                        protections::READ
                    }) | (if bits & NO_EXECUTE == NO_EXECUTE {
                        0u32
                    } else {
                        protections::EXEC
                    }),
            ;
        }
        rw | ex
    }

    /// The cache policy that these entry flags select. Where caching is
    /// switched off the mapping is uncacheable, whatever else is set.
    pub fn cache_type(&self) -> (cache: CacheType)
        ensures
            cache == decode_cache(self@),
            self@ & CACHE_DISABLE != 0 ==> cache == CacheType::Uncacheable,
    {
        proof {
            let bits = self@;
            assert((bits & CACHE_DISABLE == CACHE_DISABLE) == (bits & CACHE_DISABLE != 0) && (bits
                & WRITE_THROUGH == WRITE_THROUGH) == (bits & WRITE_THROUGH != 0)) by (bit_vector);
        }
        if self.contains(Self::cache_disable()) {
            CacheType::Uncacheable
        } else if self.contains(Self::write_through()) {
            CacheType::WriteThrough
        } else {
            CacheType::WriteBack
        }
    }

    /// The flags of an entry that points to a further table: present,
    /// writable and open to user code, so that the entries of that table
    /// decide.
    pub fn intermediate() -> (f: EntryFlags)
        ensures
            f@ == USER | WRITE | PRESENT,
    {
        Self::user() | Self::write() | Self::present()
    }

    /// The flags that mark an entry as mapping a huge page.
    pub fn huge() -> (f: EntryFlags)
        ensures
            f@ == HUGE_PAGE,
    {
        Self::huge_page()
    }
}

impl core::ops::BitOr for EntryFlags {
    type Output = EntryFlags;

    /// The flags that are in `self` or in `other`.
    fn bitor(self, other: EntryFlags) -> (f: EntryFlags)
        ensures
            f@ == self@ | other@,
    {
        self.union(other)
    }
}

impl vstd::std_specs::ops::BitOrSpecImpl for EntryFlags {
    open spec fn obeys_bitor_spec() -> bool {
        true
    }

    open spec fn bitor_req(self, other: EntryFlags) -> bool {
        true
    }

    open spec fn bitor_spec(self, other: EntryFlags) -> EntryFlags {
        self.union(other)
    }
}

impl<'a> From<&'a MappingSettings> for EntryFlags {
    /// The entry flags that stand for `settings`: the write bit where writing
    /// is allowed, the no-execute bit where executing is not, the cache bits
    /// of the cache policy, and the global and user bits as the mapping flags
    /// say. The present bit is left to whoever makes the entry.
    fn from(settings: &'a MappingSettings) -> (flags: EntryFlags)
        ensures
            flags@ == encode(settings@),
            flags@ & (PRESENT | ACCESSED | DIRTY | HUGE_PAGE) == 0,
            (flags@ & WRITE != 0) == (settings@.perms & protections::WRITE != 0),
            (flags@ & NO_EXECUTE != 0) == (settings@.perms & protections::EXEC == 0),
            (flags@ & WRITE_THROUGH != 0) == (settings@.cache == CacheType::WriteThrough),
            (flags@ & CACHE_DISABLE != 0) == (settings@.cache == CacheType::Uncacheable),
            (flags@ & GLOBAL != 0) == (settings@.flags & settings::GLOBAL != 0),
            (flags@ & USER != 0) == (settings@.flags & settings::USER != 0),
    {
        let c = match settings.cache() {
            CacheType::WriteBack => EntryFlags::empty(),
            CacheType::WriteThrough => EntryFlags::write_through(),
            CacheType::WriteCombining => EntryFlags::empty(),
            CacheType::Uncacheable => EntryFlags::cache_disable(),
        };
        let mut p = EntryFlags::empty();
        if settings.perms().contains(Protections::write()) {
            p.insert(EntryFlags::write());
        }
        if !settings.perms().contains(Protections::exec()) {
            p.insert(EntryFlags::no_execute());
        }
        let f = if settings.flags().contains(MappingFlags::global()) {
            EntryFlags::global()
        } else {
            EntryFlags::empty()
        };
        let u = if settings.flags().contains(MappingFlags::user()) {
            EntryFlags::user()
        } else {
            EntryFlags::empty()
        };
        proof {
            let perms = settings@.perms;
            let scope = settings@.flags;
            let pb = p@;
            let cb = c@;
            let fb = f@;
            let ub = u@;
            lemma_union_with_nothing();
            assert(pb == encode_perms(perms) && (fb | ub) == encode_scope(scope) && ((pb | cb) | fb)
                | ub == pb | cb | (fb | ub)) by (bit_vector)
                requires
                    pb == (0u64 | (if perms & protections::WRITE == protections::WRITE {
                        WRITE
                    } else {
                        0
                    })) | (if perms & protections::EXEC == protections::EXEC {
                        0
                    } else {
                        NO_EXECUTE
                    }),
                    fb == (if scope & settings::GLOBAL == settings::GLOBAL {
                        GLOBAL
                    } else {
                        0
                    }),
                    ub == (if scope & settings::USER == settings::USER {
                        USER
                    } else {
                        0
                    }),
            ;
            lemma_encode_flags(settings@);
        }
        p | c | f | u
    }
}

impl<'a> vstd::std_specs::convert::FromSpecImpl<&'a MappingSettings> for EntryFlags {
    open spec fn obeys_from_spec() -> bool {
        true
    }

    closed spec fn from_spec(settings: &'a MappingSettings) -> EntryFlags {
        EntryFlags { bits: encode(settings@) }
    }
}

} // verus!
