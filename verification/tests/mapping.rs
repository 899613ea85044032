use std::cmp::Ordering;
use twizzler_core::address::PhysAddr;
use twizzler_core::cache::CacheType;
use twizzler_core::entry::Entry;
use twizzler_core::entry_flags::EntryFlags;
use twizzler_core::protections::Protections;
use twizzler_core::settings::MappingFlags;
use twizzler_core::settings::MappingSettings;

fn frame(raw: u64) -> PhysAddr {
    PhysAddr::new(raw).unwrap()
}

fn all_perms() -> Vec<Protections> {
    (0..8u32).map(|b| Protections::from_bits(b).unwrap()).collect()
}

fn all_caches() -> Vec<CacheType> {
    vec![
        CacheType::WriteBack,
        CacheType::WriteThrough,
        CacheType::WriteCombining,
        CacheType::Uncacheable,
    ]
}

fn all_scopes() -> Vec<MappingFlags> {
    (0..4u64).map(|b| MappingFlags::from_bits(b).unwrap()).collect()
}

fn all_entry_flags() -> Vec<EntryFlags> {
    let mut out = Vec::new();
    for low in 0..0x200u64 {
        out.push(EntryFlags::from_bits(low).unwrap());
        out.push(EntryFlags::from_bits(low | (1 << 63)).unwrap());
    }
    out
}

fn sample_addrs() -> Vec<PhysAddr> {
    vec![
        frame(0),
        frame(0x1000),
        frame(0x20_0000),
        frame(0x4000_0000),
        frame(0xdead_b000),
        frame(0x000f_ffff_ffff_f000),
    ]
}

#[test]
fn round_trip_of_every_expressible_setting() {
    let mut seen = 0;
    for perms in all_perms() {
        if !perms.contains(Protections::read()) {
            continue;
        }
        for cache in all_caches() {
            if cache == CacheType::WriteCombining {
                continue;
            }
            for scope in all_scopes() {
                let m = MappingSettings::new(perms, cache, scope);
                let decoded = EntryFlags::from(&m).settings();
                assert_eq!(decoded, m);
                seen += 1;
            }
        }
    }
    assert_eq!(seen, 4 * 3 * 4);
}

#[test]
fn write_combining_falls_back_to_write_back() {
    for perms in all_perms() {
        for scope in all_scopes() {
            let m = MappingSettings::new(perms, CacheType::WriteCombining, scope);
            let wb = MappingSettings::new(perms, CacheType::WriteBack, scope);
            assert_eq!(EntryFlags::from(&m), EntryFlags::from(&wb));
            let decoded = EntryFlags::from(&m).settings();
            assert_eq!(decoded.cache(), CacheType::WriteBack);
            assert_eq!(decoded.perms(), perms | Protections::read());
            assert_eq!(decoded.flags(), scope);
        }
    }
}

#[test]
fn read_is_always_granted() {
    for perms in all_perms() {
        for cache in all_caches() {
            for scope in all_scopes() {
                let m = MappingSettings::new(perms, cache, scope);
                let decoded = EntryFlags::from(&m).settings();
                assert_eq!(decoded.perms(), perms | Protections::read());
                assert_eq!(decoded.flags(), m.flags());
            }
        }
    }
}

#[test]
fn encode_sets_exactly_the_documented_bits() {
    let m = MappingSettings::new(Protections::read(), CacheType::WriteBack, MappingFlags::empty());
    assert_eq!(EntryFlags::from(&m).bits(), 0x8000_0000_0000_0000);
    let m = MappingSettings::new(Protections::all(), CacheType::WriteBack, MappingFlags::empty());
    assert_eq!(EntryFlags::from(&m).bits(), 0x2);
    let m = MappingSettings::new(
        Protections::read() | Protections::exec(),
        CacheType::WriteThrough,
        MappingFlags::global(),
    );
    assert_eq!(EntryFlags::from(&m).bits(), 0x108);
    let m = MappingSettings::new(
        Protections::read() | Protections::exec(),
        CacheType::Uncacheable,
        MappingFlags::all(),
    );
    assert_eq!(EntryFlags::from(&m).bits(), 0x114);
    let m = MappingSettings::new(
        Protections::empty(),
        CacheType::WriteCombining,
        MappingFlags::user(),
    );
    assert_eq!(EntryFlags::from(&m).bits(), 0x8000_0000_0000_0004);
}

#[test]
fn encode_never_sets_presence_or_hardware_bits() {
    for perms in all_perms() {
        for cache in all_caches() {
            for scope in all_scopes() {
                let f = EntryFlags::from(&MappingSettings::new(perms, cache, scope));
                assert!(!f.contains(EntryFlags::present()));
                assert!(!f.contains(EntryFlags::accessed()));
                assert!(!f.contains(EntryFlags::dirty()));
                assert!(!f.contains(EntryFlags::huge_page()));
                assert_eq!(f.contains(EntryFlags::write()), perms.contains(Protections::write()));
                assert_eq!(
                    f.contains(EntryFlags::no_execute()),
                    !perms.contains(Protections::exec())
                );
                assert_eq!(f.contains(EntryFlags::user()), scope.contains(MappingFlags::user()));
                assert_eq!(
                    f.contains(EntryFlags::global()),
                    scope.contains(MappingFlags::global())
                );
            }
        }
    }
}

#[test]
fn decode_of_every_flag_set() {
    for f in all_entry_flags() {
        let s = f.settings();
        assert_eq!(s.perms(), f.perms());
        assert_eq!(s.cache(), f.cache_type());
        assert_eq!(s.flags(), f.flags());
        assert!(s.perms().contains(Protections::read()));
        assert_eq!(s.perms().contains(Protections::write()), f.bits() & 0x2 != 0);
        assert_eq!(s.perms().contains(Protections::exec()), f.bits() >> 63 == 0);
        assert_eq!(s.flags().contains(MappingFlags::global()), f.bits() & 0x100 != 0);
        assert_eq!(s.flags().contains(MappingFlags::user()), f.bits() & 0x4 != 0);
        let cache = if f.bits() & 0x10 != 0 {
            CacheType::Uncacheable
        } else if f.bits() & 0x8 != 0 {
            CacheType::WriteThrough
        } else {
            CacheType::WriteBack
        };
        assert_eq!(s.cache(), cache);
    }
}

#[test]
fn decode_ignores_accessed_and_dirty() {
    let plain = EntryFlags::write() | EntryFlags::user();
    let touched = plain | EntryFlags::accessed() | EntryFlags::dirty();
    assert_eq!(plain.settings(), touched.settings());
}

#[test]
fn cache_disable_takes_precedence_over_write_through() {
    let both = EntryFlags::cache_disable() | EntryFlags::write_through();
    assert_eq!(both.cache_type(), CacheType::Uncacheable);
    assert_eq!(both.settings().cache(), CacheType::Uncacheable);
    assert_eq!(EntryFlags::write_through().cache_type(), CacheType::WriteThrough);
    assert_eq!(EntryFlags::cache_disable().cache_type(), CacheType::Uncacheable);
    assert_eq!(EntryFlags::empty().cache_type(), CacheType::WriteBack);
    assert_eq!(EntryFlags::all().cache_type(), CacheType::Uncacheable);
}

#[test]
fn new_entry_is_present_whatever_the_flags() {
    for a in sample_addrs() {
        for f in all_entry_flags() {
            let e = Entry::new(a, f);
            assert!(e.is_present());
            assert_eq!(e.raw(), a.raw() | f.bits() | 1);
            assert_eq!(e.addr(), a);
            assert_eq!(e.flags(), f | EntryFlags::present());
        }
    }
    let e = Entry::new(frame(0x1000), EntryFlags::empty());
    assert!(e.is_present());
    assert_eq!(e.raw(), 0x1001);
}

#[test]
fn set_addr_and_set_flags_touch_their_own_field_only() {
    let mut starts = vec![Entry::new_unused()];
    for a in sample_addrs() {
        for f in [
            EntryFlags::empty(),
            EntryFlags::all(),
            EntryFlags::write() | EntryFlags::accessed() | EntryFlags::dirty(),
            EntryFlags::huge() | EntryFlags::no_execute(),
        ] {
            starts.push(Entry::new(a, f));
        }
    }
    for start in starts {
        for a in sample_addrs() {
            let mut e = start;
            e.set_addr(a);
            assert_eq!(e.flags(), start.flags());
            assert_eq!(e.addr(), a);
            assert_eq!(e.is_present(), start.is_present());
            assert_eq!(e.is_huge(), start.is_huge());
            assert_eq!(e.raw(), a.raw() | start.flags().bits());
        }
        for f in all_entry_flags() {
            let mut e = start;
            e.set_flags(f);
            assert_eq!(e.addr(), start.addr());
            assert_eq!(e.flags(), f);
            assert_eq!(e.is_present(), f.contains(EntryFlags::present()));
            assert_eq!(e.is_huge(), f.contains(EntryFlags::huge_page()));
            assert_eq!(e.raw(), start.addr().raw() | f.bits());
        }
    }
}

#[test]
fn set_flags_keeps_accessed_and_dirty_when_the_caller_hands_them_back() {
    let mut e = Entry::new(
        frame(0x7000),
        EntryFlags::write() | EntryFlags::accessed() | EntryFlags::dirty(),
    );
    let mut f = e.flags();
    f.remove(EntryFlags::write());
    f.insert(EntryFlags::no_execute());
    e.set_flags(f);
    assert_eq!(e.raw(), 0x8000_0000_0000_7061);
    assert!(e.flags().contains(EntryFlags::accessed() | EntryFlags::dirty()));
}

#[test]
fn unused_entry_is_zero_and_not_present() {
    let e = Entry::new_unused();
    assert!(!e.is_present());
    assert!(!e.is_huge());
    assert_eq!(e.raw(), 0);
    assert_eq!(e.addr().raw(), 0);
    assert!(e.flags().is_empty());
    assert_ne!(e, Entry::new(frame(0), EntryFlags::empty()));
}

#[test]
fn clear_is_idempotent() {
    let mut e = Entry::new(frame(0xabc000), EntryFlags::all());
    e.clear();
    let once = e;
    e.clear();
    assert_eq!(e, once);
    assert_eq!(e.raw(), 0);
    assert!(!e.is_present());
    assert_eq!(e, Entry::new_unused());
    let mut u = Entry::new_unused();
    u.clear();
    assert_eq!(u, Entry::new_unused());
}

#[test]
fn huge_entries() {
    let e = Entry::new(frame(0x20_0000), EntryFlags::huge() | EntryFlags::write());
    assert!(e.is_huge());
    assert!(e.is_present());
    assert_eq!(e.raw(), 0x20_0083);
    let mut e = Entry::new(frame(0x20_0000), EntryFlags::write());
    assert!(!e.is_huge());
    e.set_flags(e.flags() | EntryFlags::huge());
    assert!(e.is_huge());
}

#[test]
fn scenario_user_read_write_page() {
    let m = MappingSettings::new(
        Protections::read() | Protections::write(),
        CacheType::WriteBack,
        MappingFlags::user(),
    );
    let encoded = EntryFlags::from(&m);
    let e = Entry::new(frame(0x1000), encoded);
    assert!(e.is_present());
    assert!(!e.is_huge());
    assert_eq!(e.addr().raw(), 0x1000);
    assert_eq!(e.flags().settings(), m);
    assert_eq!(encoded.bits(), 0x8000_0000_0000_0006);
    assert_eq!(e.raw(), 0x8000_0000_0000_1007);
}

#[test]
fn settings_hold_what_they_were_made_of() {
    let m = MappingSettings::new(
        Protections::read() | Protections::exec(),
        CacheType::Uncacheable,
        MappingFlags::global(),
    );
    assert_eq!(m.perms(), Protections::read() | Protections::exec());
    assert_eq!(m.perms().bits(), 5);
    assert_eq!(m.cache(), CacheType::Uncacheable);
    assert_eq!(m.flags(), MappingFlags::global());
    let same = MappingSettings::new(
        Protections::exec() | Protections::read(),
        CacheType::Uncacheable,
        MappingFlags::global(),
    );
    assert_eq!(m, same);
    let other = MappingSettings::new(
        Protections::read() | Protections::exec(),
        CacheType::Uncacheable,
        MappingFlags::user(),
    );
    assert_ne!(m, other);
    assert!(m < other);
}

#[test]
fn flag_bits_are_those_of_the_layout() {
    assert_eq!(EntryFlags::present().bits(), 1 << 0);
    assert_eq!(EntryFlags::write().bits(), 1 << 1);
    assert_eq!(EntryFlags::user().bits(), 1 << 2);
    assert_eq!(EntryFlags::write_through().bits(), 1 << 3);
    assert_eq!(EntryFlags::cache_disable().bits(), 1 << 4);
    assert_eq!(EntryFlags::accessed().bits(), 1 << 5);
    assert_eq!(EntryFlags::dirty().bits(), 1 << 6);
    assert_eq!(EntryFlags::huge_page().bits(), 1 << 7);
    assert_eq!(EntryFlags::global().bits(), 1 << 8);
    assert_eq!(EntryFlags::no_execute().bits(), 1 << 63);
    assert_eq!(EntryFlags::all().bits(), 0x8000_0000_0000_01ff);
    assert_eq!(EntryFlags::empty().bits(), 0);
    assert_eq!(EntryFlags::intermediate().bits(), 0x7);
    assert_eq!(EntryFlags::huge().bits(), 0x80);
    assert_eq!(Protections::read().bits(), 1);
    assert_eq!(Protections::write().bits(), 2);
    assert_eq!(Protections::exec().bits(), 4);
    assert_eq!(Protections::all().bits(), 7);
    assert_eq!(MappingFlags::global().bits(), 1);
    assert_eq!(MappingFlags::user().bits(), 2);
    assert_eq!(MappingFlags::all().bits(), 3);
}

#[test]
fn flag_sets_behave_as_sets() {
    assert_eq!(EntryFlags::from_bits(0x200), None);
    assert_eq!(EntryFlags::from_bits(0x1000), None);
    assert_eq!(EntryFlags::from_bits(0x3).map(|f| f.bits()), Some(0x3));
    assert_eq!(EntryFlags::from_bits_truncate(u64::MAX), EntryFlags::all());
    assert_eq!(EntryFlags::from_bits_truncate(0x1203).bits(), 0x3);
    assert_eq!(Protections::from_bits(8), None);
    assert_eq!(Protections::from_bits_truncate(0xff), Protections::all());
    assert_eq!(MappingFlags::from_bits(4), None);
    assert_eq!(MappingFlags::from_bits_truncate(7), MappingFlags::all());

    let rw = Protections::read() | Protections::write();
    assert!(rw.contains(Protections::read()));
    assert!(rw.contains(rw));
    assert!(rw.contains(Protections::empty()));
    assert!(!rw.contains(Protections::exec()));
    assert!(!Protections::read().contains(rw));
    assert_eq!(rw.union(Protections::exec()), Protections::all());

    let mut f = MappingFlags::empty();
    assert!(f.is_empty());
    f.insert(MappingFlags::user());
    assert_eq!(f, MappingFlags::user());
    f.insert(MappingFlags::global());
    assert_eq!(f, MappingFlags::all());
    f.remove(MappingFlags::user());
    assert_eq!(f, MappingFlags::global());
    assert!(!f.is_empty());

    let mut e = EntryFlags::intermediate();
    e.remove(EntryFlags::write() | EntryFlags::dirty());
    assert_eq!(e, EntryFlags::user() | EntryFlags::present());
    let mut p = Protections::all();
    p.remove(Protections::write());
    assert_eq!(p.bits(), 5);
    p.insert(Protections::write());
    assert_eq!(p, Protections::all());
}

#[test]
fn frame_addresses() {
    assert_eq!(PhysAddr::new(0).map(|a| a.raw()), Some(0));
    assert_eq!(PhysAddr::new(0x1000).map(|a| a.raw()), Some(0x1000));
    assert_eq!(
        PhysAddr::new(0x000f_ffff_ffff_f000).map(|a| a.raw()),
        Some(0x000f_ffff_ffff_f000)
    );
    assert_eq!(PhysAddr::new(1), None);
    assert_eq!(PhysAddr::new(0xfff), None);
    assert_eq!(PhysAddr::new(0x1001), None);
    assert_eq!(PhysAddr::new(0x0010_0000_0000_0000), None);
    assert_eq!(PhysAddr::new(0x8000_0000_0000_0000), None);
    assert_eq!(PhysAddr::new(u64::MAX), None);
}

#[test]
fn settings_are_ordered_by_permissions_then_cache_then_flags() {
    let mut all = Vec::new();
    for perms in all_perms() {
        for cache in all_caches() {
            for scope in all_scopes() {
                all.push(MappingSettings::new(perms, cache, scope));
            }
        }
    }
    for a in all.iter() {
        for b in all.iter() {
            let key_a = (a.perms().bits(), a.cache().rank(), a.flags().bits());
            let key_b = (b.perms().bits(), b.cache().rank(), b.flags().bits());
            assert_eq!(a.partial_cmp(b), Some(key_a.cmp(&key_b)));
            assert_eq!(a == b, a.partial_cmp(b) == Some(Ordering::Equal));
            assert_eq!(a < b, key_a < key_b);
        }
    }
}

#[test]
fn rank_of_a_cache_policy_is_its_place_in_the_order() {
    let caches = all_caches();
    for (i, a) in caches.iter().enumerate() {
        assert_eq!(a.rank() as usize, i);
        for (j, b) in caches.iter().enumerate() {
            assert_eq!(a < b, i < j);
            assert_eq!(a.cmp(b), i.cmp(&j));
        }
    }
}
