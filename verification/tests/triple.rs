use twizzler_core::triple::all_possible_platforms;
use twizzler_core::triple::Arch;
use twizzler_core::triple::Host;
use twizzler_core::triple::Machine;
use twizzler_core::triple::Triple;

#[test]
fn names_of_the_parts() {
    assert_eq!(Machine::Unknown.to_string(), "unknown");
    assert_eq!(Machine::Rpi3.to_string(), "rpi3");
    assert_eq!(Machine::Virt.to_string(), "virt");
    assert_eq!(Arch::X86_64.to_string(), "x86_64");
    assert_eq!(Arch::Aarch64.to_string(), "aarch64");
    assert_eq!(Host::NoHost.to_string("linux"), "none");
    assert_eq!(Host::Twizzler.to_string("linux"), "twizzler");
    assert_eq!(Host::Build.to_string("linux"), "linux");
    assert_eq!(Host::Build.to_string(""), "");
}

#[test]
fn architectures_are_read_by_name() {
    assert_eq!(Arch::try_from("aarch64"), Ok(Arch::Aarch64));
    assert_eq!(Arch::try_from("x86_64"), Ok(Arch::X86_64));
    assert_eq!(Arch::try_from("x86-64"), Err(()));
    assert_eq!(Arch::try_from("AARCH64"), Err(()));
    assert_eq!(Arch::try_from("aarch6"), Err(()));
    assert_eq!(Arch::try_from("aarch644"), Err(()));
    assert_eq!(Arch::try_from(""), Err(()));
    for a in [Arch::X86_64, Arch::Aarch64] {
        assert_eq!(Arch::try_from(a.to_string().as_str()), Ok(a));
    }
}

#[test]
fn machines_are_read_by_name() {
    assert_eq!(Machine::try_from("unknown"), Ok(Machine::Unknown));
    assert_eq!(Machine::try_from("rpi3"), Ok(Machine::Rpi3));
    assert_eq!(Machine::try_from("virt"), Err(()));
    assert_eq!(Machine::try_from("rpi4"), Err(()));
    assert_eq!(Machine::try_from("rp\u{e9}3"), Err(()));
    assert_eq!(Machine::try_from(""), Err(()));
}

#[test]
fn text_of_a_triple() {
    let t = Triple::new(Arch::X86_64, Machine::Unknown, Host::Twizzler);
    assert_eq!(t.to_string("linux"), "x86_64-unknown-twizzler");
    let t = Triple::new(Arch::Aarch64, Machine::Rpi3, Host::NoHost);
    assert_eq!(t.to_string("linux"), "aarch64-rpi3-none");
    let t = Triple::new(Arch::Aarch64, Machine::Virt, Host::Build);
    assert_eq!(t.to_string("linux"), "aarch64-virt-linux");
    assert_eq!(t.to_string("macos"), "aarch64-virt-macos");
}

#[test]
fn parts_of_a_triple() {
    let t = Triple::new(Arch::Aarch64, Machine::Virt, Host::Build);
    assert_eq!(t.arch(), Arch::Aarch64);
    assert_eq!(t.machine(), Machine::Virt);
    assert_eq!(t.host(), Host::Build);
}

#[test]
fn the_platforms() {
    let all = all_possible_platforms();
    assert_eq!(all, vec![Triple::new(Arch::X86_64, Machine::Unknown, Host::Twizzler)]);
    assert_eq!(all[0].to_string("linux"), "x86_64-unknown-twizzler");
}

#[test]
fn triples_compare_by_machine_then_architecture_then_host() {
    let a = Triple::new(Arch::Aarch64, Machine::Unknown, Host::Build);
    let b = Triple::new(Arch::X86_64, Machine::Rpi3, Host::NoHost);
    assert!(a < b);
    assert_eq!(a, Triple::new(Arch::Aarch64, Machine::Unknown, Host::Build));
    assert_ne!(a, b);
}
