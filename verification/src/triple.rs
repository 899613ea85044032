//! Target triples of the platforms that the system is built for.

use vstd::prelude::*;
use vstd::string::StringExecFns;
use vstd::string::StringSliceAdditionalSpecFns;
use vstd::utf8::encode_utf8_decode_utf8;

verus! {

/// Whether two strings hold the same characters.
fn same_text(a: &str, b: &str) -> (same: bool)
    ensures
        same == (a@ == b@),
{
    let x = a.as_bytes();
    let y = b.as_bytes();
    proof {
        encode_utf8_decode_utf8(a@);
        encode_utf8_decode_utf8(b@);
    }
    if x.len() != y.len() {
        return false;
    }
    let mut i: usize = 0;
    while i < x.len()
        invariant
            i <= x.len(),
            x.len() == y.len(),
            forall|k: int| 0 <= k < i ==> x@[k] == y@[k],
            x@ != y@ ==> a@ != b@,
            x@ == a.spec_bytes(),
            y@ == b.spec_bytes(),
        decreases x.len() - i,
    {
        if x[i] != y[i] {
            return false;
        }
        i += 1;
    }
    assert(x@ =~= y@);
    true
}

/// The machine that a platform runs on.
#[derive(Clone, Copy, PartialEq, Eq, PartialOrd, Ord, Debug, Structural)]
pub enum Machine {
    Unknown,
    Rpi3,
    Virt,
}

/// The processor architecture of a platform.
#[allow(non_camel_case_types)]
#[derive(Clone, Copy, PartialEq, Eq, PartialOrd, Ord, Debug, Structural)]
pub enum Arch {
    X86_64,
    Aarch64,
}

/// The operating system that hosts what is built for a platform.
#[derive(Clone, Copy, PartialEq, Eq, PartialOrd, Ord, Debug, Structural)]
pub enum Host {
    /// No operating system.
    NoHost,
    /// This system itself.
    Twizzler,
    /// The system on which the build runs.
    Build,
}

impl Machine {
    /// The machine that the text `name` names, if it names one that can be
    /// read: `unknown` and `rpi3` are the names that can.
    pub open spec fn named(name: Seq<char>) -> Result<Machine, ()> {
        if name == "unknown"@ {
            Ok(Machine::Unknown)
        } else if name == "rpi3"@ {
            Ok(Machine::Rpi3)
        } else {
            Err(())
        }
    }

    /// The name of the machine, as it stands in a triple.
    pub open spec fn name(self) -> Seq<char> {
        match self {
            Machine::Unknown => "unknown"@,
            Machine::Rpi3 => "rpi3"@,
            Machine::Virt => "virt"@,
        }
    }

    /// The name of the machine, as it stands in a triple.
    pub fn to_string(&self) -> (s: String)
        ensures
            s@ == self.name(),
    {
        match self {
            Machine::Unknown => String::from_str("unknown"),
            Machine::Rpi3 => String::from_str("rpi3"),
            Machine::Virt => String::from_str("virt"),
        }
    }
}

/// The name of a machine is read back as that machine, but for `virt`, which
/// is written and not read.
pub proof fn lemma_machine_name_is_read_back(machine: Machine)
    ensures
        machine != Machine::Virt ==> Machine::named(machine.name()) == Ok::<Machine, ()>(machine),
        Machine::named(Machine::Virt.name()) == Err::<Machine, ()>(()),
{
    reveal_strlit("unknown");
    reveal_strlit("rpi3");
    reveal_strlit("virt");
    assert("rpi3"@.len() != "unknown"@.len());
    assert("virt"@.len() != "unknown"@.len());
    assert("virt"@[0] != "rpi3"@[0]);
}

impl<'a> TryFrom<&'a str> for Machine {
    type Error = ();

    /// The machine that `s` names, or an error where it names none that can
    /// be read.
    fn try_from(s: &'a str) -> (r: Result<Self, ()>)
        ensures
            r == Self::named(s@),
    {
        if same_text(s, "unknown") {
            Ok(Machine::Unknown)
        } else if same_text(s, "rpi3") {
            Ok(Machine::Rpi3)
        } else {
            Err(())
        }
    }
}

impl<'a> vstd::std_specs::convert::TryFromSpecImpl<&'a str> for Machine {
    open spec fn obeys_try_from_spec() -> bool {
        true
    }

    open spec fn try_from_spec(s: &'a str) -> Result<Self, ()> {
        Machine::named(s@)
    }
}

impl Arch {
    /// The architecture that the text `name` names, if it names one.
    pub open spec fn named(name: Seq<char>) -> Result<Arch, ()> {
        if name == "aarch64"@ {
            Ok(Arch::Aarch64)
        } else if name == "x86_64"@ {
            Ok(Arch::X86_64)
        } else {
            Err(())
        }
    }

    /// The name of the architecture, as it stands in a triple.
    pub open spec fn name(self) -> Seq<char> {
        match self {
            Arch::X86_64 => "x86_64"@,
            Arch::Aarch64 => "aarch64"@,
        }
    }

    /// The name of the architecture, as it stands in a triple.
    pub fn to_string(&self) -> (s: String)
        ensures
            s@ == self.name(),
    {
        match self {
            Arch::X86_64 => String::from_str("x86_64"),
            Arch::Aarch64 => String::from_str("aarch64"),
        }
    }
}

/// The name of an architecture is read back as that architecture.
pub proof fn lemma_arch_name_is_read_back(arch: Arch)
    ensures
        Arch::named(arch.name()) == Ok::<Arch, ()>(arch),
{
    reveal_strlit("aarch64");
    reveal_strlit("x86_64");
    assert("x86_64"@.len() != "aarch64"@.len());
}

impl<'a> TryFrom<&'a str> for Arch {
    type Error = ();

    /// The architecture that `s` names, or an error where it names none.
    fn try_from(s: &'a str) -> (r: Result<Self, ()>)
        ensures
            r == Self::named(s@),
    {
        if same_text(s, "aarch64") {
            Ok(Arch::Aarch64)
        } else if same_text(s, "x86_64") {
            Ok(Arch::X86_64)
        } else {
            Err(())
        }
    }
}

impl<'a> vstd::std_specs::convert::TryFromSpecImpl<&'a str> for Arch {
    open spec fn obeys_try_from_spec() -> bool {
        true
    }

    open spec fn try_from_spec(s: &'a str) -> Result<Self, ()> {
        Arch::named(s@)
    }
}

impl Host {
    /// The name of the host, as it stands in a triple, where `build_host` is
    /// the name of the system on which the build runs.
    pub open spec fn name(self, build_host: Seq<char>) -> Seq<char> {
        match self {
            Host::NoHost => "none"@,
            Host::Twizzler => "twizzler"@,
            Host::Build => build_host,
        }
    }

    /// The name of the host, as it stands in a triple. The caller hands in
    /// the name of the system on which the build runs.
    pub fn to_string(&self, build_host: &str) -> (s: String)
        ensures
            s@ == self.name(build_host@),
    {
        match self {
            Host::NoHost => String::from_str("none"),
            Host::Twizzler => String::from_str("twizzler"),
            Host::Build => String::from_str(build_host),
        }
    }
}

/// What a [`Triple`] holds.
pub struct TripleView {
    pub arch: Arch,
    pub machine: Machine,
    pub host: Host,
}

impl TripleView {
    /// The text of the triple: architecture, machine and host, with a hyphen
    /// between them.
    pub open spec fn text(self, build_host: Seq<char>) -> Seq<char> {
        self.arch.name() + "-"@ + self.machine.name() + "-"@ + self.host.name(build_host)
    }
}

/// A platform: an architecture, a machine, and a host.
#[derive(Clone, Copy, PartialEq, Eq, PartialOrd, Ord, Debug, Structural)]
pub struct Triple {
    machine: Machine,
    arch: Arch,
    host: Host,
}

impl View for Triple {
    type V = TripleView;

    closed spec fn view(&self) -> TripleView {
        TripleView { arch: self.arch, machine: self.machine, host: self.host }
    }
}

impl Triple {
    /// Two triples with the same view are the same triple.
    pub proof fn lemma_view_injective(a: Triple, b: Triple)
        requires
            a@ == b@,
        ensures
            a == b,
    {
    }

    /// The triple of `arch`, `machine` and `host`.
    pub fn new(arch: Arch, machine: Machine, host: Host) -> (triple: Self)
        ensures
            triple@ == (TripleView { arch, machine, host }),
    {
        Self { machine, arch, host }
    }

    /// The architecture of the platform.
    pub fn arch(&self) -> (arch: Arch)
        ensures
            arch == self@.arch,
    {
        self.arch
    }

    /// The machine of the platform.
    pub fn machine(&self) -> (machine: Machine)
        ensures
            machine == self@.machine,
    {
        self.machine
    }

    /// The host of the platform.
    pub fn host(&self) -> (host: Host)
        ensures
            host == self@.host,
    {
        self.host
    }

    /// The text of the triple. The caller hands in the name of the system on
    /// which the build runs.
    pub fn to_string(&self, build_host: &str) -> (s: String)
        ensures
            s@ == self@.text(build_host@),
    {
        let mut s = self.arch.to_string();
        s.append("-");
        let machine = self.machine.to_string();
        s.append(machine.as_str());
        s.append("-");
        let host = self.host.to_string(build_host);
        s.append(host.as_str());
        s
    }
}

/// The platforms that the system can be built for: at present the one of an
/// unknown machine with the `x86_64` architecture, hosted by this system.
pub fn all_possible_platforms() -> (triples: Vec<Triple>)
    ensures
        triples@.len() == 1,
        triples@[0]@ == (TripleView {
            arch: Arch::X86_64,
            machine: Machine::Unknown,
            host: Host::Twizzler,
        }),
{
    let mut triples = Vec::new();
    triples.push(Triple { machine: Machine::Unknown, arch: Arch::X86_64, host: Host::Twizzler });
    triples
}

} // verus!
