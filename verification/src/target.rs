//! Classification of a compilation-target string into the Arm instruction
//! set, architecture revision and architecture profile it names.
//!
//! A target string is classified by its prefix: `armv7r-` and `armebv7r`
//! name the real-time revision, `thumbv7m-` a microcontroller revision,
//! and so on. The instruction set and profile are functions of the
//! architecture revision.

use vstd::prelude::*;

verus! {

use vstd::string::StrSliceExecFns;
use vstd::string::StringExecFns;

/// `p` is a prefix of `s`.
pub open spec fn spec_has_prefix(s: Seq<char>, p: Seq<char>) -> bool {
    p.len() <= s.len() && s.subrange(0, p.len() as int) == p
}

/// Whether `p` is a prefix of `s`, by characters.
pub fn str_has_prefix(s: &str, p: &str) -> (r: bool)
    ensures
        r == spec_has_prefix(s@, p@),
{
    let n = p.unicode_len();
    let sn = s.unicode_len();
    if n > sn {
        return false;
    }
    let mut i: usize = 0;
    while i < n
        invariant
            i <= n,
            n == p@.len(),
            n <= s@.len(),
            forall|j: int| 0 <= j < i ==> s@[j] == p@[j],
        decreases n - i,
    {
        if s.get_char(i) != p.get_char(i) {
            proof {
                assert(s@.subrange(0, n as int)[i as int] != p@[i as int]);
            }
            return false;
        }
        i = i + 1;
    }
    proof {
        assert(s@.subrange(0, n as int) =~= p@);
    }
    true
}

/// The Arm instruction set a processor executes.
#[derive(Clone, Copy, Debug, PartialEq, Eq, Structural)]
pub enum Isa {
    /// A64: the 64-bit instruction set.
    A64,
    /// A32: the 32-bit Arm instruction set.
    A32,
    /// T32: the Thumb instruction set.
    T32,
}

/// The Arm architecture revision a target names.
#[derive(Clone, Copy, Debug, PartialEq, Eq, Structural)]
pub enum Arch {
    /// Armv4T.
    Armv4T,
    /// Armv5TE.
    Armv5TE,
    /// Armv6-M.
    Armv6M,
    /// Armv7-M.
    Armv7M,
    /// Armv7E-M.
    Armv7EM,
    /// Armv8-M Baseline.
    Armv8MBase,
    /// Armv8-M with Mainline extensions.
    Armv8MMain,
    /// Armv7-R.
    Armv7R,
    /// Armv8-R.
    Armv8R,
    /// Armv7-A.
    Armv7A,
    /// Armv8-A.
    Armv8A,
}

/// The Arm architecture profile.
#[derive(Clone, Copy, Debug, PartialEq, Eq, Structural)]
pub enum Profile {
    /// Microcontrollers.
    M,
    /// Real-time.
    R,
    /// Applications.
    A,
    /// Legacy.
    Legacy,
}

/// The architecture revision a target string names, by its prefix.
pub open spec fn spec_arch_of(t: Seq<char>) -> Option<Arch> {
    if spec_has_prefix(t, "armv4t-"@) {
        Some(Arch::Armv4T)
    } else if spec_has_prefix(t, "armv5te-"@) {
        Some(Arch::Armv5TE)
    } else if spec_has_prefix(t, "thumbv6m-"@) {
        Some(Arch::Armv6M)
    } else if spec_has_prefix(t, "thumbv7m-"@) {
        Some(Arch::Armv7M)
    } else if spec_has_prefix(t, "thumbv7em-"@) {
        Some(Arch::Armv7EM)
    } else if spec_has_prefix(t, "thumbv8m.base-"@) {
        Some(Arch::Armv8MBase)
    } else if spec_has_prefix(t, "thumbv8m.main-"@) {
        Some(Arch::Armv8MMain)
    } else if spec_has_prefix(t, "armv7r-"@) || spec_has_prefix(t, "armebv7r"@) {
        Some(Arch::Armv7R)
    } else if spec_has_prefix(t, "armv8r-"@) {
        Some(Arch::Armv8R)
    } else if spec_has_prefix(t, "armv7a-"@) {
        Some(Arch::Armv7A)
    } else if spec_has_prefix(t, "aarch64-"@) || spec_has_prefix(t, "aarch64be-"@) {
        Some(Arch::Armv8A)
    } else {
        None
    }
}

/// The profile of an architecture revision.
pub open spec fn spec_profile_of_arch(a: Arch) -> Profile {
    match a {
        Arch::Armv6M | Arch::Armv7M | Arch::Armv7EM | Arch::Armv8MBase | Arch::Armv8MMain
            => Profile::M,
        Arch::Armv4T | Arch::Armv5TE => Profile::Legacy,
        Arch::Armv7R | Arch::Armv8R => Profile::R,
        Arch::Armv7A | Arch::Armv8A => Profile::A,
    }
}

/// The instruction set an architecture revision's targets use.
pub open spec fn spec_isa_of_arch(a: Arch) -> Isa {
    match a {
        Arch::Armv4T | Arch::Armv5TE => Isa::A32,
        Arch::Armv6M => Isa::T32,
        Arch::Armv7M => Isa::T32,
        Arch::Armv7EM => Isa::T32,
        Arch::Armv8MBase => Isa::T32,
        Arch::Armv8MMain => Isa::T32,
        Arch::Armv7R => Isa::A32,
        Arch::Armv8R => Isa::A32,
        Arch::Armv7A => Isa::A32,
        Arch::Armv8A => Isa::A64,
    }
}

/// The instruction set a target string names.
pub open spec fn spec_isa_of(t: Seq<char>) -> Option<Isa> {
    match spec_arch_of(t) {
        Some(a) => Some(spec_isa_of_arch(a)),
        None => None,
    }
}

/// The profile a target string names.
pub open spec fn spec_profile_of(t: Seq<char>) -> Option<Profile> {
    match spec_arch_of(t) {
        Some(a) => Some(spec_profile_of_arch(a)),
        None => None,
    }
}

impl Arch {
    /// Decode a target string by its prefix; `None` for a target this
    /// classification does not know.
    pub fn get(target: &str) -> (r: Option<Arch>)
        ensures
            r == spec_arch_of(target@),
    {
        if str_has_prefix(target, "armv4t-") {
            Some(Arch::Armv4T)
        } else if str_has_prefix(target, "armv5te-") {
            Some(Arch::Armv5TE)
        } else if str_has_prefix(target, "thumbv6m-") {
            Some(Arch::Armv6M)
        } else if str_has_prefix(target, "thumbv7m-") {
            Some(Arch::Armv7M)
        } else if str_has_prefix(target, "thumbv7em-") {
            Some(Arch::Armv7EM)
        } else if str_has_prefix(target, "thumbv8m.base-") {
            Some(Arch::Armv8MBase)
        } else if str_has_prefix(target, "thumbv8m.main-") {
            Some(Arch::Armv8MMain)
        } else if str_has_prefix(target, "armv7r-") || str_has_prefix(target, "armebv7r") {
            Some(Arch::Armv7R)
        } else if str_has_prefix(target, "armv8r-") {
            Some(Arch::Armv8R)
        } else if str_has_prefix(target, "armv7a-") {
            Some(Arch::Armv7A)
        } else if str_has_prefix(target, "aarch64-") || str_has_prefix(target, "aarch64be-") {
            Some(Arch::Armv8A)
        } else {
            None
        }
    }

    /// The profile of this architecture revision.
    pub fn profile(&self) -> (r: Profile)
        ensures
            r == spec_profile_of_arch(*self),
    {
        match self {
            Arch::Armv6M | Arch::Armv7M | Arch::Armv7EM | Arch::Armv8MBase | Arch::Armv8MMain
                => Profile::M,
            Arch::Armv4T | Arch::Armv5TE => Profile::Legacy,
            Arch::Armv7R | Arch::Armv8R => Profile::R,
            Arch::Armv7A | Arch::Armv8A => Profile::A,
        }
    }

    /// The name this revision goes by in configuration values.
    pub open spec fn spec_name(self) -> Seq<char> {
        match self {
            Arch::Armv4T => "v4t"@,
            Arch::Armv5TE => "v5te"@,
            Arch::Armv6M => "v6-m"@,
            Arch::Armv7M => "v7-m"@,
            Arch::Armv7EM => "v7e-m"@,
            Arch::Armv7R => "v7-r"@,
            Arch::Armv8R => "v8-r"@,
            Arch::Armv8MBase => "v8-m.base"@,
            Arch::Armv8MMain => "v8-m.main"@,
            Arch::Armv7A => "v7-a"@,
            Arch::Armv8A => "v8-a"@,
        }
    }

    /// The name this revision goes by in configuration values.
    pub fn name(&self) -> (r: String)
        ensures
            r@ == self.spec_name(),
    {
        match self {
            Arch::Armv4T => String::from_str("v4t"),
            Arch::Armv5TE => String::from_str("v5te"),
            Arch::Armv6M => String::from_str("v6-m"),
            Arch::Armv7M => String::from_str("v7-m"),
            Arch::Armv7EM => String::from_str("v7e-m"),
            Arch::Armv7R => String::from_str("v7-r"),
            Arch::Armv8R => String::from_str("v8-r"),
            Arch::Armv8MBase => String::from_str("v8-m.base"),
            Arch::Armv8MMain => String::from_str("v8-m.main"),
            Arch::Armv7A => String::from_str("v7-a"),
            Arch::Armv8A => String::from_str("v8-a"),
        }
    }

    /// The comma-separated list of quoted architecture names, for a
    /// configuration check.
    pub fn values() -> (r: String)
        ensures
            r@ == (
            "\"v4t\", \"v5te\", \"v6-m\", \"v7-m\", \"v7e-m\", \"v8-m.base\", \"v8-m.main\", \"v7-r\", \"v8-r\", \"v7-a\", \"v8-a\""@),
    {
        String::from_str(
            "\"v4t\", \"v5te\", \"v6-m\", \"v7-m\", \"v7e-m\", \"v8-m.base\", \"v8-m.main\", \"v7-r\", \"v8-r\", \"v7-a\", \"v8-a\"",
        )
    }
}

impl Isa {
    /// Decode a target string: the instruction set of the architecture
    /// revision its prefix names.
    pub fn get(target: &str) -> (r: Option<Isa>)
        ensures
            r == spec_isa_of(target@),
    {
        let arch = Arch::get(target);
        match arch {
            Some(a) => Some(
                match a {
                    Arch::Armv4T | Arch::Armv5TE => Isa::A32,
                    Arch::Armv6M => Isa::T32,
                    Arch::Armv7M => Isa::T32,
                    Arch::Armv7EM => Isa::T32,
                    Arch::Armv8MBase => Isa::T32,
                    Arch::Armv8MMain => Isa::T32,
                    Arch::Armv7R => Isa::A32,
                    Arch::Armv8R => Isa::A32,
                    Arch::Armv7A => Isa::A32,
                    Arch::Armv8A => Isa::A64,
                },
            ),
            None => None,
        }
    }

    /// The name this instruction set goes by in configuration values.
    pub open spec fn spec_name(self) -> Seq<char> {
        match self {
            Isa::A64 => "a64"@,
            Isa::A32 => "a32"@,
            Isa::T32 => "t32"@,
        }
    }

    /// The name this instruction set goes by in configuration values.
    pub fn name(&self) -> (r: String)
        ensures
            r@ == self.spec_name(),
    {
        match self {
            Isa::A64 => String::from_str("a64"),
            Isa::A32 => String::from_str("a32"),
            Isa::T32 => String::from_str("t32"),
        }
    }

    /// The comma-separated list of quoted instruction-set names, for a
    /// configuration check.
    pub fn values() -> (r: String)
        ensures
            r@ == ("\"a64\", \"a32\", \"t32\""@),
    {
        String::from_str("\"a64\", \"a32\", \"t32\"")
    }
}

impl Profile {
    /// Decode a target string: the profile of the architecture revision
    /// its prefix names.
    pub fn get(target: &str) -> (r: Option<Profile>)
        ensures
            r == spec_profile_of(target@),
    {
        let arch = Arch::get(target);
        match arch {
            Some(a) => Some(a.profile()),
            None => None,
        }
    }

    /// The name this profile goes by in configuration values.
    pub open spec fn spec_name(self) -> Seq<char> {
        match self {
            Profile::M => "m"@,
            Profile::R => "r"@,
            Profile::A => "a"@,
            Profile::Legacy => "legacy"@,
        }
    }

    /// The name this profile goes by in configuration values.
    pub fn name(&self) -> (r: String)
        ensures
            r@ == self.spec_name(),
    {
        match self {
            Profile::M => String::from_str("m"),
            Profile::R => String::from_str("r"),
            Profile::A => String::from_str("a"),
            Profile::Legacy => String::from_str("legacy"),
        }
    }

    /// The comma-separated list of quoted profile names, for a
    /// configuration check.
    pub fn values() -> (r: String)
        ensures
            r@ == ("\"a\", \"r\", \"m\", \"legacy\""@),
    {
        String::from_str("\"a\", \"r\", \"m\", \"legacy\"")
    }
}

/// What a target string reveals about its processor: the instruction set,
/// architecture revision and profile, each absent where the target is not
/// recognised.
#[derive(Clone, Copy, Debug, PartialEq, Eq, Structural)]
pub struct TargetInfo {
    isa: Option<Isa>,
    arch: Option<Arch>,
    profile: Option<Profile>,
}

impl TargetInfo {
    /// Classify a target string: every field is the decode of the same
    /// string.
    pub fn from_target(target: &str) -> (r: TargetInfo)
        ensures
            r.spec_isa() == spec_isa_of(target@),
            r.spec_arch() == spec_arch_of(target@),
            r.spec_profile() == spec_profile_of(target@),
    {
        TargetInfo {
            isa: Isa::get(target),
            arch: Arch::get(target),
            profile: Profile::get(target),
        }
    }

    /// The instruction set field.
    pub closed spec fn spec_isa(self) -> Option<Isa> {
        self.isa
    }

    /// The architecture field.
    pub closed spec fn spec_arch(self) -> Option<Arch> {
        self.arch
    }

    /// The profile field.
    pub closed spec fn spec_profile(self) -> Option<Profile> {
        self.profile
    }

    /// The instruction set of the target, if recognised.
    pub fn isa(&self) -> (r: Option<Isa>)
        ensures
            r == self.spec_isa(),
    {
        self.isa
    }

    /// The architecture revision of the target, if recognised.
    pub fn arch(&self) -> (r: Option<Arch>)
        ensures
            r == self.spec_arch(),
    {
        self.arch
    }

    /// The profile of the target, if recognised.
    pub fn profile(&self) -> (r: Option<Profile>)
        ensures
            r == self.spec_profile(),
    {
        self.profile
    }
}

impl Default for TargetInfo {
    /// The empty classification: nothing recognised.
    fn default() -> (r: TargetInfo)
        ensures
            r.spec_isa() is None,
            r.spec_arch() is None,
            r.spec_profile() is None,
    {
        TargetInfo { isa: None, arch: None, profile: None }
    }
}

/// A target's instruction set, architecture and profile always agree: each
/// is derived from the same architecture decode.
pub proof fn lemma_target_fields_agree(t: Seq<char>)
    ensures
        spec_arch_of(t) is Some ==> spec_isa_of(t) == Some(
            spec_isa_of_arch(spec_arch_of(t)->0),
        ) && spec_profile_of(t) == Some(spec_profile_of_arch(spec_arch_of(t)->0)),
        spec_arch_of(t) is None ==> spec_isa_of(t) is None && spec_profile_of(t) is None,
{
}

} // verus!
