//! The platform tags that name a precompiled archive's target.

use vstd::prelude::*;
use vstd::string::*;
use crate::text::join3;

verus! {

/// The operating system that the host was built for.
#[derive(Clone, Copy, Debug, PartialEq, Eq, Structural)]
pub enum TargetOs {
    Linux,
    MacOs,
    Other,
}

/// The processor that the host was built for.
#[derive(Clone, Copy, Debug, PartialEq, Eq, Structural)]
pub enum TargetArch {
    X86_64,
    Aarch64,
    Other,
}

/// What the host was built for.
#[derive(Clone, Copy, Debug, PartialEq, Eq)]
pub struct Target {
    /// Whether the C library is musl.
    pub musl: bool,
    pub os: TargetOs,
    pub arch: TargetArch,
}

/// Whether archives name this operating system.
pub open spec fn os_known(t: Target) -> bool {
    t.musl || t.os != TargetOs::Other
}

/// Whether archives name this processor.
pub open spec fn arch_known(t: Target) -> bool {
    t.arch != TargetArch::Other
}

/// The operating system's tag. The C library decides first.
pub open spec fn os_tag(t: Target) -> Seq<char> {
    if t.musl {
        "unknown-linux-musl"@
    } else if t.os == TargetOs::Linux {
        "unknown-linux-gnu"@
    } else {
        "apple-darwin"@
    }
}

/// The processor's tag.
pub open spec fn arch_tag(t: Target) -> Seq<char> {
    if t.arch == TargetArch::X86_64 {
        "x86_64_v3"@
    } else {
        "aarch64"@
    }
}

/// The tag pair as it stands in an archive's name: processor, `-`, system.
pub open spec fn platform_tag(t: Target) -> Seq<char> {
    arch_tag(t) + "-"@ + os_tag(t)
}

/// The tag of the target's operating system.
pub fn os(t: &Target) -> (tag: &'static str)
    requires
        os_known(*t),
    ensures
        tag@ == os_tag(*t),
{
    if t.musl {
        "unknown-linux-musl"
    } else {
        match t.os {
            TargetOs::Linux => "unknown-linux-gnu",
            _ => "apple-darwin",
        }
    }
}

/// The tag of the target's processor.
pub fn arch(t: &Target) -> (tag: &'static str)
    requires
        arch_known(*t),
    ensures
        tag@ == arch_tag(*t),
{
    match t.arch {
        TargetArch::X86_64 => "x86_64_v3",
        _ => "aarch64",
    }
}

impl Target {
    /// Whether precompiled archives exist for this target. The functions
    /// that name its tags ask for it.
    pub fn supported(&self) -> (r: bool)
        ensures
            r == (os_known(*self) && arch_known(*self)),
    {
        let os_ok = self.musl || match self.os {
            TargetOs::Other => false,
            _ => true,
        };
        let arch_ok = match self.arch {
            TargetArch::Other => false,
            _ => true,
        };
        os_ok && arch_ok
    }

    /// The tag pair that archives for this target carry in their names.
    pub fn tag(&self) -> (tag: String)
        requires
            os_known(*self),
            arch_known(*self),
        ensures
            tag@ == platform_tag(*self),
    {
        join3(arch(self), "-", os(self))
    }
}

} // verus!
