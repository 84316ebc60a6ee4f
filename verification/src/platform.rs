//! Maps what the host says of its operating system and CPU to the tokens that
//! release artifacts are named with.

use vstd::prelude::*;
use crate::failure::Failure;
use crate::text::{same_text, trim_of, trimmed};

verus! {

/// The operating-system part of a platform triple.
#[derive(Clone, Copy, Debug, PartialEq, Eq, Structural)]
pub enum OsFamily {
    AppleDarwin,
    UnknownLinuxGnu,
}

/// The CPU architecture, under its canonical name.
#[derive(Clone, Copy, Debug, PartialEq, Eq, Structural)]
pub enum Arch {
    X86_64,
    Aarch64,
}

/// The host as release artifacts name it.
#[derive(Clone, Copy, Debug, PartialEq, Eq, Structural)]
pub struct PlatformDescriptor {
    pub os: OsFamily,
    pub arch: Arch,
}

/// The operating system that a host name stands for, if it is supported.
pub open spec fn os_family_of(name: Seq<char>) -> Option<OsFamily> {
    if name == "Darwin"@ {
        Some(OsFamily::AppleDarwin)
    } else if name == "Linux"@ {
        Some(OsFamily::UnknownLinuxGnu)
    } else {
        None
    }
}

/// The architecture that a host name stands for, if it is supported.
/// `arm64` is another name for `aarch64`.
pub open spec fn arch_of(name: Seq<char>) -> Option<Arch> {
    if name == "arm64"@ || name == "aarch64"@ {
        Some(Arch::Aarch64)
    } else if name == "x86_64"@ {
        Some(Arch::X86_64)
    } else {
        None
    }
}

/// What `resolve` returns: the operating system is looked at first, so an
/// unsupported one is reported whatever the architecture is.
pub open spec fn resolution(os_name: Seq<char>, arch_name: Seq<char>) -> Result<
    PlatformDescriptor,
    Failure,
> {
    match os_family_of(os_name) {
        None => Err(Failure::UnsupportedPlatform),
        Some(os) => match arch_of(arch_name) {
            None => Err(Failure::UnsupportedArchitecture),
            Some(arch) => Ok(PlatformDescriptor { os, arch }),
        },
    }
}

impl OsFamily {
    /// The token of this operating system in an artifact's name.
    pub open spec fn triple(&self) -> Seq<char> {
        match self {
            OsFamily::AppleDarwin => "apple-darwin"@,
            OsFamily::UnknownLinuxGnu => "unknown-linux-gnu"@,
        }
    }

    /// The token of this operating system in an artifact's name.
    pub fn triple_token(&self) -> (token: &'static str)
        ensures
            token@ == self.triple(),
    {
        match self {
            OsFamily::AppleDarwin => "apple-darwin",
            OsFamily::UnknownLinuxGnu => "unknown-linux-gnu",
        }
    }
}

impl Arch {
    /// The token of this architecture in an artifact's name.
    pub open spec fn name(&self) -> Seq<char> {
        match self {
            Arch::X86_64 => "x86_64"@,
            Arch::Aarch64 => "aarch64"@,
        }
    }

    /// The token of this architecture in an artifact's name.
    pub fn name_token(&self) -> (token: &'static str)
        ensures
            token@ == self.name(),
    {
        match self {
            Arch::X86_64 => "x86_64",
            Arch::Aarch64 => "aarch64",
        }
    }
}

/// Resolves the host's own names for its operating system and architecture.
///
/// Fails with `UnsupportedPlatform` on any operating system but `Darwin` and
/// `Linux`, and otherwise with `UnsupportedArchitecture` on any architecture
/// but `x86_64`, `aarch64` and `arm64`.
pub fn resolve(os_name: &str, arch_name: &str) -> (outcome: Result<PlatformDescriptor, Failure>)
    ensures
        outcome == resolution(os_name@, arch_name@),
        os_name@ != "Darwin"@ && os_name@ != "Linux"@ ==> outcome == Err::<PlatformDescriptor, Failure>(
            Failure::UnsupportedPlatform,
        ),
{
    let os = if same_text(os_name, "Darwin") {
        OsFamily::AppleDarwin
    } else if same_text(os_name, "Linux") {
        OsFamily::UnknownLinuxGnu
    } else {
        return Err(Failure::UnsupportedPlatform);
    };
    let arch = if same_text(arch_name, "arm64") || same_text(arch_name, "aarch64") {
        Arch::Aarch64
    } else if same_text(arch_name, "x86_64") {
        Arch::X86_64
    } else {
        return Err(Failure::UnsupportedArchitecture);
    };
    Ok(PlatformDescriptor { os, arch })
}

/// Resolves the host from what it printed when asked for its operating
/// system and its architecture: white space around either answer, such as
/// the end of the line, does not count.
pub fn resolve_host(os_output: &str, arch_output: &str) -> (outcome: Result<
    PlatformDescriptor,
    Failure,
>)
    ensures
        outcome == resolution(trim_of(os_output@), trim_of(arch_output@)),
{
    resolve(trimmed(os_output), trimmed(arch_output))
}

/// The names of the supported hosts are all different, so each stands for
/// one operating system or architecture only.
pub proof fn host_names_differ()
    ensures
        "Darwin"@ != "Linux"@,
        "x86_64"@ != "arm64"@,
        "x86_64"@ != "aarch64"@,
        "arm64"@ != "aarch64"@,
{
    reveal_strlit("Darwin");
    reveal_strlit("Linux");
    reveal_strlit("x86_64");
    reveal_strlit("arm64");
    reveal_strlit("aarch64");
    assert("Darwin"@.len() == 6 && "Linux"@.len() == 5);
    assert("x86_64"@.len() == 6 && "arm64"@.len() == 5 && "aarch64"@.len() == 7);
}

/// Every supported pair of names resolves, `arm64` to the same
/// architecture as `aarch64`.
pub proof fn supported_pairs_resolve(os_name: Seq<char>, arch_name: Seq<char>)
    requires
        os_name == "Darwin"@ || os_name == "Linux"@,
        arch_name == "x86_64"@ || arch_name == "arm64"@ || arch_name == "aarch64"@,
    ensures
        resolution(os_name, arch_name) == Ok::<PlatformDescriptor, Failure>(
            PlatformDescriptor {
                os: if os_name == "Darwin"@ {
                    OsFamily::AppleDarwin
                } else {
                    OsFamily::UnknownLinuxGnu
                },
                arch: if arch_name == "x86_64"@ {
                    Arch::X86_64
                } else {
                    Arch::Aarch64
                },
            },
        ),
        resolution(os_name, "arm64"@) == resolution(os_name, "aarch64"@),
{
    host_names_differ();
}

/// For no operating system but `Darwin` and `Linux` does the host resolve,
/// whatever its architecture.
pub proof fn unsupported_os_fails(os_name: Seq<char>, arch_name: Seq<char>)
    requires
        os_name != "Darwin"@,
        os_name != "Linux"@,
    ensures
        resolution(os_name, arch_name) == Err::<PlatformDescriptor, Failure>(
            Failure::UnsupportedPlatform,
        ),
{
}

} // verus!
