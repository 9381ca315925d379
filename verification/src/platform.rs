//! The platform the launcher runs on: operating-system family, processor
//! architecture and system version.

use vstd::prelude::*;
use crate::text::str_eq;

verus! {

/// The operating-system families the launcher supports.
#[derive(Clone, Copy, Debug, PartialEq, Eq, Structural)]
pub enum OsFamily {
    Windows,
    Linux,
    Macos,
}

/// The name of a family as version descriptors write it.
pub open spec fn os_family_name(family: OsFamily) -> Seq<char> {
    match family {
        OsFamily::Windows => "windows"@,
        OsFamily::Linux => "linux"@,
        OsFamily::Macos => "macos"@,
    }
}

/// The family that a build target's operating-system name belongs to.
pub open spec fn os_family_of(target_os: Seq<char>) -> Option<OsFamily> {
    if target_os == "windows"@ {
        Some(OsFamily::Windows)
    } else if target_os == "linux"@ {
        Some(OsFamily::Linux)
    } else if target_os == "macos"@ {
        Some(OsFamily::Macos)
    } else {
        None
    }
}

/// The launcher's name for a build target's architecture.
pub open spec fn arch_of(target_arch: Seq<char>) -> Seq<char> {
    if target_arch == "x86_64"@ {
        "x64"@
    } else if target_arch == "x86"@ {
        "x86"@
    } else if target_arch == "mips"@ {
        "mips"@
    } else if target_arch == "powerpc"@ {
        "powerpc"@
    } else if target_arch == "powerpc64"@ {
        "powerpc64"@
    } else if target_arch == "arm"@ {
        "arm"@
    } else if target_arch == "aarch64"@ {
        "aarch64"@
    } else {
        "unknown"@
    }
}

/// The separator between the entries of a class path.
pub open spec fn delimiter_of(family: OsFamily) -> Seq<char> {
    if family == OsFamily::Windows {
        ";"@
    } else {
        ":"@
    }
}

/// The separator between the components of a file path.
pub open spec fn path_separator_of(family: OsFamily) -> char {
    if family == OsFamily::Windows {
        '\\'
    } else {
        '/'
    }
}

impl OsFamily {
    /// The lower-case name of the family.
    pub fn to_string(&self) -> (r: String)
        ensures
            r@ == os_family_name(*self),
    {
        match self {
            OsFamily::Windows => "windows".to_owned(),
            OsFamily::Linux => "linux".to_owned(),
            OsFamily::Macos => "macos".to_owned(),
        }
    }

    /// The family of a build target's operating system, or nothing where
    /// the launcher does not support it.
    pub fn from_target_os(target_os: &str) -> (r: Option<OsFamily>)
        ensures
            r == os_family_of(target_os@),
    {
        if str_eq(target_os, "windows") {
            Some(OsFamily::Windows)
        } else if str_eq(target_os, "linux") {
            Some(OsFamily::Linux)
        } else if str_eq(target_os, "macos") {
            Some(OsFamily::Macos)
        } else {
            None
        }
    }

    /// The class-path delimiter: `;` on Windows, `:` elsewhere.
    pub fn delimiter(&self) -> (r: &'static str)
        ensures
            r@ == delimiter_of(*self),
    {
        match self {
            OsFamily::Windows => ";",
            _ => ":",
        }
    }

    /// The file-path separator: `\` on Windows, `/` elsewhere.
    pub fn path_separator(&self) -> (r: char)
        ensures
            r == path_separator_of(*self),
    {
        match self {
            OsFamily::Windows => '\\',
            _ => '/',
        }
    }
}

/// The launcher's name for the architecture of a build target.
pub fn arch_name(target_arch: &str) -> (r: String)
    ensures
        r@ == arch_of(target_arch@),
{
    if str_eq(target_arch, "x86_64") {
        "x64".to_owned()
    } else if str_eq(target_arch, "x86") {
        "x86".to_owned()
    } else if str_eq(target_arch, "mips") {
        "mips".to_owned()
    } else if str_eq(target_arch, "powerpc") {
        "powerpc".to_owned()
    } else if str_eq(target_arch, "powerpc64") {
        "powerpc64".to_owned()
    } else if str_eq(target_arch, "arm") {
        "arm".to_owned()
    } else if str_eq(target_arch, "aarch64") {
        "aarch64".to_owned()
    } else {
        "unknown".to_owned()
    }
}

/// What is known of the platform. It is made once and never changed.
#[derive(Clone, Debug)]
pub struct PlatformInfo {
    /// The processor architecture, such as `x64` or `aarch64`.
    pub arch: String,
    /// The architecture as the system itself reports it, if it does.
    pub arch_from_uname: Option<String>,
    /// The name of the operating system or distribution.
    pub os_type: String,
    /// The family of the operating system.
    pub os_family: OsFamily,
    /// The version of the operating system.
    pub os_version: String,
    /// The edition of the operating system, if it has one.
    pub edition: Option<String>,
}

impl PlatformInfo {
    /// Describes the platform from the build target's names and what the
    /// system reports of itself. There is no description where the
    /// operating system is not one of the three supported families.
    pub fn new(
        target_os: &str,
        target_arch: &str,
        os_type: String,
        os_version: String,
        arch_from_uname: Option<String>,
        edition: Option<String>,
    ) -> (r: Option<PlatformInfo>)
        ensures
            r is Some <==> os_family_of(target_os@) is Some,
            r matches Some(p) ==> {
                &&& Some(p.os_family) == os_family_of(target_os@)
                &&& p.arch@ == arch_of(target_arch@)
                &&& p.os_type == os_type
                &&& p.os_version == os_version
                &&& p.arch_from_uname == arch_from_uname
                &&& p.edition == edition
            },
    {
        match OsFamily::from_target_os(target_os) {
            Some(os_family) => Some(
                PlatformInfo {
                    arch: arch_name(target_arch),
                    arch_from_uname,
                    os_type,
                    os_family,
                    os_version,
                    edition,
                },
            ),
            None => None,
        }
    }
}

} // verus!
