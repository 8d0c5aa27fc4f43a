//! The operating system and processor architecture the launcher runs on,
//! and the names the different naming conventions give them.

use vstd::prelude::*;

verus! {

/// A supported operating system.
#[derive(Clone, Copy, Debug, PartialEq, Eq, Structural)]
pub enum Os {
    Windows,
    MacOs,
    Linux,
}

/// A supported processor architecture.
#[derive(Clone, Copy, Debug, PartialEq, Eq, Structural)]
pub enum Arch {
    X86,
    X64,
}

/// The platform facts every component consults, fixed once at start-up.
#[derive(Clone, Copy, Debug, PartialEq, Eq, Structural)]
pub struct Platform {
    pub os: Os,
    pub arch: Arch,
}

/// The launcher's own name of an operating system.
pub open spec fn os_name(os: Os) -> Seq<char> {
    match os {
        Os::Windows => "windows"@,
        Os::MacOs => "macos"@,
        Os::Linux => "linux"@,
    }
}

/// The launcher's own name of an architecture.
pub open spec fn arch_name(arch: Arch) -> Seq<char> {
    match arch {
        Arch::X86 => "x86"@,
        Arch::X64 => "x64"@,
    }
}

/// The name of the platform's operating system.
pub fn get_os(platform: Platform) -> (name: &'static str)
    ensures
        name@ == os_name(platform.os),
{
    match platform.os {
        Os::Windows => "windows",
        Os::MacOs => "macos",
        Os::Linux => "linux",
    }
}

/// The name of the platform's architecture.
pub fn get_arch(platform: Platform) -> (name: &'static str)
    ensures
        name@ == arch_name(platform.arch),
{
    match platform.arch {
        Arch::X86 => "x86",
        Arch::X64 => "x64",
    }
}

/// The runtime vendor's name of an operating system: as the launcher's
/// own, except for macOS.
pub open spec fn os_java_name(os: Os) -> Seq<char> {
    match os {
        Os::MacOs => "mac"@,
        _ => os_name(os),
    }
}

/// The runtime vendor's name of an architecture: as the launcher's own,
/// except for 32-bit x86.
pub open spec fn arch_java_name(arch: Arch) -> Seq<char> {
    match arch {
        Arch::X86 => "x32"@,
        _ => arch_name(arch),
    }
}

/// The game's name of an operating system: as the launcher's own, except
/// for macOS.
pub open spec fn os_minecraft_name(os: Os) -> Seq<char> {
    match os {
        Os::MacOs => "osx"@,
        _ => os_name(os),
    }
}

/// The character that separates the entries of a class path.
pub open spec fn path_separator(os: Os) -> Seq<char> {
    match os {
        Os::Windows => ";"@,
        _ => ":"@,
    }
}

/// The operating system's name in the runtime vendor's convention.
pub fn get_os_java(platform: Platform) -> (name: &'static str)
    ensures
        name@ == os_java_name(platform.os),
{
    match platform.os {
        Os::MacOs => "mac",
        _ => get_os(platform),
    }
}

/// The architecture's name in the runtime vendor's convention.
pub fn get_arch_java(platform: Platform) -> (name: &'static str)
    ensures
        name@ == arch_java_name(platform.arch),
{
    match platform.arch {
        Arch::X86 => "x32",
        _ => get_arch(platform),
    }
}

/// The operating system's name in the game's convention.
pub fn get_os_minecraft(platform: Platform) -> (name: &'static str)
    ensures
        name@ == os_minecraft_name(platform.os),
{
    match platform.os {
        Os::MacOs => "osx",
        _ => get_os(platform),
    }
}

/// The class-path separator of the platform.
pub fn get_path_separator(platform: Platform) -> (sep: &'static str)
    ensures
        sep@ == path_separator(platform.os),
{
    match platform.os {
        Os::Windows => ";",
        _ => ":",
    }
}

} // verus!
