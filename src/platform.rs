//! Which backend adapter serves this host.
use vstd::prelude::*;

verus! {

/// The adapter family chosen for the process.
#[derive(Clone, Copy, Debug, PartialEq, Eq, Structural)]
pub enum PlatformKind {
    MacLike,
    WindowsLegacy,
    WindowsModern,
    Unknown,
}

/// The operating system family the process was built for.
#[derive(Clone, Copy, Debug, PartialEq, Eq, Structural)]
pub enum OsFamily {
    Windows,
    MacOs,
    Other,
}

/// A Windows version as the system reports it.
#[derive(Clone, Copy, Debug, PartialEq, Eq, Structural)]
pub struct WindowsVersion {
    pub major: u32,
    pub minor: u32,
}

/// Newer than 6.1: the release line that has the modern printing cmdlets.
pub open spec fn is_modern_version(v: WindowsVersion) -> bool {
    v.major > 6 || (v.major == 6 && v.minor > 1)
}

/// The adapter for a host. A Windows host whose version could not be read is
/// treated as legacy.
pub open spec fn platform_of(os: OsFamily, version: Option<WindowsVersion>) -> PlatformKind {
    match os {
        OsFamily::MacOs => PlatformKind::MacLike,
        OsFamily::Other => PlatformKind::Unknown,
        OsFamily::Windows => match version {
            Some(v) => if is_modern_version(v) {
                PlatformKind::WindowsModern
            } else {
                PlatformKind::WindowsLegacy
            },
            None => PlatformKind::WindowsLegacy,
        },
    }
}

/// Whether a Windows version read from the system is past the 6.1 threshold.
pub fn is_windows_7_or_newer(version: WindowsVersion) -> (r: bool)
    ensures
        r == is_modern_version(version),
{
    version.major > 6 || (version.major == 6 && version.minor > 1)
}

/// Classifies the host. `version` is what the system's version query returned
/// on Windows (`None` where it failed); it is not looked at elsewhere.
pub fn detect_platform(os: OsFamily, version: Option<WindowsVersion>) -> (r: PlatformKind)
    ensures
        r == platform_of(os, version),
{
    match os {
        OsFamily::MacOs => PlatformKind::MacLike,
        OsFamily::Other => PlatformKind::Unknown,
        OsFamily::Windows => match version {
            Some(v) => if is_windows_7_or_newer(v) {
                PlatformKind::WindowsModern
            } else {
                PlatformKind::WindowsLegacy
            },
            None => PlatformKind::WindowsLegacy,
        },
    }
}

/// The probe depends on the host facts alone: probing the same host twice
/// gives the same kind, and a failed version query never yields the modern
/// adapter.
pub proof fn lemma_probe_idempotent(
    os: OsFamily,
    v1: Option<WindowsVersion>,
    v2: Option<WindowsVersion>,
)
    requires
        v1 == v2,
    ensures
        platform_of(os, v1) == platform_of(os, v2),
        platform_of(os, None) != PlatformKind::WindowsModern,
{
}

pub open spec fn label_of(k: PlatformKind) -> Seq<char> {
    match k {
        PlatformKind::MacLike => "mac"@,
        PlatformKind::WindowsLegacy => "windows_7"@,
        PlatformKind::WindowsModern => "windows_7_above"@,
        PlatformKind::Unknown => "unknown"@,
    }
}

/// The short name of a platform kind used in reports.
pub fn platform_label(k: PlatformKind) -> (r: String)
    ensures
        r@ == label_of(k),
{
    match k {
        PlatformKind::MacLike => String::from_str("mac"),
        PlatformKind::WindowsLegacy => String::from_str("windows_7"),
        PlatformKind::WindowsModern => String::from_str("windows_7_above"),
        PlatformKind::Unknown => String::from_str("unknown"),
    }
}

} // verus!
