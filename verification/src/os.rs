//! Windows version and the memory areas each version offers.
use vstd::prelude::*;

verus! {

/// A Windows version as `major.minor.build`.
#[derive(Clone, Copy, Debug, PartialEq, Eq, Structural)]
pub struct OsVersion {
    pub major: u32,
    pub minor: u32,
    pub build: u32,
}

/// The version assumed when the system cannot tell its own: Windows 10 (19041).
pub open spec fn assumed_version() -> OsVersion {
    OsVersion { major: 10, minor: 0, build: 19041 }
}

impl OsVersion {
    /// The version assumed when detection fails: Windows 10 build 19041.
    pub fn assumed() -> (r: OsVersion)
        ensures
            r == assumed_version(),
    {
        OsVersion { major: 10, minor: 0, build: 19041 }
    }

    /// Reading of the legacy `GetVersionExW` answer: it reports 6.2 on every
    /// release from Windows 8 on, so 6.2 is taken as Windows 10; any other
    /// answer is kept.
    pub fn from_legacy_report(major: u32, minor: u32, build: u32) -> (r: OsVersion)
        ensures
            r == (if major == 6 && minor == 2 {
                assumed_version()
            } else {
                OsVersion { major, minor, build }
            }),
    {
        if major == 6 && minor == 2 {
            OsVersion::assumed()
        } else {
            OsVersion { major, minor, build }
        }
    }
}

/// Windows 10 or later.
pub open spec fn spec_is_win10_or_later(v: OsVersion) -> bool {
    v.major >= 10
}

/// Windows 10 version 1803 (build 17134) or later.
pub open spec fn spec_is_1803_or_later(v: OsVersion) -> bool {
    v.major > 10 || (v.major == 10 && v.build >= 17134)
}

/// Windows 8 (6.2) or later.
pub open spec fn spec_is_win8_or_later(v: OsVersion) -> bool {
    v.major > 6 || (v.major == 6 && v.minor >= 2)
}

/// The standby list can be purged on every supported version.
pub fn has_standby_list() -> (r: bool)
    ensures
        r,
{
    true
}

/// The low-priority standby list exists from Windows 10 on.
pub fn has_standby_list_low(ver: &OsVersion) -> (r: bool)
    ensures
        r == spec_is_win10_or_later(*ver),
{
    ver.major >= 10
}

/// The modified page list can be flushed on every supported version.
pub fn has_modified_page_list() -> (r: bool)
    ensures
        r,
{
    true
}

/// The registry cache can be flushed on every supported version.
pub fn has_registry_cache() -> (r: bool)
    ensures
        r,
{
    true
}

/// The system file cache can be trimmed on every supported version.
pub fn has_system_file_cache() -> (r: bool)
    ensures
        r,
{
    true
}

/// Page combining exists from Windows 10 1803 on.
pub fn has_combined_page_list(ver: &OsVersion) -> (r: bool)
    ensures
        r == spec_is_1803_or_later(*ver),
{
    ver.major > 10 || (ver.major == 10 && ver.build >= 17134)
}

/// Working sets can be emptied on every supported version.
pub fn has_working_set() -> (r: bool)
    ensures
        r,
{
    true
}

/// Global hotkeys are available on every supported version.
pub fn has_hotkey_manager() -> (r: bool)
    ensures
        r,
{
    true
}

/// The modified file cache can be flushed from Windows 10 1803 on.
pub fn has_modified_file_cache(ver: &OsVersion) -> (r: bool)
    ensures
        r == spec_is_1803_or_later(*ver),
{
    ver.major > 10 || (ver.major == 10 && ver.build >= 17134)
}

/// Windows 8 (6.2) or later: the volume-cache controls need it.
pub fn is_windows_8_or_later(ver: &OsVersion) -> (r: bool)
    ensures
        r == spec_is_win8_or_later(*ver),
{
    ver.major > 6 || (ver.major == 6 && ver.minor >= 2)
}

} // verus!
