//! Application metadata.
use vstd::prelude::*;

verus! {

/// Application name.
pub const APP_NAME: &'static str = "Tommy Memory Cleaner";
/// Application identifier.
pub const APP_ID: &'static str = "TommyMemoryCleaner";
/// Publisher.
pub const COMPANY_NAME: &'static str = "Tommy437";
/// Version, `major.minor.patch`.
pub const VERSION: &'static str = "4.0.0";
/// Version with four components.
pub const VERSION_FULL: &'static str = "4.0.0.0";
/// One-line description.
pub const FILE_DESCRIPTION: &'static str = "Advanced Memory Optimization Tool for Windows";
/// Copyright notice.
pub const COPYRIGHT: &'static str = "© 2025 Tommy437. All rights reserved.";

/// The version, `major.minor.patch`.
pub fn get_version() -> (r: &'static str)
    ensures
        r@ == "4.0.0"@,
{
    "4.0.0"
}

/// The version with four components.
pub fn get_version_full() -> (r: &'static str)
    ensures
        r@ == "4.0.0.0"@,
{
    "4.0.0.0"
}

/// The application name.
pub fn get_app_name() -> (r: &'static str)
    ensures
        r@ == "Tommy Memory Cleaner"@,
{
    "Tommy Memory Cleaner"
}

/// The publisher.
pub fn get_company_name() -> (r: &'static str)
    ensures
        r@ == "Tommy437"@,
{
    "Tommy437"
}

/// The application identifier.
pub fn get_app_id() -> (r: &'static str)
    ensures
        r@ == "TommyMemoryCleaner"@,
{
    "TommyMemoryCleaner"
}

/// The copyright notice.
pub fn get_copyright() -> (r: &'static str)
    ensures
        r@ == "© 2025 Tommy437. All rights reserved."@,
{
    "© 2025 Tommy437. All rights reserved."
}

} // verus!
