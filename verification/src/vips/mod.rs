//! Everything that concerns the external `vips` executable: locating it,
//! building its command lines, and reading what it prints.

pub mod command;
pub mod convert;
pub mod discovery;
pub mod preview;

pub use discovery::{DiscoveryError, VipsInstall, VipsVersion};

use vstd::prelude::*;

verus! {

/// Where users can get libvips for Windows: download
/// `vips-dev-w64-web-<version>.zip`, unzip it, and put the
/// `vips-<version>\bin` directory on `PATH`.
pub const DOWNLOAD_URL: &'static str = "https://github.com/libvips/libvips/releases";

/// Oldest release accepted: 8.13, the floor for dependable AVIF `effort`
/// handling in `heifsave`.
pub open spec fn min_version_spec() -> VipsVersion {
    VipsVersion { major: 8, minor: 13, patch: 0 }
}

/// Oldest release accepted.
pub fn min_version() -> (v: VipsVersion)
    ensures
        v == min_version_spec(),
{
    VipsVersion { major: 8, minor: 13, patch: 0 }
}

} // verus!
