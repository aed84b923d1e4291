//! Build and version metadata, computed once at process start and passed
//! explicitly to whatever reporting interface needs it: no implicit global.

use vstd::prelude::*;

verus! {

/// A snapshot of the firmware build description.
pub struct ApplicationMetadata {
    /// The version-control description of the firmware, or "Unspecified".
    pub firmware_version: &'static str,
    /// The compiler version the firmware was built with.
    pub rust_version: &'static str,
    /// The build profile.
    pub profile: &'static str,
    /// Whether the working tree had local changes at build time.
    pub git_dirty: bool,
    /// The feature set the firmware was built with.
    pub features: &'static str,
}

impl ApplicationMetadata {
    /// Assemble the metadata from the build description. A missing
    /// version-control description is reported as "Unspecified", and an
    /// unknown dirty state as clean.
    pub fn new(
        git_version: Option<&'static str>,
        rust_version: &'static str,
        profile: &'static str,
        git_dirty: Option<bool>,
        features: &'static str,
    ) -> (m: ApplicationMetadata)
        ensures
            m.rust_version == rust_version,
            m.profile == profile,
            m.features == features,
            git_version matches Some(v) ==> m.firmware_version == v,
            git_version is None ==> m.firmware_version@ == "Unspecified"@,
            git_dirty matches Some(d) ==> m.git_dirty == d,
            git_dirty is None ==> m.git_dirty == false,
    {
        ApplicationMetadata {
            firmware_version: match git_version {
                Some(v) => v,
                None => "Unspecified",
            },
            rust_version,
            profile,
            git_dirty: match git_dirty {
                Some(d) => d,
                None => false,
            },
            features,
        }
    }
}

} // verus!
