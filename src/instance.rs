use vstd::prelude::*;

use crate::names::ascii;

verus! {

/// A Vulkan version number packed from its variant, major, minor and patch parts.
pub open spec fn api_version_of(variant: u32, major: u32, minor: u32, patch: u32) -> u32 {
    (variant << 29u32) | (major << 22u32) | (minor << 12u32) | patch
}

/// Relies on ash's `vk::make_api_version`: the parts packed into one version number.
#[verifier::external_body]
fn make_api_version(variant: u32, major: u32, minor: u32, patch: u32) -> (r: u32)
    ensures
        r == api_version_of(variant, major, minor, patch),
{
    ash::vk::make_api_version(variant, major, minor, patch)
}

/// What a context tells the driver of the application besides its name.
#[derive(Clone, Debug)]
pub struct AppInfo {
    pub application_version: u32,
    /// Without terminating nul.
    pub engine_name: Vec<u8>,
    pub engine_version: u32,
    pub api_version: u32,
}

/// The application description every context is created with: version 0.1.0 of the
/// application and of the engine "No Engine", on Vulkan 1.0.
pub fn app_info() -> (r: AppInfo)
    ensures
        r.application_version == api_version_of(0, 0, 1, 0),
        r.engine_name@ == ascii("No Engine"@),
        r.engine_version == api_version_of(0, 0, 1, 0),
        r.api_version == api_version_of(0, 1, 0, 0),
{
    let engine_name: Vec<u8> = vec![78u8, 111, 32, 69, 110, 103, 105, 110, 101];
    proof {
        reveal_strlit("No Engine");
        assert(engine_name@ =~= ascii("No Engine"@));
    }
    AppInfo {
        application_version: make_api_version(0, 0, 1, 0),
        engine_name,
        engine_version: make_api_version(0, 0, 1, 0),
        api_version: make_api_version(0, 1, 0, 0),
    }
}

} // verus!
