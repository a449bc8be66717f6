//! The description of the application that the Vulkan instance is created for.
use vstd::prelude::*;

verus! {

/// A version number in three parts.
#[derive(Clone, Copy, Debug, PartialEq, Eq)]
pub struct Version {
    pub major: u32,
    pub minor: u32,
    pub patch: u32,
}

/// The packed Vulkan form of a version: major in the top 10 bits, then 10 bits of minor,
/// then 12 bits of patch.
pub open spec fn packed_version(major: u32, minor: u32, patch: u32) -> u32 {
    (major << 22u32) | (minor << 12u32) | patch
}

/// Calls `ash::vk::make_version`, which returns `(major << 22) | (minor << 12) | patch`.
#[verifier::external_body]
fn vk_make_version(major: u32, minor: u32, patch: u32) -> (r: u32)
    ensures
        r == packed_version(major, minor, patch),
{
    ash::vk::make_version(major, minor, patch)
}

/// Calls `ash::vk::version_major`, which returns `version >> 22`.
#[verifier::external_body]
fn vk_version_major(version: u32) -> (r: u32)
    ensures
        r == version >> 22u32,
{
    ash::vk::version_major(version)
}

/// Calls `ash::vk::version_minor`, which returns `(version >> 12) & 0x3ff`.
#[verifier::external_body]
fn vk_version_minor(version: u32) -> (r: u32)
    ensures
        r == (version >> 12u32) & 0x3ffu32,
{
    ash::vk::version_minor(version)
}

/// Calls `ash::vk::version_patch`, which returns `version & 0xfff`.
#[verifier::external_body]
fn vk_version_patch(version: u32) -> (r: u32)
    ensures
        r == version & 0xfffu32,
{
    ash::vk::version_patch(version)
}

impl Version {
    pub fn new(major: u32, minor: u32, patch: u32) -> (r: Version)
        ensures
            r.major == major,
            r.minor == minor,
            r.patch == patch,
    {
        Version { major, minor, patch }
    }

    /// The version packed as Vulkan expects it.
    pub fn encode(&self) -> (r: u32)
        ensures
            r == packed_version(self.major, self.minor, self.patch),
    {
        vk_make_version(self.major, self.minor, self.patch)
    }

    /// The version that Vulkan packed into `version`.
    pub fn decode(version: u32) -> (r: Version)
        ensures
            r.major == version >> 22u32,
            r.minor == (version >> 12u32) & 0x3ffu32,
            r.patch == version & 0xfffu32,
    {
        Version {
            major: vk_version_major(version),
            minor: vk_version_minor(version),
            patch: vk_version_patch(version),
        }
    }
}

/// Decoding an encoded version gives it back, when each part fits its bits (major below
/// 1024, minor below 1024, patch below 4096).
pub proof fn law_decode_undoes_encode(major: u32, minor: u32, patch: u32)
    requires
        major < 1024,
        minor < 1024,
        patch < 4096,
    ensures
        packed_version(major, minor, patch) >> 22u32 == major,
        (packed_version(major, minor, patch) >> 12u32) & 0x3ffu32 == minor,
        packed_version(major, minor, patch) & 0xfffu32 == patch,
{
    assert(major < 1024 && minor < 1024 && patch < 4096 ==> ((major << 22u32) | (minor << 12u32)
        | patch) >> 22u32 == major && (((major << 22u32) | (minor << 12u32) | patch) >> 12u32)
        & 0x3ffu32 == minor && ((major << 22u32) | (minor << 12u32) | patch) & 0xfffu32 == patch)
        by (bit_vector);
}

/// A Vulkan application instance.
pub struct Application {
    pub app_name: &'static str,
    pub engine_name: &'static str,
    pub app_version: Version,
    pub engine_version: Version,
    pub api_version: Version,
    pub window_width: u32,
    pub window_height: u32,
}

impl Application {
    /// Creates a new vulkan application instance.
    pub fn new(
        app_name: &'static str,
        engine_name: &'static str,
        app_version: Version,
        engine_version: Version,
        api_version: Version,
        window_width: u32,
        window_height: u32,
    ) -> (r: Application)
        ensures
            r.app_name == app_name,
            r.engine_name == engine_name,
            r.app_version == app_version,
            r.engine_version == engine_version,
            r.api_version == api_version,
            r.window_width == window_width,
            r.window_height == window_height,
    {
        Application {
            app_version,
            engine_version,
            api_version,
            window_width,
            window_height,
            app_name,
            engine_name,
        }
    }
}

} // verus!
