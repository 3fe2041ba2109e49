//! Values shared by the decoders: the platform a file was written for.

use vstd::prelude::*;

verus! {

/// The platform whose byte order a file uses.
#[derive(Clone, Copy, PartialEq, Eq, Structural, Debug)]
pub enum GamePlatform {
    Win32,
    PS3,
    PS4,
    PS5,
    Xbox,
}

#[verifier::external_type_specification]
#[verifier::external_body]
pub struct ExPlatform(physis::Platform);

/// Relies on physis::Platform having the same five platforms.
#[verifier::external_body]
pub(crate) fn to_physis_platform(p: GamePlatform) -> physis::Platform {
    match p {
        GamePlatform::Win32 => physis::Platform::Win32,
        GamePlatform::PS3 => physis::Platform::PS3,
        GamePlatform::PS4 => physis::Platform::PS4,
        GamePlatform::PS5 => physis::Platform::PS5,
        GamePlatform::Xbox => physis::Platform::Xbox,
    }
}

} // verus!
