//! The platform a build targets and the mode it was built in.

use vstd::prelude::*;

verus! {

/// The platforms the host application distinguishes.
#[derive(Clone, Copy, Debug, PartialEq, Eq, Structural)]
pub enum Platform {
    Unknown,
    Android,
    Ios,
    Windows,
    Unix,
    MacIntel,
    MacApple,
    Wasm,
}

/// The facts about a build target that decide its platform. Each field is
/// the truth of one configuration predicate of the compiler.
#[derive(Clone, Copy, Debug, PartialEq, Eq, Structural)]
pub struct BuildTarget {
    /// The target family is `windows`.
    pub windows: bool,
    /// The target operating system is `android`.
    pub android: bool,
    /// The target operating system is `ios`.
    pub ios: bool,
    /// The target operating system is `macos`.
    pub macos: bool,
    /// The target architecture is `aarch64`.
    pub aarch64: bool,
    /// The target family is `wasm`.
    pub wasm: bool,
    /// The target family is `unix`.
    pub unix: bool,
}

/// The platform of a target. The predicates are consulted in a fixed order
/// and the first that holds decides, so a target on which several hold
/// (Android is also a Unix) still has exactly one platform.
pub open spec fn platform_of(target: BuildTarget) -> Platform {
    if target.windows {
        Platform::Windows
    } else if target.android {
        Platform::Android
    } else if target.ios {
        Platform::Ios
    } else if target.macos && target.aarch64 {
        Platform::MacApple
    } else if target.macos {
        Platform::MacIntel
    } else if target.wasm {
        Platform::Wasm
    } else if target.unix {
        Platform::Unix
    } else {
        Platform::Unknown
    }
}

/// The platform agrees with the target it was read from: each platform
/// stands for a predicate that holds of the target, a Mac is told apart by
/// its architecture alone, and only a target of which no predicate holds
/// is unknown.
pub proof fn law_platform_agrees_with_target(target: BuildTarget)
    ensures
        platform_of(target) == Platform::Windows <==> target.windows,
        platform_of(target) == Platform::Android ==> target.android,
        platform_of(target) == Platform::Ios ==> target.ios,
        platform_of(target) == Platform::MacApple ==> target.macos && target.aarch64,
        platform_of(target) == Platform::MacIntel ==> target.macos && !target.aarch64,
        platform_of(target) == Platform::Wasm ==> target.wasm,
        platform_of(target) == Platform::Unix ==> target.unix,
        platform_of(target) == Platform::Unknown <==> !(target.windows || target.android
            || target.ios || target.macos || target.wasm || target.unix),
{
}

/// Names the platform of a build target.
pub fn platform(target: BuildTarget) -> (result: Platform)
    ensures
        result == platform_of(target),
{
    if target.windows {
        Platform::Windows
    } else if target.android {
        Platform::Android
    } else if target.ios {
        Platform::Ios
    } else if target.macos && target.aarch64 {
        Platform::MacApple
    } else if target.macos {
        Platform::MacIntel
    } else if target.wasm {
        Platform::Wasm
    } else if target.unix {
        Platform::Unix
    } else {
        Platform::Unknown
    }
}

/// Whether a build is a release build: one made without debug assertions.
pub fn rust_release_mode(debug_assertions: bool) -> (release: bool)
    ensures
        release == !debug_assertions,
{
    !debug_assertions
}

} // verus!
