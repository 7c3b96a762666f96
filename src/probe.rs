//! Capability probing: whether the CPU has a hardware AES extension, whether the
//! build targets one, and the backend label derived from the build configuration.

use vstd::prelude::*;

verus! {

/// The instruction-set architecture the program runs on.
#[derive(Clone, Copy, Debug, PartialEq, Eq, Structural)]
pub enum TargetArch {
    X86_64,
    Aarch64,
    Other,
}

impl TargetArch {
    /// Whether the architecture defines a hardware AES extension that can be probed.
    pub open spec fn defines_aes_extension(self) -> bool {
        self is X86_64 || self is Aarch64
    }

    /// Whether the architecture defines a hardware AES extension that can be probed.
    pub fn has_aes_extension(&self) -> (r: bool)
        ensures
            r == self.defines_aes_extension(),
    {
        match self {
            TargetArch::X86_64 => true,
            TargetArch::Aarch64 => true,
            TargetArch::Other => false,
        }
    }

    /// The name under which the architecture's AES extension is reported.
    pub open spec fn feature_label_spec(self) -> Option<Seq<char>> {
        match self {
            TargetArch::X86_64 => Some("AES-NI"@),
            TargetArch::Aarch64 => Some("AES"@),
            TargetArch::Other => None,
        }
    }

    /// The name under which the architecture's AES extension is reported, or
    /// `None` where it defines none.
    pub fn feature_label(&self) -> (r: Option<&'static str>)
        ensures
            r is Some <==> self.defines_aes_extension(),
            r is Some ==> Some(r->0@) == self.feature_label_spec(),
    {
        match self {
            TargetArch::X86_64 => Some("AES-NI"),
            TargetArch::Aarch64 => Some("AES"),
            TargetArch::Other => None,
        }
    }
}

/// Whether the running CPU supports AES instructions, given the architecture and
/// what the host's feature query answered for its AES extension. An architecture
/// without such an extension reports `false`, whatever the query said.
pub fn check_if_cpu_supports_aes(arch: TargetArch, feature_detected: bool) -> (r: bool)
    ensures
        r == (arch.defines_aes_extension() && feature_detected),
        !arch.defines_aes_extension() ==> !r,
{
    arch.has_aes_extension() && feature_detected
}

/// The compile-time settings that select the cipher's code path.
#[derive(Clone, Copy, Debug, PartialEq, Eq, Structural)]
pub struct BuildFlags {
    /// The architecture compiled for.
    pub arch: TargetArch,
    /// The software path is forced, whatever the target supports.
    pub force_soft: bool,
    /// The ARMv8 cryptography extension is requested.
    pub armv8: bool,
    /// The compiler's target features include AES.
    pub target_feature_aes: bool,
}

/// Whether the build compiled the cipher to use a hardware AES extension.
pub open spec fn aes_enabled_spec(flags: BuildFlags) -> bool {
    !flags.force_soft && (flags.armv8 || flags.target_feature_aes)
}

/// Whether the build compiled the cipher to use a hardware AES extension: never
/// when the software path is forced, otherwise when the ARMv8 extension is
/// requested or the target features include AES. The CPU is not consulted.
pub fn check_if_aes_is_enabled(flags: &BuildFlags) -> (r: bool)
    ensures
        r == aes_enabled_spec(*flags),
{
    if flags.force_soft {
        false
    } else {
        flags.armv8 || flags.target_feature_aes
    }
}

/// A hardware AES extension that a build can target.
#[derive(Clone, Copy, Debug, PartialEq, Eq, Structural)]
pub enum HwExtension {
    Armv8,
    AesNi,
}

/// The backend the build configuration selects.
#[derive(Clone, Copy, Debug, PartialEq, Eq, Structural)]
pub enum BuildConfig {
    ForcedSoftware,
    TargetedHardware(HwExtension),
    Default,
}

/// The backend selected by `flags`: forcing software wins, then an ARMv8
/// request, then AES target features on x86_64; anything else is the default.
pub open spec fn resolve_spec(flags: BuildFlags) -> BuildConfig {
    if flags.force_soft {
        BuildConfig::ForcedSoftware
    } else if flags.armv8 {
        BuildConfig::TargetedHardware(HwExtension::Armv8)
    } else if flags.target_feature_aes && flags.arch == TargetArch::X86_64 {
        BuildConfig::TargetedHardware(HwExtension::AesNi)
    } else {
        BuildConfig::Default
    }
}

impl BuildFlags {
    /// The backend these flags select.
    pub fn resolve(&self) -> (r: BuildConfig)
        ensures
            r == resolve_spec(*self),
    {
        if self.force_soft {
            BuildConfig::ForcedSoftware
        } else if self.armv8 {
            BuildConfig::TargetedHardware(HwExtension::Armv8)
        } else if self.target_feature_aes && self.arch == TargetArch::X86_64 {
            BuildConfig::TargetedHardware(HwExtension::AesNi)
        } else {
            BuildConfig::Default
        }
    }
}

/// The human-readable label of a backend.
pub open spec fn label_spec(config: BuildConfig) -> Seq<char> {
    match config {
        BuildConfig::ForcedSoftware => "Software AES (aes_force_soft enabled)"@,
        BuildConfig::TargetedHardware(HwExtension::Armv8) => "ARMv8 HW AES (aes_armv8)"@,
        BuildConfig::TargetedHardware(HwExtension::AesNi) => "x86_64 AES-NI HW AES (target_feature=aes)"@,
        BuildConfig::Default => "Software AES (no hardware acceleration)"@,
    }
}

impl BuildConfig {
    /// The human-readable label of this backend.
    pub fn label(&self) -> (r: &'static str)
        ensures
            r@ == label_spec(*self),
    {
        match self {
            BuildConfig::ForcedSoftware => "Software AES (aes_force_soft enabled)",
            BuildConfig::TargetedHardware(HwExtension::Armv8) => "ARMv8 HW AES (aes_armv8)",
            BuildConfig::TargetedHardware(HwExtension::AesNi) => "x86_64 AES-NI HW AES (target_feature=aes)",
            BuildConfig::Default => "Software AES (no hardware acceleration)",
        }
    }
}

} // verus!
