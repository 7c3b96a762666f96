use aes_bench::probe::{
    check_if_aes_is_enabled, check_if_cpu_supports_aes, BuildConfig, BuildFlags, HwExtension,
    TargetArch,
};

fn flags(arch: TargetArch, force_soft: bool, armv8: bool, target_feature_aes: bool) -> BuildFlags {
    BuildFlags { arch, force_soft, armv8, target_feature_aes }
}

#[test]
fn architecture_without_extension_reports_false() {
    assert!(!check_if_cpu_supports_aes(TargetArch::Other, true));
    assert!(!check_if_cpu_supports_aes(TargetArch::Other, false));
}

#[test]
fn architecture_with_extension_reports_the_query() {
    assert!(check_if_cpu_supports_aes(TargetArch::X86_64, true));
    assert!(!check_if_cpu_supports_aes(TargetArch::X86_64, false));
    assert!(check_if_cpu_supports_aes(TargetArch::Aarch64, true));
    assert!(!check_if_cpu_supports_aes(TargetArch::Aarch64, false));
}

#[test]
fn feature_labels_per_architecture() {
    assert_eq!(TargetArch::X86_64.feature_label(), Some("AES-NI"));
    assert_eq!(TargetArch::Aarch64.feature_label(), Some("AES"));
    assert_eq!(TargetArch::Other.feature_label(), None);
    assert!(TargetArch::X86_64.has_aes_extension());
    assert!(!TargetArch::Other.has_aes_extension());
}

#[test]
fn forced_software_disables_hardware() {
    let f = flags(TargetArch::X86_64, true, true, true);
    assert!(!check_if_aes_is_enabled(&f));
    assert_eq!(f.resolve(), BuildConfig::ForcedSoftware);
    assert_eq!(f.resolve().label(), "Software AES (aes_force_soft enabled)");
}

#[test]
fn armv8_request_selects_armv8() {
    let f = flags(TargetArch::Aarch64, false, true, false);
    assert!(check_if_aes_is_enabled(&f));
    assert_eq!(f.resolve(), BuildConfig::TargetedHardware(HwExtension::Armv8));
    assert_eq!(f.resolve().label(), "ARMv8 HW AES (aes_armv8)");
}

#[test]
fn x86_target_feature_selects_aes_ni() {
    let f = flags(TargetArch::X86_64, false, false, true);
    assert!(check_if_aes_is_enabled(&f));
    assert_eq!(f.resolve(), BuildConfig::TargetedHardware(HwExtension::AesNi));
    assert_eq!(f.resolve().label(), "x86_64 AES-NI HW AES (target_feature=aes)");
}

#[test]
fn no_flags_is_default_software() {
    let f = flags(TargetArch::X86_64, false, false, false);
    assert!(!check_if_aes_is_enabled(&f));
    assert_eq!(f.resolve(), BuildConfig::Default);
    assert_eq!(f.resolve().label(), "Software AES (no hardware acceleration)");
}

#[test]
fn aarch64_target_feature_is_enabled_but_labelled_default() {
    let f = flags(TargetArch::Aarch64, false, false, true);
    assert!(check_if_aes_is_enabled(&f));
    assert_eq!(f.resolve(), BuildConfig::Default);
}
