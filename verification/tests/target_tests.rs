use tor_bundle::Target;

const ALL_TARGETS: [Target; 10] = [
    Target::AndroidAarch64,
    Target::AndroidArmv7,
    Target::AndroidX86,
    Target::AndroidX8664,
    Target::GnuLinuxI686,
    Target::GnuLinuxX8664,
    Target::MacOSAarch64,
    Target::MacOSX8664,
    Target::WindowsI686,
    Target::WindowsX8664,
];

#[test]
fn render_is_stable_and_expected() {
    assert_eq!(Target::AndroidAarch64.render(), "android-aarch64");
    assert_eq!(Target::AndroidArmv7.render(), "android-armv7");
    assert_eq!(Target::AndroidX86.render(), "android-x86");
    assert_eq!(Target::AndroidX8664.render(), "android-x86_64");
    assert_eq!(Target::GnuLinuxI686.render(), "linux-i686");
    assert_eq!(Target::GnuLinuxX8664.render(), "linux-x86_64");
    assert_eq!(Target::MacOSAarch64.render(), "macos-aarch64");
    assert_eq!(Target::MacOSX8664.render(), "macos-x86_64");
    assert_eq!(Target::WindowsI686.render(), "windows-i686");
    assert_eq!(Target::WindowsX8664.render(), "windows-x86_64");
}

#[test]
fn render_is_lowercase_hyphenated_and_unique() {
    for (i, a) in ALL_TARGETS.iter().enumerate() {
        let ra = a.render();
        assert!(!ra.is_empty());
        assert!(ra.contains('-'));
        assert!(ra.chars().all(|c| c.is_ascii_lowercase()
            || c.is_ascii_digit()
            || c == '-'
            || c == '_'));
        for (j, b) in ALL_TARGETS.iter().enumerate() {
            if i != j {
                assert_ne!(ra, b.render());
            }
        }
    }
}

#[test]
fn from_host_covers_the_supported_pairs() {
    assert!(matches!(Target::from_host("android", "aarch64"), Some(Target::AndroidAarch64)));
    assert!(matches!(Target::from_host("android", "arm"), Some(Target::AndroidArmv7)));
    assert!(matches!(Target::from_host("android", "x86"), Some(Target::AndroidX86)));
    assert!(matches!(Target::from_host("android", "x86_64"), Some(Target::AndroidX8664)));
    assert!(matches!(Target::from_host("linux", "x86"), Some(Target::GnuLinuxI686)));
    assert!(matches!(Target::from_host("linux", "x86_64"), Some(Target::GnuLinuxX8664)));
    assert!(matches!(Target::from_host("macos", "aarch64"), Some(Target::MacOSAarch64)));
    assert!(matches!(Target::from_host("macos", "x86_64"), Some(Target::MacOSX8664)));
    assert!(matches!(Target::from_host("windows", "x86"), Some(Target::WindowsI686)));
    assert!(matches!(Target::from_host("windows", "x86_64"), Some(Target::WindowsX8664)));
    assert!(Target::from_host("freebsd", "x86_64").is_none());
    assert!(Target::from_host("linux", "riscv64").is_none());
}

#[test]
fn forceful_kill_is_a_windows_no_op() {
    for t in ALL_TARGETS.iter() {
        let expected = !matches!(t, Target::WindowsI686 | Target::WindowsX8664);
        assert_eq!(t.supports_forceful_kill(), expected);
    }
}
