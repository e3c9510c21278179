use scanner_launcher::Platform;

#[test]
fn windows_is_recognised_by_name() {
    assert_eq!(Platform::from_os_name("windows"), Platform::Windows);
}

#[test]
fn other_systems_are_not_windows() {
    for name in ["linux", "macos", "android", "ios", "freebsd"] {
        assert_eq!(Platform::from_os_name(name), Platform::Other);
    }
}

#[test]
fn name_comparison_is_exact() {
    assert_eq!(Platform::from_os_name("Windows"), Platform::Other);
    assert_eq!(Platform::from_os_name("WINDOWS"), Platform::Other);
    assert_eq!(Platform::from_os_name(" windows"), Platform::Other);
    assert_eq!(Platform::from_os_name("windows "), Platform::Other);
    assert_eq!(Platform::from_os_name("window"), Platform::Other);
    assert_eq!(Platform::from_os_name("windows10"), Platform::Other);
    assert_eq!(Platform::from_os_name(""), Platform::Other);
}

#[test]
fn only_windows_can_launch() {
    assert!(Platform::Windows.can_launch());
    assert!(!Platform::Other.can_launch());
}

#[test]
fn platform_from_name_agrees_with_can_launch() {
    assert!(Platform::from_os_name("windows").can_launch());
    assert!(!Platform::from_os_name("linux").can_launch());
}
