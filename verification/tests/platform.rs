use proinvestix_desktop::platform::platform_label;

#[test]
fn platform_label_joins_with_a_hyphen() {
    assert_eq!(platform_label("linux", "x86_64"), "linux-x86_64");
    assert_eq!(platform_label("macos", "aarch64"), "macos-aarch64");
    assert_eq!(platform_label("windows", "x86"), "windows-x86");
}

#[test]
fn platform_label_keeps_empty_parts() {
    assert_eq!(platform_label("", ""), "-");
    assert_eq!(platform_label("linux", ""), "linux-");
    assert_eq!(platform_label("", "arm"), "-arm");
}
