use indradb_lib::{indradb_version_info, VersionInfo};

#[test]
fn version_info_carries_compiler_and_interface() {
    let info = indradb_version_info("rustc 1.70.0".to_string());
    assert_eq!(info.rustc, "rustc 1.70.0");
    assert_eq!(info.indradb_interface, 0);
}

#[test]
fn version_info_equal_for_same_compiler() {
    let a = indradb_version_info("1.2.3".to_string());
    let b = indradb_version_info("1.2.3".to_string());
    assert_eq!(a, b);
    assert_ne!(a, indradb_version_info("1.2.4".to_string()));
}

#[test]
fn version_info_display_text() {
    let info = indradb_version_info("rustc 1.70.0".to_string());
    assert_eq!(info.to_display_string(), "rustc=rustc 1.70.0, indradb_interface=0");
}

#[test]
fn version_info_display_multi_digit_interfaces() {
    let cases: [(u8, &str); 6] = [(7, "7"), (10, "10"), (42, "42"), (100, "100"), (205, "205"), (255, "255")];
    for (n, text) in cases {
        let info = VersionInfo { rustc: "x".to_string(), indradb_interface: n };
        assert_eq!(info.to_display_string(), format!("rustc=x, indradb_interface={}", text));
    }
}

#[test]
fn version_info_display_empty_compiler() {
    let info = VersionInfo { rustc: String::new(), indradb_interface: 9 };
    assert_eq!(info.to_display_string(), "rustc=, indradb_interface=9");
}
