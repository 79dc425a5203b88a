//! The hexadecimal rendering used in diagnostics.

use boot_core::hex_string;

#[test]
fn hex_small_values() {
    assert_eq!(hex_string(0).as_str(), "0");
    assert_eq!(hex_string(1).as_str(), "1");
    assert_eq!(hex_string(10).as_str(), "a");
    assert_eq!(hex_string(15).as_str(), "f");
    assert_eq!(hex_string(16).as_str(), "10");
}

#[test]
fn hex_known_values() {
    assert_eq!(hex_string(255).as_str(), "ff");
    assert_eq!(hex_string(0x100000).as_str(), "100000");
    assert_eq!(hex_string(0x100001).as_str(), "100001");
    assert_eq!(hex_string(0xdeadbeef).as_str(), "deadbeef");
}

#[test]
fn hex_matches_standard_formatting() {
    let samples: [usize; 8] = [0, 7, 16, 4096, 65535, 0x100000, 123456789, usize::MAX];
    for n in samples {
        assert_eq!(hex_string(n), format!("{:x}", n));
    }
}
