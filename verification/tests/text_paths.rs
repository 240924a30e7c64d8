use std::path::PathBuf;

use rog_control::paths::join;
use rog_control::text::{copy_bytes, parse_u32, same_bytes};

#[test]
fn numbers_are_read_as_the_standard_library_does() {
    for text in [
        "0", "7", "+7", "0000000012", "4294967295", "4294967296", "99999999999999999999", "", "+", "-1",
        "-0", "++1", " 1", "1 ", "1_0", "0x10", "12a", "\u{fffd}", "3\u{663}",
    ] {
        assert_eq!(parse_u32(text.as_bytes()), text.parse::<u32>().ok(), "{}", text);
    }
    assert_eq!(parse_u32(&[0xff, 0x31]), None);
}

#[test]
fn paths_are_joined_as_the_standard_library_does() {
    for base in ["", "/", "/home/user/.config", "/home/user/.config/", "relative", "a//"] {
        for name in ["autostart", "/absolute", "rog", "a/b"] {
            let expected = PathBuf::from(base).join(name);
            assert_eq!(
                join(base.as_bytes(), name.as_bytes()),
                expected.to_str().unwrap().as_bytes().to_vec()
            );
        }
    }
}

#[test]
fn bytes_are_copied_and_compared() {
    assert_eq!(copy_bytes(b"pci"), b"pci".to_vec());
    assert_eq!(copy_bytes(b""), Vec::new());
    assert!(same_bytes(b"add", b"add"));
    assert!(!same_bytes(b"add", b"ade"));
    assert!(!same_bytes(b"add", b"ad"));
}
