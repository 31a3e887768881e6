use jlink_updater::text::{chars_of, same_text};

#[test]
fn characters_in_order() {
    assert_eq!(chars_of("V7.94a"), ['V', '7', '.', '9', '4', 'a']);
    assert_eq!(chars_of(""), []);
    assert_eq!(chars_of("\u{e4}\u{20ac}x"), ['\u{e4}', '\u{20ac}', 'x']);
}

#[test]
fn same_text_is_equality() {
    assert!(same_text("auto", "auto"));
    assert!(same_text("", ""));
    assert!(!same_text("auto", "Auto"));
    assert!(!same_text("auto", "aut"));
    assert!(!same_text("auto", "autos"));
    assert!(!same_text("auto", "outa"));
}

#[test]
fn agrees_with_the_standard_library() {
    let texts = ["", "a", "A", "linux", "Linux", "LINUX", "macos", "MacOSX", "windows", "aarch64", "AARCH64", "amd64", "Amd64", "\u{e4}", "\u{c4}"];
    for a in texts {
        for b in texts {
            assert_eq!(same_text(a, b), a == b, "{:?} {:?}", a, b);
        }
    }
}
