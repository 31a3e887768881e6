use jlink_updater::codec::{is_encodable, version_number_to_string, version_string_to_number};
use jlink_updater::error::Error;

fn encoded(code: i32) -> String {
    version_number_to_string(code).expect("a version code")
}

#[test]
fn decodes_plain_version() {
    assert_eq!(version_string_to_number("V7.94"), Ok(79400));
}

#[test]
fn decodes_patch_letter() {
    assert_eq!(version_string_to_number("V7.94a"), Ok(79401));
    assert_eq!(version_string_to_number("V7.94b"), Ok(79402));
    assert_eq!(version_string_to_number("V7.94z"), Ok(79426));
}

#[test]
fn leading_v_may_be_small() {
    assert_eq!(version_string_to_number("v7.94"), Ok(79400));
    assert_eq!(version_string_to_number("v7.94a"), Ok(79401));
}

#[test]
fn decodes_smallest_and_largest() {
    assert_eq!(version_string_to_number("V0.00"), Ok(0));
    assert_eq!(version_string_to_number("V9.99z"), Ok(99926));
}

#[test]
fn digits_are_read_as_numbers() {
    assert_eq!(version_string_to_number("V7.9"), Ok(70900));
    assert_eq!(version_string_to_number("V07.94"), Ok(79400));
    assert_eq!(version_string_to_number("V7.094a"), Ok(79401));
    assert_eq!(version_string_to_number("V0000000000000000000000007.000000000000000000000094"), Ok(79400));
}

#[test]
fn codes_grow_with_versions() {
    let a = version_string_to_number("V7.94").unwrap();
    let b = version_string_to_number("V7.94a").unwrap();
    let c = version_string_to_number("V7.95").unwrap();
    assert!(a < b);
    assert!(b < c);
    let d = version_string_to_number("V8.00").unwrap();
    assert!(version_string_to_number("V7.99z").unwrap() < d);
}

#[test]
fn rejects_text_that_is_no_version() {
    assert_eq!(version_string_to_number("banana"), Err(Error::MalformedVersion));
}

#[test]
fn rejects_missing_leading_v() {
    assert_eq!(version_string_to_number("7.94"), Err(Error::MalformedVersion));
}

#[test]
fn rejects_suffix_of_two_letters() {
    assert_eq!(version_string_to_number("V7.94aa"), Err(Error::MalformedVersion));
}

#[test]
fn rejects_incomplete_and_decorated_text() {
    for text in [
        "", "V", "v", "V7", "V7.", "V.94", "V.", ".", "V7.a", "Va.94", "V7.94A", "V7.94.", "V7..94",
        "V7,94", "V7.94 ", " V7.94", "xV7.94", "V7.94a ", "V7.94-", "VV7.94", "V-7.94", "V7.-94",
        "V7.94\n", "V7.9\u{664}", "V\u{667}.94", "V7.94\u{e4}",
    ] {
        assert_eq!(version_string_to_number(text), Err(Error::MalformedVersion), "{:?}", text);
    }
}

#[test]
fn rejects_versions_that_do_not_fit_a_code() {
    for text in [
        "V10.00", "V12.34a", "V7.100", "V7.940", "V99999999999999999999999999.00",
        "V7.99999999999999999999999999", "V4294967297.00", "V7.4294967390",
    ] {
        assert_eq!(version_string_to_number(text), Err(Error::MalformedVersion), "{:?}", text);
    }
}

#[test]
fn encodes_plain_version() {
    assert_eq!(encoded(79400), "V7.94");
}

#[test]
fn encodes_patch_letter() {
    assert_eq!(encoded(79401), "V7.94a");
    assert_eq!(encoded(79402), "V7.94b");
    assert_eq!(encoded(79426), "V7.94z");
}

#[test]
fn encodes_with_zeros_in_place() {
    assert_eq!(encoded(0), "V0.00");
    assert_eq!(encoded(1), "V0.00a");
    assert_eq!(encoded(70900), "V7.09");
    assert_eq!(encoded(60000), "V6.00");
    assert_eq!(encoded(99926), "V9.99z");
}

#[test]
fn refuses_codes_out_of_range() {
    for code in [-1, -79400, 79427, 79499, 27, 99, 100_000, 109_400, i32::MAX, i32::MIN] {
        assert_eq!(version_number_to_string(code), Err(Error::CodeOutOfRange), "{}", code);
        assert!(!is_encodable(code));
    }
}

#[test]
fn every_code_comes_back() {
    let mut count = 0;
    for code in -200..=100_200 {
        match version_number_to_string(code) {
            Ok(text) => {
                assert!(is_encodable(code));
                assert!((0..=99_926).contains(&code) && code % 100 <= 26);
                assert_eq!(version_string_to_number(&text), Ok(code), "{}", text);
                count += 1;
            }
            Err(e) => {
                assert_eq!(e, Error::CodeOutOfRange);
                assert!(!is_encodable(code));
                assert!(code < 0 || code > 99_926 || code % 100 > 26);
            }
        }
    }
    assert_eq!(count, 1000 * 27);
}

#[test]
fn every_version_string_comes_back_in_the_vendors_form() {
    for lead in ['v', 'V'] {
        for major in 0..10 {
            for minor in 0..100 {
                for patch in 0..=26u8 {
                    let mut text = format!("{}{}.{:02}", lead, major, minor);
                    if patch > 0 {
                        text.push((b'a' + patch - 1) as char);
                    }
                    let code = version_string_to_number(&text).unwrap();
                    assert_eq!(code, major * 10000 + minor * 100 + patch as i32);
                    let mut normal = text.clone();
                    normal.replace_range(0..1, "V");
                    assert_eq!(encoded(code), normal);
                }
            }
        }
    }
}

#[test]
fn leading_zeros_are_dropped_and_missing_ones_supplied() {
    assert_eq!(encoded(version_string_to_number("v007.5b").unwrap()), "V7.05b");
    assert_eq!(encoded(version_string_to_number("V7.094").unwrap()), "V7.94");
    assert_eq!(encoded(version_string_to_number("V7.94a").unwrap()), "V7.94a");
}

#[test]
fn codes_order_as_versions_do() {
    let versions = ["V6.98", "V6.98a", "V6.98z", "V6.99", "V7.00", "V7.00a", "V7.94", "V7.94a", "V9.99z"];
    for (i, a) in versions.iter().enumerate() {
        for (j, b) in versions.iter().enumerate() {
            let (x, y) = (version_string_to_number(a).unwrap(), version_string_to_number(b).unwrap());
            assert_eq!(i < j, x < y, "{} {}", a, b);
            assert_eq!(i == j, x == y, "{} {}", a, b);
        }
    }
}
