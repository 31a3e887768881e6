use jlink_updater::decimal::parse_i32;
use jlink_updater::probe::{
    attempt_outcome, exit_code_for, AttemptOutcome, EXIT_FAULT, EXIT_LOAD_FAILED,
    EXIT_SYMBOL_MISSING, EXIT_VERSION,
};

use AttemptOutcome::{Fault, LoadFailed, SymbolMissing, Version};

#[test]
fn reads_integers() {
    assert_eq!(parse_i32("79400"), Some(79400));
    assert_eq!(parse_i32("0"), Some(0));
    assert_eq!(parse_i32("-0"), Some(0));
    assert_eq!(parse_i32("-1"), Some(-1));
    assert_eq!(parse_i32("007"), Some(7));
    assert_eq!(parse_i32("-007"), Some(-7));
    assert_eq!(parse_i32("2147483647"), Some(i32::MAX));
    assert_eq!(parse_i32("-2147483648"), Some(i32::MIN));
    assert_eq!(parse_i32("00000000000000000000002147483647"), Some(i32::MAX));
}

#[test]
fn reads_no_integer_out_of_range() {
    for text in ["2147483648", "-2147483649", "4294967296", "99999999999999999999999", "-99999999999999999999999", "4294967297", "18446744073709551617"] {
        assert_eq!(parse_i32(text), None, "{:?}", text);
    }
}

#[test]
fn reads_no_integer_in_other_text() {
    for text in ["", "-", "+1", "--1", "1-", " 1", "1 ", "1\n", "1.0", "0x10", "1e3", "V7.94", "\u{661}", "1_000", "- 1"] {
        assert_eq!(parse_i32(text), None, "{:?}", text);
    }
}

#[test]
fn reads_what_formatting_writes() {
    for value in [0, 1, -1, 9, 10, -10, 79400, 79401, 99926, -79400, i32::MAX, i32::MIN, i32::MAX - 1, i32::MIN + 1] {
        assert_eq!(parse_i32(&value.to_string()), Some(value));
    }
    for value in (-70_000..70_000).step_by(7) {
        assert_eq!(parse_i32(&value.to_string()), Some(value));
    }
}

#[test]
fn attempt_reports_a_version() {
    assert_eq!(attempt_outcome(Some(0), "79400"), AttemptOutcome::Version(79400));
    assert_eq!(attempt_outcome(Some(EXIT_VERSION), "-5"), AttemptOutcome::Version(-5));
}

#[test]
fn attempt_reports_why_it_did_not_ask() {
    assert_eq!(attempt_outcome(Some(2), ""), AttemptOutcome::LoadFailed);
    assert_eq!(attempt_outcome(Some(EXIT_LOAD_FAILED), "79400"), AttemptOutcome::LoadFailed);
    assert_eq!(attempt_outcome(Some(3), ""), AttemptOutcome::SymbolMissing);
    assert_eq!(attempt_outcome(Some(EXIT_SYMBOL_MISSING), "x"), AttemptOutcome::SymbolMissing);
}

#[test]
fn anything_else_is_a_fault() {
    assert_eq!(attempt_outcome(None, ""), AttemptOutcome::Fault);
    assert_eq!(attempt_outcome(None, "79400"), AttemptOutcome::Fault);
    assert_eq!(attempt_outcome(Some(0), ""), AttemptOutcome::Fault);
    assert_eq!(attempt_outcome(Some(0), "79400\n"), AttemptOutcome::Fault);
    assert_eq!(attempt_outcome(Some(0), "2147483648"), AttemptOutcome::Fault);
    assert_eq!(attempt_outcome(Some(0), "V7.94"), AttemptOutcome::Fault);
    for code in [1, 4, EXIT_FAULT, 5, 101, 127, 139, 255, -1, -1073741819, i32::MAX, i32::MIN] {
        assert_eq!(attempt_outcome(Some(code), "79400"), AttemptOutcome::Fault, "{}", code);
    }
}

#[test]
fn reported_outcome_is_read_back() {
    for outcome in [LoadFailed, SymbolMissing, Fault, Version(79400), Version(0), Version(-1), Version(i32::MIN), Version(i32::MAX)] {
        let output = match outcome {
            Version(code) => code.to_string(),
            _ => String::new(),
        };
        assert_eq!(attempt_outcome(Some(exit_code_for(outcome)), &output), outcome);
    }
    assert_eq!(exit_code_for(Version(1)), 0);
    assert_eq!(exit_code_for(LoadFailed), 2);
    assert_eq!(exit_code_for(SymbolMissing), 3);
    assert_eq!(exit_code_for(Fault), 4);
}
