use jlink_updater::codec::version_number_to_string;
use jlink_updater::error::Error;
use jlink_updater::probe::{
    search_patterns, version_symbol, AttemptOutcome, Probe, ProbeAction, ProbeEvent, ProbeResult,
};
use jlink_updater::system::OsFamily;

use AttemptOutcome::{Fault, LoadFailed, SymbolMissing, Version};

struct Run {
    result: ProbeResult,
    fault: bool,
    expanded: Vec<usize>,
    tried: Vec<(usize, usize)>,
}

fn drive(start: (Probe, ProbeAction), machine: &[Vec<AttemptOutcome>]) -> Run {
    let (mut probe, mut action) = start;
    let (mut expanded, mut tried) = (vec![], vec![]);
    loop {
        let event = match action {
            ProbeAction::Expand { pattern } => {
                assert_eq!(probe.result(), None);
                expanded.push(pattern);
                ProbeEvent::Expanded(machine[pattern].len())
            }
            ProbeAction::Attempt { pattern, candidate } => {
                assert_eq!(probe.result(), None);
                tried.push((pattern, candidate));
                ProbeEvent::Attempted(machine[pattern][candidate])
            }
            ProbeAction::Finish { result, warning } => {
                assert_eq!(probe.result(), Some(result));
                assert!(warning.is_none() || warning == Some(Error::ProbeFault));
                return Run { result, fault: warning.is_some(), expanded, tried };
            }
        };
        (probe, action) = probe.step(event);
    }
}

fn run(machine: &[Vec<AttemptOutcome>]) -> Run {
    drive(Probe::start(machine.len()), machine)
}

#[test]
fn nothing_matches_nothing_found() {
    for os in [OsFamily::Linux, OsFamily::MacOSX, OsFamily::Windows] {
        let r = drive(Probe::for_os(os), &[vec![]]);
        assert_eq!(r.result, ProbeResult::NotFound);
        assert!(!r.fault);
        assert_eq!(r.expanded, [0]);
        assert!(r.tried.is_empty());
    }
}

#[test]
fn library_answers_with_its_version() {
    let r = drive(Probe::for_os(OsFamily::Linux), &[vec![Version(79400)]]);
    assert_eq!(r.result, ProbeResult::Found(79400));
    assert!(!r.fault);
    assert_eq!(r.tried, [(0, 0)]);
    assert_eq!(version_number_to_string(79400).unwrap(), "V7.94");
}

#[test]
fn no_pattern_nothing_found() {
    let (probe, action) = Probe::start(0);
    assert_eq!(action, ProbeAction::Finish { result: ProbeResult::NotFound, warning: None });
    assert_eq!(probe.result(), Some(ProbeResult::NotFound));
}

#[test]
fn starts_by_expanding_the_first_pattern() {
    let (probe, action) = Probe::start(1);
    assert_eq!(action, ProbeAction::Expand { pattern: 0 });
    assert_eq!(probe.result(), None);
}

#[test]
fn files_that_do_not_answer_are_passed_over() {
    let r = run(&[vec![LoadFailed, SymbolMissing, LoadFailed, Version(79401), Version(60000)]]);
    assert_eq!(r.result, ProbeResult::Found(79401));
    assert!(!r.fault);
    assert_eq!(r.tried, [(0, 0), (0, 1), (0, 2), (0, 3)]);
}

#[test]
fn no_file_answers_nothing_found() {
    let r = run(&[vec![LoadFailed, SymbolMissing], vec![], vec![SymbolMissing]]);
    assert_eq!(r.result, ProbeResult::NotFound);
    assert!(!r.fault);
    assert_eq!(r.expanded, [0, 1, 2]);
    assert_eq!(r.tried, [(0, 0), (0, 1), (2, 0)]);
}

#[test]
fn patterns_are_tried_in_order() {
    let r = run(&[vec![], vec![LoadFailed], vec![Version(70000), Version(80000)], vec![Version(90000)]]);
    assert_eq!(r.result, ProbeResult::Found(70000));
    assert_eq!(r.expanded, [0, 1, 2]);
    assert_eq!(r.tried, [(1, 0), (2, 0)]);
}

#[test]
fn fault_ends_the_probe_without_a_result() {
    let r = run(&[vec![LoadFailed, Fault, Version(79400)], vec![Version(79400)]]);
    assert_eq!(r.result, ProbeResult::NotFound);
    assert!(r.fault);
    assert_eq!(r.expanded, [0]);
    assert_eq!(r.tried, [(0, 0), (0, 1)]);
}

#[test]
fn fault_is_reported_as_a_warning() {
    let (probe, _) = Probe::start(1);
    let (probe, _) = probe.step(ProbeEvent::Expanded(1));
    let (_, action) = probe.step(ProbeEvent::Attempted(Fault));
    assert_eq!(
        action,
        ProbeAction::Finish { result: ProbeResult::NotFound, warning: Some(Error::ProbeFault) }
    );
}

#[test]
fn any_integer_is_taken_as_the_version() {
    for code in [0, -1, 79400, i32::MAX, i32::MIN] {
        let r = run(&[vec![Version(code)]]);
        assert_eq!(r.result, ProbeResult::Found(code));
    }
}

#[test]
fn events_that_answer_nothing_change_nothing() {
    let (probe, action) = Probe::start(2);
    let (probe, repeated) = probe.step(ProbeEvent::Attempted(Version(79400)));
    assert_eq!(repeated, action);
    let (probe, action) = probe.step(ProbeEvent::Expanded(2));
    assert_eq!(action, ProbeAction::Attempt { pattern: 0, candidate: 0 });
    let (probe, repeated) = probe.step(ProbeEvent::Expanded(5));
    assert_eq!(repeated, action);
    let (probe, action) = probe.step(ProbeEvent::Attempted(LoadFailed));
    assert_eq!(action, ProbeAction::Attempt { pattern: 0, candidate: 1 });
    let (probe, action) = probe.step(ProbeEvent::Attempted(Version(5)));
    assert_eq!(action, ProbeAction::Finish { result: ProbeResult::Found(5), warning: None });
    let (probe, repeated) = probe.step(ProbeEvent::Attempted(Version(6)));
    assert_eq!(repeated, action);
    let (probe, repeated) = probe.step(ProbeEvent::Expanded(1));
    assert_eq!(repeated, action);
    assert_eq!(probe.result(), Some(ProbeResult::Found(5)));
}

#[test]
fn counts_up_to_the_largest() {
    let (probe, _) = Probe::start(usize::MAX);
    let (probe, action) = probe.step(ProbeEvent::Expanded(usize::MAX));
    assert_eq!(action, ProbeAction::Attempt { pattern: 0, candidate: 0 });
    let (_, action) = probe.step(ProbeEvent::Attempted(SymbolMissing));
    assert_eq!(action, ProbeAction::Attempt { pattern: 0, candidate: 1 });
}

#[test]
fn each_system_has_its_pattern() {
    assert_eq!(search_patterns(OsFamily::Linux), ["/opt/SEGGER/JLink*/libjlink*"]);
    assert_eq!(search_patterns(OsFamily::MacOSX), ["/Applications/SEGGER/JLink*/libjlink*"]);
    assert_eq!(search_patterns(OsFamily::Windows), ["C:\\Program Files*\\SEGGER\\JLink*\\JLink*.dll"]);
}

#[test]
fn version_function_by_name() {
    assert_eq!(version_symbol(), "JLINK_GetDLLVersion");
}
