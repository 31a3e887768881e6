//! The probe for the installed driver: where its library is looked for on
//! each operating system, and the decisions of the search.
//!
//! The search itself reads the file system and loads native code, which
//! this library does not do. It decides: `Probe` is told what happened and
//! answers what to do next. Whoever drives it expands a search pattern
//! into the files that match, tries to load one of them and ask it for
//! its version, and reports back.

use vstd::prelude::*;
use crate::codec::VersionCode;
use crate::decimal::{integer_value, is_integer, parse_i32};
use crate::error::Error;
use crate::system::OsFamily;

verus! {

/// What the probe found out. That no driver is installed is no error: it
/// is the usual state of a fresh machine.
#[derive(Debug, Clone, Copy, PartialEq, Eq, Structural)]
pub enum ProbeResult {
    /// A driver is installed, and this is the code of its version.
    Found(VersionCode),
    /// No installed driver answered.
    NotFound,
}

/// The patterns of the files that may be the driver's library on `os`,
/// in the order in which they are tried. `*` stands for any run of
/// characters within one name of a path.
pub open spec fn search_pattern_texts(os: OsFamily) -> Seq<Seq<char>> {
    match os {
        OsFamily::Linux => seq!["/opt/SEGGER/JLink*/libjlink*"@],
        OsFamily::MacOSX => seq!["/Applications/SEGGER/JLink*/libjlink*"@],
        OsFamily::Windows => seq!["C:\\Program Files*\\SEGGER\\JLink*\\JLink*.dll"@],
    }
}

/// The patterns of the files that may be the driver's library on `os`,
/// in the order in which they are tried.
pub fn search_patterns(os: OsFamily) -> (patterns: Vec<&'static str>)
    ensures
        patterns@.len() == search_pattern_texts(os).len(),
        forall|i: int|
            0 <= i < patterns@.len() ==> (#[trigger] patterns@[i])@ == search_pattern_texts(os)[i],
{
    match os {
        OsFamily::Linux => vec!["/opt/SEGGER/JLink*/libjlink*"],
        OsFamily::MacOSX => vec!["/Applications/SEGGER/JLink*/libjlink*"],
        OsFamily::Windows => vec!["C:\\Program Files*\\SEGGER\\JLink*\\JLink*.dll"],
    }
}

/// The name of the function that the driver's library exports to tell
/// its version. It takes no argument and returns the version code as a
/// signed integer of 32 bits.
pub fn version_symbol() -> (name: &'static str)
    ensures
        name@ == "JLINK_GetDLLVersion"@,
{
    "JLINK_GetDLLVersion"
}

/// How one attempt to ask a file for the driver's version ended.
#[derive(Debug, Clone, Copy, PartialEq, Eq, Structural)]
pub enum AttemptOutcome {
    /// The file could not be loaded as a library.
    LoadFailed,
    /// The library was loaded but does not export the version function.
    SymbolMissing,
    /// The version function was called and did not return properly.
    Fault,
    /// The version function returned this code.
    Version(VersionCode),
}

/// Exit status of an attempt that came to call the version function;
/// the attempt then writes the code that the function returned, in
/// decimal and nothing else, to its output.
pub const EXIT_VERSION: i32 = 0;

/// Exit status of an attempt on a file that could not be loaded.
pub const EXIT_LOAD_FAILED: i32 = 2;

/// Exit status of an attempt on a library without the version function.
pub const EXIT_SYMBOL_MISSING: i32 = 3;

/// Exit status by which an attempt owns to a fault. Every status that
/// has no meaning of its own is read as a fault too.
pub const EXIT_FAULT: i32 = 4;

/// How an attempt ended that was made in a process of its own, so that
/// native code which crashes takes only that process with it. The
/// process left with `exit_code`, or was killed where that is `None`, and
/// wrote `output`.
///
/// Whatever is not a plain report is a fault: a killed process, an
/// unknown status, and a version that is no integer of 32 bits.
pub open spec fn outcome_reported(exit_code: Option<i32>, output: Seq<char>) -> AttemptOutcome {
    if exit_code == Some(EXIT_VERSION) {
        if is_integer(output) && i32::MIN <= integer_value(output) <= i32::MAX {
            AttemptOutcome::Version(integer_value(output) as i32)
        } else {
            AttemptOutcome::Fault
        }
    } else if exit_code == Some(EXIT_LOAD_FAILED) {
        AttemptOutcome::LoadFailed
    } else if exit_code == Some(EXIT_SYMBOL_MISSING) {
        AttemptOutcome::SymbolMissing
    } else {
        AttemptOutcome::Fault
    }
}

/// Reads how an attempt ended that was made in a process of its own.
pub fn attempt_outcome(exit_code: Option<i32>, output: &str) -> (outcome: AttemptOutcome)
    ensures
        outcome == outcome_reported(exit_code, output@),
{
    match exit_code {
        Some(code) => if code == EXIT_VERSION {
            match parse_i32(output) {
                Some(version) => AttemptOutcome::Version(version),
                None => AttemptOutcome::Fault,
            }
        } else if code == EXIT_LOAD_FAILED {
            AttemptOutcome::LoadFailed
        } else if code == EXIT_SYMBOL_MISSING {
            AttemptOutcome::SymbolMissing
        } else {
            AttemptOutcome::Fault
        },
        None => AttemptOutcome::Fault,
    }
}

/// The exit status by which a process reports the outcome of its
/// attempt.
pub fn exit_code_for(outcome: AttemptOutcome) -> (exit_code: i32)
    ensures
        exit_code == match outcome {
            AttemptOutcome::Version(_) => EXIT_VERSION,
            AttemptOutcome::LoadFailed => EXIT_LOAD_FAILED,
            AttemptOutcome::SymbolMissing => EXIT_SYMBOL_MISSING,
            AttemptOutcome::Fault => EXIT_FAULT,
        },
{
    match outcome {
        AttemptOutcome::Version(_) => EXIT_VERSION,
        AttemptOutcome::LoadFailed => EXIT_LOAD_FAILED,
        AttemptOutcome::SymbolMissing => EXIT_SYMBOL_MISSING,
        AttemptOutcome::Fault => EXIT_FAULT,
    }
}

/// What the driver of a probe reports to it.
#[derive(Debug, Clone, Copy, PartialEq, Eq, Structural)]
pub enum ProbeEvent {
    /// The pattern was expanded, and so many files match it.
    Expanded(usize),
    /// The file was tried, with this outcome.
    Attempted(AttemptOutcome),
}

/// What a probe asks its driver to do.
#[derive(Debug, Clone, Copy, PartialEq, Eq, Structural)]
pub enum ProbeAction {
    /// Expand the search pattern with this index into the files that
    /// match it, and report how many there are.
    Expand { pattern: usize },
    /// Try the file with index `candidate` among the matches of the
    /// pattern, in the order in which the file system gave them, and
    /// report the outcome. The library is unloaded again on every
    /// outcome.
    Attempt { pattern: usize, candidate: usize },
    /// Stop. This is the probe's result. Where it is `NotFound` because a
    /// version function misbehaved, `warning` is `ProbeFault`: the search
    /// goes on as if nothing were installed, and the user is told.
    Finish { result: ProbeResult, warning: Option<Error> },
}

/// Where a probe stands.
#[derive(Debug, Clone, Copy, PartialEq, Eq, Structural)]
pub enum Phase {
    /// It waits for the matches of the pattern.
    Expanding { pattern: usize },
    /// It waits for the outcome of one of the `matches` files that match
    /// the pattern.
    Attempting { pattern: usize, candidate: usize, matches: usize },
    /// It is over.
    Finished { result: ProbeResult, fault: bool },
}

/// A phase that can occur in a probe over so many patterns.
pub open spec fn phase_fits(patterns: usize, phase: Phase) -> bool {
    match phase {
        Phase::Expanding { pattern } => pattern < patterns,
        Phase::Attempting { pattern, candidate, matches } => pattern < patterns && candidate
            < matches,
        Phase::Finished { .. } => true,
    }
}

/// The phase of a probe that turns to the pattern with index `pattern`:
/// it expands it, or is over without a result where no pattern is left.
pub open spec fn phase_at_pattern(patterns: usize, pattern: int) -> Phase {
    if 0 <= pattern < patterns {
        Phase::Expanding { pattern: pattern as usize }
    } else {
        Phase::Finished { result: ProbeResult::NotFound, fault: false }
    }
}

/// The phase in which a probe over so many patterns begins.
pub open spec fn first_phase(patterns: usize) -> Phase {
    phase_at_pattern(patterns, 0)
}

/// What a probe in `phase` asks for.
pub open spec fn action_in(phase: Phase) -> ProbeAction {
    match phase {
        Phase::Expanding { pattern } => ProbeAction::Expand { pattern },
        Phase::Attempting { pattern, candidate, .. } => ProbeAction::Attempt { pattern, candidate },
        Phase::Finished { result, fault } => ProbeAction::Finish {
            result,
            warning: if fault {
                Some(Error::ProbeFault)
            } else {
                None
            },
        },
    }
}

/// The phase that follows `phase` on `event`.
///
/// A pattern without matches is passed over. A file that does not load,
/// or lacks the version function, is passed over. The first version that
/// a file returns is the result. A fault ends the probe without a result.
/// An event that does not answer what the probe asked for changes
/// nothing.
pub open spec fn next_phase(patterns: usize, phase: Phase, event: ProbeEvent) -> Phase {
    match (phase, event) {
        (Phase::Expanding { pattern }, ProbeEvent::Expanded(matches)) => if matches > 0 {
            Phase::Attempting { pattern, candidate: 0, matches }
        } else {
            phase_at_pattern(patterns, pattern + 1)
        },
        (Phase::Attempting { pattern, candidate, matches }, ProbeEvent::Attempted(outcome)) => {
            match outcome {
                AttemptOutcome::Version(code) => Phase::Finished {
                    result: ProbeResult::Found(code),
                    fault: false,
                },
                AttemptOutcome::Fault => Phase::Finished {
                    result: ProbeResult::NotFound,
                    fault: true,
                },
                _ => if candidate + 1 < matches {
                    Phase::Attempting { pattern, candidate: (candidate + 1) as usize, matches }
                } else {
                    phase_at_pattern(patterns, pattern + 1)
                },
            }
        },
        _ => phase,
    }
}

/// One search for the installed driver, as far as it has come.
#[derive(Debug, Clone, Copy)]
pub struct Probe {
    patterns: usize,
    phase: Phase,
}

impl Probe {
    #[verifier::type_invariant]
    spec fn well_formed(self) -> bool {
        phase_fits(self.patterns, self.phase)
    }

    /// The number of search patterns that the probe goes through.
    pub closed spec fn patterns(self) -> usize {
        self.patterns
    }

    /// Where the probe stands.
    pub closed spec fn phase(self) -> Phase {
        self.phase
    }

    fn turn_to(patterns: usize, pattern: usize) -> (phase: Phase)
        requires
            pattern <= patterns,
        ensures
            phase == phase_at_pattern(patterns, pattern as int),
            phase_fits(patterns, phase),
    {
        if pattern < patterns {
            Phase::Expanding { pattern }
        } else {
            Phase::Finished { result: ProbeResult::NotFound, fault: false }
        }
    }

    fn action(&self) -> (action: ProbeAction)
        ensures
            action == action_in(self.phase()),
    {
        match self.phase {
            Phase::Expanding { pattern } => ProbeAction::Expand { pattern },
            Phase::Attempting { pattern, candidate, .. } => ProbeAction::Attempt {
                pattern,
                candidate,
            },
            Phase::Finished { result, fault } => ProbeAction::Finish {
                result,
                warning: if fault {
                    Some(Error::ProbeFault)
                } else {
                    None
                },
            },
        }
    }

    /// Begins a probe over `patterns` search patterns, and says what to
    /// do first. With no pattern there is nothing to do: the probe is over
    /// at once and has found nothing.
    pub fn start(patterns: usize) -> (r: (Probe, ProbeAction))
        ensures
            r.0.patterns() == patterns,
            r.0.phase() == first_phase(patterns),
            phase_fits(patterns, r.0.phase()),
            r.1 == action_in(r.0.phase()),
    {
        let probe = Probe { patterns, phase: Self::turn_to(patterns, 0) };
        let action = probe.action();
        (probe, action)
    }

    /// Begins the probe for the driver on `os`.
    pub fn for_os(os: OsFamily) -> (r: (Probe, ProbeAction))
        ensures
            r.0.patterns() == search_pattern_texts(os).len(),
            r.0.phase() == first_phase(r.0.patterns()),
            r.1 == action_in(r.0.phase()),
    {
        Self::start(search_patterns(os).len())
    }

    /// Takes in what the driver reports, and says what to do next.
    pub fn step(self, event: ProbeEvent) -> (r: (Probe, ProbeAction))
        ensures
            r.0.patterns() == self.patterns(),
            r.0.phase() == next_phase(self.patterns(), self.phase(), event),
            phase_fits(self.patterns(), self.phase()),
            phase_fits(r.0.patterns(), r.0.phase()),
            r.1 == action_in(r.0.phase()),
    {
        proof {
            use_type_invariant(&self);
        }
        let patterns = self.patterns;
        let phase = match (self.phase, event) {
            (Phase::Expanding { pattern }, ProbeEvent::Expanded(matches)) => if matches > 0 {
                Phase::Attempting { pattern, candidate: 0, matches }
            } else {
                Self::turn_to(patterns, pattern + 1)
            },
            (Phase::Attempting { pattern, candidate, matches }, ProbeEvent::Attempted(outcome)) => {
                match outcome {
                    AttemptOutcome::Version(code) => Phase::Finished {
                        result: ProbeResult::Found(code),
                        fault: false,
                    },
                    AttemptOutcome::Fault => Phase::Finished {
                        result: ProbeResult::NotFound,
                        fault: true,
                    },
                    _ => if candidate + 1 < matches {
                        Phase::Attempting { pattern, candidate: candidate + 1, matches }
                    } else {
                        Self::turn_to(patterns, pattern + 1)
                    },
                }
            },
            (phase, _) => phase,
        };
        let probe = Probe { patterns, phase };
        let action = probe.action();
        (probe, action)
    }

    /// The result, once the probe is over.
    pub fn result(&self) -> (result: Option<ProbeResult>)
        ensures
            result == match self.phase() {
                Phase::Finished { result, .. } => Some(result),
                _ => None,
            },
    {
        match self.phase {
            Phase::Finished { result, .. } => Some(result),
            _ => None,
        }
    }
}

} // verus!
