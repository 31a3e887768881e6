//! What a probe comes to, whatever is on the machine: it ends, and its
//! result is decided by the first file, in the order of the search, whose
//! version function was called.

use vstd::prelude::*;
use crate::decimal::{integer_value, is_integer};
use crate::probe::{
    action_in, first_phase, next_phase, outcome_reported, phase_fits, AttemptOutcome, Phase,
    ProbeAction, ProbeEvent, ProbeResult, EXIT_FAULT, EXIT_LOAD_FAILED, EXIT_SYMBOL_MISSING,
    EXIT_VERSION,
};

verus! {

/// A machine as a probe meets it: for each search pattern, in order, how
/// an attempt on each file that matches it would end, in the order in
/// which the file system lists the files.
pub type Machine = Seq<Seq<AttemptOutcome>>;

/// The numbers of patterns and of files on `machine` are such as a
/// driver can report.
pub open spec fn countable(machine: Machine) -> bool {
    &&& machine.len() <= usize::MAX
    &&& forall|p: int| 0 <= p < machine.len() ==> (#[trigger] machine[p]).len() <= usize::MAX
}

/// What the driver reports on `machine` when the probe asks for `action`.
/// A probe that is over asks for nothing more, and what it is told then
/// changes nothing.
pub open spec fn report(machine: Machine, action: ProbeAction) -> ProbeEvent {
    match action {
        ProbeAction::Expand { pattern } => ProbeEvent::Expanded(
            machine[pattern as int].len() as usize,
        ),
        ProbeAction::Attempt { pattern, candidate } => ProbeEvent::Attempted(
            machine[pattern as int][candidate as int],
        ),
        ProbeAction::Finish { .. } => ProbeEvent::Expanded(0),
    }
}

/// `phase` is one that a probe on `machine` can be in: it counts the
/// matches of a pattern as the machine has them.
pub open spec fn phase_on(machine: Machine, phase: Phase) -> bool {
    &&& countable(machine)
    &&& phase_fits(machine.len() as usize, phase)
    &&& (phase matches Phase::Attempting { pattern, matches, .. } ==> matches
        == machine[pattern as int].len())
}

/// The pattern that a probe in `phase` has come to.
pub open spec fn pattern_in(patterns: int, phase: Phase) -> int {
    match phase {
        Phase::Expanding { pattern } => pattern as int,
        Phase::Attempting { pattern, .. } => pattern as int,
        Phase::Finished { .. } => patterns,
    }
}

/// The file, among the matches of its pattern, that a probe in `phase`
/// has come to.
pub open spec fn candidate_in(phase: Phase) -> int {
    match phase {
        Phase::Attempting { candidate, .. } => candidate as int,
        _ => 0,
    }
}

/// How many files of the pattern that it has come to a probe in `phase`
/// has still to try, counting one more before the pattern is expanded.
pub open spec fn left_in_pattern(machine: Machine, phase: Phase) -> int {
    match phase {
        Phase::Expanding { pattern } => machine[pattern as int].len() as int + 1,
        Phase::Attempting { candidate, matches, .. } => matches - candidate,
        Phase::Finished { .. } => 0,
    }
}

/// The phase in which a probe on `machine` ends that is now in `phase`
/// and is driven faithfully from there.
pub open spec fn last_phase(machine: Machine, phase: Phase) -> Phase
    decreases machine.len() - pattern_in(machine.len() as int, phase), left_in_pattern(
        machine,
        phase,
    ),
    when phase_on(machine, phase)
{
    if phase is Finished {
        phase
    } else {
        last_phase(
            machine,
            next_phase(machine.len() as usize, phase, report(machine, action_in(phase))),
        )
    }
}

/// A faithful step keeps the probe in a phase that fits the machine.
pub proof fn lemma_step_stays_on(machine: Machine, phase: Phase)
    requires
        phase_on(machine, phase),
    ensures
        phase_on(
            machine,
            next_phase(machine.len() as usize, phase, report(machine, action_in(phase))),
        ),
{
}

/// An attempt that settles the probe: the version function was called.
pub open spec fn decisive(outcome: AttemptOutcome) -> bool {
    outcome is Version || outcome is Fault
}

/// The result that a decisive attempt gives the probe.
pub open spec fn settled_by(outcome: AttemptOutcome) -> Phase {
    match outcome {
        AttemptOutcome::Version(code) => Phase::Finished {
            result: ProbeResult::Found(code),
            fault: false,
        },
        _ => Phase::Finished { result: ProbeResult::NotFound, fault: outcome is Fault },
    }
}

/// `machine` has a file with index `candidate` among the matches of the
/// pattern with index `pattern`.
pub open spec fn has_file(machine: Machine, pattern: int, candidate: int) -> bool {
    0 <= pattern < machine.len() && 0 <= candidate < machine[pattern].len()
}

/// The first file comes before the second in the order of the search:
/// by pattern, then by place among the matches.
pub open spec fn comes_before(p: int, c: int, q: int, d: int) -> bool {
    p < q || (p == q && c < d)
}

/// No attempt on a file that comes before the given one is decisive.
pub open spec fn undecided_before(machine: Machine, pattern: int, candidate: int) -> bool {
    forall|q: int, d: int|
        has_file(machine, q, d) && comes_before(q, d, pattern, candidate) ==> !decisive(
            #[trigger] machine[q][d],
        )
}

proof fn lemma_reaches_first_decisive(machine: Machine, phase: Phase, pattern: int, candidate: int)
    requires
        phase_on(machine, phase),
        phase !is Finished,
        has_file(machine, pattern, candidate),
        decisive(machine[pattern][candidate]),
        undecided_before(machine, pattern, candidate),
        !comes_before(
            pattern,
            candidate,
            pattern_in(machine.len() as int, phase),
            candidate_in(phase),
        ),
    ensures
        last_phase(machine, phase) == settled_by(machine[pattern][candidate]),
    decreases machine.len() - pattern_in(machine.len() as int, phase), left_in_pattern(
        machine,
        phase,
    ),
{
    let next = next_phase(machine.len() as usize, phase, report(machine, action_in(phase)));
    lemma_step_stays_on(machine, phase);
    match phase {
        Phase::Expanding { pattern: p } => {
            lemma_reaches_first_decisive(machine, next, pattern, candidate);
        },
        Phase::Attempting { pattern: p, candidate: c, matches } => {
            if p == pattern && c == candidate {
                assert(next == settled_by(machine[pattern][candidate]));
                assert(last_phase(machine, next) == next);
            } else {
                assert(has_file(machine, p as int, c as int));
                assert(comes_before(p as int, c as int, pattern, candidate));
                assert(!decisive(machine[p as int][c as int]));
                lemma_reaches_first_decisive(machine, next, pattern, candidate);
            }
        },
        Phase::Finished { .. } => {},
    }
}

proof fn lemma_finds_nothing(machine: Machine, phase: Phase)
    requires
        phase_on(machine, phase),
        phase is Finished ==> phase == (Phase::Finished {
            result: ProbeResult::NotFound,
            fault: false,
        }),
        forall|q: int, d: int| has_file(machine, q, d) ==> !decisive(#[trigger] machine[q][d]),
    ensures
        last_phase(machine, phase) == (Phase::Finished {
            result: ProbeResult::NotFound,
            fault: false,
        }),
    decreases machine.len() - pattern_in(machine.len() as int, phase), left_in_pattern(
        machine,
        phase,
    ),
{
    let next = next_phase(machine.len() as usize, phase, report(machine, action_in(phase)));
    lemma_step_stays_on(machine, phase);
    match phase {
        Phase::Expanding { pattern: p } => {
            lemma_finds_nothing(machine, next);
        },
        Phase::Attempting { pattern: p, candidate: c, matches } => {
            assert(has_file(machine, p as int, c as int));
            assert(!decisive(machine[p as int][c as int]));
            lemma_finds_nothing(machine, next);
        },
        Phase::Finished { .. } => {},
    }
}

/// Every probe ends: driven faithfully, on any machine, it comes to a
/// phase in which it is over.
pub proof fn lemma_probe_ends(machine: Machine, phase: Phase)
    requires
        phase_on(machine, phase),
    ensures
        last_phase(machine, phase) is Finished,
    decreases machine.len() - pattern_in(machine.len() as int, phase), left_in_pattern(
        machine,
        phase,
    ),
{
    if phase !is Finished {
        lemma_step_stays_on(machine, phase);
        lemma_probe_ends(
            machine,
            next_phase(machine.len() as usize, phase, report(machine, action_in(phase))),
        );
    }
}

/// The first file whose version function was called decides the probe:
/// the version that it returned is found, and if it faulted nothing is
/// found and the fault is reported. No file after it is tried.
pub proof fn lemma_first_decisive_attempt_settles(machine: Machine, pattern: int, candidate: int)
    requires
        countable(machine),
        has_file(machine, pattern, candidate),
        decisive(machine[pattern][candidate]),
        undecided_before(machine, pattern, candidate),
    ensures
        last_phase(machine, first_phase(machine.len() as usize)) == settled_by(
            machine[pattern][candidate],
        ),
{
    lemma_reaches_first_decisive(
        machine,
        first_phase(machine.len() as usize),
        pattern,
        candidate,
    );
}

/// Absence: where no pattern matches a file, or no file that matches
/// loads and has the version function, the probe finds nothing, and
/// reports no fault. So it does where there is no pattern at all.
pub proof fn lemma_nothing_installed(machine: Machine)
    requires
        countable(machine),
        forall|q: int, d: int| has_file(machine, q, d) ==> !decisive(#[trigger] machine[q][d]),
    ensures
        last_phase(machine, first_phase(machine.len() as usize)) == (Phase::Finished {
            result: ProbeResult::NotFound,
            fault: false,
        }),
{
    lemma_finds_nothing(machine, first_phase(machine.len() as usize));
}

/// The exit status that reports `outcome`.
pub open spec fn exit_code_of(outcome: AttemptOutcome) -> i32 {
    match outcome {
        AttemptOutcome::Version(_) => EXIT_VERSION,
        AttemptOutcome::LoadFailed => EXIT_LOAD_FAILED,
        AttemptOutcome::SymbolMissing => EXIT_SYMBOL_MISSING,
        AttemptOutcome::Fault => EXIT_FAULT,
    }
}

/// An outcome is read as it was reported: by its exit status and, for a
/// version, by the code written in decimal.
pub proof fn lemma_reported_outcome_is_read(outcome: AttemptOutcome, output: Seq<char>)
    requires
        outcome matches AttemptOutcome::Version(code) ==> is_integer(output) && integer_value(
            output,
        ) == code,
    ensures
        outcome_reported(Some(exit_code_of(outcome)), output) == outcome,
{
}

/// A process that was killed, or left with a status that reports
/// nothing, counts as a fault, whatever it wrote.
pub proof fn lemma_crash_is_a_fault(exit_code: Option<i32>, output: Seq<char>)
    requires
        exit_code != Some(EXIT_VERSION),
        exit_code != Some(EXIT_LOAD_FAILED),
        exit_code != Some(EXIT_SYMBOL_MISSING),
    ensures
        outcome_reported(exit_code, output) == AttemptOutcome::Fault,
{
}

} // verus!
