//! The measurement runner's decisions, as verified step functions. The
//! probe calls and the engine call themselves are outside work that a
//! driver performs; it feeds each outcome back in, and the functions here
//! decide — provably — what comes next: the fixed order of the probe
//! operations, the stop at the first failed operation, and what becomes of
//! the engine's report.

use vstd::prelude::*;

verus! {

use crate::measure::{cycle_diff, cycle_diff_spec, max_path_cycles};

/// The probe operations of one hardware measurement, in the order they
/// must be performed: flash the binary, open the core, reset it, wait for
/// the halt at the first breakpoint, read the cycle register, run to the
/// second breakpoint, wait for its halt, and read the register again.
#[derive(Clone, Copy, Debug, PartialEq, Eq)]
pub enum HwOp {
    Download,
    OpenCore,
    Reset,
    WaitFirstHalt,
    ReadStart,
    Run,
    WaitSecondHalt,
    ReadEnd,
}

/// The outcome of one probe operation, as the driver reports it: completed
/// without data, completed with the register word it read, or failed.
#[derive(Clone, Copy, Debug, PartialEq, Eq)]
pub enum HwEvent {
    Done,
    Word(u32),
    Failed,
}

/// The state of one hardware measurement between probe operations. The
/// two running states carry the register word of the first read until the
/// second read arrives; the two terminal states carry the outcome.
#[derive(Clone, Copy, Debug, PartialEq, Eq)]
pub enum HwState {
    Downloading,
    OpeningCore,
    Resetting,
    AwaitingFirstHalt,
    ReadingStart,
    Running { start: u32 },
    AwaitingSecondHalt { start: u32 },
    ReadingEnd { start: u32 },
    /// The measurement ran to completion; `cycles` is the masked counter
    /// difference, or nothing when it did not cover the breakpoint
    /// overhead.
    Finished { cycles: Option<u64> },
    /// The measurement stopped because the operation `at` failed.
    Aborted { at: HwOp },
}

/// Whether the operation reads the cycle register, so that its successful
/// outcome must carry a word.
pub open spec fn op_reads(op: HwOp) -> bool {
    op == HwOp::ReadStart || op == HwOp::ReadEnd
}

impl HwState {
    /// The probe operation the driver must perform next, or nothing when
    /// the measurement is over.
    pub open spec fn spec_next_op(self) -> Option<HwOp> {
        match self {
            HwState::Downloading => Some(HwOp::Download),
            HwState::OpeningCore => Some(HwOp::OpenCore),
            HwState::Resetting => Some(HwOp::Reset),
            HwState::AwaitingFirstHalt => Some(HwOp::WaitFirstHalt),
            HwState::ReadingStart => Some(HwOp::ReadStart),
            HwState::Running { .. } => Some(HwOp::Run),
            HwState::AwaitingSecondHalt { .. } => Some(HwOp::WaitSecondHalt),
            HwState::ReadingEnd { .. } => Some(HwOp::ReadEnd),
            HwState::Finished { .. } => None,
            HwState::Aborted { .. } => None,
        }
    }

    /// The successor state when the pending operation succeeds. `word` is
    /// the register word read, meaningful only for the two read
    /// operations; a terminal state has no successor and stays.
    pub open spec fn spec_advance(self, word: u32) -> HwState {
        match self {
            HwState::Downloading => HwState::OpeningCore,
            HwState::OpeningCore => HwState::Resetting,
            HwState::Resetting => HwState::AwaitingFirstHalt,
            HwState::AwaitingFirstHalt => HwState::ReadingStart,
            HwState::ReadingStart => HwState::Running { start: word },
            HwState::Running { start } => HwState::AwaitingSecondHalt { start },
            HwState::AwaitingSecondHalt { start } => HwState::ReadingEnd { start },
            HwState::ReadingEnd { start } => HwState::Finished {
                cycles: cycle_diff_spec(start, word),
            },
            HwState::Finished { .. } => self,
            HwState::Aborted { .. } => self,
        }
    }

    /// What one reported outcome makes of the measurement: a failure stops
    /// it at the pending operation, as does an outcome of the wrong shape
    /// (a word nobody asked for, or a read that delivered none); a fitting
    /// success advances it; a terminal state stays as it is.
    pub open spec fn spec_step(self, event: HwEvent) -> HwState {
        match self.spec_next_op() {
            None => self,
            Some(op) => match event {
                HwEvent::Failed => HwState::Aborted { at: op },
                HwEvent::Done => if op_reads(op) {
                    HwState::Aborted { at: op }
                } else {
                    self.spec_advance(0)
                },
                HwEvent::Word(w) => if op_reads(op) {
                    self.spec_advance(w)
                } else {
                    HwState::Aborted { at: op }
                },
            },
        }
    }

    /// The probe operation the driver must perform next, or nothing when
    /// the measurement is over.
    pub fn next_op(&self) -> (r: Option<HwOp>)
        ensures
            r == self.spec_next_op(),
    {
        match self {
            HwState::Downloading => Some(HwOp::Download),
            HwState::OpeningCore => Some(HwOp::OpenCore),
            HwState::Resetting => Some(HwOp::Reset),
            HwState::AwaitingFirstHalt => Some(HwOp::WaitFirstHalt),
            HwState::ReadingStart => Some(HwOp::ReadStart),
            HwState::Running { .. } => Some(HwOp::Run),
            HwState::AwaitingSecondHalt { .. } => Some(HwOp::WaitSecondHalt),
            HwState::ReadingEnd { .. } => Some(HwOp::ReadEnd),
            HwState::Finished { .. } => None,
            HwState::Aborted { .. } => None,
        }
    }

    /// The successor state when the pending operation succeeds with `word`.
    fn advance(self, word: u32) -> (next: HwState)
        ensures
            next == self.spec_advance(word),
    {
        match self {
            HwState::Downloading => HwState::OpeningCore,
            HwState::OpeningCore => HwState::Resetting,
            HwState::Resetting => HwState::AwaitingFirstHalt,
            HwState::AwaitingFirstHalt => HwState::ReadingStart,
            HwState::ReadingStart => HwState::Running { start: word },
            HwState::Running { start } => HwState::AwaitingSecondHalt { start },
            HwState::AwaitingSecondHalt { start } => HwState::ReadingEnd { start },
            HwState::ReadingEnd { start } => HwState::Finished {
                cycles: cycle_diff(start, word),
            },
            HwState::Finished { .. } => self,
            HwState::Aborted { .. } => self,
        }
    }

    /// Advances the measurement on the reported outcome of the pending
    /// probe operation.
    pub fn step(self, event: HwEvent) -> (next: HwState)
        ensures
            next == self.spec_step(event),
    {
        match self.next_op() {
            None => self,
            Some(op) => match event {
                HwEvent::Failed => HwState::Aborted { at: op },
                HwEvent::Done => {
                    if matches!(op, HwOp::ReadStart | HwOp::ReadEnd) {
                        HwState::Aborted { at: op }
                    } else {
                        self.advance(0)
                    }
                },
                HwEvent::Word(w) => {
                    if matches!(op, HwOp::ReadStart | HwOp::ReadEnd) {
                        self.advance(w)
                    } else {
                        HwState::Aborted { at: op }
                    }
                },
            },
        }
    }
}

/// A failed probe operation stops the measurement at exactly the
/// operation that was pending.
pub proof fn lemma_failure_stops(s: HwState)
    requires
        s.spec_next_op() is Some,
    ensures
        (match s.spec_next_op() {
            Some(op) => s.spec_step(HwEvent::Failed) == (HwState::Aborted { at: op }),
            None => true,
        }),
{
}

/// On a measurement whose probe operations all succeed and whose two
/// register reads return `start` and `end`, the operations come in the
/// fixed order — download, open the core, reset, first halt, first read,
/// run, second halt, second read — and the outcome is exactly the masked
/// counter difference of the two reads.
pub proof fn lemma_successful_run(start: u32, end: u32)
    ensures
        ({
            let s0 = HwState::Downloading;
            let s1 = s0.spec_step(HwEvent::Done);
            let s2 = s1.spec_step(HwEvent::Done);
            let s3 = s2.spec_step(HwEvent::Done);
            let s4 = s3.spec_step(HwEvent::Done);
            let s5 = s4.spec_step(HwEvent::Word(start));
            let s6 = s5.spec_step(HwEvent::Done);
            let s7 = s6.spec_step(HwEvent::Done);
            let s8 = s7.spec_step(HwEvent::Word(end));
            &&& s0.spec_next_op() == Some(HwOp::Download)
            &&& s1.spec_next_op() == Some(HwOp::OpenCore)
            &&& s2.spec_next_op() == Some(HwOp::Reset)
            &&& s3.spec_next_op() == Some(HwOp::WaitFirstHalt)
            &&& s4.spec_next_op() == Some(HwOp::ReadStart)
            &&& s5.spec_next_op() == Some(HwOp::Run)
            &&& s6.spec_next_op() == Some(HwOp::WaitSecondHalt)
            &&& s7.spec_next_op() == Some(HwOp::ReadEnd)
            &&& s8 == (HwState::Finished { cycles: cycle_diff_spec(start, end) })
        }),
{
}

/// The runner's verdict on one engine report: the engine failed to run
/// the binary, it ran but explored no path, or the largest per-path cycle
/// estimate it returned.
#[derive(Clone, Copy, Debug, PartialEq, Eq)]
pub enum SymexVerdict {
    EngineFailed,
    NoPath,
    Cycles(u64),
}

/// Decides what becomes of one engine report — `None` when the engine
/// failed, otherwise its per-path cycle estimates. A failed run and an
/// empty path list each abandon the step; otherwise the largest estimate
/// is selected.
pub fn symex_verdict(report: &Option<Vec<u64>>) -> (r: SymexVerdict)
    ensures
        (match r {
            SymexVerdict::EngineFailed => report is None,
            SymexVerdict::NoPath => report matches Some(v) && v@.len() == 0,
            SymexVerdict::Cycles(m) => report matches Some(v) && v@.contains(m)
                && forall|i: int| 0 <= i < v@.len() ==> v@[i] <= m,
        }),
{
    match report {
        None => SymexVerdict::EngineFailed,
        Some(cycles) => match max_path_cycles(cycles) {
            None => SymexVerdict::NoPath,
            Some(m) => SymexVerdict::Cycles(m),
        },
    }
}

} // verus!
