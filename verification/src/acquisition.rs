//! The polling loop: what one cycle makes of what was read, and when the loop
//! stops.
//!
//! A cycle sleeps, reads once and handles what came back. Between two cycles
//! the loop looks at the cancellation flag. Sleeping, reading and looking at
//! the flag are the caller's part; what follows from them is decided here.

use crate::clock::{timestamp_m, ClockError};
use crate::frame::{decode, reading_matches, DecodeError, Reading, FRAME_MIN_LEN};
use vstd::prelude::*;

verus! {

/// Seconds that the loop sleeps before each read.
pub const POLL_INTERVAL_SECS: u64 = 3;

/// Number of bytes that one read asks for at most.
pub const READ_CAPACITY: usize = 1024;

/// Whether the acquisition loop is still polling.
#[derive(Clone, Copy, Debug, PartialEq, Eq, Structural)]
pub enum LoopState {
    Running,
    Stopped,
}

/// What the loop does next.
#[derive(Clone, Copy, Debug, PartialEq, Eq, Structural)]
pub enum LoopAction {
    /// Sleep for the poll interval, then read once.
    Poll,
    /// Leave the loop without another read.
    Halt,
}

/// Why a cycle produced no reading.
#[derive(Clone, Copy, Debug, PartialEq, Eq, Structural)]
pub enum AcquisitionFault {
    /// The read returned an error, or a count that the buffer cannot hold.
    ReadFailed { code: isize },
    /// The read returned fewer bytes than a frame has.
    ShortFrame { len: usize },
}

/// What a cycle hands on.
#[derive(Clone, Copy, Debug, PartialEq, Eq, Structural)]
pub enum CycleOutcome {
    /// A reading for the queue.
    Enqueue(Reading),
    /// Nothing; the fault is logged and the loop goes on.
    Skip(AcquisitionFault),
}

/// The fault in a read that returned `n_read` into a buffer of `capacity`
/// bytes, if there is one.
pub open spec fn fault_of(n_read: isize, capacity: nat) -> Option<AcquisitionFault> {
    if n_read < 0 || n_read > capacity {
        Some(AcquisitionFault::ReadFailed { code: n_read })
    } else if n_read < FRAME_MIN_LEN {
        Some(AcquisitionFault::ShortFrame { len: n_read as usize })
    } else {
        None
    }
}

/// `outcome` is what a cycle hands on when the read returned `n_read` into
/// `buffer` and the clock showed `now`.
pub open spec fn is_cycle_outcome(
    n_read: isize,
    buffer: Seq<u8>,
    now: u128,
    outcome: CycleOutcome,
) -> bool {
    match fault_of(n_read, buffer.len()) {
        Some(fault) => outcome == CycleOutcome::Skip(fault),
        None => outcome matches CycleOutcome::Enqueue(reading) && reading_matches(
            buffer,
            now,
            reading,
        ),
    }
}

/// The state after a cycle at whose end the flag read `cancelled`.
pub open spec fn state_after_cycle(state: LoopState, cancelled: bool) -> LoopState {
    if cancelled {
        LoopState::Stopped
    } else {
        state
    }
}

/// What the loop does in `state`.
pub open spec fn action_in(state: LoopState) -> LoopAction {
    match state {
        LoopState::Running => LoopAction::Poll,
        LoopState::Stopped => LoopAction::Halt,
    }
}

impl AcquisitionFault {
    /// The line that is logged for the fault.
    pub open spec fn text(self) -> Seq<char> {
        match self {
            AcquisitionFault::ReadFailed { .. } => "error read."@,
            AcquisitionFault::ShortFrame { .. } => "short frame."@,
        }
    }

    /// The line to log for the fault.
    pub fn message(self) -> (line: &'static str)
        ensures
            line@ == self.text(),
    {
        match self {
            AcquisitionFault::ReadFailed { .. } => "error read.",
            AcquisitionFault::ShortFrame { .. } => "short frame.",
        }
    }
}

impl LoopState {
    /// The state in which the loop starts.
    pub fn initial() -> (state: LoopState)
        ensures
            state == LoopState::Running,
    {
        LoopState::Running
    }

    /// What the loop does next: it polls while it runs and halts once it has
    /// stopped.
    pub fn next_action(self) -> (action: LoopAction)
        ensures
            action == action_in(self),
    {
        match self {
            LoopState::Running => LoopAction::Poll,
            LoopState::Stopped => LoopAction::Halt,
        }
    }

    /// Decides at the boundary between two cycles whether the loop goes on: it
    /// stops if the flag was found set, and never starts again.
    pub fn after_cycle(self, cancelled: bool) -> (next: LoopState)
        ensures
            next == state_after_cycle(self, cancelled),
            cancelled ==> next == LoopState::Stopped,
            self == LoopState::Stopped ==> next == LoopState::Stopped,
    {
        if cancelled {
            LoopState::Stopped
        } else {
            self
        }
    }
}

/// Judges what a read returned, before anything is decoded.
pub fn read_fault(n_read: isize, capacity: usize) -> (fault: Option<AcquisitionFault>)
    ensures
        fault == fault_of(n_read, capacity as nat),
{
    if n_read < 0 {
        return Some(AcquisitionFault::ReadFailed { code: n_read });
    }
    let len: usize = n_read as usize;
    if len > capacity {
        Some(AcquisitionFault::ReadFailed { code: n_read })
    } else if len < FRAME_MIN_LEN {
        Some(AcquisitionFault::ShortFrame { len })
    } else {
        None
    }
}

/// Handles what one read returned at the time `now`: an error or an impossible
/// count is a failed read, fewer than eight bytes are a short frame, and
/// anything else is decoded into a reading for the queue.
pub fn on_frame(n_read: isize, buffer: &[u8], now: u128) -> (outcome: CycleOutcome)
    ensures
        is_cycle_outcome(n_read, buffer@, now, outcome),
{
    match read_fault(n_read, buffer.len()) {
        Some(fault) => CycleOutcome::Skip(fault),
        None => {
            match decode(buffer, now) {
                Ok(reading) => CycleOutcome::Enqueue(reading),
                Err(DecodeError::TooShort { len }) => CycleOutcome::Skip(
                    AcquisitionFault::ShortFrame { len },
                ),
            }
        },
    }
}

/// Handles what one read returned, and stamps the reading with the wall-clock
/// time. The clock is asked only if there is a frame to decode; its error
/// comes back as it is.
pub fn read_data(n_read: isize, buffer: &[u8]) -> (r: Result<CycleOutcome, ClockError>)
    ensures
        fault_of(n_read, buffer@.len()).is_some() ==> r == Ok::<CycleOutcome, ClockError>(
            CycleOutcome::Skip(fault_of(n_read, buffer@.len()).unwrap()),
        ),
        r matches Ok(outcome) ==> exists|now: u128| is_cycle_outcome(n_read, buffer@, now, outcome),
        r matches Err(e) ==> e == ClockError::BeforeEpoch,
{
    match read_fault(n_read, buffer.len()) {
        Some(fault) => {
            assert(is_cycle_outcome(n_read, buffer@, 0, CycleOutcome::Skip(fault)));
            Ok(CycleOutcome::Skip(fault))
        },
        None => {
            match timestamp_m() {
                Ok(now) => {
                    let outcome = on_frame(n_read, buffer, now);
                    assert(is_cycle_outcome(n_read, buffer@, now, outcome));
                    Ok(outcome)
                },
                Err(e) => Err(e),
            }
        },
    }
}

/// What a run of the loop has come to.
pub struct LoopTrace {
    /// The state of the loop.
    pub state: LoopState,
    /// Number of reads that were made.
    pub reads: nat,
}

/// The loop run from its start, where `flags[i]` is what the cancellation flag
/// reads at the end of the cycle `i`, should the loop get that far.
pub open spec fn loop_trace(flags: Seq<bool>) -> LoopTrace
    decreases flags.len(),
{
    if flags.len() == 0 {
        LoopTrace { state: LoopState::Running, reads: 0 }
    } else {
        let before = loop_trace(flags.drop_last());
        match action_in(before.state) {
            LoopAction::Poll => LoopTrace {
                state: state_after_cycle(before.state, flags.last()),
                reads: before.reads + 1,
            },
            LoopAction::Halt => before,
        }
    }
}

/// While the flag is not found set, the loop runs and reads once per cycle.
pub proof fn lemma_loop_runs_until_cancelled(flags: Seq<bool>)
    requires
        forall|i: int| 0 <= i < flags.len() ==> !flags[i],
    ensures
        loop_trace(flags).state == LoopState::Running,
        loop_trace(flags).reads == flags.len(),
    decreases flags.len(),
{
    if flags.len() > 0 {
        lemma_loop_runs_until_cancelled(flags.drop_last());
    }
}

/// Once the flag is found set at the end of the cycle `k`, the loop has
/// stopped for good and makes no further read: the read of the cycle `k` was
/// its last, however long the run goes on.
pub proof fn lemma_no_read_after_cancellation(flags: Seq<bool>, k: int)
    requires
        0 <= k < flags.len(),
        flags[k],
        forall|i: int| 0 <= i < k ==> !flags[i],
    ensures
        loop_trace(flags).state == LoopState::Stopped,
        loop_trace(flags).reads == k + 1,
        action_in(loop_trace(flags).state) == LoopAction::Halt,
    decreases flags.len(),
{
    let earlier = flags.drop_last();
    if k == flags.len() - 1 {
        lemma_loop_runs_until_cancelled(earlier);
    } else {
        lemma_no_read_after_cancellation(earlier, k);
    }
}

} // verus!
