use vstd::prelude::*;

verus! {

/// The status that a poll of a bridged future reports to C++.
///
/// The numbering is shared with the C++ enum of the same name: `0` pending, `1` complete,
/// `2` error.
#[derive(Clone, Copy, Debug, PartialEq, Eq, Structural)]
pub struct FuturePollStatus {
    pub repr: u8,
}

/// Repr of the pending status.
pub const PENDING_REPR: u8 = 0;

/// Repr of the complete status.
pub const COMPLETE_REPR: u8 = 1;

/// Repr of the error status.
pub const ERROR_REPR: u8 = 2;

impl FuturePollStatus {
    /// The future has not finished; C++ waits for a wake-up.
    pub fn pending() -> (s: FuturePollStatus)
        ensures
            s.repr == PENDING_REPR,
    {
        FuturePollStatus { repr: PENDING_REPR }
    }

    /// The future finished with a value, which was written to the result slot.
    pub fn complete() -> (s: FuturePollStatus)
        ensures
            s.repr == COMPLETE_REPR,
    {
        FuturePollStatus { repr: COMPLETE_REPR }
    }

    /// The future finished with an error, whose text was written to the result slot.
    pub fn error() -> (s: FuturePollStatus)
        ensures
            s.repr == ERROR_REPR,
    {
        FuturePollStatus { repr: ERROR_REPR }
    }
}

/// What one poll of a Rust future gave back: not ready yet, or ready with an output.
pub enum PollOutcome<T> {
    Pending,
    Ready(T),
}

/// What the poll leaves in the result slot that C++ handed over.
pub enum SlotWrite<T> {
    /// The slot is left untouched.
    Untouched,
    /// The future's value is written to the slot.
    Value(T),
    /// The text of the future's error is written to the slot.
    ErrorText(String),
}

/// The status and slot write that a poll of a fallible future reports.
pub open spec fn settle_spec<T>(outcome: PollOutcome<Result<T, String>>) -> (FuturePollStatus, SlotWrite<T>) {
    match outcome {
        PollOutcome::Pending => (FuturePollStatus { repr: PENDING_REPR }, SlotWrite::Untouched),
        PollOutcome::Ready(Ok(v)) => (FuturePollStatus { repr: COMPLETE_REPR }, SlotWrite::Value(v)),
        PollOutcome::Ready(Err(e)) => (FuturePollStatus { repr: ERROR_REPR }, SlotWrite::ErrorText(e)),
    }
}

/// The status and slot write that a poll of an infallible future reports.
pub open spec fn settle_infallible_spec<T>(outcome: PollOutcome<T>) -> (FuturePollStatus, SlotWrite<T>) {
    match outcome {
        PollOutcome::Pending => (FuturePollStatus { repr: PENDING_REPR }, SlotWrite::Untouched),
        PollOutcome::Ready(v) => (FuturePollStatus { repr: COMPLETE_REPR }, SlotWrite::Value(v)),
    }
}

/// Turns the outcome of polling a future whose output is a `Result` into the status for C++
/// and what is written to C++'s result slot: nothing while pending, the value on success, the
/// error's text on failure.
pub fn settle_poll<T>(outcome: PollOutcome<Result<T, String>>) -> (r: (FuturePollStatus, SlotWrite<T>))
    ensures
        r == settle_spec(outcome),
        outcome is Pending ==> r == (FuturePollStatus { repr: 0 }, SlotWrite::<T>::Untouched),
        outcome matches PollOutcome::Ready(Ok(v)) ==> r == (FuturePollStatus { repr: 1 }, SlotWrite::Value(v)),
        outcome matches PollOutcome::Ready(Err(e)) ==> r == (FuturePollStatus { repr: 2 }, SlotWrite::<T>::ErrorText(e)),
{
    match outcome {
        PollOutcome::Pending => (FuturePollStatus::pending(), SlotWrite::Untouched),
        PollOutcome::Ready(Ok(value)) => (FuturePollStatus::complete(), SlotWrite::Value(value)),
        PollOutcome::Ready(Err(error)) => (FuturePollStatus::error(), SlotWrite::ErrorText(error)),
    }
}

/// Turns the outcome of polling a future that cannot fail into the status for C++ and what is
/// written to C++'s result slot.
pub fn settle_infallible_poll<T>(outcome: PollOutcome<T>) -> (r: (FuturePollStatus, SlotWrite<T>))
    ensures
        r == settle_infallible_spec(outcome),
        outcome is Pending ==> r == (FuturePollStatus { repr: 0 }, SlotWrite::<T>::Untouched),
        outcome matches PollOutcome::Ready(v) ==> r == (FuturePollStatus { repr: 1 }, SlotWrite::Value(v)),
{
    match outcome {
        PollOutcome::Pending => (FuturePollStatus::pending(), SlotWrite::Untouched),
        PollOutcome::Ready(value) => (FuturePollStatus::complete(), SlotWrite::Value(value)),
    }
}

/// The status reported to C++ tells exactly what was written to its result slot: pending
/// leaves the slot untouched, complete writes a value, error writes the error's text; no
/// other status is ever reported.
pub proof fn lemma_status_matches_slot<T>(outcome: PollOutcome<Result<T, String>>)
    ensures
        ({
            let (status, slot) = settle_spec(outcome);
            &&& status.repr == PENDING_REPR <==> slot is Untouched
            &&& status.repr == COMPLETE_REPR <==> slot is Value
            &&& status.repr == ERROR_REPR <==> slot is ErrorText
            &&& status.repr == PENDING_REPR || status.repr == COMPLETE_REPR || status.repr == ERROR_REPR
        }),
{
}

/// A future that cannot fail reports what a fallible one reports for the same value wrapped
/// in `Ok`, and so never reports the error status.
pub proof fn lemma_infallible_is_fallible_ok<T>(outcome: PollOutcome<T>)
    ensures
        settle_infallible_spec(outcome) == settle_spec(
            match outcome {
                PollOutcome::Pending => PollOutcome::<Result<T, String>>::Pending,
                PollOutcome::Ready(v) => PollOutcome::Ready(Ok(v)),
            },
        ),
        settle_infallible_spec(outcome).0.repr != ERROR_REPR,
{
}

/// What each poll reports, for every outcome: a pending future reports status `0` and leaves
/// the slot untouched; a future ready with value `v` reports `1` and writes `v`; a future that
/// failed with error text `e` reports `2` and writes exactly `e`. A future that cannot fail
/// reports the same as the fallible one for the `Ok` case.
pub proof fn lemma_poll_reports<T>(v: T, e: String)
    ensures
        settle_spec(PollOutcome::<Result<T, String>>::Pending) == (FuturePollStatus { repr: 0 }, SlotWrite::<T>::Untouched),
        settle_spec(PollOutcome::<Result<T, String>>::Ready(Ok(v))) == (FuturePollStatus { repr: 1 }, SlotWrite::Value(v)),
        settle_spec(PollOutcome::<Result<T, String>>::Ready(Err(e))) == (FuturePollStatus { repr: 2 }, SlotWrite::<T>::ErrorText(e)),
        settle_infallible_spec(PollOutcome::<T>::Pending) == (FuturePollStatus { repr: 0 }, SlotWrite::<T>::Untouched),
        settle_infallible_spec(PollOutcome::Ready(v)) == (FuturePollStatus { repr: 1 }, SlotWrite::Value(v)),
{
}

} // verus!
