//! One pass through a critical section: requested, entered, left.
//!
//! A section is a value that changes its type as it goes on. `Pending` has
//! the handle of its key and waits; `Held` owns the token of exclusive access
//! for as long as the operation runs; `Report` is what is left when the token
//! is gone. The token lives nowhere but inside a `Held`, so every way out of
//! the section gives the lock back: `leave`, and the drop of a `Held` that a
//! failure or a cancellation unwinds.

use crate::clock::{elapsed_millis, is_time_of_day, read_clock, TimeOfDay, MAX_SPAN_MILLIS};
use crate::handle::LockHandle;
use crate::protocol::SectionView;
use crate::registry::{answered, numbers, LockRegistry};
use tokio::sync::OwnedMutexGuard;
use vstd::prelude::*;

verus! {

/// Why a section was left.
#[derive(Clone, Copy, Debug, PartialEq, Eq, Structural)]
pub enum Exit {
    /// The operation returned its result.
    Completed,
    /// The operation raised a failure.
    Failed,
    /// The task was cancelled while the operation ran.
    Cancelled,
}

/// A section that has the handle of its key and waits to acquire it.
pub struct Pending {
    key: String,
    handle: LockHandle,
}

/// A section that holds its lock: the operation runs while this value
/// lives.
pub struct Held {
    key: String,
    handle: LockHandle,
    token: OwnedMutexGuard<i32>,
    since: Option<TimeOfDay>,
}

/// What is left of a section that gave its lock back.
#[derive(Clone, Debug)]
pub struct Report {
    /// The key of the section.
    pub key: String,
    /// The number of the handle that it held.
    pub lock: usize,
    /// Why it was left.
    pub exit: Exit,
    /// The milliseconds for which it held the lock, never negative: from
    /// the time of day at which it acquired the lock to the time of day at
    /// which it gave the lock back, the latter taken for a time of the
    /// following day where it is the earlier one. None where the clock could
    /// not be read at either end.
    pub held_ms: Option<i64>,
}

/// Whether `reading` is what a look at the clock may give: nothing, or a
/// time of day.
pub open spec fn clock_reading(reading: Option<TimeOfDay>) -> bool {
    reading matches Some(now) ==> is_time_of_day(now.secs(), now.frac())
}

/// The milliseconds for which a lock was held that was acquired at `since`
/// and given back at `now`, where both times are known.
pub open spec fn held_for(since: Option<TimeOfDay>, now: Option<TimeOfDay>) -> Option<i64> {
    match (since, now) {
        (Some(from), Some(to)) => Some(elapsed_millis(from, to) as i64),
        _ => None,
    }
}

impl View for Pending {
    type V = SectionView;

    closed spec fn view(&self) -> SectionView {
        SectionView::waiting(self.key@, self.handle.id() as nat)
    }
}

impl View for Held {
    type V = SectionView;

    closed spec fn view(&self) -> SectionView {
        SectionView::waiting(self.key@, self.handle.id() as nat).entered()
    }
}

impl View for Report {
    type V = SectionView;

    open spec fn view(&self) -> SectionView {
        SectionView::waiting(self.key@, self.lock as nat).left()
    }
}

impl Pending {
    /// The handle that the section waits for.
    pub closed spec fn handle_spec(&self) -> LockHandle {
        self.handle
    }

    /// A section for `key`, with the key's handle from the registry, which
    /// makes the handle if the key is new.
    pub fn request(registry: &mut LockRegistry, key: &str) -> (pending: Pending)
        ensures
            answered(old(registry)@, key@, pending.handle(), final(registry)@),
            old(registry).wf() ==> final(registry).wf(),
            pending@ == SectionView::waiting(key@, numbers(final(registry)@)[key@]),
    {
        let handle = registry.get_or_create(key);
        Pending { key: key.to_owned(), handle }
    }

    /// The key of the section.
    pub fn key(&self) -> (key: &str)
        ensures
            key@ == self@.key,
    {
        self.key.as_str()
    }

    /// The handle that the section waits for.
    #[verifier::when_used_as_spec(handle_spec)]
    pub fn handle(&self) -> (handle: LockHandle)
        ensures
            handle == self.handle_spec(),
            handle.id() == self@.lock,
    {
        self.handle.clone()
    }

    /// The section once `token`, acquired from its handle's primitive at
    /// the time `now`, is in its keeping; `now` is none where the time is
    /// not known.
    pub fn enter_at(self, token: OwnedMutexGuard<i32>, now: Option<TimeOfDay>) -> (held: Held)
        ensures
            held@ == self@.entered(),
            held.handle() == self.handle(),
            held.token() == token,
            held.since() == now,
    {
        Held { key: self.key, handle: self.handle, token, since: now }
    }

    /// The section once `token`, acquired from its handle's primitive just
    /// now, is in its keeping. The time of entry is what the clock shows, and
    /// none where the clock cannot be read.
    pub fn enter(self, token: OwnedMutexGuard<i32>) -> (held: Held)
        ensures
            held@ == self@.entered(),
            held.handle() == self.handle(),
            held.token() == token,
            clock_reading(held.since()),
    {
        let now = read_clock();
        self.enter_at(token, now)
    }
}

impl Held {
    /// The handle whose primitive the section holds.
    pub closed spec fn handle_spec(&self) -> LockHandle {
        self.handle
    }

    /// The token of exclusive access.
    pub closed spec fn token(&self) -> OwnedMutexGuard<i32> {
        self.token
    }

    /// When the section acquired its lock, where that is known.
    pub closed spec fn since_spec(&self) -> Option<TimeOfDay> {
        self.since
    }

    /// Whether `report` is what leaving the section for the reason `exit`
    /// at the time `now` gives: the section's key and lock, the reason, and
    /// the whole milliseconds since the section was entered, where both
    /// times are known.
    pub open spec fn left_with(&self, exit: Exit, now: Option<TimeOfDay>, report: Report) -> bool {
        &&& report@ == self@.left()
        &&& report.key@ == self@.key
        &&& report.lock == self.handle().id()
        &&& report.exit == exit
        &&& report.held_ms == held_for(self.since(), now)
    }

    /// The key of the section.
    pub fn key(&self) -> (key: &str)
        ensures
            key@ == self@.key,
    {
        self.key.as_str()
    }

    /// The handle whose primitive the section holds.
    #[verifier::when_used_as_spec(handle_spec)]
    pub fn handle(&self) -> (handle: LockHandle)
        ensures
            handle == self.handle_spec(),
            handle.id() == self@.lock,
    {
        self.handle.clone()
    }

    /// When the section acquired its lock, where that is known.
    #[verifier::when_used_as_spec(since_spec)]
    pub fn since(&self) -> (since: Option<TimeOfDay>)
        ensures
            since == self.since_spec(),
    {
        self.since
    }

    /// Gives the lock back, whatever the reason, and reports on the section
    /// as of the time `now`; `now` is none where the time is not known.
    pub fn leave_at(self, exit: Exit, now: Option<TimeOfDay>) -> (report: Report)
        ensures
            self.left_with(exit, now, report),
            report.held_ms matches Some(ms) ==> 0 <= ms < MAX_SPAN_MILLIS,
    {
        let held_ms = match (self.since, now) {
            (Some(from), Some(to)) => Some(from.elapsed_until(&to)),
            _ => None,
        };
        Report { key: self.key, lock: self.handle.id(), exit, held_ms }
    }

    /// Gives the lock back, whatever the reason, and reports on the section
    /// as of now: with the time that the clock shows, and without a time
    /// where the clock cannot be read.
    pub fn leave(self, exit: Exit) -> (report: Report)
        ensures
            exists|now: Option<TimeOfDay>|
                clock_reading(now) && #[trigger] self.left_with(exit, now, report),
            report.held_ms matches Some(ms) ==> 0 <= ms < MAX_SPAN_MILLIS,
    {
        let now = read_clock();
        self.leave_at(exit, now)
    }

    /// Runs `operation` while the lock is held, gives the lock back
    /// whether it succeeded or failed, and hands its result on unchanged. The
    /// report is as of the time that the clock shows then, and without a time
    /// where the clock cannot be read.
    pub fn run<T, E, F: FnOnce() -> Result<T, E>>(self, operation: F) -> (done: (
        Report,
        Result<T, E>,
    ))
        requires
            operation.requires(()),
        ensures
            operation.ensures((), done.1),
            exists|now: Option<TimeOfDay>|
                clock_reading(now) && #[trigger] self.left_with(
                    exit_of(done.1.is_ok()),
                    now,
                    done.0,
                ),
            done.0.held_ms matches Some(ms) ==> 0 <= ms < MAX_SPAN_MILLIS,
    {
        let outcome = operation();
        let exit = exit_of(outcome.is_ok());
        let report = self.leave(exit);
        proof {
            let now = choose|now: Option<TimeOfDay>|
                clock_reading(now) && #[trigger] self.left_with(exit, now, report);
            assert(self.left_with(exit_of((report, outcome).1.is_ok()), now, (report, outcome).0));
        }
        (report, outcome)
    }
}

/// Why a section is left whose operation has returned: because it
/// completed where it succeeded, because it failed where it did not.
pub open spec fn exit_of_spec(succeeded: bool) -> Exit {
    if succeeded {
        Exit::Completed
    } else {
        Exit::Failed
    }
}

/// Why a section is left whose operation has returned.
#[verifier::when_used_as_spec(exit_of_spec)]
pub fn exit_of(succeeded: bool) -> (exit: Exit)
    ensures
        exit == exit_of_spec(succeeded),
{
    if succeeded {
        Exit::Completed
    } else {
        Exit::Failed
    }
}

} // verus!
