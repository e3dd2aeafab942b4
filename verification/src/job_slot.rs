//! The state of an encode-job slot: it keeps only the newest job, and once
//! shut down it refuses every take. Locking and waiting are the caller's.
use vstd::prelude::*;
use crate::core_types::ShutdownError;

verus! {

/// A slot that holds at most one pending job (the newest one set) and a
/// shutdown flag.
pub struct JobSlot<T> {
    job: Option<T>,
    shut_down: bool,
}

/// The slot seen as its pending job and its shutdown flag.
pub open spec fn slot_set<T>(s: (Option<T>, bool), job: T) -> (Option<T>, bool) {
    (Some(job), s.1)
}

/// Taking from a slot: an error once shut down (nothing changes), otherwise
/// the pending job, if any, which leaves the slot empty.
pub open spec fn slot_take<T>(s: (Option<T>, bool)) -> (Option<Result<T, ShutdownError>>, (
    Option<T>,
    bool,
)) {
    if s.1 {
        (Some(Err(ShutdownError)), s)
    } else {
        match s.0 {
            Some(j) => (Some(Ok(j)), (None, false)),
            None => (None, s),
        }
    }
}

impl<T> View for JobSlot<T> {
    type V = (Option<T>, bool);

    closed spec fn view(&self) -> (Option<T>, bool) {
        (self.job, self.shut_down)
    }
}

impl<T> JobSlot<T> {
    /// An empty slot that is not shut down.
    pub fn new() -> (r: Self)
        ensures
            r@ == (None::<T>, false),
    {
        JobSlot { job: None, shut_down: false }
    }

    /// Marks the slot as shut down; a pending job stays but can no longer
    /// be taken.
    pub fn shutdown(&mut self)
        ensures
            final(self)@ == (old(self)@.0, true),
    {
        self.shut_down = true;
    }

    /// Sets the newest job, replacing any older one.
    pub fn set(&mut self, job: T)
        ensures
            final(self)@ == slot_set(old(self)@, job),
    {
        self.job = Some(job);
    }

    /// Whether the slot has been shut down.
    pub fn is_shut_down(&self) -> (r: bool)
        ensures
            r == self@.1,
    {
        self.shut_down
    }

    /// Takes the pending job without waiting: `Some(Err(ShutdownError))`
    /// once shut down, `Some(Ok(job))` when a job is pending, `None`
    /// otherwise.
    pub fn try_take(&mut self) -> (r: Option<Result<T, ShutdownError>>)
        ensures
            (r, final(self)@) == slot_take(old(self)@),
    {
        if self.shut_down {
            return Some(Err(ShutdownError));
        }
        match self.job.take() {
            Some(job) => Some(Ok(job)),
            None => None,
        }
    }
}

/// Law: only the newest job is kept; of two jobs set one after the other,
/// a take returns the second.
pub proof fn law_latest_job_wins<T>(s: (Option<T>, bool), first: T, second: T)
    requires
        !s.1,
    ensures
        slot_take(slot_set(slot_set(s, first), second)).0 == Some(
            Ok::<T, ShutdownError>(second),
        ),
{
}

/// Law: a taken job is gone; the next take finds nothing until a new job
/// is set.
pub proof fn law_take_empties<T>(s: (Option<T>, bool))
    requires
        slot_take(s).0 matches Some(Ok(_)),
    ensures
        slot_take(slot_take(s).1).0 is None,
{
}

/// Law: shutdown is final; after it every take reports the shutdown,
/// whatever jobs are set.
pub proof fn law_shutdown_is_final<T>(s: (Option<T>, bool), job: T)
    requires
        s.1,
    ensures
        slot_take(s).0 == Some(Err::<T, ShutdownError>(ShutdownError)),
        slot_take(slot_set(s, job)).0 == Some(Err::<T, ShutdownError>(ShutdownError)),
        slot_take(s).1 == s,
{
}

} // verus!
