//! An update, step by step: queue for the write lock, edit the object, write it, and let
//! the lock go.
//!
//! An [`UpdateSession`] decides; its owner performs each [`UpdateAction`] and hands back
//! the [`UpdateEvent`] that answers it.

use crate::error::{ZkError, ZkStructError};
use vstd::prelude::*;

verus! {

/// How long to sleep between two looks at the write lock, in milliseconds.
pub const LOCK_POLL_INTERVAL: u64 = 5;

/// How long to go on looking at the write lock, in milliseconds.
pub const LOCK_POLL_TIMEOUT: u64 = 1000;

/// How far an update has come.
#[derive(Clone, Copy, Debug)]
pub enum UpdateSession {
    /// Waits for the latch to enter the queue for the write lock.
    Enrolling,
    /// Waits to hear whether the lock is held, having slept for `total_time` milliseconds.
    Polling { total_time: u64 },
    /// Sleeps before the next look at the lock.
    Sleeping { total_time: u64 },
    /// Holds the lock; the object is to be edited.
    Editing,
    /// Holds the lock; the edited object is being written.
    Writing,
    /// The write was answered, and the lock is being let go.
    Releasing { outcome: Result<(), ZkStructError> },
    /// Over.
    Finished,
}

/// What happened.
#[derive(Clone, Copy, Debug)]
pub enum UpdateEvent {
    /// The latch entered the queue for the lock, or failed to.
    LatchStarted(Result<(), ZkError>),
    /// Whether the latch holds the lock.
    Leadership(bool),
    /// The sleep is over.
    Slept,
    /// The write was answered.
    DataSet(Result<(), ZkError>),
    /// The lock was let go, or letting go failed.
    LatchStopped(Result<(), ZkError>),
}

/// What to do next.
#[derive(Clone, Copy, Debug)]
pub enum UpdateAction {
    /// Look whether the latch holds the lock.
    PollLeadership,
    /// Sleep for so many milliseconds.
    Sleep(u64),
    /// Edit the object.
    Edit,
    /// Let the lock go.
    StopLatch,
    /// Nothing more: the update has this result.
    Finish(Result<(), ZkStructError>),
}

/// What an update reports of a write that ZooKeeper answered with `reply`.
pub open spec fn write_outcome(reply: Result<(), ZkError>) -> Result<(), ZkStructError> {
    match reply {
        Ok(_) => Ok(()),
        Err(e) => if e == ZkError::BadVersion {
            Err(ZkStructError::StaleWrite)
        } else {
            Err(ZkStructError::ZkError(e))
        },
    }
}

/// What an update reports in the end: a failed write, else a failure to let the lock go.
pub open spec fn final_outcome(
    outcome: Result<(), ZkStructError>,
    stopped: Result<(), ZkError>,
) -> Result<(), ZkStructError> {
    match (outcome, stopped) {
        (Err(failure), _) => Err(failure),
        (Ok(_), Err(e)) => Err(ZkStructError::ZkError(e)),
        (Ok(_), Ok(_)) => Ok(()),
    }
}

/// The session after `ev`, and what it then asks for; `None` if `ev` answers nothing that
/// the session waits for.
pub open spec fn update_next(s: UpdateSession, ev: UpdateEvent) -> Option<
    (UpdateSession, UpdateAction),
> {
    match (s, ev) {
        (UpdateSession::Enrolling, UpdateEvent::LatchStarted(Ok(_))) => Some(
            (UpdateSession::Polling { total_time: 0 }, UpdateAction::PollLeadership),
        ),
        (UpdateSession::Enrolling, UpdateEvent::LatchStarted(Err(e))) => Some(
            (UpdateSession::Finished, UpdateAction::Finish(Err(ZkStructError::ZkError(e)))),
        ),
        (UpdateSession::Polling { total_time }, UpdateEvent::Leadership(held)) => if held {
            Some((UpdateSession::Editing, UpdateAction::Edit))
        } else {
            Some(
                (UpdateSession::Sleeping { total_time }, UpdateAction::Sleep(LOCK_POLL_INTERVAL)),
            )
        },
        (UpdateSession::Sleeping { total_time }, UpdateEvent::Slept) => if total_time
            > LOCK_POLL_TIMEOUT {
            Some(
                (
                    UpdateSession::Finished,
                    UpdateAction::Finish(Err(ZkStructError::LockAcquireTimeout)),
                ),
            )
        } else {
            Some(
                (
                    UpdateSession::Polling { total_time: (total_time + LOCK_POLL_INTERVAL) as u64 },
                    UpdateAction::PollLeadership,
                ),
            )
        },
        (UpdateSession::Writing, UpdateEvent::DataSet(reply)) => Some(
            (
                UpdateSession::Releasing { outcome: write_outcome(reply) },
                UpdateAction::StopLatch,
            ),
        ),
        (UpdateSession::Releasing { outcome }, UpdateEvent::LatchStopped(stopped)) => Some(
            (UpdateSession::Finished, UpdateAction::Finish(final_outcome(outcome, stopped))),
        ),
        _ => None,
    }
}

/// What an update reports of a write that ZooKeeper answered with `reply`.
fn outcome_of_write(reply: Result<(), ZkError>) -> (outcome: Result<(), ZkStructError>)
    ensures
        outcome == write_outcome(reply),
{
    match reply {
        Ok(()) => Ok(()),
        Err(err) => {
            if err == ZkError::BadVersion {
                Err(ZkStructError::StaleWrite)
            } else {
                Err(ZkStructError::from(err))
            }
        },
    }
}

impl UpdateSession {
    /// Takes the answer `ev` in and says what to do next. An event that answers nothing
    /// the session waits for leaves it as it is and gives `None`.
    pub fn next(&mut self, ev: UpdateEvent) -> (action: Option<UpdateAction>)
        ensures
            update_next(*old(self), ev) matches Some(next) ==> *final(self) == next.0 && action
                == Some(next.1),
            update_next(*old(self), ev) is None ==> *final(self) == *old(self) && action is None,
    {
        let (next, action) = match (*self, ev) {
            (UpdateSession::Enrolling, UpdateEvent::LatchStarted(Ok(()))) => {
                (UpdateSession::Polling { total_time: 0 }, UpdateAction::PollLeadership)
            },
            (UpdateSession::Enrolling, UpdateEvent::LatchStarted(Err(err))) => {
                (UpdateSession::Finished, UpdateAction::Finish(Err(ZkStructError::from(err))))
            },
            (UpdateSession::Polling { total_time }, UpdateEvent::Leadership(held)) => {
                if held {
                    (UpdateSession::Editing, UpdateAction::Edit)
                } else {
                    (UpdateSession::Sleeping { total_time }, UpdateAction::Sleep(LOCK_POLL_INTERVAL))
                }
            },
            (UpdateSession::Sleeping { total_time }, UpdateEvent::Slept) => {
                if total_time > LOCK_POLL_TIMEOUT {
                    (
                        UpdateSession::Finished,
                        UpdateAction::Finish(Err(ZkStructError::LockAcquireTimeout)),
                    )
                } else {
                    (
                        UpdateSession::Polling { total_time: total_time + LOCK_POLL_INTERVAL },
                        UpdateAction::PollLeadership,
                    )
                }
            },
            (UpdateSession::Writing, UpdateEvent::DataSet(reply)) => {
                (
                    UpdateSession::Releasing { outcome: outcome_of_write(reply) },
                    UpdateAction::StopLatch,
                )
            },
            (UpdateSession::Releasing { outcome }, UpdateEvent::LatchStopped(stopped)) => {
                let result = match outcome {
                    Err(failure) => Err(failure),
                    Ok(()) => match stopped {
                        Err(err) => Err(ZkStructError::from(err)),
                        Ok(()) => Ok(()),
                    },
                };
                (UpdateSession::Finished, UpdateAction::Finish(result))
            },
            _ => {
                return None;
            },
        };
        *self = next;
        Some(action)
    }
}

} // verus!
