//! What the two write guarantees rest on: an update always writes over the latest version
//! of the object, and only one update takes place at a time.

use crate::error::{ZkError, ZkStructError};
use crate::state::{is_pull, ZkStateView};
use crate::update::{
    final_outcome, update_next, write_outcome, UpdateAction, UpdateEvent, UpdateSession,
    LOCK_POLL_INTERVAL, LOCK_POLL_TIMEOUT,
};
use serde_json::Value;
use vstd::prelude::*;

verus! {

/// A node as ZooKeeper keeps it.
pub struct RemoteNode {
    pub data: Seq<u8>,
    pub version: int,
}

/// What a conditional write does to a node, and how ZooKeeper answers it. `-1` and no
/// version at all stand for any version.
pub open spec fn remote_set(node: RemoteNode, data: Seq<u8>, version: Option<i32>) -> (
    RemoteNode,
    Result<(), ZkError>,
) {
    if version is None || version == Some(-1i32) || version == Some(node.version as i32)
        && i32::MIN <= node.version <= i32::MAX {
        (RemoteNode { data, version: node.version + 1 }, Ok(()))
    } else {
        (node, Err(ZkError::BadVersion))
    }
}

/// One step of an update: an answer that the session takes in, or the edit that it asks
/// for.
pub enum UpdateStep {
    Event(UpdateEvent),
    Edit,
}

/// The session after one step; `None` if the session does not allow the step.
pub open spec fn update_step(s: UpdateSession, step: UpdateStep) -> Option<UpdateSession> {
    match step {
        UpdateStep::Event(ev) => match update_next(s, ev) {
            Some(next) => Some(next.0),
            None => None,
        },
        UpdateStep::Edit => if s is Editing {
            Some(UpdateSession::Writing)
        } else {
            None
        },
    }
}

/// The session after all of `steps`, from the start of the update; `None` if one of them
/// is not allowed.
pub open spec fn update_run(steps: Seq<UpdateStep>) -> Option<UpdateSession>
    decreases steps.len(),
{
    if steps.len() == 0 {
        Some(UpdateSession::Enrolling)
    } else {
        match update_run(steps.drop_last()) {
            Some(s) => update_step(s, steps.last()),
            None => None,
        }
    }
}

/// How often the object was edited in `steps`.
pub open spec fn edits(steps: Seq<UpdateStep>) -> nat
    decreases steps.len(),
{
    if steps.len() == 0 {
        0
    } else {
        edits(steps.drop_last()) + if steps.last() is Edit {
            1nat
        } else {
            0nat
        }
    }
}

/// What the steps so far say about the session that they lead to.
proof fn lemma_update_run(steps: Seq<UpdateStep>)
    requires
        update_run(steps) is Some,
    ensures
        edits(steps) <= 1,
        update_run(steps) matches Some(s) ==> {
            &&& s is Enrolling || s is Polling || s is Sleeping || s is Editing ==> edits(steps)
                == 0
            &&& s is Writing || s is Releasing ==> edits(steps) == 1
            &&& s is Editing ==> steps.len() > 0 && steps.last() == UpdateStep::Event(
                UpdateEvent::Leadership(true),
            )
            &&& s matches UpdateSession::Releasing { outcome } ==> exists|reply: Result<(), ZkError>|
                steps.contains(UpdateStep::Event(UpdateEvent::DataSet(reply))) && outcome
                    == #[trigger] write_outcome(reply)
        },
    decreases steps.len(),
{
    if steps.len() > 0 {
        let before = steps.drop_last();
        lemma_update_run(before);
        assert(steps.contains(steps.last()));
    }
}

/// Everything that happened before a step was allowed stays allowed.
proof fn lemma_run_of_prefix(steps: Seq<UpdateStep>, n: int)
    requires
        update_run(steps) is Some,
        0 <= n <= steps.len(),
    ensures
        update_run(steps.take(n)) is Some,
    decreases steps.len() - n,
{
    if n < steps.len() {
        lemma_run_of_prefix(steps, n + 1);
        assert(steps.take(n + 1).drop_last() =~= steps.take(n));
    } else {
        assert(steps.take(n) =~= steps);
    }
}

/// The object is edited only right after ZooKeeper said that this update holds the write
/// lock.
pub proof fn law_edit_follows_the_lock(steps: Seq<UpdateStep>, i: int)
    requires
        update_run(steps) is Some,
        0 <= i < steps.len(),
        steps[i] is Edit,
    ensures
        i > 0,
        steps[i - 1] == UpdateStep::Event(UpdateEvent::Leadership(true)),
{
    lemma_run_of_prefix(steps, i + 1);
    let upto = steps.take(i + 1);
    assert(upto.drop_last() =~= steps.take(i));
    lemma_update_run(steps.take(i));
}

/// However an update goes, it edits the object at most once.
pub proof fn law_edited_at_most_once(steps: Seq<UpdateStep>)
    requires
        update_run(steps) is Some,
    ensures
        edits(steps) <= 1,
{
    lemma_update_run(steps);
}

/// An update that reports success edited the object once, and ZooKeeper accepted the
/// write.
pub proof fn law_success_is_committed(steps: Seq<UpdateStep>, s: UpdateSession, ev: UpdateEvent)
    requires
        update_run(steps) == Some(s),
        update_next(s, ev) matches Some(next) && next.1 == UpdateAction::Finish(Ok(())),
    ensures
        edits(steps) == 1,
        steps.contains(UpdateStep::Event(UpdateEvent::DataSet(Ok(())))),
{
    lemma_update_run(steps);
    let outcome = s->outcome;
    let reply = choose|reply: Result<(), ZkError>|
        steps.contains(UpdateStep::Event(UpdateEvent::DataSet(reply))) && outcome
            == #[trigger] write_outcome(reply);
    assert(reply->Ok_0 == ());
}

/// The first write guarantee: the write of an update that edited version `epoch` takes
/// place exactly if that is still the version in ZooKeeper. Otherwise the node stays as it
/// is, and the update reports a stale write, whatever becomes of the lock. A version of
/// `-1` is left out: ZooKeeper takes it for any version, and gives it to no node.
pub proof fn law_only_the_latest_version_is_written(
    node: RemoteNode,
    data: Seq<u8>,
    epoch: i32,
    stopped: Result<(), ZkError>,
)
    requires
        epoch != -1,
        i32::MIN <= node.version <= i32::MAX,
    ensures
        ({
            let (after, reply) = remote_set(node, data, Some(epoch));
            let outcome = write_outcome(reply);
            &&& update_next(UpdateSession::Writing, UpdateEvent::DataSet(reply)) == Some(
                (UpdateSession::Releasing { outcome }, UpdateAction::StopLatch),
            )
            &&& node.version == epoch ==> after.data == data && after.version == epoch + 1
                && outcome == Ok::<(), ZkStructError>(())
            &&& node.version != epoch ==> after == node && update_next(
                UpdateSession::Releasing { outcome },
                UpdateEvent::LatchStopped(stopped),
            ) == Some(
                (
                    UpdateSession::Finished,
                    UpdateAction::Finish(Err(ZkStructError::StaleWrite)),
                ),
            )
        }),
{
}

/// An accepted write leaves the writer behind: until the object is pulled again, its next
/// write is refused as stale, and changes nothing.
pub proof fn law_next_write_needs_a_pull(
    node: RemoteNode,
    first: Seq<u8>,
    second: Seq<u8>,
    epoch: i32,
)
    requires
        epoch != -1,
        epoch < i32::MAX,
        node.version == epoch,
    ensures
        ({
            let (after, _) = remote_set(node, first, Some(epoch));
            let (again, reply) = remote_set(after, second, Some(epoch));
            again == after && write_outcome(reply) == Err::<(), ZkStructError>(
                ZkStructError::StaleWrite,
            )
        }),
        epoch + 1 != -1 ==> ({
            let (after, _) = remote_set(node, first, Some(epoch));
            let (again, reply) = remote_set(after, second, Some(after.version as i32));
            again.data == second && write_outcome(reply) == Ok::<(), ZkStructError>(())
        }),
{
}

/// An instance that pulled what ZooKeeper holds can write next: its write is conditional on
/// the version that it pulled, and is accepted while nobody else has written.
pub proof fn law_pull_allows_the_next_write<T>(
    node: RemoteNode,
    pre: ZkStateView<T>,
    post: ZkStateView<T>,
    local: Value,
    remote: Value,
    data: Seq<u8>,
)
    requires
        i32::MIN <= node.version <= i32::MAX,
        is_pull(pre, post, local, remote, node.version as i32),
    ensures
        ({
            let (after, reply) = remote_set(node, data, Some(post.epoch));
            after.data == data && after.version == node.version + 1 && write_outcome(reply) == Ok::<
                (),
                ZkStructError,
            >(())
        }),
{
}

/// A failed write is what an update reports, whether or not the lock could be let go; and
/// a failure to let the lock go is reported where the write succeeded.
pub proof fn law_failures_are_reported(
    reply: Result<(), ZkError>,
    stopped: Result<(), ZkError>,
)
    ensures
        final_outcome(write_outcome(reply), stopped) is Ok <==> reply is Ok && stopped is Ok,
        reply == Err::<(), ZkError>(ZkError::BadVersion) <==> final_outcome(
            write_outcome(reply),
            stopped,
        ) == Err::<(), ZkStructError>(ZkStructError::StaleWrite),
{
}

/// Several updates that queue at one lock, and which of them holds it.
pub struct Writers {
    pub holder: Option<int>,
    pub sessions: Map<int, UpdateSession>,
}

/// Whether a session is between getting the lock and the answer to its write.
pub open spec fn is_writing(s: UpdateSession) -> bool {
    s is Editing || s is Writing
}

/// Whether every session that edits or writes holds the lock.
pub open spec fn lock_is_respected(w: Writers) -> bool {
    forall|i: int|
        #![trigger w.sessions[i]]
        w.sessions.dom().contains(i) && is_writing(w.sessions[i]) ==> w.holder == Some(i)
}

/// Session `i` takes one step. What it hears about the lock is true.
pub open spec fn session_steps(pre: Writers, post: Writers, i: int, step: UpdateStep) -> bool {
    &&& pre.sessions.dom().contains(i)
    &&& step matches UpdateStep::Event(UpdateEvent::Leadership(held)) ==> held == (pre.holder
        == Some(i))
    &&& update_step(pre.sessions[i], step) matches Some(next) && post == (Writers {
        sessions: pre.sessions.insert(i, next),
        ..pre
    })
}

/// The lock passes from a session that neither edits nor writes, or from nobody, to
/// another or to nobody.
pub open spec fn lock_passes(pre: Writers, post: Writers, holder: Option<int>) -> bool {
    &&& pre.holder matches Some(i) ==> !(pre.sessions.dom().contains(i) && is_writing(
        pre.sessions[i],
    ))
    &&& post == (Writers { holder, ..pre })
}

/// A new update starts.
pub open spec fn session_starts(pre: Writers, post: Writers, i: int) -> bool {
    &&& !pre.sessions.dom().contains(i)
    &&& post == (Writers { sessions: pre.sessions.insert(i, UpdateSession::Enrolling), ..pre })
}

/// The second write guarantee: at most one update edits or writes at a time, as long as
/// the lock has one holder and does not pass on from an update that edits or writes. This
/// holds at the start, when nobody updates, and every step keeps it.
pub proof fn law_one_update_at_a_time(
    pre: Writers,
    post: Writers,
    i: int,
    step: UpdateStep,
    holder: Option<int>,
)
    ensures
        pre.sessions == Map::<int, UpdateSession>::empty() ==> lock_is_respected(pre),
        lock_is_respected(pre) && (session_steps(pre, post, i, step) || lock_passes(
            pre,
            post,
            holder,
        ) || session_starts(pre, post, i)) ==> lock_is_respected(post),
        lock_is_respected(pre) ==> forall|j: int, k: int|
            #![trigger pre.sessions[j], pre.sessions[k]]
            pre.sessions.dom().contains(j) && pre.sessions.dom().contains(k) && is_writing(
                pre.sessions[j],
            ) && is_writing(pre.sessions[k]) ==> j == k,
{
    if lock_is_respected(pre) && (session_steps(pre, post, i, step) || lock_passes(
        pre,
        post,
        holder,
    ) || session_starts(pre, post, i)) {
        assert forall|j: int|
            #![trigger post.sessions[j]]
            post.sessions.dom().contains(j) && is_writing(post.sessions[j]) implies post.holder
            == Some(j) by {
            if j != i || lock_passes(pre, post, holder) {
                assert(pre.sessions[j] == post.sessions[j]);
            }
        }
    }
}

/// The session after `n` looks at a lock that is never free, each followed by a sleep.
pub open spec fn after_denied_polls(n: nat) -> Option<UpdateSession>
    decreases n,
{
    if n == 0 {
        Some(UpdateSession::Polling { total_time: 0 })
    } else {
        match after_denied_polls((n - 1) as nat) {
            Some(s) => match update_step(
                s,
                UpdateStep::Event(UpdateEvent::Leadership(false)),
            ) {
                Some(asleep) => update_step(asleep, UpdateStep::Event(UpdateEvent::Slept)),
                None => None,
            },
            None => None,
        }
    }
}

proof fn lemma_denied_polls(n: nat)
    requires
        n * LOCK_POLL_INTERVAL <= LOCK_POLL_TIMEOUT + LOCK_POLL_INTERVAL,
    ensures
        after_denied_polls(n) == Some(
            UpdateSession::Polling { total_time: (n * LOCK_POLL_INTERVAL) as u64 },
        ),
    decreases n,
{
    if n > 0 {
        lemma_denied_polls((n - 1) as nat);
    }
}

/// An update that never gets the lock looks at it 202 times, sleeping five milliseconds
/// after each look, and then gives up, reporting that the lock could not be had in time.
pub proof fn law_lock_wait_is_bounded()
    ensures
        forall|n: nat|
            n <= 201 ==> #[trigger] after_denied_polls(n) == Some(
                UpdateSession::Polling { total_time: (5 * n) as u64 },
            ),
        update_next(UpdateSession::Polling { total_time: 1005 }, UpdateEvent::Leadership(false))
            == Some((UpdateSession::Sleeping { total_time: 1005 }, UpdateAction::Sleep(5))),
        update_next(UpdateSession::Sleeping { total_time: 1005 }, UpdateEvent::Slept) == Some(
            (
                UpdateSession::Finished,
                UpdateAction::Finish(Err(ZkStructError::LockAcquireTimeout)),
            ),
        ),
        after_denied_polls(202) == Some(UpdateSession::Finished),
{
    assert forall|n: nat| n <= 201 implies #[trigger] after_denied_polls(n) == Some(
        UpdateSession::Polling { total_time: (5 * n) as u64 },
    ) by {
        lemma_denied_polls(n);
    }
    assert(after_denied_polls(201) == Some(UpdateSession::Polling { total_time: 1005 }));
}

/// A lock that becomes free in time is taken: an update that is denied the lock up to 201
/// times and then hears that it has it edits the object.
pub proof fn law_lock_that_becomes_free_is_taken(denied: nat)
    requires
        denied <= 201,
    ensures
        after_denied_polls(denied) matches Some(s) && update_next(s, UpdateEvent::Leadership(true))
            == Some((UpdateSession::Editing, UpdateAction::Edit)),
{
    law_lock_wait_is_bounded();
}

/// An update that gets the lock edits, however long it waited; and nothing else makes it
/// edit.
pub proof fn law_lock_leads_to_the_edit(s: UpdateSession, ev: UpdateEvent)
    ensures
        s is Polling ==> update_next(s, UpdateEvent::Leadership(true)) == Some(
            (UpdateSession::Editing, UpdateAction::Edit),
        ),
        update_next(s, ev) matches Some(next) ==> (next.1 is Edit <==> s is Polling && ev
            == UpdateEvent::Leadership(true)) && (next.0 is Editing <==> next.1 is Edit),
{
}

/// That the lock could not be had in time is reported exactly when an update wakes up that
/// had slept for more than a second before; so never to an update that has the lock. An
/// update that lets the lock go reports what became of its write.
pub proof fn law_timeout_comes_after_the_limit(s: UpdateSession, ev: UpdateEvent)
    requires
        s !is Releasing,
    ensures
        (update_next(s, ev) matches Some(next) && next.1 == UpdateAction::Finish(
            Err(ZkStructError::LockAcquireTimeout),
        )) <==> ev is Slept && (s matches UpdateSession::Sleeping { total_time } && total_time
            > 1000),
{
}

/// An update that does not have the lock sleeps for five milliseconds and, up to the limit,
/// looks again, with the five milliseconds added to the time that it waited.
pub proof fn law_waiting_goes_on_up_to_the_limit(total_time: u64)
    ensures
        update_next(UpdateSession::Polling { total_time }, UpdateEvent::Leadership(false)) == Some(
            (UpdateSession::Sleeping { total_time }, UpdateAction::Sleep(5)),
        ),
        total_time <= 1000 ==> update_next(
            UpdateSession::Sleeping { total_time },
            UpdateEvent::Slept,
        ) == Some(
            (
                UpdateSession::Polling { total_time: (total_time + 5) as u64 },
                UpdateAction::PollLeadership,
            ),
        ),
        total_time > 1000 ==> update_next(
            UpdateSession::Sleeping { total_time },
            UpdateEvent::Slept,
        ) == Some(
            (
                UpdateSession::Finished,
                UpdateAction::Finish(Err(ZkStructError::LockAcquireTimeout)),
            ),
        ),
{
}

/// An update that is in the queue looks at the lock, having waited for no time; one that
/// could not get into the queue reports why.
pub proof fn law_update_begins_in_the_queue(error: ZkError)
    ensures
        update_next(UpdateSession::Enrolling, UpdateEvent::LatchStarted(Ok(()))) == Some(
            (UpdateSession::Polling { total_time: 0 }, UpdateAction::PollLeadership),
        ),
        update_next(UpdateSession::Enrolling, UpdateEvent::LatchStarted(Err(error))) == Some(
            (UpdateSession::Finished, UpdateAction::Finish(Err(ZkStructError::ZkError(error)))),
        ),
{
}

/// After its write an update lets the lock go, however the write was answered, and then
/// reports: success if both went well; a stale write if ZooKeeper had another version; any
/// other refusal of the write as it is; and else why the lock could not be let go.
pub proof fn law_update_reports_its_write(
    reply: Result<(), ZkError>,
    stopped: Result<(), ZkError>,
)
    ensures
        update_next(UpdateSession::Writing, UpdateEvent::DataSet(reply)) matches Some(next)
            && next.1 is StopLatch && (update_next(
            next.0,
            UpdateEvent::LatchStopped(stopped),
        ) matches Some(end) && end.0 is Finished && (end.1 matches UpdateAction::Finish(result)
            && {
            &&& result is Ok <==> reply is Ok && stopped is Ok
            &&& reply matches Err(e) ==> (e == ZkError::BadVersion ==> result == Err::<
                (),
                ZkStructError,
            >(ZkStructError::StaleWrite))
            &&& reply matches Err(e) ==> (e != ZkError::BadVersion ==> result == Err::<
                (),
                ZkStructError,
            >(ZkStructError::ZkError(e)))
            &&& reply is Ok ==> (stopped matches Err(e) ==> result == Err::<(), ZkStructError>(
                ZkStructError::ZkError(e),
            ))
        })),
{
}

/// An update that lets the lock go keeps the failure that it has to report; one that has
/// none reports whether the lock could be let go.
pub proof fn law_failure_outlives_the_lock(
    outcome: Result<(), ZkStructError>,
    stopped: Result<(), ZkError>,
)
    ensures
        update_next(
            UpdateSession::Releasing { outcome },
            UpdateEvent::LatchStopped(stopped),
        ) matches Some(end) && end.0 is Finished && (end.1 matches UpdateAction::Finish(result)
            && {
            &&& outcome matches Err(failure) ==> result == Err::<(), ZkStructError>(failure)
            &&& outcome is Ok ==> (result is Ok <==> stopped is Ok)
            &&& outcome is Ok ==> (stopped matches Err(e) ==> result == Err::<(), ZkStructError>(
                ZkStructError::ZkError(e),
            ))
        }),
{
}

/// An update hears only the answer to what it asked for: each action has its answer, and an
/// update that is to edit, or is over, hears nothing.
pub proof fn law_only_answers_are_heard(s: UpdateSession, ev: UpdateEvent)
    ensures
        update_next(s, ev) is Some <==> match s {
            UpdateSession::Enrolling => ev is LatchStarted,
            UpdateSession::Polling { .. } => ev is Leadership,
            UpdateSession::Sleeping { .. } => ev is Slept,
            UpdateSession::Writing => ev is DataSet,
            UpdateSession::Releasing { .. } => ev is LatchStopped,
            UpdateSession::Editing => false,
            UpdateSession::Finished => false,
        },
        update_next(s, ev) matches Some(next) ==> match next.1 {
            UpdateAction::PollLeadership => next.0 is Polling,
            UpdateAction::Sleep(_) => next.0 is Sleeping,
            UpdateAction::Edit => next.0 is Editing,
            UpdateAction::StopLatch => next.0 is Releasing,
            UpdateAction::Finish(_) => next.0 is Finished,
        },
{
}

} // verus!
