//! The local side of a shared object.

use crate::change::{
    change_views, changes_between, exchanged, only_changes, recorded_calls, reported, turns_back,
    Change, ChangeView,
};
use crate::clock::{clock_gave, is_clock_time, whole_millis, Timestamp};
use crate::error::{ZkError, ZkStructError};
use crate::instance::{chance_gave, fresh_id, is_random_uuid};
use crate::paths::{
    listener_path, listeners_path, payload_path, spec_payload_path, spec_write_lock_path,
    write_lock_path,
};
use crate::payload::{json_value, parse_payload, PullError};
use crate::refresh::{
    handle_zk_watcher, spec_pull_request, spec_watch_fired, PullRequest, Refresh, WatchedEventType,
    REFRESH_INTERVAL,
};
use crate::startup::{init_next, writes_payload, CreateMode, InitAction, InitEvent, InitSession};
use crate::stream::{same_channel, same_queue, sent_through, UpdateStream};
use crate::update::UpdateSession;
use crossbeam_channel::{Receiver, Sender};
use serde_json::Value;
use treediff::value::Key;
use vstd::prelude::*;

verus! {

/// How long ago, in milliseconds, the local object may have been verified for a
/// [`ZkState::read`] to succeed.
pub const MAX_TIMING_DELTA: i64 = 30000;

/// What an instance knows besides the object.
struct InternalState {
    /// Path of the ZkStruct Dir
    zk_path: String,
    /// Known epoch of the local object. Compared to the remote epoch
    epoch: i32,
    /// Last time the inner object was sync
    timings: Timestamp,
    /// Whether the local object was edited since it was last pulled
    edited: bool,
    /// Whether a pulled object is compared with the local one
    emit_updates: bool,
    /// Where changes are reported
    stream: UpdateStream,
}

/// One instance of a shared object: the local copy, and what is known about it.
pub struct ZkState<T> {
    id: String,
    inner: T,
    state: InternalState,
}

/// What a [`ZkState`] holds.
pub struct ZkStateView<T> {
    /// The id of the instance.
    pub id: Seq<char>,
    /// The local object.
    pub inner: T,
    /// The path of the directory node.
    pub dir: Seq<char>,
    /// The remote version that the local object is known to be.
    pub epoch: i32,
    /// When the local object was last verified, in nanoseconds since the Unix epoch.
    pub synced_at: int,
    /// Whether the local object was edited since it was last pulled, or, before the first
    /// pull, since the instance was made.
    pub edited: bool,
    /// Whether a pulled object is compared with the local one.
    pub emits: bool,
    /// Every change reported so far, in order.
    pub sent: Seq<ChangeView<Key, Value>>,
}

impl InternalState {
    spec fn wf(&self) -> bool {
        self.stream.wf() && only_changes(self.stream.sent())
    }
}

impl<T> View for ZkState<T> {
    type V = ZkStateView<T>;

    closed spec fn view(&self) -> ZkStateView<T> {
        ZkStateView {
            id: self.id@,
            inner: self.inner,
            dir: self.state.zk_path@,
            epoch: self.state.epoch,
            synced_at: self.state.timings@,
            edited: self.state.edited,
            emits: self.state.emit_updates,
            sent: self.state.stream.sent(),
        }
    }
}

/// Whether the local object was verified too long before `now` to be read.
pub open spec fn is_stale<T>(s: ZkStateView<T>, now: int) -> bool {
    whole_millis(now - s.synced_at) > MAX_TIMING_DELTA
}

/// What a read at the time `now` gives; `poisoned` says whether a writer panicked while it
/// held the object.
pub open spec fn read_outcome<T>(s: ZkStateView<T>, now: int, poisoned: bool) -> Result<
    T,
    ZkStructError,
> {
    if is_stale(s, now) {
        Err(ZkStructError::StaleRead)
    } else {
        dirty_read_outcome(s, poisoned)
    }
}

/// What a read that does not ask for the age of the object gives.
pub open spec fn dirty_read_outcome<T>(s: ZkStateView<T>, poisoned: bool) -> Result<
    T,
    ZkStructError,
> {
    if poisoned {
        Err(ZkStructError::Poisoned)
    } else {
        Ok(s.inner)
    }
}

/// What a consistent read gives when ZooKeeper answers the question for the version of the
/// payload with `remote`: the object if the versions agree and it is as it was pulled, and
/// `None` if the object has to be pulled first.
pub open spec fn consistent_read_outcome<T>(
    s: ZkStateView<T>,
    remote: Result<Option<i32>, ZkError>,
    poisoned: bool,
) -> Result<Option<T>, ZkStructError> {
    if poisoned {
        Err(ZkStructError::Poisoned)
    } else {
        match remote {
            Err(e) => Err(ZkStructError::ZkError(e)),
            Ok(None) => Err(ZkStructError::ZkError(ZkError::NoNode)),
            Ok(Some(version)) => if version == s.epoch && !s.edited {
                Ok(Some(s.inner))
            } else {
                Ok(None)
            },
        }
    }
}

/// What the background check does when it finds the payload at version `remote`.
pub open spec fn refresh_outcome<T>(s: ZkStateView<T>, remote: Option<i32>) -> Refresh {
    match remote {
        None => Refresh::Skip,
        Some(version) => if version == s.epoch {
            Refresh::Verified
        } else {
            Refresh::Resync
        },
    }
}

/// What is reported when the object is pulled: the changes from the local value to the
/// remote one, unless the instance reports nothing.
pub open spec fn pulled_changes<T>(s: ZkStateView<T>, local: Value, remote: Value) -> Seq<
    ChangeView<Key, Value>,
> {
    if s.emits {
        reported(recorded_calls(local, remote))
    } else {
        Seq::empty()
    }
}

/// Whether `post` is the instance `pre` after it reported what a pull changes, from the
/// JSON value `local` to the JSON value `remote`: everything but the stream is as it was,
/// the local object too. Nothing is reported if the values are the same, and the changes
/// back are the same with the values exchanged.
pub open spec fn is_report<T>(
    pre: ZkStateView<T>,
    post: ZkStateView<T>,
    local: Value,
    remote: Value,
) -> bool {
    &&& post == ZkStateView { sent: pre.sent + pulled_changes(pre, local, remote), ..pre }
    &&& local == remote ==> post.sent == pre.sent
    &&& pre.emits ==> turns_back(local, remote)
}

/// Whether `post` is the instance `pre` after its object was replaced by one of version
/// `version`: nothing is reported.
pub open spec fn is_install<T>(
    pre: ZkStateView<T>,
    post: ZkStateView<T>,
    version: i32,
) -> bool {
    post == ZkStateView {
        inner: post.inner,
        epoch: version,
        synced_at: post.synced_at,
        edited: false,
        ..pre
    }
}

/// Whether `post` is the instance `pre` after the object was pulled at version `version`,
/// where `local` and `remote` are the JSON values of the local and of the remote object.
/// The pull reports the changes from one to the other: nothing, if they are the same; and
/// the changes back are the same with the values exchanged.
pub open spec fn is_pull<T>(
    pre: ZkStateView<T>,
    post: ZkStateView<T>,
    local: Value,
    remote: Value,
    version: i32,
) -> bool {
    &&& post == ZkStateView {
        inner: post.inner,
        epoch: version,
        synced_at: post.synced_at,
        edited: false,
        sent: pre.sent + pulled_changes(pre, local, remote),
        ..pre
    }
    &&& local == remote ==> post.sent == pre.sent
    &&& pre.emits ==> turns_back(local, remote)
}

/// Whether `post` is the instance `pre` after its object was edited, from the JSON value
/// `before` to the JSON value `after`. The edit reports the changes from one to the other:
/// nothing, if they are the same; and the changes back are the same with the values
/// exchanged.
pub open spec fn is_edit<T>(
    pre: ZkStateView<T>,
    post: ZkStateView<T>,
    before: Value,
    after: Value,
) -> bool {
    &&& post == ZkStateView {
        inner: post.inner,
        edited: true,
        sent: pre.sent + reported(recorded_calls(before, after)),
        ..pre
    }
    &&& before == after ==> post.sent == pre.sent
    &&& turns_back(before, after)
}

/// Whether `post` is the instance `pre` after it was noted that its object was verified.
pub open spec fn is_verification<T>(pre: ZkStateView<T>, post: ZkStateView<T>) -> bool {
    post == ZkStateView { synced_at: post.synced_at, ..pre }
}

/// Whether `post` is the instance `pre` after its object was pulled at version `version`,
/// whatever was pulled.
pub open spec fn is_pull_at<T>(pre: ZkStateView<T>, post: ZkStateView<T>, version: i32) -> bool {
    exists|local: Value, remote: Value| is_pull(pre, post, local, remote, version)
}

/// Whether `post` is what becomes of the instance `pre` in one step: its object is pulled,
/// or edited, or verified.
pub open spec fn is_step<T>(pre: ZkStateView<T>, post: ZkStateView<T>) -> bool {
    ||| exists|version: i32| is_pull_at(pre, post, version)
    ||| exists|before: Value, after: Value| is_edit(pre, post, before, after)
    ||| is_verification(pre, post)
}

/// Whether `states` are what one instance goes through, step by step.
pub open spec fn is_history<T>(states: Seq<ZkStateView<T>>) -> bool {
    &&& states.len() > 0
    &&& forall|i: int| 0 < i < states.len() ==> is_step(states[i - 1], #[trigger] states[i])
}

/// A request to enter the queue for the write lock.
#[derive(Debug)]
pub struct LatchRequest {
    /// Who asks.
    pub id: String,
    /// The node to queue at.
    pub path: String,
}

/// A request to write a node.
#[derive(Debug)]
pub struct WriteRequest {
    /// The node.
    pub path: String,
    /// What to write.
    pub data: Vec<u8>,
    /// The version that the node must have for the write to take place.
    pub version: Option<i32>,
}

/// Reports the changes from `a` to `b`, in the order in which a comparison finds them, and
/// nothing that did not change.
fn emit_updates(a: &Value, b: &Value, state: &mut InternalState)
    requires
        old(state).wf(),
    ensures
        final(state).wf(),
        final(state).stream.sent() == old(state).stream.sent() + reported(recorded_calls(*a, *b)),
        *a == *b ==> final(state).stream.sent() == old(state).stream.sent(),
        turns_back(*a, *b),
        forall|rx: Receiver<Change<Key, Value>>|
            final(state).stream.feeds(rx) == old(state).stream.feeds(rx),
        final(state).zk_path == old(state).zk_path,
        final(state).epoch == old(state).epoch,
        final(state).timings == old(state).timings,
        final(state).edited == old(state).edited,
        final(state).emit_updates == old(state).emit_updates,
{
    let changes = changes_between(a, b);
    let ghost all = changes@;
    let ghost start = *state;
    for change in it: changes
        invariant
            it.seq() == all,
            only_changes(change_views(all)),
            state.wf(),
            state.stream.sent() == start.stream.sent() + change_views(all.take(it.index())),
            forall|rx: Receiver<Change<Key, Value>>|
                state.stream.feeds(rx) == start.stream.feeds(rx),
            state.zk_path == start.zk_path,
            state.epoch == start.epoch,
            state.timings == start.timings,
            state.edited == start.edited,
            state.emit_updates == start.emit_updates,
    {
        proof {
            let done = all.take(it.index());
            assert(change_views(all.take(it.index() + 1)) =~= change_views(done).push(change@));
            assert(change_views(all)[it.index()] == change@);
        }
        state.stream.push(change);
    }
    assert(all.take(all.len() as int) =~= all);
}

impl<T> ZkState<T> {
    /// Whether the ends of the update stream belong together, and it holds real changes
    /// only.
    pub closed spec fn wf(&self) -> bool {
        self.state.wf()
    }

    /// Whether `rx` receives the changes of this instance.
    pub closed spec fn feeds(&self, rx: Receiver<Change<Key, Value>>) -> bool {
        self.state.stream.feeds(rx)
    }

    /// Whether the channel of the update stream can have said that `n` changes wait on it.
    pub closed spec fn counted(&self, n: usize) -> bool {
        self.state.stream.counted(n)
    }

    /// The instance `id` of the object in `zk_path`, with `initial_state` as its local
    /// object. It knows of no remote version yet, counts as verified at the time `now`,
    /// and reports changes.
    pub fn new_with(id: String, zk_path: String, initial_state: T, now: Timestamp) -> (s: ZkState<
        T,
    >)
        ensures
            s.wf(),
            s@ == (ZkStateView {
                id: id@,
                inner: initial_state,
                dir: zk_path@,
                epoch: 0,
                synced_at: now@,
                edited: false,
                emits: true,
                sent: Seq::empty(),
            }),
    {
        ZkState {
            id,
            inner: initial_state,
            state: InternalState {
                zk_path,
                epoch: 0,
                timings: now,
                edited: false,
                emit_updates: true,
                stream: UpdateStream::new(),
            },
        }
    }

    /// A new instance of the object in `zk_path`, with `initial_state` as its local
    /// object. It has an id of its own, which chance decides, knows of no remote version
    /// yet, counts as verified now, and reports changes.
    pub fn new(zk_path: String, initial_state: T) -> (s: ZkState<T>)
        ensures
            s.wf(),
            is_random_uuid(s@.id),
            chance_gave(s@.id),
            s@.inner == initial_state,
            s@.dir == zk_path@,
            s@.epoch == 0,
            is_clock_time(s@.synced_at),
            clock_gave(s@.synced_at),
            !s@.edited,
            s@.emits,
            s@.sent == Seq::<ChangeView<Key, Value>>::empty(),
    {
        ZkState::new_with(fresh_id(), zk_path, initial_state, Timestamp::now())
    }

    /// A new instance of the object in `zk_path`, with the object that `decode` reads out
    /// of the payload `data` as its local object.
    pub fn expect<D: FnOnce(&[u8]) -> T>(zk_path: String, data: &[u8], decode: D) -> (s: ZkState<T>)
        requires
            decode.requires((data,)),
        ensures
            s.wf(),
            is_random_uuid(s@.id),
            chance_gave(s@.id),
            decode.ensures((data,), s@.inner),
            s@.dir == zk_path@,
            s@.epoch == 0,
            is_clock_time(s@.synced_at),
            clock_gave(s@.synced_at),
            !s@.edited,
            s@.emits,
            s@.sent == Seq::<ChangeView<Key, Value>>::empty(),
    {
        let initial_state = decode(data);
        ZkState::new(zk_path, initial_state)
    }

    /// Begins the start of this instance. The string is the path of the node whose
    /// existence is the first question.
    pub fn initialize(&self) -> (r: (InitSession, String))
        ensures
            r.0 is Checking,
            r.1@ == spec_payload_path(self@.dir),
    {
        (InitSession::Checking, payload_path(self.state.zk_path.as_str()))
    }

    /// Takes the answer `ev` in and says what to do next to start this instance; `to_vec`
    /// encodes the object. An event that answers nothing the session waits for leaves it
    /// as it is and gives `None`.
    pub fn initialize_next<B: FnOnce(&T) -> Vec<u8>>(
        &self,
        session: &mut InitSession,
        ev: InitEvent,
        to_vec: B,
    ) -> (action: Option<InitAction>)
        requires
            writes_payload(*old(session), ev) ==> to_vec.requires((&self@.inner,)),
        ensures
            exists|payload: Vec<u8>|
                {
                    &&& writes_payload(*old(session), ev) ==> to_vec.ensures(
                        (&self@.inner,),
                        payload,
                    )
                    &&& match #[trigger] init_next(
                        *old(session),
                        ev,
                        self@.dir,
                        self@.id,
                        payload@,
                    ) {
                        Some(next) => *final(session) == next.0 && (action matches Some(a) && a@
                            == next.1),
                        None => *final(session) == *old(session) && action is None,
                    }
                },
    {
        let ghost mut written: Vec<u8> = arbitrary();
        let dir = self.state.zk_path.as_str();
        let (next, action) = match (*session, ev) {
            (InitSession::Checking, InitEvent::Exists(there)) => {
                if there {
                    (InitSession::Syncing, InitAction::Sync)
                } else {
                    (
                        InitSession::CreatingDir,
                        InitAction::Create {
                            path: self.state.zk_path.clone(),
                            data: Vec::new(),
                            mode: CreateMode::Persistent,
                        },
                    )
                }
            },
            (InitSession::CreatingDir, InitEvent::Created(Ok(()))) => {
                let data = to_vec(&self.inner);
                proof {
                    written = data;
                }
                (
                    InitSession::CreatingPayload,
                    InitAction::Create {
                        path: payload_path(dir),
                        data,
                        mode: CreateMode::Persistent,
                    },
                )
            },
            (InitSession::CreatingPayload, InitEvent::Created(Ok(()))) => {
                (InitSession::Syncing, InitAction::Sync)
            },
            (InitSession::CreatingDir, InitEvent::Created(Err(err)))
            | (InitSession::CreatingPayload, InitEvent::Created(Err(err)))
            | (InitSession::Registering, InitEvent::Created(Err(err))) => {
                (InitSession::Finished, InitAction::Finish(Err(err)))
            },
            (InitSession::Syncing, InitEvent::Synced) => {
                (
                    InitSession::CreatingListeners,
                    InitAction::Create {
                        path: listeners_path(dir),
                        data: Vec::new(),
                        mode: CreateMode::Persistent,
                    },
                )
            },
            (InitSession::CreatingListeners, InitEvent::Created(_)) => {
                (
                    InitSession::Registering,
                    InitAction::Create {
                        path: listener_path(dir, self.id.as_str()),
                        data: Vec::new(),
                        mode: CreateMode::Ephemeral,
                    },
                )
            },
            (InitSession::Registering, InitEvent::Created(Ok(()))) => {
                (InitSession::Finished, InitAction::Finish(Ok(())))
            },
            _ => {
                assert(init_next(*old(session), ev, self@.dir, self@.id, written@) is None);
                return None;
            },
        };
        *session = next;
        assert(init_next(*old(session), ev, self@.dir, self@.id, written@) matches Some(n) && n.0
            == next && action@ == n.1);
        Some(action)
    }

    /// The path of the node that holds the object.
    pub fn payload_path(&self) -> (path: String)
        ensures
            path@ == spec_payload_path(self@.dir),
    {
        payload_path(self.state.zk_path.as_str())
    }

    /// The request that pulls the object: it reads the payload, and sets a watch on it.
    pub fn pull_request(&self) -> (request: PullRequest)
        ensures
            request@ == spec_pull_request(self@.dir),
    {
        PullRequest { path: payload_path(self.state.zk_path.as_str()), watch: true }
    }

    /// What to do when the watch of a pull saw `event_type`: the object is pulled again if
    /// its data was written.
    pub fn watch_fired(&self, event_type: WatchedEventType) -> (request: Option<PullRequest>)
        ensures
            request is Some <==> spec_watch_fired(self@.dir, event_type) is Some,
            request matches Some(r) ==> spec_watch_fired(self@.dir, event_type) == Some(r@),
    {
        if handle_zk_watcher(event_type) {
            Some(self.pull_request())
        } else {
            None
        }
    }

    /// Takes in the state `raw` that was pulled from ZooKeeper at version `version` and the
    /// time `now`: compares it to the local object, reports the changes, and then makes it
    /// the local object. `to_value` gives the JSON value of the local object, and
    /// `from_value` the object of the pulled JSON value. Bytes that may not be JSON are for
    /// [`ZkState::try_state_change`].
    pub fn state_change_at<E: FnOnce(&T) -> Value, D: FnOnce(Value) -> T>(
        &mut self,
        raw: &[u8],
        version: i32,
        now: Timestamp,
        to_value: E,
        from_value: D,
    )
        requires
            old(self).wf(),
            old(self)@.emits ==> to_value.requires((&old(self)@.inner,)),
            json_value(raw@) matches Some(v) && from_value.requires((v,)),
        ensures
            final(self).wf(),
            forall|rx: Receiver<Change<Key, Value>>| final(self).feeds(rx) == old(self).feeds(rx),
            final(self)@.synced_at == now@,
            from_value.ensures((json_value(raw@)->0,), final(self)@.inner),
            exists|local: Value|
                #[trigger] is_pull(old(self)@, final(self)@, local, json_value(raw@)->0, version)
                    && (old(self)@.emits ==> to_value.ensures((&old(self)@.inner,), local)),
    {
        let b = parse_payload(raw).unwrap();
        let ghost remote = b;
        let Ghost(local) = self.report_pull(&b, to_value);
        self.install(b, version, now, from_value);
        assert(is_pull(old(self)@, self@, local, remote, version));
    }

    /// Takes in the state `raw` that was pulled from ZooKeeper now at version `version`, as
    /// [`ZkState::state_change_at`] does. Which time that is, the clock of the machine
    /// decides.
    pub fn state_change<E: FnOnce(&T) -> Value, D: FnOnce(Value) -> T>(
        &mut self,
        raw: &[u8],
        version: i32,
        to_value: E,
        from_value: D,
    )
        requires
            old(self).wf(),
            old(self)@.emits ==> to_value.requires((&old(self)@.inner,)),
            json_value(raw@) matches Some(v) && from_value.requires((v,)),
        ensures
            final(self).wf(),
            forall|rx: Receiver<Change<Key, Value>>| final(self).feeds(rx) == old(self).feeds(rx),
            is_clock_time(final(self)@.synced_at),
            clock_gave(final(self)@.synced_at),
            from_value.ensures((json_value(raw@)->0,), final(self)@.inner),
            exists|local: Value|
                #[trigger] is_pull(old(self)@, final(self)@, local, json_value(raw@)->0, version)
                    && (old(self)@.emits ==> to_value.ensures((&old(self)@.inner,), local)),
    {
        self.state_change_at(raw, version, Timestamp::now(), to_value, from_value);
    }

    /// Takes in the state `raw` that was pulled from ZooKeeper now at version `version`, as
    /// [`ZkState::state_change`] does, with a decoder that takes every JSON value and says
    /// by `None` that one is no object. Then, and if `raw` is not JSON, nothing happens.
    pub fn try_state_change<E: FnOnce(&T) -> Value, D: FnOnce(Value) -> Option<T>>(
        &mut self,
        raw: &[u8],
        version: i32,
        to_value: E,
        from_value: D,
    ) -> (r: Result<(), PullError>)
        requires
            old(self).wf(),
            old(self)@.emits ==> to_value.requires((&old(self)@.inner,)),
            forall|v: Value| from_value.requires((v,)),
        ensures
            final(self).wf(),
            forall|rx: Receiver<Change<Key, Value>>| final(self).feeds(rx) == old(self).feeds(rx),
            json_value(raw@) is None ==> r == Err::<(), PullError>(PullError::NotJson),
            json_value(raw@) matches Some(v) ==> (r matches Err(err) ==> err == PullError::NoObject
                && from_value.ensures((v,), None)),
            r is Err ==> final(self)@ == old(self)@,
            r is Ok ==> is_clock_time(final(self)@.synced_at),
            r is Ok ==> clock_gave(final(self)@.synced_at),
            r is Ok ==> from_value.ensures((json_value(raw@)->0,), Some(final(self)@.inner)),
            r is Ok ==> exists|local: Value|
                #[trigger] is_pull(old(self)@, final(self)@, local, json_value(raw@)->0, version)
                    && (old(self)@.emits ==> to_value.ensures((&old(self)@.inner,), local)),
    {
        let b = match parse_payload(raw) {
            Ok(b) => b,
            Err(_) => {
                return Err(PullError::NotJson);
            },
        };
        let decoded = match from_value(b) {
            Some(decoded) => decoded,
            None => {
                return Err(PullError::NoObject);
            },
        };
        let keep = |_v: Value| -> (t: T)
            ensures
                t == decoded,
            { decoded };
        self.state_change(raw, version, to_value, keep);
        Ok(())
    }

    /// The first half of a pull: reports the changes from the local object to the pulled
    /// one, `b`, unless this instance reports nothing. The local object is still the old
    /// one when everything is reported.
    fn report_pull<E: FnOnce(&T) -> Value>(&mut self, b: &Value, to_value: E) -> (local: Ghost<
        Value,
    >)
        requires
            old(self).wf(),
            old(self)@.emits ==> to_value.requires((&old(self)@.inner,)),
        ensures
            final(self).wf(),
            forall|rx: Receiver<Change<Key, Value>>| final(self).feeds(rx) == old(self).feeds(rx),
            old(self)@.emits ==> to_value.ensures((&old(self)@.inner,), local@),
            is_report(old(self)@, final(self)@, local@, *b),
    {
        let ghost mut local: Value = *b;
        // only do a delta if we want to emit updates
        if self.state.emit_updates {
            let a = to_value(&self.inner);
            emit_updates(&a, b, &mut self.state);
            proof {
                local = a;
            }
        }
        assert(self@.sent =~= old(self)@.sent + pulled_changes(old(self)@, local, *b));
        Ghost(local)
    }

    /// The second half of a pull: the pulled object becomes the local one. Nothing is
    /// reported.
    fn install<D: FnOnce(Value) -> T>(
        &mut self,
        b: Value,
        version: i32,
        now: Timestamp,
        from_value: D,
    )
        requires
            old(self).wf(),
            from_value.requires((b,)),
        ensures
            final(self).wf(),
            forall|rx: Receiver<Change<Key, Value>>| final(self).feeds(rx) == old(self).feeds(rx),
            from_value.ensures((b,), final(self)@.inner),
            final(self)@.synced_at == now@,
            is_install(old(self)@, final(self)@, version),
    {
        self.inner = from_value(b);
        self.state.epoch = version;
        self.state.edited = false;
        self.verified_at(now);
    }

    /// Begins an update of the shared object: the request enters the queue for the write
    /// lock.
    pub fn update(&self) -> (r: (UpdateSession, LatchRequest))
        ensures
            r.0 is Enrolling,
            r.1.id@ == self@.id,
            r.1.path@ == spec_write_lock_path(self@.dir),
    {
        (
            UpdateSession::Enrolling,
            LatchRequest {
                id: self.id.clone(),
                path: write_lock_path(self.state.zk_path.as_str()),
            },
        )
    }

    /// Edits the local object with `closure`, reports what that changed, and gives the
    /// write that commits it: the encoded object, to be written only over the version that
    /// was edited. `to_value` gives the JSON value of the object, and `to_vec` its
    /// encoding. Only a session that holds the write lock can edit: otherwise nothing
    /// happens, and `None` is given.
    pub fn edit<M: FnOnce(&mut T), E: Fn(&T) -> Value, B: FnOnce(&T) -> Vec<u8>>(
        &mut self,
        session: &mut UpdateSession,
        closure: M,
        to_value: E,
        to_vec: B,
    ) -> (request: Option<WriteRequest>)
        requires
            old(self).wf(),
            forall|t: &mut T| *t == old(self)@.inner ==> closure.requires((t,)),
            to_value.requires((&old(self)@.inner,)),
            forall|t: &mut T|
                *t == old(self)@.inner && #[trigger] closure.ensures((t,), ())
                    ==> to_value.requires((&*final(t),)) && to_vec.requires((&*final(t),)),
        ensures
            final(self).wf(),
            forall|rx: Receiver<Change<Key, Value>>| final(self).feeds(rx) == old(self).feeds(rx),
            request is Some <==> *old(session) is Editing,
            request is None ==> final(self)@ == old(self)@ && *final(session) == *old(session),
            request matches Some(write) ==> {
                &&& *final(session) is Writing
                &&& write.path@ == spec_payload_path(old(self)@.dir)
                &&& write.version == Some(old(self)@.epoch)
                &&& to_vec.ensures((&final(self)@.inner,), write.data)
                &&& exists|t: &mut T|
                    *t == old(self)@.inner && *final(t) == final(self)@.inner
                        && #[trigger] closure.ensures((t,), ())
                &&& exists|before: Value, after: Value|
                    #[trigger] is_edit(old(self)@, final(self)@, before, after)
                        && to_value.ensures((&old(self)@.inner,), before) && to_value.ensures(
                        (&final(self)@.inner,),
                        after,
                    )
            },
    {
        match *session {
            UpdateSession::Editing => {},
            _ => {
                return None;
            },
        }
        // pre change
        let a = to_value(&self.inner);
        closure(&mut self.inner);
        self.state.edited = true;
        // post change
        let b = to_value(&self.inner);
        emit_updates(&a, &b, &mut self.state);
        let data = to_vec(&self.inner);
        *session = UpdateSession::Writing;
        assert(is_edit(old(self)@, self@, a, b));
        Some(
            WriteRequest {
                path: payload_path(self.state.zk_path.as_str()),
                data,
                version: Some(self.state.epoch),
            },
        )
    }

    /// Reads the local object at the time `now`. Fails if the object was not verified
    /// within the last [`MAX_TIMING_DELTA`] milliseconds, or else if a writer panicked
    /// while it held the object, which `poisoned` says.
    pub fn read_at(&self, now: &Timestamp, poisoned: bool) -> (r: Result<&T, ZkStructError>)
        ensures
            match r {
                Ok(t) => read_outcome(self@, now@, poisoned) == Ok::<T, ZkStructError>(*t),
                Err(e) => read_outcome(self@, now@, poisoned) == Err::<T, ZkStructError>(e),
            },
    {
        let delta = now.millis_since(&self.state.timings);
        if delta > MAX_TIMING_DELTA {
            return Err(ZkStructError::StaleRead);
        }
        self.d_read(poisoned)
    }

    /// Reads the local object now. Fails if the object was not verified within the last
    /// [`MAX_TIMING_DELTA`] milliseconds, or else if a writer panicked while it held the
    /// object, which `poisoned` says. Which time it is, the clock of the machine decides.
    pub fn read(&self, poisoned: bool) -> (r: Result<&T, ZkStructError>)
        ensures
            exists|now: int|
                is_clock_time(now) && clock_gave(now) && match r {
                    Ok(t) => #[trigger] read_outcome(self@, now, poisoned) == Ok::<
                        T,
                        ZkStructError,
                    >(*t),
                    Err(e) => read_outcome(self@, now, poisoned) == Err::<T, ZkStructError>(e),
                },
    {
        let now = Timestamp::now();
        self.read_at(&now, poisoned)
    }

    /// Consistent Read.
    ///
    /// Checks that the local version is the remote version, which ZooKeeper answered with
    /// `remote`, before the object is given. On a mismatch, `None` asks for the object to
    /// be pulled and read then; so it does for an object that was edited since it was
    /// pulled, which may not be what ZooKeeper holds at that version.
    pub fn c_read(&self, remote: Result<Option<i32>, ZkError>, poisoned: bool) -> (r: Result<
        Option<&T>,
        ZkStructError,
    >)
        ensures
            match r {
                Ok(Some(t)) => consistent_read_outcome(self@, remote, poisoned) == Ok::<
                    Option<T>,
                    ZkStructError,
                >(Some(*t)),
                Ok(None) => consistent_read_outcome(self@, remote, poisoned) == Ok::<
                    Option<T>,
                    ZkStructError,
                >(None),
                Err(e) => consistent_read_outcome(self@, remote, poisoned) == Err::<
                    Option<T>,
                    ZkStructError,
                >(e),
            },
    {
        if poisoned {
            return Err(ZkStructError::Poisoned);
        }
        match remote {
            Err(err) => Err(ZkStructError::from(err)),
            Ok(None) => Err(ZkStructError::from(ZkError::NoNode)),
            Ok(Some(version)) => {
                if version == self.state.epoch && !self.state.edited {
                    Ok(Some(&self.inner))
                } else {
                    Ok(None)
                }
            },
        }
    }

    /// Dirty Read.
    ///
    /// Returns the local data, not failing if the data is too old
    pub fn d_read(&self, poisoned: bool) -> (r: Result<&T, ZkStructError>)
        ensures
            match r {
                Ok(t) => dirty_read_outcome(self@, poisoned) == Ok::<T, ZkStructError>(*t),
                Err(e) => dirty_read_outcome(self@, poisoned) == Err::<T, ZkStructError>(e),
            },
    {
        if poisoned {
            Err(ZkStructError::Poisoned)
        } else {
            Ok(&self.inner)
        }
    }

    /// What the background check does when it finds the payload at version `remote`.
    pub fn refresh(&self, remote: Option<i32>) -> (r: Refresh)
        ensures
            r == refresh_outcome(self@, remote),
    {
        match remote {
            None => Refresh::Skip,
            Some(version) => {
                if self.state.epoch != version {
                    Refresh::Resync
                } else {
                    Refresh::Verified
                }
            },
        }
    }

    /// Notes that the local object was verified at the time `now`.
    pub fn verified_at(&mut self, now: Timestamp)
        requires
            old(self).wf(),
        ensures
            final(self).wf(),
            forall|rx: Receiver<Change<Key, Value>>| final(self).feeds(rx) == old(self).feeds(rx),
            final(self)@ == (ZkStateView { synced_at: now@, ..old(self)@ }),
    {
        self.state.timings = now;
    }

    /// Notes that the local object was verified now. Which time that is, the clock of the
    /// machine decides.
    pub fn mark_verified(&mut self)
        requires
            old(self).wf(),
        ensures
            final(self).wf(),
            forall|rx: Receiver<Change<Key, Value>>| final(self).feeds(rx) == old(self).feeds(rx),
            is_clock_time(final(self)@.synced_at),
            clock_gave(final(self)@.synced_at),
            final(self)@ == (ZkStateView { synced_at: final(self)@.synced_at, ..old(self)@ }),
    {
        self.verified_at(Timestamp::now());
    }

    /// Return a reference to the Crossbeam Receiver to get Change notifications
    pub fn get_update_channel(&self) -> (rx: Receiver<Change<Key, Value>>)
        requires
            self.wf(),
        ensures
            self.feeds(rx),
    {
        self.state.stream.receiver()
    }

    /// What is told about an instance on whose update stream `waiting` changes wait: that
    /// number, and zero.
    pub fn metadata_with(waiting: usize) -> (r: (usize, i32))
        ensures
            r == (waiting, 0i32),
    {
        (waiting, 0)
    }

    /// How many changes wait on the update stream, and zero. How many of the changes that
    /// were reported still wait is up to the receivers.
    pub fn metadata(&self) -> (r: (usize, i32))
        requires
            self.wf(),
        ensures
            r.0 <= self@.sent.len(),
            self.counted(r.0),
            r.1 == 0,
    {
        Self::metadata_with(self.state.stream.len())
    }

    /// What this instance knows besides its id and the object: the path of the directory
    /// node, the version that the local object is known to be, when it was last verified,
    /// and whether a pulled object is compared with it.
    pub fn internal(&self) -> (r: (&String, i32, Timestamp, bool))
        ensures
            r.0@ == self@.dir,
            r.1 == self@.epoch,
            r.2@ == self@.synced_at,
            r.3 == self@.emits,
    {
        let state = &self.state;
        (&state.zk_path, state.epoch, state.timings, state.emit_updates)
    }

    /// Return the ID of this ZkState instance
    pub fn get_id(&self) -> (id: &String)
        ensures
            id@ == self@.id,
    {
        &self.id
    }
}

/// Whatever was done to an instance, its update stream has only ever reported real
/// changes.
pub proof fn law_stream_reports_only_changes<T>(s: &ZkState<T>)
    requires
        s.wf(),
    ensures
        only_changes(s@.sent),
{
}

/// A read fails for the age of the object exactly if the object was verified 30001
/// milliseconds ago or more.
pub proof fn law_stale_after_the_limit<T>(s: ZkStateView<T>, now: int, poisoned: bool)
    ensures
        read_outcome(s, now, poisoned) == Err::<T, ZkStructError>(ZkStructError::StaleRead) <==> now
            - s.synced_at >= (MAX_TIMING_DELTA + 1) * 1_000_000,
{
}

/// Reads and dirty reads differ only in that a read can fail for the age of the object.
pub proof fn law_reads_agree<T>(s: ZkStateView<T>, now: int, poisoned: bool)
    ensures
        read_outcome(s, now, poisoned) == Err::<T, ZkStructError>(ZkStructError::StaleRead)
            || read_outcome(s, now, poisoned) == dirty_read_outcome(s, poisoned),
        dirty_read_outcome(s, poisoned) != Err::<T, ZkStructError>(ZkStructError::StaleRead),
{
}

/// An object that a consistent read gives is at the version that ZooKeeper just answered,
/// and was not edited since it was pulled.
pub proof fn law_consistent_read_is_fresh<T>(
    s: ZkStateView<T>,
    remote: Result<Option<i32>, ZkError>,
    poisoned: bool,
)
    requires
        consistent_read_outcome(s, remote, poisoned) matches Ok(Some(_)),
    ensures
        remote == Ok::<Option<i32>, ZkError>(Some(s.epoch)),
        !s.edited,
        consistent_read_outcome(s, remote, poisoned) == Ok::<Option<T>, ZkStructError>(
            Some(s.inner),
        ),
{
}

/// What an instance held when its object was last pulled, or when it was made, is what it
/// holds as long as it is not edited.
proof fn lemma_unedited_object_is_kept<T>(states: Seq<ZkStateView<T>>) -> (pulled: int)
    requires
        is_history(states),
        !states[0].edited,
        !states.last().edited,
    ensures
        0 <= pulled < states.len(),
        states[pulled].inner == states.last().inner,
        states[pulled].epoch == states.last().epoch,
        pulled > 0 ==> is_pull_at(states[pulled - 1], states[pulled], states.last().epoch),
    decreases states.len(),
{
    let last = states.len() - 1;
    if last == 0 {
        0
    } else {
        let pre = states[last - 1];
        let post = states[last];
        assert(is_step(pre, post));
        if exists|version: i32| is_pull_at(pre, post, version) {
            let version = choose|version: i32| is_pull_at(pre, post, version);
            assert(post.epoch == version);
            last
        } else {
            assert(is_verification(pre, post));
            let before = states.drop_last();
            assert(before.last() == pre);
            assert forall|i: int| 0 < i < before.len() implies is_step(
                before[i - 1],
                #[trigger] before[i],
            ) by {
                assert(before[i] == states[i] && before[i - 1] == states[i - 1]);
            }
            lemma_unedited_object_is_kept(before)
        }
    }
}

/// A consistent read gives what was pulled: whatever an instance went through, the object
/// that it gives is the one of its last pull, which was at the version that ZooKeeper just
/// answered; only an instance that never pulled gives the object that it was made with.
/// So an edit that ZooKeeper refused is never given.
pub proof fn law_consistent_read_gives_what_was_pulled<T>(
    states: Seq<ZkStateView<T>>,
    remote: Result<Option<i32>, ZkError>,
    poisoned: bool,
)
    requires
        is_history(states),
        !states[0].edited,
        consistent_read_outcome(states.last(), remote, poisoned) matches Ok(Some(_)),
    ensures
        remote == Ok::<Option<i32>, ZkError>(Some(states.last().epoch)),
        exists|pulled: int|
            {
                &&& 0 <= pulled < states.len()
                &&& consistent_read_outcome(states.last(), remote, poisoned) == Ok::<
                    Option<T>,
                    ZkStructError,
                >(Some((#[trigger] states[pulled]).inner))
                &&& states[pulled].epoch == states.last().epoch
                &&& pulled > 0 ==> is_pull_at(
                    states[pulled - 1],
                    states[pulled],
                    states.last().epoch,
                )
            },
{
    let pulled = lemma_unedited_object_is_kept(states);
    assert(states[pulled].inner == states.last().inner);
}

/// An edited object is not given by a consistent read until it was pulled again, whatever
/// ZooKeeper answered to the write of the edit.
pub proof fn law_edited_object_is_pulled_again<T>(
    pre: ZkStateView<T>,
    post: ZkStateView<T>,
    before: Value,
    after: Value,
    remote: Option<i32>,
)
    requires
        is_edit(pre, post, before, after),
    ensures
        remote is Some ==> consistent_read_outcome(post, Ok(remote), false) == Ok::<
            Option<T>,
            ZkStructError,
        >(None),
{
}

/// A pull settles drift: while ZooKeeper stays at the version that was pulled, the
/// background check finds the object verified, and a consistent read gives the pulled
/// object without another pull.
pub proof fn law_pull_settles_drift<T>(
    pre: ZkStateView<T>,
    post: ZkStateView<T>,
    local: Value,
    remote: Value,
    version: i32,
)
    requires
        is_pull(pre, post, local, remote, version),
    ensures
        refresh_outcome(post, Some(version)) == Refresh::Verified,
        consistent_read_outcome(post, Ok(Some(version)), false) == Ok::<Option<T>, ZkStructError>(
            Some(post.inner),
        ),
{
}

/// A pulled object is seen only together with its changes: a pull comes to a report, which
/// leaves the object, its epoch and its age as they were, and a replacement of the object,
/// which reports nothing. A pull has the instance to itself, so no reader sees the new
/// object before all of its changes are on the stream. In which order the two take place
/// in between, where nobody can look, is not said.
pub proof fn law_pulled_object_comes_with_its_changes<T>(
    pre: ZkStateView<T>,
    post: ZkStateView<T>,
    local: Value,
    remote: Value,
    version: i32,
)
    ensures
        is_pull(pre, post, local, remote, version) <==> exists|between: ZkStateView<T>|
            #[trigger] is_report(pre, between, local, remote) && is_install(
                between,
                post,
                version,
            ),
        forall|between: ZkStateView<T>| #[trigger]
            is_report(pre, between, local, remote) ==> between.inner == pre.inner && between.epoch
                == pre.epoch && between.synced_at == pre.synced_at && pre.sent.is_prefix_of(
                between.sent,
            ),
        forall|between: ZkStateView<T>| #[trigger]
            is_install(between, post, version) ==> post.sent == between.sent,
        is_pull(pre, post, local, remote, version) ==> post.sent == pre.sent + pulled_changes(
            pre,
            local,
            remote,
        ),
{
    if is_pull(pre, post, local, remote, version) {
        let between = ZkStateView {
            sent: pre.sent + pulled_changes(pre, local, remote),
            ..pre
        };
        assert(is_report(pre, between, local, remote));
        assert(is_install(between, post, version));
    }
}

/// What was pulled is what is read, for as long as it is fresh.
pub proof fn law_pulled_object_is_read<T>(
    pre: ZkStateView<T>,
    post: ZkStateView<T>,
    local: Value,
    remote: Value,
    version: i32,
    now: int,
)
    requires
        is_pull(pre, post, local, remote, version),
        now - post.synced_at <= MAX_TIMING_DELTA * 1_000_000,
    ensures
        read_outcome(post, now, false) == Ok::<T, ZkStructError>(post.inner),
        dirty_read_outcome(post, false) == Ok::<T, ZkStructError>(post.inner),
{
}

/// An object is read for as long as the background check keeps finding it at the version
/// that is known, and looks at least once in the time limit; and drift never goes
/// unnoticed by it.
pub proof fn law_verified_objects_are_read<T>(
    s: ZkStateView<T>,
    remote: Option<i32>,
    checked_at: int,
    now: int,
)
    requires
        now - checked_at <= MAX_TIMING_DELTA * 1_000_000,
    ensures
        refresh_outcome(s, remote) == Refresh::Verified ==> read_outcome(
            ZkStateView { synced_at: checked_at, ..s },
            now,
            false,
        ) == Ok::<T, ZkStructError>(s.inner),
        refresh_outcome(s, remote) == Refresh::Resync <==> (remote matches Some(version) && version
            != s.epoch),
{
}

/// A change that an instance makes itself is reported once: when the object it wrote is
/// pulled back, nothing more is reported.
pub proof fn law_own_change_is_reported_once<T>(
    start: ZkStateView<T>,
    edited: ZkStateView<T>,
    pulled: ZkStateView<T>,
    before: Value,
    after: Value,
    version: i32,
)
    requires
        is_edit(start, edited, before, after),
        is_pull(edited, pulled, after, after, version),
    ensures
        pulled.sent == start.sent + reported(recorded_calls(before, after)),
        pulled.epoch == version,
{
}

/// What is undone is reported the other way round: when the object goes from one value to
/// another and back, what the way back reports is, in some order, what the way there
/// reported, with additions and removals exchanged, and the two values of every
/// modification.
pub proof fn law_way_back_is_reported_exchanged<T>(
    start: ZkStateView<T>,
    there: ZkStateView<T>,
    back: ZkStateView<T>,
    one: Value,
    other: Value,
    version: i32,
)
    requires
        start.emits,
        is_edit(start, there, one, other) || is_pull(start, there, one, other, version),
        is_edit(there, back, other, one) || is_pull(there, back, other, one, version),
    ensures
        ({
            let way_there = there.sent.skip(start.sent.len() as int);
            let way_back = back.sent.skip(there.sent.len() as int);
            &&& there.sent == start.sent + way_there
            &&& back.sent == there.sent + way_back
            &&& way_back.to_multiset() == exchanged(way_there).to_multiset()
            &&& way_there.to_multiset() == exchanged(way_back).to_multiset()
        }),
{
    let way_there = reported(recorded_calls(one, other));
    let way_back = reported(recorded_calls(other, one));
    assert(there.sent == start.sent + way_there);
    assert(back.sent == there.sent + way_back);
    assert(there.sent.skip(start.sent.len() as int) =~= way_there);
    assert(back.sent.skip(there.sent.len() as int) =~= way_back);
    assert(turns_back(one, other) && turns_back(other, one));
}

/// No step changes the id of an instance, nor the directory of its object.
pub proof fn law_step_keeps_the_id<T>(
    pre: ZkStateView<T>,
    post: ZkStateView<T>,
    old_value: Value,
    new_value: Value,
    version: i32,
)
    requires
        is_pull(pre, post, old_value, new_value, version) || is_edit(
            pre,
            post,
            old_value,
            new_value,
        ) || is_report(pre, post, old_value, new_value) || is_install(pre, post, version)
            || is_verification(pre, post),
    ensures
        post.id == pre.id,
        post.dir == pre.dir,
{
}

/// The id of an instance is the same at all times, whatever was pulled, edited or verified
/// in between; so it stays the random UUID that the instance was made with.
pub proof fn law_id_never_changes<T>(states: Seq<ZkStateView<T>>, i: int)
    requires
        is_history(states),
        0 <= i < states.len(),
    ensures
        states[i].id == states[0].id,
        states[i].dir == states[0].dir,
        is_random_uuid(states[0].id) ==> is_random_uuid(states[i].id),
    decreases i,
{
    if i > 0 {
        law_id_never_changes(states, i - 1);
        assert(is_step(states[i - 1], states[i]));
    }
}

/// All receivers that an instance ever handed out take from one and the same queue.
pub proof fn law_receivers_share_one_queue<T>(
    s: &ZkState<T>,
    one: Receiver<Change<Key, Value>>,
    other: Receiver<Change<Key, Value>>,
)
    requires
        s.feeds(one),
        s.feeds(other),
    ensures
        same_queue(one, other),
{
    s.state.stream.lemma_feeds_one_queue(one, other);
}

/// Pulling and editing only ever add to the end of the update stream.
pub proof fn law_stream_only_grows<T>(
    pre: ZkStateView<T>,
    post: ZkStateView<T>,
    old_value: Value,
    new_value: Value,
    version: i32,
)
    requires
        is_pull(pre, post, old_value, new_value, version) || is_edit(
            pre,
            post,
            old_value,
            new_value,
        ),
    ensures
        pre.sent.is_prefix_of(post.sent),
{
}

/// An instance holds one object, and one time: nothing that an earlier call has seen of the
/// clock or of the channel can answer for a later one.
proof fn lemma_instance_is_its_parts<T>(s: ZkState<T>)
    ensures
        s == (ZkState {
            id: s.id,
            inner: s.inner,
            state: InternalState {
                zk_path: s.state.zk_path,
                epoch: s.state.epoch,
                timings: s.state.timings,
                edited: s.state.edited,
                emit_updates: s.state.emit_updates,
                stream: s.state.stream,
            },
        }),
        s@.inner == s.inner,
        s@.synced_at == s.state.timings@,
        s@.sent == s.state.stream.sent(),
{
}

/// What was counted for an instance was asked of the channel of its stream.
proof fn lemma_stream_was_asked<T>(s: &ZkState<T>, n: usize)
    requires
        s.counted(n),
    ensures
        s.state.stream.counted(n),
{
}

/// What an instance reported was sent, one change after the other, through the sending end
/// of the channel that all of its receivers receive from.
pub proof fn law_instance_reports_are_sent<T>(s: &ZkState<T>)
    ensures
        exists|tx: Sender<Change<Key, Value>>|
            {
                &&& #[trigger] sent_through(tx) == s@.sent
                &&& forall|rx: Receiver<Change<Key, Value>>| s.feeds(rx) ==> same_channel(tx, rx)
            },
{
    s.state.stream.law_reports_are_sent();
    let tx = choose|tx: Sender<Change<Key, Value>>|
        {
            &&& #[trigger] sent_through(tx) == s.state.stream.sent()
            &&& forall|rx: Receiver<Change<Key, Value>>|
                s.state.stream.feeds(rx) ==> same_channel(tx, rx)
        };
    assert(sent_through(tx) == s@.sent);
    assert forall|rx: Receiver<Change<Key, Value>>| s.feeds(rx) implies same_channel(tx, rx) by {
        assert(s.state.stream.feeds(rx));
    }
}

/// A read gives the object, and no other, exactly if it was verified less than thirty
/// seconds and one millisecond ago and no writer panicked; it is too old from then on; and
/// it is said to be poisoned exactly if it is fresh enough.
pub proof fn law_read_gives_the_fresh_object<T>(s: ZkStateView<T>, now: int, poisoned: bool)
    ensures
        now - s.synced_at >= 30_001_000_000 <==> read_outcome(s, now, poisoned) == Err::<
            T,
            ZkStructError,
        >(ZkStructError::StaleRead),
        now - s.synced_at < 30_001_000_000 && poisoned ==> read_outcome(s, now, poisoned) == Err::<
            T,
            ZkStructError,
        >(ZkStructError::Poisoned),
        now - s.synced_at < 30_001_000_000 && !poisoned ==> read_outcome(s, now, poisoned) == Ok::<
            T,
            ZkStructError,
        >(s.inner),
        dirty_read_outcome(s, true) == Err::<T, ZkStructError>(ZkStructError::Poisoned),
        dirty_read_outcome(s, false) == Ok::<T, ZkStructError>(s.inner),
{
}

/// A consistent read of an object that no writer left behind gives the object exactly if
/// ZooKeeper has the version that was pulled and it was not edited since, asks for a pull
/// if ZooKeeper has any version otherwise, and else reports why there is none.
pub proof fn law_consistent_read_compares<T>(s: ZkStateView<T>, version: i32, error: ZkError)
    ensures
        version == s.epoch && !s.edited ==> consistent_read_outcome(s, Ok(Some(version)), false)
            == Ok::<Option<T>, ZkStructError>(Some(s.inner)),
        version != s.epoch || s.edited ==> consistent_read_outcome(s, Ok(Some(version)), false)
            == Ok::<Option<T>, ZkStructError>(None),
        consistent_read_outcome(s, Ok(None), false) == Err::<Option<T>, ZkStructError>(
            ZkStructError::ZkError(ZkError::NoNode),
        ),
        consistent_read_outcome(s, Err(error), false) == Err::<Option<T>, ZkStructError>(
            ZkStructError::ZkError(error),
        ),
        forall|remote: Result<Option<i32>, ZkError>| #[trigger]
            consistent_read_outcome(s, remote, true) == Err::<Option<T>, ZkStructError>(
                ZkStructError::Poisoned,
            ),
{
}

/// The background check leaves an object alone that is not in ZooKeeper, finds it verified
/// exactly if the versions agree, and pulls it exactly if they do not. It looks every five
/// seconds, so several times before an object that it finds verified is too old to read.
pub proof fn law_background_check_compares<T>(s: ZkStateView<T>, version: i32)
    ensures
        refresh_outcome(s, None) == Refresh::Skip,
        version == s.epoch ==> refresh_outcome(s, Some(version)) == Refresh::Verified,
        version != s.epoch ==> refresh_outcome(s, Some(version)) == Refresh::Resync,
        REFRESH_INTERVAL == 5,
        6 * REFRESH_INTERVAL * 1000 <= MAX_TIMING_DELTA,
{
}

/// A pull takes the version over, notes that the object is as it was pulled, and puts
/// exactly the changes from the local value to the remote one at the end of the stream, if
/// the instance reports changes, and else nothing. Id, directory and whether changes are
/// reported stay as they were.
pub proof fn law_pull_takes_over<T>(
    pre: ZkStateView<T>,
    post: ZkStateView<T>,
    local: Value,
    remote: Value,
    version: i32,
)
    requires
        is_pull(pre, post, local, remote, version),
    ensures
        post.epoch == version,
        !post.edited,
        pre.emits ==> post.sent == pre.sent + reported(recorded_calls(local, remote)),
        !pre.emits ==> post.sent == pre.sent,
        local == remote ==> post.sent == pre.sent,
        post.emits == pre.emits,
        post.id == pre.id,
        post.dir == pre.dir,
{
    if !pre.emits {
        assert(post.sent =~= pre.sent);
    }
}

/// An edit puts exactly the changes from the value before to the value after at the end of
/// the stream, and notes that the object is no longer as it was pulled. It neither changes
/// the version that is known, nor counts as a check; id, directory and whether changes are
/// reported stay as they were.
pub proof fn law_edit_is_local<T>(
    pre: ZkStateView<T>,
    post: ZkStateView<T>,
    before: Value,
    after: Value,
)
    requires
        is_edit(pre, post, before, after),
    ensures
        post.sent == pre.sent + reported(recorded_calls(before, after)),
        before == after ==> post.sent == pre.sent,
        post.edited,
        post.epoch == pre.epoch,
        post.synced_at == pre.synced_at,
        post.emits == pre.emits,
        post.id == pre.id,
        post.dir == pre.dir,
{
}

} // verus!
