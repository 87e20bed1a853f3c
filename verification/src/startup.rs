//! Starting up: make sure that the nodes of an object are there, or wait until somebody
//! else has put them there.
//!
//! As in an update, a session decides and its owner acts.

use crate::error::ZkError;
use crate::paths::{
    law_nodes_are_apart, payload_path, spec_listener_path, spec_listeners_path, spec_payload_path,
};
use vstd::prelude::*;

verus! {

/// How long a node lives.
#[derive(Clone, Copy, Debug, PartialEq, Eq, Structural)]
pub enum CreateMode {
    /// Until it is deleted.
    Persistent,
    /// Until the session of the client that made it ends.
    Ephemeral,
}

/// How far the start of an instance has come.
#[derive(Clone, Copy, Debug)]
pub enum InitSession {
    /// Waits to hear whether the payload node is there.
    Checking,
    /// The directory node is being created.
    CreatingDir,
    /// The payload node is being created.
    CreatingPayload,
    /// The local object is being replaced by the remote one.
    Syncing,
    /// The parent of the listener records is being created.
    CreatingListeners,
    /// The record of this instance is being created.
    Registering,
    /// Over.
    Finished,
}

/// What happened.
#[derive(Clone, Copy, Debug)]
pub enum InitEvent {
    /// Whether the payload node is there.
    Exists(bool),
    /// The node was created, or not.
    Created(Result<(), ZkError>),
    /// The local object is the remote one.
    Synced,
}

/// What to do next. Nodes are created open to everybody.
#[derive(Debug)]
pub enum InitAction {
    /// Create a node.
    Create { path: String, data: Vec<u8>, mode: CreateMode },
    /// Pull the object from ZooKeeper.
    Sync,
    /// Nothing more: the start has this result.
    Finish(Result<(), ZkError>),
}

/// What an [`InitAction`] says.
pub enum InitActionView {
    Create { path: Seq<char>, data: Seq<u8>, mode: CreateMode },
    Sync,
    Finish(Result<(), ZkError>),
}

impl View for InitAction {
    type V = InitActionView;

    open spec fn view(&self) -> InitActionView {
        match *self {
            InitAction::Create { path, data, mode } => InitActionView::Create {
                path: path@,
                data: data@,
                mode,
            },
            InitAction::Sync => InitActionView::Sync,
            InitAction::Finish(result) => InitActionView::Finish(result),
        }
    }
}

/// The session after `ev`, and what it then asks for, for the instance `id` of the object
/// in `dir`, which `payload` encodes; `None` if `ev` answers nothing that the session
/// waits for. The payload is created only where there is none. The parent of the listener
/// records may be there already, so how its creation went is not asked; but the record of
/// this instance has to be made.
pub open spec fn init_next(
    s: InitSession,
    ev: InitEvent,
    dir: Seq<char>,
    id: Seq<char>,
    payload: Seq<u8>,
) -> Option<(InitSession, InitActionView)> {
    match (s, ev) {
        (InitSession::Checking, InitEvent::Exists(there)) => if there {
            Some((InitSession::Syncing, InitActionView::Sync))
        } else {
            Some(
                (
                    InitSession::CreatingDir,
                    InitActionView::Create {
                        path: dir,
                        data: Seq::empty(),
                        mode: CreateMode::Persistent,
                    },
                ),
            )
        },
        (InitSession::CreatingDir, InitEvent::Created(Ok(_))) => Some(
            (
                InitSession::CreatingPayload,
                InitActionView::Create {
                    path: spec_payload_path(dir),
                    data: payload,
                    mode: CreateMode::Persistent,
                },
            ),
        ),
        (InitSession::CreatingPayload, InitEvent::Created(Ok(_))) => Some(
            (InitSession::Syncing, InitActionView::Sync),
        ),
        (InitSession::CreatingDir, InitEvent::Created(Err(e))) => Some(
            (InitSession::Finished, InitActionView::Finish(Err(e))),
        ),
        (InitSession::CreatingPayload, InitEvent::Created(Err(e))) => Some(
            (InitSession::Finished, InitActionView::Finish(Err(e))),
        ),
        (InitSession::Syncing, InitEvent::Synced) => Some(
            (
                InitSession::CreatingListeners,
                InitActionView::Create {
                    path: spec_listeners_path(dir),
                    data: Seq::empty(),
                    mode: CreateMode::Persistent,
                },
            ),
        ),
        (InitSession::CreatingListeners, InitEvent::Created(_)) => Some(
            (
                InitSession::Registering,
                InitActionView::Create {
                    path: spec_listener_path(dir, id),
                    data: Seq::empty(),
                    mode: CreateMode::Ephemeral,
                },
            ),
        ),
        (InitSession::Registering, InitEvent::Created(Ok(_))) => Some(
            (InitSession::Finished, InitActionView::Finish(Ok(()))),
        ),
        (InitSession::Registering, InitEvent::Created(Err(e))) => Some(
            (InitSession::Finished, InitActionView::Finish(Err(e))),
        ),
        _ => None,
    }
}

/// Whether the session, given `ev`, goes on to write the local object out.
pub open spec fn writes_payload(s: InitSession, ev: InitEvent) -> bool {
    s is CreatingDir && (ev matches InitEvent::Created(r) && r is Ok)
}

/// How far the wait for an object has come.
#[derive(Clone, Copy, Debug)]
pub enum ExpectSession {
    /// The payload is being read, with a watch on its node.
    Watching,
    /// Waits until the payload node shows up.
    Waiting,
    /// The payload is being read after the wait.
    Fetching,
    /// Over.
    Finished,
}

/// What happened.
#[derive(Debug)]
pub enum ExpectEvent {
    /// The payload was read, or not.
    Read(Result<Vec<u8>, ZkError>),
    /// The payload node showed up.
    Appeared,
}

/// What to do next.
#[derive(Debug)]
pub enum ExpectAction {
    /// Wait until there is a node at this path.
    AwaitNode(String),
    /// Read the node at this path.
    Fetch(String),
    /// Nothing more: this is the payload, or why there is none.
    Finish(Result<Vec<u8>, ZkError>),
}

/// What the reading of a node gave.
pub open spec fn read_view(r: Result<Vec<u8>, ZkError>) -> Result<Seq<u8>, ZkError> {
    match r {
        Ok(data) => Ok(data@),
        Err(e) => Err(e),
    }
}

/// What an [`ExpectEvent`] says.
pub enum ExpectEventView {
    Read(Result<Seq<u8>, ZkError>),
    Appeared,
}

impl View for ExpectEvent {
    type V = ExpectEventView;

    open spec fn view(&self) -> ExpectEventView {
        match *self {
            ExpectEvent::Read(r) => ExpectEventView::Read(read_view(r)),
            ExpectEvent::Appeared => ExpectEventView::Appeared,
        }
    }
}

/// What an [`ExpectAction`] says.
pub enum ExpectActionView {
    AwaitNode(Seq<char>),
    Fetch(Seq<char>),
    Finish(Result<Seq<u8>, ZkError>),
}

impl View for ExpectAction {
    type V = ExpectActionView;

    open spec fn view(&self) -> ExpectActionView {
        match *self {
            ExpectAction::AwaitNode(path) => ExpectActionView::AwaitNode(path@),
            ExpectAction::Fetch(path) => ExpectActionView::Fetch(path@),
            ExpectAction::Finish(r) => ExpectActionView::Finish(read_view(r)),
        }
    }
}

/// The session after `ev`, and what it then asks for, for the object in `dir`; `None` if
/// `ev` answers nothing that the session waits for. A first read that fails only starts
/// the wait; after the wait the payload has to be there.
pub open spec fn expect_next(s: ExpectSession, ev: ExpectEventView, dir: Seq<char>) -> Option<
    (ExpectSession, ExpectActionView),
> {
    match (s, ev) {
        (ExpectSession::Watching, ExpectEventView::Read(Ok(data))) => Some(
            (ExpectSession::Finished, ExpectActionView::Finish(Ok(data))),
        ),
        (ExpectSession::Watching, ExpectEventView::Read(Err(_))) => Some(
            (ExpectSession::Waiting, ExpectActionView::AwaitNode(spec_payload_path(dir))),
        ),
        (ExpectSession::Waiting, ExpectEventView::Appeared) => Some(
            (ExpectSession::Fetching, ExpectActionView::Fetch(spec_payload_path(dir))),
        ),
        (ExpectSession::Fetching, ExpectEventView::Read(r)) => Some(
            (ExpectSession::Finished, ExpectActionView::Finish(r)),
        ),
        _ => None,
    }
}

impl ExpectSession {
    /// Starts to wait for the object in `dir`. The string is the path to read, with a
    /// watch on it.
    pub fn start(dir: &str) -> (r: (ExpectSession, String))
        ensures
            r.0 is Watching,
            r.1@ == spec_payload_path(dir@),
    {
        (ExpectSession::Watching, payload_path(dir))
    }

    /// Takes the answer `ev` in and says what to do next. An event that answers nothing
    /// the session waits for leaves it as it is and gives `None`.
    pub fn next(&mut self, dir: &str, ev: ExpectEvent) -> (action: Option<ExpectAction>)
        ensures
            expect_next(*old(self), ev@, dir@) matches Some(next) ==> *final(self) == next.0
                && (action matches Some(a) && a@ == next.1),
            expect_next(*old(self), ev@, dir@) is None ==> *final(self) == *old(self)
                && action is None,
    {
        let (next, action) = match (*self, ev) {
            (ExpectSession::Watching, ExpectEvent::Read(Ok(data))) => {
                (ExpectSession::Finished, ExpectAction::Finish(Ok(data)))
            },
            (ExpectSession::Watching, ExpectEvent::Read(Err(_))) => {
                (ExpectSession::Waiting, ExpectAction::AwaitNode(payload_path(dir)))
            },
            (ExpectSession::Waiting, ExpectEvent::Appeared) => {
                (ExpectSession::Fetching, ExpectAction::Fetch(payload_path(dir)))
            },
            (ExpectSession::Fetching, ExpectEvent::Read(r)) => {
                (ExpectSession::Finished, ExpectAction::Finish(r))
            },
            _ => {
                return None;
            },
        };
        *self = next;
        Some(action)
    }
}

/// The session after all of `events`, from the start, whatever the object is and whoever
/// the instance is; `None` if one of them answers nothing.
pub open spec fn init_run(events: Seq<InitEvent>) -> Option<InitSession>
    decreases events.len(),
{
    if events.len() == 0 {
        Some(InitSession::Checking)
    } else {
        match init_run(events.drop_last()) {
            Some(s) => match init_next(
                s,
                events.last(),
                Seq::empty(),
                Seq::empty(),
                Seq::empty(),
            ) {
                Some(next) => Some(next.0),
                None => None,
            },
            None => None,
        }
    }
}

/// What the events so far say about the session that they lead to.
proof fn lemma_init_run(events: Seq<InitEvent>)
    requires
        init_run(events) is Some,
    ensures
        init_run(events) matches Some(s) ==> {
            &&& s is Checking <==> events.len() == 0
            &&& events.len() > 0 && events[0] == InitEvent::Exists(true) ==> !(s is CreatingDir)
                && !(s is CreatingPayload)
            &&& s is CreatingListeners || s is Registering ==> events.contains(InitEvent::Synced)
        },
    decreases events.len(),
{
    if events.len() > 0 {
        lemma_init_run(events.drop_last());
        assert(events.contains(events.last()));
        if events.len() > 1 {
            assert(events.drop_last()[0] == events[0]);
        }
    }
}

/// A payload that is there is kept: an instance that finds one creates neither the
/// directory nor the payload.
pub proof fn law_existing_payload_is_kept(
    events: Seq<InitEvent>,
    ev: InitEvent,
    dir: Seq<char>,
    id: Seq<char>,
    payload: Seq<u8>,
)
    requires
        events.push(ev)[0] == InitEvent::Exists(true),
        init_run(events) is Some,
    ensures
        init_next(init_run(events)->0, ev, dir, id, payload) matches Some(next)
            ==> !(next.1 matches InitActionView::Create { path, .. } && (path == dir || path
            == spec_payload_path(dir))),
{
    lemma_init_run(events);
    law_nodes_are_apart(dir, id);
    if events.len() > 0 {
        assert(events[0] == events.push(ev)[0]);
    }
}

/// An instance starts only once its object was pulled from ZooKeeper.
pub proof fn law_start_pulls_the_object(
    events: Seq<InitEvent>,
    ev: InitEvent,
    dir: Seq<char>,
    id: Seq<char>,
    payload: Seq<u8>,
)
    requires
        init_run(events) is Some,
        init_next(init_run(events)->0, ev, dir, id, payload) matches Some(next) && next.1
            == InitActionView::Finish(Ok(())),
    ensures
        events.contains(InitEvent::Synced),
{
    lemma_init_run(events);
}

/// An instance that started has its listener record: the start succeeds exactly when
/// ZooKeeper has made the ephemeral record with the id of the instance, which is the last
/// thing asked for.
pub proof fn law_started_instance_is_listed(
    s: InitSession,
    ev: InitEvent,
    dir: Seq<char>,
    id: Seq<char>,
    payload: Seq<u8>,
)
    ensures
        (init_next(s, ev, dir, id, payload) matches Some(next) && next.1
            == InitActionView::Finish(Ok(()))) <==> s is Registering && (ev matches InitEvent::Created(
            Ok(_),
        )),
        init_next(s, ev, dir, id, payload) matches Some(next) ==> (next.0 is Registering ==> next.1
            == (InitActionView::Create {
            path: spec_listener_path(dir, id),
            data: Seq::empty(),
            mode: CreateMode::Ephemeral,
        })),
{
}

/// Waiting for an object gives what was read last, and an object that is not there yet is
/// waited for: only a read after the wait can fail.
pub proof fn law_expected_object_is_what_was_read(
    s: ExpectSession,
    ev: ExpectEventView,
    dir: Seq<char>,
)
    ensures
        expect_next(s, ev, dir) matches Some(next) ==> {
            &&& next.1 matches ExpectActionView::Finish(r) ==> ev == ExpectEventView::Read(r)
            &&& next.1 matches ExpectActionView::Finish(Err(_)) ==> s is Fetching
            &&& next.0 is Fetching ==> s is Waiting && ev is Appeared
        },
{
}

/// What a start asks for is seen whole: the path, the data and the mode of a node, and the
/// result.
pub proof fn law_start_actions_are_seen_whole(
    path: String,
    data: Vec<u8>,
    mode: CreateMode,
    result: Result<(), ZkError>,
)
    ensures
        (InitAction::Create { path, data, mode })@ == (InitActionView::Create {
            path: path@,
            data: data@,
            mode,
        }),
        InitAction::Sync@ == InitActionView::Sync,
        InitAction::Finish(result)@ == InitActionView::Finish(result),
{
}

/// What happens in a wait, and what a wait asks for, is seen whole: every byte that was
/// read, every error, and every path.
pub proof fn law_waits_are_seen_whole(data: Vec<u8>, error: ZkError, path: String)
    ensures
        ExpectEvent::Read(Ok(data))@ == ExpectEventView::Read(Ok(data@)),
        ExpectEvent::Read(Err(error))@ == ExpectEventView::Read(Err(error)),
        ExpectEvent::Appeared@ == ExpectEventView::Appeared,
        ExpectAction::AwaitNode(path)@ == ExpectActionView::AwaitNode(path@),
        ExpectAction::Fetch(path)@ == ExpectActionView::Fetch(path@),
        ExpectAction::Finish(Ok(data))@ == ExpectActionView::Finish(Ok(data@)),
        ExpectAction::Finish(Err(error))@ == ExpectActionView::Finish(Err(error)),
{
}

/// An instance that finds no payload creates its own directory, empty and to stay; one that
/// finds a payload goes on to pull it.
pub proof fn law_missing_directory_is_created(dir: Seq<char>, id: Seq<char>, payload: Seq<u8>)
    ensures
        init_next(InitSession::Checking, InitEvent::Exists(false), dir, id, payload) == Some(
            (
                InitSession::CreatingDir,
                InitActionView::Create {
                    path: dir,
                    data: Seq::empty(),
                    mode: CreateMode::Persistent,
                },
            ),
        ),
        init_next(InitSession::Checking, InitEvent::Exists(true), dir, id, payload) == Some(
            (InitSession::Syncing, InitActionView::Sync),
        ),
{
}

/// Once its directory is there, an instance stores its object: exactly its encoding, to
/// stay, in the payload node. And only then is the encoding asked for.
pub proof fn law_object_is_stored_in_the_payload(
    s: InitSession,
    ev: InitEvent,
    dir: Seq<char>,
    id: Seq<char>,
    payload: Seq<u8>,
)
    ensures
        init_next(InitSession::CreatingDir, InitEvent::Created(Ok(())), dir, id, payload) == Some(
            (
                InitSession::CreatingPayload,
                InitActionView::Create {
                    path: dir + "/payload"@,
                    data: payload,
                    mode: CreateMode::Persistent,
                },
            ),
        ),
        writes_payload(s, ev) <==> s is CreatingDir && (ev matches InitEvent::Created(Ok(_))),
        writes_payload(s, ev) <==> (init_next(s, ev, dir, id, payload) matches Some(next) && (
        next.1 matches InitActionView::Create { path, .. } && path == dir + "/payload"@)),
{
    law_nodes_are_apart(dir, id);
}

/// Once the object is stored, it is pulled; once it is pulled, the parent of the listener
/// records is created, to stay; and then, whatever came of that, the record of this
/// instance, to go with its session.
pub proof fn law_start_goes_on(
    made: Result<(), ZkError>,
    dir: Seq<char>,
    id: Seq<char>,
    payload: Seq<u8>,
)
    ensures
        init_next(InitSession::CreatingPayload, InitEvent::Created(Ok(())), dir, id, payload)
            == Some((InitSession::Syncing, InitActionView::Sync)),
        init_next(InitSession::Syncing, InitEvent::Synced, dir, id, payload) == Some(
            (
                InitSession::CreatingListeners,
                InitActionView::Create {
                    path: dir + "/listeners"@,
                    data: Seq::empty(),
                    mode: CreateMode::Persistent,
                },
            ),
        ),
        init_next(InitSession::CreatingListeners, InitEvent::Created(made), dir, id, payload)
            == Some(
            (
                InitSession::Registering,
                InitActionView::Create {
                    path: dir + "/listeners/"@ + id,
                    data: Seq::empty(),
                    mode: CreateMode::Ephemeral,
                },
            ),
        ),
{
    reveal_strlit("/listeners");
    reveal_strlit("/");
    reveal_strlit("/listeners/");
    assert(spec_listener_path(dir, id) =~= dir + "/listeners/"@ + id);
}

/// A start ends with the answer to its last request, as it is: it fails where the
/// directory, the payload or the record of the instance cannot be made, and succeeds once
/// the record is made.
pub proof fn law_start_ends_with_the_answer(
    s: InitSession,
    ev: InitEvent,
    dir: Seq<char>,
    id: Seq<char>,
    payload: Seq<u8>,
)
    ensures
        s is CreatingDir || s is CreatingPayload || s is Registering ==> (
        ev matches InitEvent::Created(Err(e)) ==> init_next(s, ev, dir, id, payload) == Some(
            (InitSession::Finished, InitActionView::Finish(Err(e))),
        )),
        s is Registering ==> (ev matches InitEvent::Created(Ok(_)) ==> init_next(
            s,
            ev,
            dir,
            id,
            payload,
        ) == Some((InitSession::Finished, InitActionView::Finish(Ok(()))))),
        init_next(s, ev, dir, id, payload) is Some <==> match s {
            InitSession::Checking => ev is Exists,
            InitSession::Syncing => ev is Synced,
            InitSession::Finished => false,
            _ => ev is Created,
        },
{
}

/// Every node that a start creates is the directory of the object or lies below it; only
/// the payload holds data, and only the record of the instance goes with its session.
pub proof fn law_start_keeps_to_its_directory(
    s: InitSession,
    ev: InitEvent,
    dir: Seq<char>,
    id: Seq<char>,
    payload: Seq<u8>,
)
    ensures
        init_next(s, ev, dir, id, payload) matches Some(next) ==> (
        next.1 matches InitActionView::Create { path, data, mode } ==> {
            &&& dir.is_prefix_of(path)
            &&& path != dir ==> path[dir.len() as int] == '/'
            &&& path != dir + "/payload"@ ==> data == Seq::<u8>::empty()
            &&& path == dir + "/payload"@ ==> data == payload
            &&& mode == CreateMode::Ephemeral <==> s is CreatingListeners
        }),
{
    reveal_strlit("/payload");
    reveal_strlit("/listeners");
    reveal_strlit("/");
    law_nodes_are_apart(dir, id);
}

/// Waiting for an object only ever asks for its own payload.
pub proof fn law_wait_asks_for_its_own_payload(
    s: ExpectSession,
    ev: ExpectEventView,
    dir: Seq<char>,
)
    ensures
        expect_next(s, ev, dir) matches Some(next) ==> {
            &&& next.1 matches ExpectActionView::Fetch(path) ==> path == dir + "/payload"@
            &&& next.1 matches ExpectActionView::AwaitNode(path) ==> path == dir + "/payload"@
        },
{
}

/// A wait goes its way: a payload that can be read at once ends it with what was read; else
/// its node is waited for, then the payload is read once more, and that read ends the wait,
/// with all the bytes or with its error. Nothing else is heard.
pub proof fn law_wait_ends_with_a_read(
    data: Seq<u8>,
    error: ZkError,
    read: Result<Seq<u8>, ZkError>,
    dir: Seq<char>,
    s: ExpectSession,
    ev: ExpectEventView,
)
    ensures
        expect_next(ExpectSession::Watching, ExpectEventView::Read(Ok(data)), dir) == Some(
            (ExpectSession::Finished, ExpectActionView::Finish(Ok(data))),
        ),
        expect_next(ExpectSession::Watching, ExpectEventView::Read(Err(error)), dir) == Some(
            (ExpectSession::Waiting, ExpectActionView::AwaitNode(dir + "/payload"@)),
        ),
        expect_next(ExpectSession::Waiting, ExpectEventView::Appeared, dir) == Some(
            (ExpectSession::Fetching, ExpectActionView::Fetch(dir + "/payload"@)),
        ),
        expect_next(ExpectSession::Fetching, ExpectEventView::Read(read), dir) == Some(
            (ExpectSession::Finished, ExpectActionView::Finish(read)),
        ),
        expect_next(s, ev, dir) is Some <==> match s {
            ExpectSession::Watching => ev is Read,
            ExpectSession::Waiting => ev is Appeared,
            ExpectSession::Fetching => ev is Read,
            ExpectSession::Finished => false,
        },
{
}

} // verus!
