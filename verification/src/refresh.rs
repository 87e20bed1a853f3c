//! When to pull the object from ZooKeeper again: on a watch event, and on a timer.

use crate::paths::spec_payload_path;
use vstd::prelude::*;

verus! {

/// How long the background check sleeps between two looks at the remote version, in
/// seconds.
pub const REFRESH_INTERVAL: u64 = 5;

/// What a watch on a node saw.
#[derive(Clone, Copy, Debug, PartialEq, Eq, Structural)]
pub enum WatchedEventType {
    /// Nothing happened to the node; the state of the connection changed.
    Connection,
    /// The node was created.
    NodeCreated,
    /// The node was deleted.
    NodeDeleted,
    /// The data of the node was written.
    NodeDataChanged,
    /// A child of the node was created or deleted.
    NodeChildrenChanged,
    /// The watch on the data was removed.
    DataWatchRemoved,
    /// The watch on the children was removed.
    ChildWatchRemoved,
}

/// A request to read a node.
#[derive(Debug)]
pub struct PullRequest {
    /// The node.
    pub path: String,
    /// Whether the same request sets a watch on the node.
    pub watch: bool,
}

/// What a [`PullRequest`] says.
pub struct PullRequestView {
    pub path: Seq<char>,
    pub watch: bool,
}

impl View for PullRequest {
    type V = PullRequestView;

    open spec fn view(&self) -> PullRequestView {
        PullRequestView { path: self.path@, watch: self.watch }
    }
}

/// The request that pulls the object in `dir`: it reads exactly the payload, with a watch.
pub open spec fn spec_pull_request(dir: Seq<char>) -> PullRequestView {
    PullRequestView { path: spec_payload_path(dir), watch: true }
}

/// The request that follows when a watch on the object in `dir` saw `event_type`.
pub open spec fn spec_watch_fired(dir: Seq<char>, event_type: WatchedEventType) -> Option<
    PullRequestView,
> {
    if event_type == WatchedEventType::NodeDataChanged {
        Some(spec_pull_request(dir))
    } else {
        None
    }
}

/// What ZooKeeper knows of a client that pulls an object: whether a watch of the client
/// stands on the payload, and how often the client has pulled.
pub struct Watching {
    pub armed: bool,
    pub pulls: nat,
}

/// What becomes of the watch when the client makes a request. A request for another node
/// does nothing to it.
pub open spec fn watch_after_request(
    w: Watching,
    dir: Seq<char>,
    request: PullRequestView,
) -> Watching {
    if request.path == spec_payload_path(dir) {
        Watching { armed: w.armed || request.watch, pulls: w.pulls + 1 }
    } else {
        w
    }
}

/// What becomes of the watch when something happens to the payload. A watch fires once;
/// then the client makes the request that follows.
pub open spec fn watch_after_event(
    w: Watching,
    dir: Seq<char>,
    event_type: WatchedEventType,
) -> Watching {
    let fired = Watching { armed: false, ..w };
    if !w.armed {
        w
    } else {
        match spec_watch_fired(dir, event_type) {
            Some(request) => watch_after_request(fired, dir, request),
            None => fired,
        }
    }
}

/// The watch of a client that pulled the object in `dir` for the first time, after all of
/// `events`.
pub open spec fn watch_run(dir: Seq<char>, events: Seq<WatchedEventType>) -> Watching
    decreases events.len(),
{
    if events.len() == 0 {
        watch_after_request(Watching { armed: false, pulls: 0 }, dir, spec_pull_request(dir))
    } else {
        watch_after_event(watch_run(dir, events.drop_last()), dir, events.last())
    }
}

/// What the background check does about what it found.
#[derive(Clone, Copy, Debug, PartialEq, Eq, Structural)]
pub enum Refresh {
    /// There is no remote object: leave everything as it is.
    Skip,
    /// The versions agree: note that the local object was verified.
    Verified,
    /// The remote version has drifted: pull the object, then note that it was verified.
    Resync,
}

/// Whether the object has to be pulled from ZooKeeper after a watch saw `event_type`:
/// exactly if the data was written.
pub fn handle_zk_watcher(event_type: WatchedEventType) -> (pull: bool)
    ensures
        pull == (event_type == WatchedEventType::NodeDataChanged),
{
    match event_type {
        WatchedEventType::NodeDataChanged => true,
        _ => false,
    }
}

/// A pull reads the payload of its object, with a watch; and a watch leads to such a pull
/// exactly if it saw that the data was written.
pub proof fn law_pulls_read_the_payload(dir: Seq<char>, event_type: WatchedEventType)
    ensures
        spec_pull_request(dir).path == dir + "/payload"@,
        spec_pull_request(dir).watch,
        event_type is NodeDataChanged <==> spec_watch_fired(dir, event_type) is Some,
        spec_watch_fired(dir, event_type) matches Some(request) ==> request.path == dir
            + "/payload"@ && request.watch,
{
}

/// A pull request is seen with its path and its watch.
pub proof fn law_pull_requests_are_seen_whole(request: PullRequest)
    ensures
        request@.path == request.path@,
        request@.watch == request.watch,
{
}

/// A chain of data changes is never left without a watch: a pull reads the payload once
/// and sets a watch in the same request, and every data change makes the payload be pulled
/// once more, with a further watch.
pub proof fn law_data_changes_always_find_a_watch(dir: Seq<char>, events: Seq<WatchedEventType>)
    requires
        forall|i: int|
            0 <= i < events.len() ==> #[trigger] events[i] == WatchedEventType::NodeDataChanged,
    ensures
        watch_run(dir, events) == (Watching { armed: true, pulls: events.len() + 1 }),
    decreases events.len(),
{
    if events.len() > 0 {
        law_data_changes_always_find_a_watch(dir, events.drop_last());
    }
}

} // verus!
