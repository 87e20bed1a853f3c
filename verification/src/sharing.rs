//! What the instances of one object see of each other: an object that one of them stored
//! is the object that the others hold.
//!
//! An object comes back from JSON as it was only if its codec brings it back. That is up
//! to the type of the object, so the laws name it where they need it.

use crate::error::ZkStructError;
use crate::paths::spec_payload_path;
use crate::payload::json_value;
use crate::startup::{
    expect_next, init_next, init_run, law_existing_payload_is_kept, CreateMode, ExpectActionView,
    ExpectEventView, ExpectSession, InitActionView, InitEvent, InitSession,
};
use crate::state::{dirty_read_outcome, is_edit, is_pull, ZkStateView};
use serde_json::Value;
use vstd::prelude::*;

verus! {

/// Whether `from_value` reads `object`, and nothing else, out of the JSON value `value`.
pub open spec fn reads_as<T, D: FnOnce(Value) -> T>(
    from_value: D,
    value: Value,
    object: T,
) -> bool {
    forall|t: T| #[trigger] from_value.ensures((value,), t) ==> t == object
}

/// Whether `to_value` writes `object` as the JSON value `value`, and as nothing else.
pub open spec fn writes_as<T, E: FnOnce(&T) -> Value>(
    to_value: E,
    object: T,
    value: Value,
) -> bool {
    forall|v: Value| #[trigger] to_value.ensures((&object,), v) ==> v == value
}

/// The second instance of an object takes the object of the first one over: where the
/// first one stored its object as `written`, the second one creates neither the directory
/// nor the payload, and once it has pulled, it holds the object of the first one.
pub proof fn law_second_instance_holds_the_first_object<
    T,
    B: FnOnce(&T) -> Vec<u8>,
    D: FnOnce(Value) -> T,
>(
    first: ZkStateView<T>,
    to_vec: B,
    written: Vec<u8>,
    second: ZkStateView<T>,
    pulled: ZkStateView<T>,
    local: Value,
    version: i32,
    from_value: D,
)
    requires
        second.dir == first.dir,
        to_vec.ensures((&first.inner,), written),
    ensures
        init_next(
            InitSession::CreatingDir,
            InitEvent::Created(Ok(())),
            first.dir,
            first.id,
            written@,
        ) matches Some(next) && next.1 == (InitActionView::Create {
            path: spec_payload_path(second.dir),
            data: written@,
            mode: CreateMode::Persistent,
        }),
        forall|events: Seq<InitEvent>, ev: InitEvent, payload: Seq<u8>|
            events.push(ev)[0] == InitEvent::Exists(true) && init_run(events) is Some ==> (
            #[trigger] init_next(
                init_run(events)->0,
                ev,
                second.dir,
                second.id,
                payload,
            ) matches Some(next) ==> !(next.1 matches InitActionView::Create { path, .. } && (path
                == second.dir || path == spec_payload_path(second.dir)))),
        json_value(written@) matches Some(remote) ==> (is_pull(
            second,
            pulled,
            local,
            remote,
            version,
        ) && from_value.ensures((remote,), pulled.inner) && reads_as(
            from_value,
            remote,
            first.inner,
        ) ==> pulled.inner == first.inner && pulled.epoch == version && dirty_read_outcome(
            pulled,
            false,
        ) == Ok::<T, ZkStructError>(first.inner)),
{
    assert forall|events: Seq<InitEvent>, ev: InitEvent, payload: Seq<u8>|
        events.push(ev)[0] == InitEvent::Exists(true) && init_run(events) is Some implies (
    #[trigger] init_next(
        init_run(events)->0,
        ev,
        second.dir,
        second.id,
        payload,
    ) matches Some(next) ==> !(next.1 matches InitActionView::Create { path, .. } && (path
        == second.dir || path == spec_payload_path(second.dir)))) by {
        law_existing_payload_is_kept(events, ev, second.dir, second.id, payload);
    }
}

/// An instance that waited for an object holds the object that was stored, from the moment
/// it is made; when it then pulls the same payload, it keeps that object and reports
/// nothing.
pub proof fn law_expected_object_is_held<
    T,
    B: FnOnce(&[u8]) -> T,
    E: FnOnce(&T) -> Value,
    D: FnOnce(Value) -> T,
>(
    object: T,
    data: &[u8],
    decode: B,
    waiting: ExpectSession,
    expecting: ZkStateView<T>,
    pulled: ZkStateView<T>,
    local: Value,
    version: i32,
    to_value: E,
    from_value: D,
)
    requires
        decode.ensures((data,), expecting.inner),
        forall|t: T| #[trigger] decode.ensures((data,), t) ==> t == object,
    ensures
        waiting is Watching || waiting is Fetching ==> expect_next(
            waiting,
            ExpectEventView::Read(Ok(data@)),
            expecting.dir,
        ) == Some((ExpectSession::Finished, ExpectActionView::Finish(Ok(data@)))),
        expecting.inner == object,
        json_value(data@) matches Some(remote) ==> (is_pull(
            expecting,
            pulled,
            local,
            remote,
            version,
        ) && (expecting.emits ==> to_value.ensures((&expecting.inner,), local)) && writes_as(
            to_value,
            object,
            remote,
        ) && from_value.ensures((remote,), pulled.inner) && reads_as(from_value, remote, object)
            ==> pulled == (ZkStateView {
            epoch: version,
            synced_at: pulled.synced_at,
            edited: false,
            ..expecting
        })),
{
    if !expecting.emits {
        assert(expecting.sent + Seq::empty() =~= expecting.sent);
    }
}

/// Pulling the same payload again changes nothing but the time of the last check, and
/// reports nothing.
pub proof fn law_second_pull_changes_nothing<T, E: FnOnce(&T) -> Value, D: FnOnce(Value) -> T>(
    start: ZkStateView<T>,
    first: ZkStateView<T>,
    second: ZkStateView<T>,
    before: Value,
    local: Value,
    remote: Value,
    version: i32,
    to_value: E,
    from_value: D,
)
    requires
        is_pull(start, first, before, remote, version),
        is_pull(first, second, local, remote, version),
        first.emits ==> to_value.ensures((&first.inner,), local),
        from_value.ensures((remote,), second.inner),
        reads_as(from_value, remote, first.inner),
        writes_as(to_value, first.inner, remote),
    ensures
        second == (ZkStateView { synced_at: second.synced_at, ..first }),
{
    if !first.emits {
        assert(first.sent + Seq::empty() =~= first.sent);
    }
}

/// An object that an instance wrote comes back to it unchanged: pulling it only notes the
/// version that it now has in ZooKeeper, and when that was checked.
pub proof fn law_own_write_comes_back_unchanged<T, D: FnOnce(Value) -> T>(
    start: ZkStateView<T>,
    edited: ZkStateView<T>,
    pulled: ZkStateView<T>,
    before: Value,
    after: Value,
    version: i32,
    from_value: D,
)
    requires
        is_edit(start, edited, before, after),
        is_pull(edited, pulled, after, after, version),
        from_value.ensures((after,), pulled.inner),
        reads_as(from_value, after, edited.inner),
    ensures
        pulled == (ZkStateView {
            epoch: version,
            synced_at: pulled.synced_at,
            edited: false,
            ..edited
        }),
{
}

} // verus!
