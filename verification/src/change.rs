//! Changes between two versions of a shared object, as its update stream reports them.

use serde_json::Value;
use treediff::tools::{ChangeType, Recorder};
use treediff::value::Key;
use vstd::prelude::*;

verus! {

/// A JSON value. The library never looks inside one: it compares values by their JSON
/// content, through `treediff`, and hands them on.
#[verifier::external_type_specification]
#[verifier::external_body]
pub struct ExValue(serde_json::Value);

/// A step of the way to a place inside a JSON value: an array index or the name of a
/// field.
#[verifier::external_type_specification]
#[verifier::external_body]
pub struct ExKey(treediff::value::Key);

/// One entry of the update stream.
#[derive(PartialEq, Debug)]
pub enum Change<K, V> {
    /// The Value was removed
    Removed(Vec<K>, V),
    /// The Value was added
    Added(Vec<K>, V),
    /// No change was performed to the Value
    Unchanged(),
    /// The first Value was modified and became the second Value
    Modified(Vec<K>, V, V),
}

/// What a [`Change`] says: the kind of change, the way to the place, and the values.
pub enum ChangeView<K, V> {
    Removed(Seq<K>, V),
    Added(Seq<K>, V),
    Unchanged,
    Modified(Seq<K>, V, V),
}

impl<K, W> View for Change<K, W> {
    type V = ChangeView<K, W>;

    open spec fn view(&self) -> ChangeView<K, W> {
        match *self {
            Change::Removed(k, v) => ChangeView::Removed(k@, v),
            Change::Added(k, v) => ChangeView::Added(k@, v),
            Change::Unchanged() => ChangeView::Unchanged,
            Change::Modified(k, v, w) => ChangeView::Modified(k@, v, w),
        }
    }
}

/// One finding of a comparison of two values, at one place. Unlike a [`Change`] it names
/// the place also where nothing changed.
#[derive(PartialEq, Debug)]
pub enum DiffCall<K, V> {
    /// Only the first value has something at this place.
    Removed(Vec<K>, V),
    /// Only the second value has something at this place.
    Added(Vec<K>, V),
    /// Both values hold the same at this place.
    Unchanged(Vec<K>, V),
    /// The values differ at this place.
    Modified(Vec<K>, V, V),
}

/// What a [`DiffCall`] says.
pub enum DiffCallView<K, V> {
    Removed(Seq<K>, V),
    Added(Seq<K>, V),
    Unchanged(Seq<K>, V),
    Modified(Seq<K>, V, V),
}

impl<K, W> View for DiffCall<K, W> {
    type V = DiffCallView<K, W>;

    open spec fn view(&self) -> DiffCallView<K, W> {
        match *self {
            DiffCall::Removed(k, v) => DiffCallView::Removed(k@, v),
            DiffCall::Added(k, v) => DiffCallView::Added(k@, v),
            DiffCall::Unchanged(k, v) => DiffCallView::Unchanged(k@, v),
            DiffCall::Modified(k, v, w) => DiffCallView::Modified(k@, v, w),
        }
    }
}

/// The views of a list of findings.
pub open spec fn call_views<K, V>(calls: Seq<DiffCall<K, V>>) -> Seq<DiffCallView<K, V>> {
    calls.map_values(|call: DiffCall<K, V>| call@)
}

/// The views of a list of changes.
pub open spec fn change_views<K, V>(changes: Seq<Change<K, V>>) -> Seq<ChangeView<K, V>> {
    changes.map_values(|change: Change<K, V>| change@)
}

/// The change that one finding stands for: the same kind, place and values.
pub open spec fn change_of<K, V>(call: DiffCallView<K, V>) -> ChangeView<K, V> {
    match call {
        DiffCallView::Removed(k, v) => ChangeView::Removed(k, v),
        DiffCallView::Added(k, v) => ChangeView::Added(k, v),
        DiffCallView::Unchanged(_, _) => ChangeView::Unchanged,
        DiffCallView::Modified(k, v, w) => ChangeView::Modified(k, v, w),
    }
}

/// Whether a change belongs on the update stream.
pub open spec fn is_reported<K, V>(change: ChangeView<K, V>) -> bool {
    change !is Unchanged
}

/// What the update stream reports of a list of findings: their changes, in the same
/// order, without those that changed nothing.
pub open spec fn reported<K, V>(calls: Seq<DiffCallView<K, V>>) -> Seq<ChangeView<K, V>> {
    calls.map_values(|call: DiffCallView<K, V>| change_of(call)).filter(
        |change: ChangeView<K, V>| is_reported(change),
    )
}

/// What a finding becomes when the two values that were compared change places.
pub open spec fn exchanged_call<K, V>(call: DiffCallView<K, V>) -> DiffCallView<K, V> {
    match call {
        DiffCallView::Removed(k, v) => DiffCallView::Added(k, v),
        DiffCallView::Added(k, v) => DiffCallView::Removed(k, v),
        DiffCallView::Unchanged(k, v) => DiffCallView::Unchanged(k, v),
        DiffCallView::Modified(k, v, w) => DiffCallView::Modified(k, w, v),
    }
}

/// What a change becomes when the two values that were compared change places.
pub open spec fn exchanged_change<K, V>(change: ChangeView<K, V>) -> ChangeView<K, V> {
    match change {
        ChangeView::Removed(k, v) => ChangeView::Added(k, v),
        ChangeView::Added(k, v) => ChangeView::Removed(k, v),
        ChangeView::Unchanged => ChangeView::Unchanged,
        ChangeView::Modified(k, v, w) => ChangeView::Modified(k, w, v),
    }
}

/// A list of findings, each with the two values exchanged.
pub open spec fn exchanged_calls<K, V>(calls: Seq<DiffCallView<K, V>>) -> Seq<DiffCallView<K, V>> {
    calls.map_values(|call: DiffCallView<K, V>| exchanged_call(call))
}

/// A list of changes, each with the two values exchanged.
pub open spec fn exchanged<K, V>(changes: Seq<ChangeView<K, V>>) -> Seq<ChangeView<K, V>> {
    changes.map_values(|change: ChangeView<K, V>| exchanged_change(change))
}

/// The findings of `treediff` on two JSON values, in the order in which it makes them.
pub uninterp spec fn recorded_calls(a: Value, b: Value) -> Seq<DiffCallView<Key, Value>>;

/// Whether `change` names the place it is about: what was added or removed lies at least
/// one key deep, and what was modified became something else.
pub open spec fn is_descriptive(change: ChangeView<Key, Value>) -> bool {
    match change {
        ChangeView::Removed(k, _) => k.len() > 0,
        ChangeView::Added(k, _) => k.len() > 0,
        ChangeView::Unchanged => true,
        ChangeView::Modified(_, v, w) => v != w,
    }
}

/// Whether a stream holds real changes only: nothing that did not change, every addition
/// and removal with its place, and every modification with two different values.
pub open spec fn only_changes(sent: Seq<ChangeView<Key, Value>>) -> bool {
    forall|i: int|
        0 <= i < sent.len() ==> is_reported(#[trigger] sent[i]) && is_descriptive(sent[i])
}

/// Whether the changes from `a` to `b` are, in some order, the changes from `b` to `a` with
/// the values exchanged.
pub open spec fn turns_back(a: Value, b: Value) -> bool {
    reported(recorded_calls(a, b)).to_multiset() == exchanged(
        reported(recorded_calls(b, a)),
    ).to_multiset()
}

/// Calls `treediff::diff` with a `treediff::tools::Recorder`, which keeps every finding,
/// and copies the findings out. Trusted: the findings depend on the two values alone; a
/// value compared with itself gives one finding, that nothing changed at the root; what
/// is added or removed is named by at least one key; what is reported as modified holds two
/// different values; and comparing the values the other way round makes, in some order,
/// the same changes with the values exchanged. The last is not stated of what did not
/// change, where the finding holds the first of two values that are equal as JSON.
#[verifier::external_body]
fn record_diff(a: &Value, b: &Value) -> (calls: Vec<DiffCall<Key, Value>>)
    ensures
        call_views(calls@) == recorded_calls(*a, *b),
        *a == *b ==> call_views(calls@) == seq![DiffCallView::Unchanged(Seq::<Key>::empty(), *a)],
        forall|i: int| 0 <= i < calls@.len() ==> is_descriptive(change_of(#[trigger] calls@[i]@)),
        reported(call_views(calls@)).to_multiset() == exchanged(
            reported(recorded_calls(*b, *a)),
        ).to_multiset(),
{
    let mut delta = Recorder::default();
    treediff::diff(a, b, &mut delta);
    delta.calls.into_iter().map(|call| match call {
        ChangeType::Removed(k, v) => DiffCall::Removed(k, v.clone()),
        ChangeType::Added(k, v) => DiffCall::Added(k, v.clone()),
        ChangeType::Unchanged(k, v) => DiffCall::Unchanged(k, v.clone()),
        ChangeType::Modified(k, v, w) => DiffCall::Modified(k, v.clone(), w.clone()),
    }).collect()
}

/// Adding one finding at the end adds its change at the end, if it is one to report.
proof fn lemma_reported_push<K, V>(calls: Seq<DiffCallView<K, V>>, call: DiffCallView<K, V>)
    ensures
        reported(calls.push(call)) == (if is_reported(change_of(call)) {
            reported(calls).push(change_of(call))
        } else {
            reported(calls)
        }),
{
    reveal(Seq::filter);
    let f = |c: DiffCallView<K, V>| change_of(c);
    assert(calls.push(call).map_values(f).drop_last() =~= calls.map_values(f));
    assert(calls.push(call).map_values(f).last() == change_of(call));
}

/// The changes that a list of findings stands for, in order, without those that changed
/// nothing.
pub fn changes_of<K, V>(calls: Vec<DiffCall<K, V>>) -> (changes: Vec<Change<K, V>>)
    ensures
        change_views(changes@) == reported(call_views(calls@)),
{
    let mut changes: Vec<Change<K, V>> = Vec::new();
    let ghost all = calls@;
    proof {
        reveal(Seq::filter);
        assert(change_views(changes@) =~= reported(call_views(all.take(0))));
    }
    for call in it: calls
        invariant
            it.seq() == all,
            change_views(changes@) == reported(call_views(all.take(it.index()))),
    {
        proof {
            let done = all.take(it.index());
            assert(call_views(all.take(it.index() + 1)) =~= call_views(done).push(call@));
            lemma_reported_push(call_views(done), call@);
        }
        let ghost before = changes@;
        let op = match call {
            DiffCall::Added(k, v) => Change::Added(k, v),
            DiffCall::Removed(k, v) => Change::Removed(k, v),
            DiffCall::Modified(k, v, w) => Change::Modified(k, v, w),
            DiffCall::Unchanged(_, _) => Change::Unchanged(),
        };
        match op {
            Change::Unchanged() => {},
            _ => {
                changes.push(op);
                assert(change_views(changes@) =~= change_views(before).push(op@));
            },
        }
    }
    assert(all.take(all.len() as int) =~= all);
    changes
}

/// What is reported of a list of findings is made of their changes, and each of them did
/// change something.
proof fn lemma_reported_from<K, V>(calls: Seq<DiffCallView<K, V>>, i: int)
    requires
        0 <= i < reported(calls).len(),
    ensures
        is_reported(reported(calls)[i]),
        exists|j: int| 0 <= j < calls.len() && change_of(#[trigger] calls[j]) == reported(calls)[i],
{
    let changes = calls.map_values(|call: DiffCallView<K, V>| change_of(call));
    let p = |change: ChangeView<K, V>| is_reported(change);
    changes.lemma_filter_pred(p, i);
    let found = changes.filter(p)[i];
    assert(changes.filter(p).contains(found));
    changes.lemma_filter_contains_rev(p, found);
    let j = choose|j: int| 0 <= j < changes.len() && changes[j] == found;
    assert(change_of(calls[j]) == found);
}

/// The changes from `a` to `b`, in the order in which a comparison finds them, without
/// anything that did not change. The changes from `b` to `a` are, in some order, the same
/// with the values exchanged.
pub fn changes_between(a: &Value, b: &Value) -> (changes: Vec<Change<Key, Value>>)
    ensures
        change_views(changes@) == reported(recorded_calls(*a, *b)),
        *a == *b ==> changes@.len() == 0,
        only_changes(change_views(changes@)),
        turns_back(*a, *b),
{
    let calls = record_diff(a, b);
    let ghost findings = call_views(calls@);
    proof {
        assert forall|i: int| 0 <= i < reported(findings).len() implies is_reported(
            #[trigger] reported(findings)[i],
        ) && is_descriptive(reported(findings)[i]) by {
            lemma_reported_from(findings, i);
            let j = choose|j: int|
                0 <= j < findings.len() && change_of(#[trigger] findings[j]) == reported(
                    findings,
                )[i];
            assert(findings[j] == calls@[j]@);
        }
        if *a == *b {
            assert(change_of(findings[0]) is Unchanged);
            if reported(findings).len() > 0 {
                lemma_reported_from(findings, 0);
            }
        }
    }
    changes_of(calls)
}

/// The update stream never reports that something did not change.
pub proof fn law_unchanged_is_never_reported<K, V>(calls: Seq<DiffCallView<K, V>>)
    ensures
        forall|i: int| 0 <= i < reported(calls).len() ==> is_reported(#[trigger] reported(calls)[i]),
{
    assert forall|i: int| 0 <= i < reported(calls).len() implies is_reported(
        #[trigger] reported(calls)[i],
    ) by {
        lemma_reported_from(calls, i);
    }
}

/// A list of findings, and a list of changes, is seen one for one, each with its kind, all
/// the keys of its place, and its values.
pub proof fn law_lists_are_seen_one_for_one<K, V>(
    calls: Seq<DiffCall<K, V>>,
    changes: Seq<Change<K, V>>,
    i: int,
)
    ensures
        call_views(calls).len() == calls.len(),
        change_views(changes).len() == changes.len(),
        0 <= i < calls.len() ==> match calls[i] {
            DiffCall::Removed(k, v) => call_views(calls)[i] == DiffCallView::Removed(k@, v),
            DiffCall::Added(k, v) => call_views(calls)[i] == DiffCallView::Added(k@, v),
            DiffCall::Unchanged(k, v) => call_views(calls)[i] == DiffCallView::Unchanged(k@, v),
            DiffCall::Modified(k, v, w) => call_views(calls)[i] == DiffCallView::Modified(k@, v, w),
        },
        0 <= i < changes.len() ==> match changes[i] {
            Change::Removed(k, v) => change_views(changes)[i] == ChangeView::Removed(k@, v),
            Change::Added(k, v) => change_views(changes)[i] == ChangeView::Added(k@, v),
            Change::Unchanged() => change_views(changes)[i] == ChangeView::<K, V>::Unchanged,
            Change::Modified(k, v, w) => change_views(changes)[i] == ChangeView::Modified(k@, v, w),
        },
{
}

/// A finding is reported as what it is: something removed, added or modified comes on the
/// stream once, with all the keys of its place and with its values, and something that did
/// not change does not come at all.
pub proof fn law_one_finding_is_one_change<K, V>(k: Seq<K>, v: V, w: V)
    ensures
        reported(seq![DiffCallView::Removed(k, v)]) == seq![ChangeView::Removed(k, v)],
        reported(seq![DiffCallView::Added(k, v)]) == seq![ChangeView::Added(k, v)],
        reported(seq![DiffCallView::Modified(k, v, w)]) == seq![ChangeView::Modified(k, v, w)],
        reported(seq![DiffCallView::Unchanged(k, v)]).len() == 0,
        reported(Seq::<DiffCallView<K, V>>::empty()).len() == 0,
{
    let none = Seq::<DiffCallView<K, V>>::empty();
    reveal(Seq::filter);
    assert(reported(none) =~= Seq::<ChangeView<K, V>>::empty());
    lemma_reported_push(none, DiffCallView::Removed(k, v));
    lemma_reported_push(none, DiffCallView::Added(k, v));
    lemma_reported_push(none, DiffCallView::Modified(k, v, w));
    lemma_reported_push(none, DiffCallView::Unchanged(k, v));
    assert(none.push(DiffCallView::Removed(k, v)) =~= seq![DiffCallView::Removed(k, v)]);
    assert(none.push(DiffCallView::Added(k, v)) =~= seq![DiffCallView::Added(k, v)]);
    assert(none.push(DiffCallView::Modified(k, v, w)) =~= seq![DiffCallView::Modified(k, v, w)]);
    assert(none.push(DiffCallView::Unchanged(k, v)) =~= seq![DiffCallView::Unchanged(k, v)]);
}

/// Every finding that is a change is reported, with its kind, all the keys of its place and
/// its values; and everything that is reported was found, in just this way.
pub proof fn law_reports_are_the_findings<K, V>(
    calls: Seq<DiffCallView<K, V>>,
    k: Seq<K>,
    v: V,
    w: V,
)
    ensures
        calls.contains(DiffCallView::Removed(k, v)) <==> reported(calls).contains(
            ChangeView::Removed(k, v),
        ),
        calls.contains(DiffCallView::Added(k, v)) <==> reported(calls).contains(
            ChangeView::Added(k, v),
        ),
        calls.contains(DiffCallView::Modified(k, v, w)) <==> reported(calls).contains(
            ChangeView::Modified(k, v, w),
        ),
        !reported(calls).contains(ChangeView::Unchanged),
{
    assert forall|j: int| 0 <= j < calls.len() && calls[j] !is Unchanged implies reported(
        calls,
    ).contains(change_of(#[trigger] calls[j])) by {
        law_every_change_is_reported(calls, j);
    }
    assert forall|i: int| 0 <= i < reported(calls).len() implies is_reported(
        #[trigger] reported(calls)[i],
    ) && exists|j: int|
        0 <= j < calls.len() && change_of(#[trigger] calls[j]) == reported(calls)[i] by {
        lemma_reported_from(calls, i);
    }
}

/// Every finding that is a change is reported, with its place and its values.
pub proof fn law_every_change_is_reported<K, V>(calls: Seq<DiffCallView<K, V>>, j: int)
    requires
        0 <= j < calls.len(),
        calls[j] !is Unchanged,
    ensures
        reported(calls).contains(change_of(calls[j])),
{
    let changes = calls.map_values(|call: DiffCallView<K, V>| change_of(call));
    let p = |change: ChangeView<K, V>| is_reported(change);
    assert(changes[j] == change_of(calls[j]));
    changes.lemma_filter_contains(p, j);
}

/// Exchanging the two values in every finding exchanges them in every change that is
/// reported, and in nothing else; and doing so twice gives the changes back.
pub proof fn law_exchanged_findings_are_exchanged_changes<K, V>(calls: Seq<DiffCallView<K, V>>)
    ensures
        reported(exchanged_calls(calls)) == exchanged(reported(calls)),
        exchanged(exchanged(reported(calls))) == reported(calls),
    decreases calls.len(),
{
    assert(exchanged(exchanged(reported(calls))) =~= reported(calls));
    if calls.len() == 0 {
        reveal(Seq::filter);
        assert(reported(exchanged_calls(calls)) =~= exchanged(reported(calls)));
    } else {
        let before = calls.drop_last();
        let call = calls.last();
        law_exchanged_findings_are_exchanged_changes(before);
        assert(calls =~= before.push(call));
        assert(exchanged_calls(calls) =~= exchanged_calls(before).push(exchanged_call(call)));
        lemma_reported_push(before, call);
        lemma_reported_push(exchanged_calls(before), exchanged_call(call));
        assert(reported(exchanged_calls(calls)) =~= exchanged(reported(calls)));
    }
}

/// Changes are reported in the order of the findings: what is found first is reported
/// first.
pub proof fn law_changes_keep_their_order<K, V>(
    first: Seq<DiffCallView<K, V>>,
    second: Seq<DiffCallView<K, V>>,
)
    ensures
        reported(first + second) == reported(first) + reported(second),
{
    let f = |call: DiffCallView<K, V>| change_of(call);
    let p = |change: ChangeView<K, V>| is_reported(change);
    assert((first + second).map_values(f) =~= first.map_values(f) + second.map_values(f));
    Seq::filter_distributes_over_add(first.map_values(f), second.map_values(f), p);
}

} // verus!
