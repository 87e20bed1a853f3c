//! The update stream: the channel on which the changes of an object are reported.

use crate::change::{Change, ChangeView};
use crossbeam_channel::{Receiver, Sender};
use serde_json::Value;
use treediff::value::Key;
use vstd::prelude::*;

verus! {

/// The sending end of a `crossbeam_channel` channel.
#[verifier::external_type_specification]
#[verifier::external_body]
#[verifier::reject_recursive_types(T)]
pub struct ExSender<T>(crossbeam_channel::Sender<T>);

/// The receiving end of a `crossbeam_channel` channel.
#[verifier::external_type_specification]
#[verifier::external_body]
#[verifier::reject_recursive_types(T)]
pub struct ExReceiver<T>(crossbeam_channel::Receiver<T>);

/// Everything that was ever put on a channel through `tx`, in order, whether or not a
/// receiver has taken it since.
pub uninterp spec fn sent_through(tx: Sender<Change<Key, Value>>) -> Seq<
    ChangeView<Key, Value>,
>;

/// Whether `rx` receives from the channel that `tx` sends to.
pub uninterp spec fn same_channel(
    tx: Sender<Change<Key, Value>>,
    rx: Receiver<Change<Key, Value>>,
) -> bool;

/// Whether two receivers take from the same queue: they belong to the same senders.
pub open spec fn same_queue(
    one: Receiver<Change<Key, Value>>,
    other: Receiver<Change<Key, Value>>,
) -> bool {
    forall|tx: Sender<Change<Key, Value>>| same_channel(tx, one) == same_channel(tx, other)
}

/// Calls `crossbeam_channel::unbounded`. Trusted: the two ends belong to one channel, and
/// nothing was sent yet.
#[verifier::external_body]
fn unbounded() -> (ends: (Sender<Change<Key, Value>>, Receiver<Change<Key, Value>>))
    ensures
        same_channel(ends.0, ends.1),
        sent_through(ends.0).len() == 0,
{
    crossbeam_channel::unbounded()
}

/// Calls `crossbeam_channel::Sender::send`. Trusted: while a receiving end is there, which
/// `rx` shows, a send on an unbounded channel does not block and does not fail, so the
/// change is put on the channel behind everything that was sent before; and the sender
/// stays with its channel.
#[verifier::external_body]
fn send(
    tx: &mut Sender<Change<Key, Value>>,
    rx: &Receiver<Change<Key, Value>>,
    change: Change<Key, Value>,
)
    requires
        same_channel(*old(tx), *rx),
    ensures
        sent_through(*final(tx)) == sent_through(*old(tx)).push(change@),
        forall|r: Receiver<Change<Key, Value>>| same_channel(*final(tx), r) == same_channel(*old(tx), r),
{
    let _ = tx.send(change);
}

/// Calls `crossbeam_channel::Receiver::len`, the number of messages on the channel.
/// Trusted: no more can wait there than were sent. How many of them were taken already is
/// up to the receivers, and not stated.
#[verifier::external_body]
fn waiting(tx: &Sender<Change<Key, Value>>, rx: &Receiver<Change<Key, Value>>) -> (n: usize)
    requires
        same_channel(*tx, *rx),
    ensures
        n <= sent_through(*tx).len(),
{
    rx.len()
}

/// Calls the `clone` of a `crossbeam_channel::Receiver`. Trusted: the copy receives from
/// the same channel.
#[verifier::external_body]
fn clone_receiver(rx: &Receiver<Change<Key, Value>>) -> (r: Receiver<Change<Key, Value>>)
    ensures
        same_queue(r, *rx),
{
    rx.clone()
}

/// The answer of `count` for two ends of a channel.
fn ask<F: FnOnce(&Sender<Change<Key, Value>>, &Receiver<Change<Key, Value>>) -> usize>(
    count: F,
    tx: &Sender<Change<Key, Value>>,
    rx: &Receiver<Change<Key, Value>>,
) -> (n: usize)
    requires
        count.requires((tx, rx)),
    ensures
        count.ensures((tx, rx), n),
{
    count(tx, rx)
}

/// Both ends of the channel on which the changes of one object are reported.
pub struct UpdateStream {
    chan_rx: Receiver<Change<Key, Value>>,
    chan_tx: Sender<Change<Key, Value>>,
}

impl UpdateStream {
    /// Whether the two ends belong together.
    pub closed spec fn wf(&self) -> bool {
        same_channel(self.chan_tx, self.chan_rx)
    }

    /// Every change reported so far, in order.
    pub closed spec fn sent(&self) -> Seq<ChangeView<Key, Value>> {
        sent_through(self.chan_tx)
    }

    /// Whether `rx` receives what is reported here.
    pub closed spec fn feeds(&self, rx: Receiver<Change<Key, Value>>) -> bool {
        same_channel(self.chan_tx, rx) && same_queue(rx, self.chan_rx)
    }

    /// What is reported here goes to one queue.
    pub proof fn lemma_feeds_one_queue(
        &self,
        one: Receiver<Change<Key, Value>>,
        other: Receiver<Change<Key, Value>>,
    )
        requires
            self.feeds(one),
            self.feeds(other),
        ensures
            same_queue(one, other),
    {
        assert forall|tx: Sender<Change<Key, Value>>|
            same_channel(tx, one) == same_channel(tx, other) by {
            assert(same_channel(tx, one) == same_channel(tx, self.chan_rx));
            assert(same_channel(tx, other) == same_channel(tx, self.chan_rx));
        }
    }

    /// Whether the channel can have said that `n` changes wait on it: whether [`waiting`]
    /// can have returned `n` for its two ends. Nothing but a call shows that.
    pub closed spec fn counted(&self, n: usize) -> bool {
        call_ensures(waiting, (&self.chan_tx, &self.chan_rx), n)
    }

    /// What was counted was asked of the channel.
    proof fn lemma_channel_was_asked(&self, n: usize)
        requires
            self.counted(n),
        ensures
            call_ensures(waiting, (&self.chan_tx, &self.chan_rx), n),
    {
    }

    /// A stream is nothing but the two ends of its channel: it remembers neither what was
    /// sent nor what was counted.
    proof fn lemma_stream_is_its_ends(self)
        ensures
            self == (UpdateStream { chan_rx: self.chan_rx, chan_tx: self.chan_tx }),
            self.sent() == sent_through(self.chan_tx),
    {
    }

    /// What is reported here is what was sent, and it was sent to those who listen: the
    /// reported changes went, one by one and in order, through the sending end of the
    /// channel that every receiver of this stream receives from.
    pub proof fn law_reports_are_sent(&self)
        ensures
            exists|tx: Sender<Change<Key, Value>>|
                {
                    &&& #[trigger] sent_through(tx) == self.sent()
                    &&& forall|rx: Receiver<Change<Key, Value>>|
                        self.feeds(rx) ==> same_channel(tx, rx)
                },
    {
        assert(sent_through(self.chan_tx) == self.sent());
    }

    /// A stream on which nothing was reported yet.
    pub fn new() -> (s: UpdateStream)
        ensures
            s.wf(),
            s.sent() == Seq::<ChangeView<Key, Value>>::empty(),
    {
        let (chan_tx, chan_rx) = unbounded();
        UpdateStream { chan_rx, chan_tx }
    }

    /// Reports one change.
    pub fn push(&mut self, change: Change<Key, Value>)
        requires
            old(self).wf(),
        ensures
            final(self).wf(),
            final(self).sent() == old(self).sent().push(change@),
            forall|rx: Receiver<Change<Key, Value>>| final(self).feeds(rx) == old(self).feeds(rx),
    {
        send(&mut self.chan_tx, &self.chan_rx, change);
    }

    /// A receiver of what is reported here.
    pub fn receiver(&self) -> (rx: Receiver<Change<Key, Value>>)
        requires
            self.wf(),
        ensures
            self.feeds(rx),
    {
        clone_receiver(&self.chan_rx)
    }

    /// How many changes wait for a receiver.
    pub fn len(&self) -> (n: usize)
        requires
            self.wf(),
        ensures
            n <= self.sent().len(),
            self.counted(n),
    {
        ask(waiting, &self.chan_tx, &self.chan_rx)
    }
}

} // verus!
