//! The event distributor: a registry of subscribers, each with its own outbound channel,
//! and the fan-out of one message to all of them.

use vstd::prelude::*;

verus! {

/// The sending half of an unbounded channel of the `futures-channel` crate.
#[verifier::external_type_specification]
#[verifier::external_body]
#[verifier::reject_recursive_types(T)]
pub struct ExUnboundedSender<T>(futures_channel::mpsc::UnboundedSender<T>);

/// A WebSocket message of the `tungstenite` crate.
#[verifier::external_type_specification]
#[verifier::external_body]
pub struct ExMessage(tokio_tungstenite::tungstenite::Message);

/// Puts `text` on a subscriber's channel as a text message, with `UnboundedSender::
/// unbounded_send`, which never blocks. Returns whether the channel took the message; it
/// does not once its receiving half is closed or gone. Nothing is claimed of the answer:
/// it depends on what the receiver did. (The call would panic only on a channel that
/// already holds more messages than memory can.)
#[verifier::external_body]
fn send_text(
    sender: &futures_channel::mpsc::UnboundedSender<tokio_tungstenite::tungstenite::Message>,
    text: &str,
) -> (accepted: bool) {
    sender.unbounded_send(tokio_tungstenite::tungstenite::Message::Text(text.to_owned().into()))
        .is_ok()
}

/// A registered subscriber.
struct Subscriber {
    id: u64,
    sender: futures_channel::mpsc::UnboundedSender<tokio_tungstenite::tungstenite::Message>,
}

/// What became of a message for one subscriber.
#[derive(Clone, Copy, Debug, PartialEq, Eq, Structural)]
pub struct Delivery {
    /// The subscriber that the message was offered to.
    pub subscriber: u64,
    /// Whether its channel took the message.
    pub accepted: bool,
}

/// The subscribers that a publish offered its message to, in order.
pub open spec fn offered(report: Seq<Delivery>) -> Seq<u64> {
    report.map_values(|d: Delivery| d.subscriber)
}

/// The subscribers whose channels took the message, in order.
pub open spec fn accepted_by(report: Seq<Delivery>) -> Seq<u64>
    decreases report.len(),
{
    if report.len() == 0 {
        Seq::empty()
    } else if report.last().accepted {
        accepted_by(report.drop_last()).push(report.last().subscriber)
    } else {
        accepted_by(report.drop_last())
    }
}

/// `ids` without `id`.
pub open spec fn without(ids: Seq<u64>, id: u64) -> Seq<u64> {
    if ids.contains(id) {
        ids.remove(ids.index_of(id))
    } else {
        ids
    }
}

/// The identities of a list of subscribers, in order.
spec fn ids_of(subscribers: Seq<Subscriber>) -> Seq<u64> {
    subscribers.map_values(|s: Subscriber| s.id)
}

/// The channel kept under `id` in a list of subscribers.
spec fn channel_in(
    subscribers: Seq<Subscriber>,
    id: u64,
) -> futures_channel::mpsc::UnboundedSender<tokio_tungstenite::tungstenite::Message> {
    subscribers[ids_of(subscribers).index_of(id)].sender
}

/// In a list without repetition, an element is found where it stands.
proof fn lemma_index_of(ids: Seq<u64>, at: int)
    requires
        ids.no_duplicates(),
        0 <= at < ids.len(),
    ensures
        ids.index_of(ids[at]) == at,
{
    assert(ids.contains(ids[at]));
}

/// Taking one subscriber out of a list without repeated identities: its identity is gone,
/// the others stay, without repetition, each with its channel.
proof fn lemma_remove_subscriber(before: Seq<Subscriber>, at: int)
    requires
        ids_of(before).no_duplicates(),
        0 <= at < before.len(),
    ensures
        ids_of(before.remove(at)) == ids_of(before).remove(at),
        ids_of(before.remove(at)).no_duplicates(),
        !ids_of(before.remove(at)).contains(ids_of(before)[at]),
        forall|id: u64| #[trigger]
            ids_of(before.remove(at)).contains(id) ==> ids_of(before).contains(id) && channel_in(
                before.remove(at),
                id,
            ) == channel_in(before, id),
{
    let after = before.remove(at);
    let ids = ids_of(before);
    let rest = ids_of(after);
    assert(rest =~= ids.remove(at));
    assert forall|a: int, b: int| 0 <= a < rest.len() && 0 <= b < rest.len() && a != b implies rest[a]
        != rest[b] by {
        let a0 = if a < at { a } else { a + 1 };
        let b0 = if b < at { b } else { b + 1 };
        assert(rest[a] == ids[a0]);
        assert(rest[b] == ids[b0]);
    }
    assert forall|j: int| 0 <= j < rest.len() implies rest[j] != ids[at] by {
        let j0 = if j < at { j } else { j + 1 };
        assert(rest[j] == ids[j0]);
    }
    assert forall|id: u64| #[trigger] rest.contains(id) implies ids.contains(id) && channel_in(
        after,
        id,
    ) == channel_in(before, id) by {
        let j = choose|j: int| 0 <= j < rest.len() && rest[j] == id;
        let j0 = if j < at { j } else { j + 1 };
        assert(ids[j0] == id);
        lemma_index_of(rest, j);
        lemma_index_of(ids, j0);
        assert(after[j] == before[j0]);
    }
}

/// The subscribers of the broadcast, in the order in which they registered.
pub struct SubscriberRegistry {
    subscribers: Vec<Subscriber>,
    next_id: u64,
}

impl View for SubscriberRegistry {
    type V = Seq<u64>;

    /// The identities of the registered subscribers, in the order of registration.
    closed spec fn view(&self) -> Seq<u64> {
        ids_of(self.subscribers@)
    }
}

impl SubscriberRegistry {
    /// The channel through which the registered subscriber `id` is reached: the registry
    /// maps each registered identity to its channel.
    pub closed spec fn channel(
        &self,
        id: u64,
    ) -> futures_channel::mpsc::UnboundedSender<tokio_tungstenite::tungstenite::Message> {
        channel_in(self.subscribers@, id)
    }

    /// In a well-formed registry no identity is registered twice, and every registered
    /// identity was handed out.
    pub proof fn lemma_identities_are_distinct(&self)
        requires
            self.wf(),
        ensures
            self@.no_duplicates(),
            forall|id: u64| self@.contains(id) ==> id < self.issued(),
    {
    }

    /// The number of identities handed out so far. They are handed out in order from 0.
    pub closed spec fn issued(&self) -> nat {
        self.next_id as nat
    }

    /// The registry is well formed: no identity is registered twice, and each was handed
    /// out. Every registry that this module hands out is well formed.
    pub closed spec fn wf(&self) -> bool {
        &&& self@.no_duplicates()
        &&& forall|i: int| 0 <= i < self@.len() ==> #[trigger] self@[i] < self.next_id
    }

    /// A registry without subscribers.
    pub fn new() -> (registry: SubscriberRegistry)
        ensures
            registry.wf(),
            registry@ == Seq::<u64>::empty(),
            registry.issued() == 0,
    {
        let registry = SubscriberRegistry { subscribers: Vec::new(), next_id: 0 };
        assert(registry@ =~= Seq::<u64>::empty());
        registry
    }

    /// The number of registered subscribers.
    pub fn count(&self) -> (n: usize)
        ensures
            n == self@.len(),
    {
        self.subscribers.len()
    }

    /// Registers a subscriber that is reached through `sender`, and returns its identity:
    /// the next one not handed out yet. Returns `None`, and registers nothing, once every
    /// identity has been handed out.
    pub fn register(
        &mut self,
        sender: futures_channel::mpsc::UnboundedSender<tokio_tungstenite::tungstenite::Message>,
    ) -> (id: Option<u64>)
        requires
            old(self).wf(),
        ensures
            final(self).wf(),
            id is Some <==> old(self).issued() < u64::MAX,
            match id {
                Some(id) => {
                    &&& id == old(self).issued()
                    &&& !old(self)@.contains(id)
                    &&& final(self)@ == old(self)@.push(id)
                    &&& final(self).issued() == old(self).issued() + 1
                    &&& final(self).channel(id) == sender
                },
                None => final(self)@ == old(self)@ && final(self).issued() == old(self).issued(),
            },
            forall|other: u64|
                old(self)@.contains(other) ==> final(self).channel(other) == old(self).channel(
                    other,
                ),
    {
        if self.next_id == u64::MAX {
            return None;
        }
        let id = self.next_id;
        let ghost before = self@;
        let ghost stored = self.subscribers@;
        self.subscribers.push(Subscriber { id, sender });
        self.next_id = id + 1;
        proof {
            assert(self@ =~= before.push(id));
            assert(!before.contains(id)) by {
                if before.contains(id) {
                    let i = choose|i: int| 0 <= i < before.len() && before[i] == id;
                    assert(before[i] < id);
                }
            }
            lemma_index_of(self@, before.len() as int);
            assert forall|other: u64| before.contains(other) implies self.channel(other)
                == old(self).channel(other) by {
                let k = choose|k: int| 0 <= k < before.len() && before[k] == other;
                lemma_index_of(before, k);
                lemma_index_of(self@, k);
                assert(self.subscribers@[k] == stored[k]);
            }
        }
        Some(id)
    }

    /// The position of the subscriber `id`, if it is registered.
    fn position(&self, id: u64) -> (found: Option<usize>)
        ensures
            match found {
                Some(i) => i < self@.len() && self@[i as int] == id,
                None => !self@.contains(id),
            },
    {
        let mut i: usize = 0;
        while i < self.subscribers.len()
            invariant
                i <= self.subscribers.len(),
                self@.len() == self.subscribers.len(),
                forall|j: int| 0 <= j < i ==> self@[j] != id,
            decreases self.subscribers.len() - i,
        {
            if self.subscribers[i].id == id {
                assert(self@[i as int] == id);
                return Some(i);
            }
            i += 1;
        }
        None
    }

    /// Removes the subscriber `id`; returns whether it was registered. The others stay,
    /// in their order.
    pub fn unregister(&mut self, id: u64) -> (registered: bool)
        requires
            old(self).wf(),
        ensures
            final(self).wf(),
            registered == old(self)@.contains(id),
            final(self)@ == without(old(self)@, id),
            !final(self)@.contains(id),
            final(self).issued() == old(self).issued(),
            forall|other: u64|
                final(self)@.contains(other) ==> final(self).channel(other) == old(self).channel(
                    other,
                ),
    {
        match self.position(id) {
            Some(i) => {
                let ghost before = self@;
                proof {
                    lemma_index_of(before, i as int);
                    lemma_remove_subscriber(self.subscribers@, i as int);
                }
                self.subscribers.remove(i);
                true
            },
            None => false,
        }
    }

    /// Publishes `message`: offers it once to every registered subscriber, in the order of
    /// registration, without ever waiting for one. A subscriber whose channel does not
    /// take the message is removed. Returns what became of the message for each.
    pub fn publish(&mut self, message: &str) -> (report: Vec<Delivery>)
        requires
            old(self).wf(),
        ensures
            final(self).wf(),
            offered(report@) == old(self)@,
            final(self)@ == accepted_by(report@),
            final(self).issued() == old(self).issued(),
            forall|i: int|
                0 <= i < report@.len() && !(#[trigger] report@[i]).accepted
                    ==> !final(self)@.contains(report@[i].subscriber),
            forall|other: u64|
                final(self)@.contains(other) ==> final(self).channel(other) == old(self).channel(
                    other,
                ),
    {
        let mut report: Vec<Delivery> = Vec::new();
        let mut i: usize = 0;
        assert(offered(report@) =~= old(self)@.take(0));
        assert(self@ =~= accepted_by(report@) + old(self)@.skip(0));
        while i < self.subscribers.len()
            invariant
                self.wf(),
                self.next_id == old(self).next_id,
                report@.len() <= old(self)@.len(),
                offered(report@) == old(self)@.take(report@.len() as int),
                i == accepted_by(report@).len(),
                self@ == accepted_by(report@) + old(self)@.skip(report@.len() as int),
                forall|k: int|
                    0 <= k < report@.len() && !(#[trigger] report@[k]).accepted
                        ==> !self@.contains(report@[k].subscriber),
                forall|other: u64| #[trigger]
                    self@.contains(other) ==> old(self)@.contains(other) && self.channel(other)
                        == old(self).channel(other),
            decreases self.subscribers.len() - i,
        {
            let ghost before = self@;
            let ghost done = report@;
            let ghost k = report@.len() as int;
            assert(before[i as int] == old(self)@.skip(k)[0]);
            let subscriber = self.subscribers[i].id;
            assert(subscriber == before[i as int]);
            let accepted = send_text(&self.subscribers[i].sender, message);
            report.push(Delivery { subscriber, accepted });
            proof {
                assert(report@.drop_last() =~= done);
                assert(offered(report@) =~= old(self)@.take(k + 1));
            }
            if accepted {
                i += 1;
                assert(self@ =~= accepted_by(report@) + old(self)@.skip(k + 1));
            } else {
                let ghost stored = self.subscribers@;
                proof {
                    lemma_remove_subscriber(stored, i as int);
                    assert forall|other: u64| before.contains(other) implies old(self)@.contains(
                        other,
                    ) && channel_in(stored, other) == old(self).channel(other) by {
                        assert(self@.contains(other));
                        assert(self.channel(other) == channel_in(stored, other));
                    }
                }
                self.subscribers.remove(i);
                proof {
                    assert(self.subscribers@ == stored.remove(i as int));
                    assert(self@ =~= before.remove(i as int));
                    assert forall|other: u64| #[trigger]
                        self@.contains(other) implies old(self)@.contains(other) && self.channel(
                        other,
                    ) == old(self).channel(other) by {
                        assert(ids_of(stored.remove(i as int)).contains(other));
                        assert(before.contains(other));
                    }
                    assert(self@ =~= accepted_by(report@) + old(self)@.skip(k + 1));
                    assert forall|a: int| 0 <= a < self@.len() implies #[trigger] self@[a]
                        < self.next_id by {
                        let a0 = if a < i { a } else { a + 1 };
                        assert(self@[a] == before[a0]);
                    }
                }
            }
        }
        proof {
            let k = report@.len() as int;
            assert(old(self)@.skip(k).len() == 0);
            assert(k == old(self)@.len());
            assert(old(self)@.take(k) =~= old(self)@);
            assert(self@ =~= accepted_by(report@));
        }
        report
    }
}

/// Fan-out reaches every subscriber, and none depends on another. A publish whose
/// channels all take the message keeps every subscriber it was offered to. Unregistering
/// a registered subscriber leaves one subscriber fewer: exactly the others, in their
/// order and still without repetition, so the next publish is offered to each of them
/// once and to the one that left not at all.
pub proof fn lemma_fan_out(ids: Seq<u64>, gone: u64, report: Seq<Delivery>)
    requires
        ids.no_duplicates(),
        ids.contains(gone),
        forall|i: int| 0 <= i < report.len() ==> (#[trigger] report[i]).accepted,
    ensures
        accepted_by(report) == offered(report),
        without(ids, gone).len() == ids.len() - 1,
        without(ids, gone).no_duplicates(),
        !without(ids, gone).contains(gone),
        forall|id: u64| without(ids, gone).contains(id) <==> ids.contains(id) && id != gone,
        forall|i: int, j: int|
            0 <= i < j < without(ids, gone).len() ==> ids.index_of(without(ids, gone)[i])
                < ids.index_of(without(ids, gone)[j]),
    decreases report.len(),
{
    if report.len() > 0 {
        lemma_fan_out(ids, gone, report.drop_last());
        assert(offered(report.drop_last()).push(report.last().subscriber) =~= offered(report));
    } else {
        assert(accepted_by(report) =~= offered(report));
    }
    let at = ids.index_of(gone);
    let rest = without(ids, gone);
    assert(rest == ids.remove(at));
    assert forall|id: u64| rest.contains(id) <==> ids.contains(id) && id != gone by {
        if rest.contains(id) {
            let i = choose|i: int| 0 <= i < rest.len() && rest[i] == id;
            let i0 = if i < at { i } else { i + 1 };
            assert(ids[i0] == id);
        }
        if ids.contains(id) && id != gone {
            let i = choose|i: int| 0 <= i < ids.len() && ids[i] == id;
            let i1 = if i < at { i } else { i - 1 };
            assert(rest[i1] == id);
        }
    }
    assert forall|i: int, j: int| 0 <= i < j < rest.len() implies ids.index_of(rest[i])
        < ids.index_of(rest[j]) by {
        let i0 = if i < at { i } else { i + 1 };
        let j0 = if j < at { j } else { j + 1 };
        assert(ids[i0] == rest[i]);
        assert(ids[j0] == rest[j]);
        assert(ids.index_of(rest[i]) == i0);
        assert(ids.index_of(rest[j]) == j0);
    }
}

} // verus!
