//! The relay between the transport and the consumer loop, and what holds of
//! a session from end to end.
//!
//! The relay hands every envelope on in the order of arrival, until it has
//! handed on `Unload`. Then it is closed and hands on nothing more. So the
//! consumer sees the producer's envelopes in the producer's order, and the
//! last one it sees is the one `Unload`.

use vstd::prelude::*;
use crate::event::{AgentMessage, MessageView};
use crate::session::{PolledView, SessionView, Status};

verus! {

/// What a relay hands on of the envelopes that arrive, in order: all of them
/// while it is open, and it closes behind `Unload`.
pub open spec fn forwarded(closed: bool, arriving: Seq<MessageView>) -> Seq<MessageView>
    decreases arriving.len(),
{
    if closed || arriving.len() == 0 {
        Seq::empty()
    } else {
        seq![arriving[0]] + forwarded(arriving[0] is Unload, arriving.drop_first())
    }
}

/// What reaches the consumer of the envelopes that were produced.
pub open spec fn delivered(produced: Seq<MessageView>) -> Seq<MessageView> {
    forwarded(false, produced)
}

/// The envelopes that the consumer keeps in its log, in order.
pub open spec fn logged(messages: Seq<MessageView>) -> Seq<MessageView>
    decreases messages.len(),
{
    if messages.len() == 0 {
        Seq::empty()
    } else if messages[0].is_logged() {
        seq![messages[0]] + logged(messages.drop_first())
    } else {
        logged(messages.drop_first())
    }
}

/// Whether a run of envelopes holds `Unload`.
pub open spec fn ends(messages: Seq<MessageView>) -> bool {
    exists|i: int| 0 <= i < messages.len() && messages[i] is Unload
}

/// The relay's state. It remembers whether `Unload` has arrived; what has
/// arrived so far is kept for the proofs only.
pub struct Relay {
    closed: bool,
    arrived: Ghost<Seq<MessageView>>,
}

impl Relay {
    #[verifier::type_invariant]
    spec fn closes_behind_unload(self) -> bool {
        self.closed == ends(self.arrived@)
    }

    /// Every envelope that has arrived at the relay, in order.
    pub closed spec fn arrived(&self) -> Seq<MessageView> {
        self.arrived@
    }

    /// Every envelope that the relay has handed on, in order.
    pub open spec fn passed(&self) -> Seq<MessageView> {
        delivered(self.arrived())
    }

    /// Whether `Unload` has arrived.
    pub open spec fn closed(&self) -> bool {
        ends(self.arrived())
    }

    /// An open relay, at which nothing has arrived.
    pub fn new() -> (relay: Relay)
        ensures
            relay.arrived() == Seq::<MessageView>::empty(),
            !relay.closed(),
    {
        Relay { closed: false, arrived: Ghost(Seq::empty()) }
    }

    /// Whether `Unload` has arrived, so that nothing more is to be received.
    pub fn is_closed(&self) -> (closed: bool)
        ensures
            closed == self.closed(),
    {
        proof {
            use_type_invariant(self);
        }
        self.closed
    }

    /// Takes note of an envelope that arrived and decides whether it is
    /// handed on: it is, unless `Unload` arrived before it.
    pub fn forward(&mut self, msg: &AgentMessage) -> (pass: bool)
        ensures
            final(self).arrived() == old(self).arrived().push(msg@),
            pass == !old(self).closed(),
            final(self).closed() == (old(self).closed() || msg@ is Unload),
            final(self).passed() == if pass {
                old(self).passed().push(msg@)
            } else {
                old(self).passed()
            },
    {
        proof {
            use_type_invariant(&*self);
            lemma_forwarded_push(false, self.arrived@, msg@);
            lemma_ends_push(self.arrived@, msg@);
        }
        let pass = !self.closed;
        let closed = self.closed || msg.ends_session();
        *self = Relay { closed, arrived: Ghost(self.arrived@.push(msg@)) };
        pass
    }
}

/// A run of envelopes with one more at its end holds `Unload` when the run
/// does or the one more is it.
pub proof fn lemma_ends_push(messages: Seq<MessageView>, msg: MessageView)
    ensures
        ends(messages.push(msg)) == (ends(messages) || msg is Unload),
{
    let longer = messages.push(msg);
    if ends(messages) {
        let i = choose|i: int| 0 <= i < messages.len() && messages[i] is Unload;
        assert(longer[i] is Unload);
    }
    if msg is Unload {
        assert(longer[messages.len() as int] is Unload);
    }
    if ends(longer) {
        let i = choose|i: int| 0 <= i < longer.len() && longer[i] is Unload;
        if i < messages.len() {
            assert(messages[i] is Unload);
        }
    }
}

/// One more envelope at the end of what arrives is handed on exactly when
/// the relay is still open by then.
pub proof fn lemma_forwarded_push(closed: bool, arriving: Seq<MessageView>, msg: MessageView)
    ensures
        forwarded(closed, arriving.push(msg)) == if closed || ends(arriving) {
            forwarded(closed, arriving)
        } else {
            forwarded(closed, arriving).push(msg)
        },
    decreases arriving.len(),
{
    let longer = arriving.push(msg);
    if closed {
    } else if arriving.len() == 0 {
        assert(longer.drop_first() =~= Seq::<MessageView>::empty());
        assert(longer[0] == msg);
        assert(forwarded(msg is Unload, longer.drop_first()) =~= Seq::<MessageView>::empty());
        assert(forwarded(false, longer) =~= seq![msg]);
        assert(forwarded(false, arriving).push(msg) =~= seq![msg]);
    } else {
        let first = arriving[0];
        let rest = arriving.drop_first();
        assert(longer[0] == first);
        assert(longer.drop_first() =~= rest.push(msg));
        lemma_forwarded_push(first is Unload, rest, msg);
        if ends(arriving) {
            if !(first is Unload) {
                let i = choose|i: int| 0 <= i < arriving.len() && arriving[i] is Unload;
                assert(rest[i - 1] is Unload);
            }
        } else {
            assert(!(first is Unload));
            assert forall|i: int| 0 <= i < rest.len() implies !(rest[i] is Unload) by {
                assert(rest[i] == arriving[i + 1]);
            }
            assert(forwarded(false, longer) =~= forwarded(false, arriving).push(msg));
        }
    }
}

/// The relay neither reorders nor invents: what it hands on is a prefix of
/// what arrived.
pub proof fn lemma_forwarded_is_a_prefix(closed: bool, arriving: Seq<MessageView>)
    ensures
        forwarded(closed, arriving).is_prefix_of(arriving),
    decreases arriving.len(),
{
    if !closed && arriving.len() > 0 {
        let rest = arriving.drop_first();
        lemma_forwarded_is_a_prefix(arriving[0] is Unload, rest);
        let passed = forwarded(closed, arriving);
        let tail = forwarded(arriving[0] is Unload, rest);
        assert(passed.len() == tail.len() + 1);
        assert forall|i: int| 0 <= i < passed.len() implies passed[i] == arriving[i] by {
            if i > 0 {
                assert(passed[i] == tail[i - 1]);
                assert(tail[i - 1] == rest[i - 1]);
            }
        }
        assert(passed =~= arriving.subrange(0, passed.len() as int));
    } else {
        assert(forwarded(closed, arriving) =~= arriving.subrange(0, 0));
    }
}

/// While no `Unload` arrives, an open relay hands on everything.
pub proof fn lemma_open_session_is_delivered_whole(produced: Seq<MessageView>)
    requires
        !ends(produced),
    ensures
        delivered(produced) == produced,
    decreases produced.len(),
{
    if produced.len() > 0 {
        let rest = produced.drop_first();
        assert(!(produced[0] is Unload));
        assert forall|i: int| 0 <= i < rest.len() implies !(rest[i] is Unload) by {
            assert(rest[i] == produced[i + 1]);
        }
        lemma_open_session_is_delivered_whole(rest);
        assert(delivered(produced) =~= produced);
    } else {
        assert(delivered(produced) =~= produced);
    }
}

/// The last envelope that the consumer receives is `Unload`, and it receives
/// it once: of a session in which `Unload` is produced, however often and
/// whatever is produced behind it, the delivered envelopes end with `Unload`
/// and hold no other.
pub proof fn lemma_unload_is_last_and_single(produced: Seq<MessageView>)
    requires
        ends(produced),
    ensures
        delivered(produced).len() > 0,
        delivered(produced).last() is Unload,
        forall|i: int|
            0 <= i < delivered(produced).len() - 1 ==> !(#[trigger] delivered(produced)[i]
                is Unload),
    decreases produced.len(),
{
    let k = choose|i: int| 0 <= i < produced.len() && produced[i] is Unload;
    let rest = produced.drop_first();
    if produced[0] is Unload {
        assert(forwarded(true, rest) =~= Seq::empty());
        assert(delivered(produced) =~= seq![produced[0]]);
    } else {
        assert(rest[k - 1] is Unload);
        lemma_unload_is_last_and_single(rest);
        let tail = delivered(rest);
        let all = delivered(produced);
        assert(all =~= seq![produced[0]] + tail);
        assert(all.last() == tail.last());
        assert forall|i: int| 0 <= i < all.len() - 1 implies !(#[trigger] all[i] is Unload) by {
            if i > 0 {
                assert(all[i] == tail[i - 1]);
            }
        }
    }
}

/// A poll that finds nothing new is no event: it reports no delta and
/// leaves the log and the status as they were, however often it is
/// repeated.
pub proof fn lemma_empty_poll_changes_nothing(session: SessionView)
    ensures
        session.polled(PolledView::Empty) == session,
        session.report(PolledView::Empty) matches Ok(None),
{
}

/// Taking in one more envelope after a run is taking in the run and then
/// the envelope: the session after every poll is the replay of all that
/// was polled.
pub proof fn lemma_replayed_push(session: SessionView, messages: Seq<MessageView>, msg: MessageView)
    ensures
        session.replayed(messages.push(msg)) == session.replayed(messages).received(msg),
    decreases messages.len(),
{
    let longer = messages.push(msg);
    if messages.len() == 0 {
        assert(longer.drop_first() =~= Seq::<MessageView>::empty());
        assert(longer[0] == msg);
        assert(session.received(msg).replayed(Seq::<MessageView>::empty()) == session.received(
            msg,
        ));
    } else {
        assert(longer[0] == messages[0]);
        assert(longer.drop_first() =~= messages.drop_first().push(msg));
        lemma_replayed_push(session.received(messages[0]), messages.drop_first(), msg);
    }
}

/// Once `Unload` has been seen, nothing that arrives moves the session.
pub proof fn lemma_finished_session_ignores_everything(
    session: SessionView,
    messages: Seq<MessageView>,
)
    requires
        session.finished(),
    ensures
        session.replayed(messages) == session,
    decreases messages.len(),
{
    if messages.len() > 0 {
        lemma_finished_session_ignores_everything(session, messages.drop_first());
    }
}

/// The consumer's log grows by what arrives, in the order of arrival: after
/// a run of envelopes without `Unload`, a session that is not over has
/// appended each envelope but `Load`, and has touched nothing else but its
/// status.
pub proof fn lemma_log_keeps_arrival_order(session: SessionView, messages: Seq<MessageView>)
    requires
        !session.finished(),
        !ends(messages),
    ensures
        session.replayed(messages).log == session.log + logged(messages),
        !session.replayed(messages).finished(),
        session.replayed(messages) == (SessionView {
            log: session.replayed(messages).log,
            status: session.replayed(messages).status,
            ..session
        }),
    decreases messages.len(),
{
    if messages.len() == 0 {
        assert(session.log + logged(messages) =~= session.log);
    } else {
        let first = messages[0];
        let rest = messages.drop_first();
        assert(!(first is Unload));
        assert forall|i: int| 0 <= i < rest.len() implies !(rest[i] is Unload) by {
            assert(rest[i] == messages[i + 1]);
        }
        let next = session.received(first);
        lemma_log_keeps_arrival_order(next, rest);
        if first.is_logged() {
            assert(session.log.push(first) + logged(rest) =~= session.log + (seq![first] + logged(
                rest,
            )));
        }
    }
}

/// A whole session, from end to end. Of the envelopes that the hook layer
/// produces, with `Unload` among them, the consumer logs those that stand
/// before the first `Unload`, in the order in which they were produced,
/// leaving out `Load`. When the delivered envelopes have been taken in, the
/// session is finished and no longer running, and the log never changes
/// again.
pub proof fn lemma_session_end_to_end(
    session: SessionView,
    produced: Seq<MessageView>,
    later: Seq<MessageView>,
)
    requires
        !session.finished(),
        ends(produced),
    ensures
        session.replayed(delivered(produced)).log == session.log + logged(
            delivered(produced).drop_last(),
        ),
        session.replayed(delivered(produced)).status == Status::Finished,
        session.replayed(delivered(produced)).replayed(later) == session.replayed(
            delivered(produced),
        ),
    decreases produced.len(),
{
    let rest = produced.drop_first();
    let first = produced[0];
    let k = choose|i: int| 0 <= i < produced.len() && produced[i] is Unload;
    if first is Unload {
        assert(forwarded(true, rest) =~= Seq::empty());
        assert(delivered(produced) =~= seq![first]);
        let done = session.received(first);
        assert(seq![first].drop_first() =~= Seq::<MessageView>::empty());
        assert(done.replayed(Seq::<MessageView>::empty()) == done);
        assert(seq![first][0] == first);
        assert(session.replayed(seq![first]) == done);
        assert(seq![first].drop_last() =~= Seq::<MessageView>::empty());
        assert(session.log + logged(Seq::<MessageView>::empty()) =~= session.log);
        lemma_finished_session_ignores_everything(done, later);
    } else {
        assert(rest[k - 1] is Unload);
        let next = session.received(first);
        lemma_session_end_to_end(next, rest, later);
        lemma_unload_is_last_and_single(rest);
        let tail = delivered(rest);
        let all = delivered(produced);
        assert(all =~= seq![first] + tail);
        assert(all.drop_first() =~= tail);
        assert(session.replayed(all) == next.replayed(tail));
        assert(all.drop_last() =~= seq![first] + tail.drop_last());
        assert(all.drop_last().drop_first() =~= tail.drop_last());
        if first.is_logged() {
            assert(session.log.push(first) + logged(tail.drop_last()) =~= session.log + (
            seq![first] + logged(tail.drop_last())));
        }
    }
}

} // verus!
