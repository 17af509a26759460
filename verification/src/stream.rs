//! The streaming relay: what one listener hands to its callback for what it
//! receives from a broadcast channel, item by item, until the channel
//! closes.

use vstd::prelude::*;
use crate::boundary::{safe_cstring, without_nulls, Callback, TerminatedString};
use crate::lifecycle::{listener_may_start, spawn_core_event_listener, CoreState};

verus! {

/// What a listener receives from its channel: an item, with the outcome of
/// writing it out as a document (the text, or the words of the failure), or
/// the news that the channel is closed for good.
#[derive(Debug, PartialEq, Eq)]
pub enum Received {
    Item(Result<String, String>),
    Closed,
}

/// What a listener does for what it received.
#[derive(Debug, PartialEq, Eq)]
pub enum Relay {
    /// Call the callback with this text.
    Deliver(TerminatedString),
    /// Drop the item and wait for the next one.
    Skip,
    /// Stop listening.
    Stop,
}

/// An item by the text it was written out as, `None` where that failed.
pub enum ReceivedView {
    Item(Option<Seq<char>>),
    Closed,
}

pub enum RelayView {
    Deliver(Seq<char>),
    Skip,
    Stop,
}

impl View for Received {
    type V = ReceivedView;

    open spec fn view(&self) -> ReceivedView {
        match self {
            Received::Item(Ok(text)) => ReceivedView::Item(Some(text@)),
            Received::Item(Err(_)) => ReceivedView::Item(None),
            Received::Closed => ReceivedView::Closed,
        }
    }
}

impl View for Relay {
    type V = RelayView;

    open spec fn view(&self) -> RelayView {
        match self {
            Relay::Deliver(text) => RelayView::Deliver(text@),
            Relay::Skip => RelayView::Skip,
            Relay::Stop => RelayView::Stop,
        }
    }
}

/// An item that was written out is delivered, sanitized; one that could not
/// be written out is dropped, and that alone; closure ends the listening.
pub open spec fn relay_of(received: ReceivedView) -> RelayView {
    match received {
        ReceivedView::Item(Some(text)) => RelayView::Deliver(without_nulls(text)),
        ReceivedView::Item(None) => RelayView::Skip,
        ReceivedView::Closed => RelayView::Stop,
    }
}

/// Everything a listener hands to its callback for what it received, in
/// the order it received it, up to the closure of the channel.
pub open spec fn deliveries(received: Seq<ReceivedView>) -> Seq<Seq<char>>
    decreases received.len(),
{
    if received.len() == 0 {
        Seq::empty()
    } else {
        match received[0] {
            ReceivedView::Closed => Seq::empty(),
            ReceivedView::Item(Some(text)) => seq![without_nulls(text)] + deliveries(
                received.drop_first(),
            ),
            ReceivedView::Item(None) => deliveries(received.drop_first()),
        }
    }
}

/// Whether the channel has closed within what was received.
pub open spec fn has_closed(received: Seq<ReceivedView>) -> bool {
    exists|i: int| 0 <= i < received.len() && received[i] is Closed
}

/// Decides what a listener does for what it received.
pub fn relay(received: Received) -> (action: Relay)
    ensures
        action@ == relay_of(received@),
{
    match received {
        Received::Item(Ok(text)) => Relay::Deliver(safe_cstring(text.as_str())),
        Received::Item(Err(_)) => Relay::Skip,
        Received::Closed => Relay::Stop,
    }
}

/// One registration on a channel: it listens from the moment it is made
/// until the channel closes.
pub struct Listener {
    callback: Callback,
    listening: bool,
    seen: Ghost<Seq<ReceivedView>>,
}

impl Listener {
    #[verifier::type_invariant]
    spec fn inv(&self) -> bool {
        &&& self.callback.callable()
        &&& self.listening == !has_closed(self.seen@)
    }

    /// The callback that deliveries go to.
    pub closed spec fn spec_callback(&self) -> Callback {
        self.callback
    }

    /// What the listener has received so far, in order.
    pub closed spec fn seen(&self) -> Seq<ReceivedView> {
        self.seen@
    }

    /// Registers a listener, if one may start. A new listener has received
    /// nothing: nothing that the channel produced before is replayed to it.
    pub fn register(state: &CoreState, callback: Callback) -> (listener: Option<Listener>)
        ensures
            listener is Some == listener_may_start(*state, callback),
            listener matches Some(l) ==> l.spec_callback() == callback && l.seen()
                == Seq::<ReceivedView>::empty(),
    {
        if spawn_core_event_listener(state, callback) {
            Some(Listener { callback, listening: true, seen: Ghost(Seq::empty()) })
        } else {
            None
        }
    }

    /// The callback that deliveries go to. It can be called.
    pub fn callback(&self) -> (callback: Callback)
        ensures
            callback == self.spec_callback(),
            callback.callable(),
    {
        proof {
            use_type_invariant(self);
        }
        self.callback
    }

    /// Whether the listener still listens: whether the channel has not
    /// closed in what it received.
    pub fn is_listening(&self) -> (listening: bool)
        ensures
            listening == !has_closed(self.seen()),
    {
        proof {
            use_type_invariant(self);
        }
        self.listening
    }

    /// Takes in what was received next, and decides what is done for it.
    /// Once the channel has closed, nothing is delivered any more.
    pub fn on_received(&mut self, received: Received) -> (action: Relay)
        ensures
            final(self).seen() == old(self).seen().push(received@),
            final(self).spec_callback() == old(self).spec_callback(),
            action@ == if has_closed(old(self).seen()) {
                RelayView::Stop
            } else {
                relay_of(received@)
            },
            deliveries(final(self).seen()) == match action@ {
                RelayView::Deliver(text) => deliveries(old(self).seen()).push(text),
                _ => deliveries(old(self).seen()),
            },
    {
        proof {
            use_type_invariant(&*self);
            lemma_deliveries_push(self.seen@, received@);
            lemma_has_closed_push(self.seen@, received@);
        }
        let ghost before = self.seen@;
        let callback = self.callback;
        if !self.listening {
            *self = Listener { callback, listening: false, seen: Ghost(before.push(received@)) };
            return Relay::Stop;
        }
        let action = relay(received);
        let listening = match action {
            Relay::Stop => false,
            _ => true,
        };
        *self = Listener { callback, listening, seen: Ghost(before.push(received@)) };
        action
    }
}

/// The channel has closed within what was received and one thing more
/// exactly when it had closed before, or that one thing is the closure.
pub proof fn lemma_has_closed_push(received: Seq<ReceivedView>, next: ReceivedView)
    ensures
        has_closed(received.push(next)) == (has_closed(received) || next is Closed),
{
    let longer = received.push(next);
    if has_closed(received) {
        let i = choose|i: int| 0 <= i < received.len() && received[i] is Closed;
        assert(longer[i] is Closed);
    }
    if next is Closed {
        assert(longer[received.len() as int] is Closed);
    }
    if has_closed(longer) {
        let i = choose|i: int| 0 <= i < longer.len() && longer[i] is Closed;
        if i < received.len() {
            assert(received[i] is Closed);
        }
    }
}

/// What one more thing received adds to the deliveries: its text when it is
/// an item that was written out and the channel had not closed; nothing
/// otherwise.
pub proof fn lemma_deliveries_push(received: Seq<ReceivedView>, next: ReceivedView)
    ensures
        deliveries(received.push(next)) == if has_closed(received) {
            deliveries(received)
        } else {
            match relay_of(next) {
                RelayView::Deliver(text) => deliveries(received).push(text),
                _ => deliveries(received),
            }
        },
    decreases received.len(),
{
    let longer = received.push(next);
    if received.len() == 0 {
        assert(longer.drop_first() =~= Seq::<ReceivedView>::empty());
        assert(deliveries(longer.drop_first()) =~= Seq::<Seq<char>>::empty());
        match next {
            ReceivedView::Item(Some(text)) => {
                assert(deliveries(longer) =~= deliveries(received).push(without_nulls(text)));
            },
            _ => {},
        }
    } else {
        let rest = received.drop_first();
        assert(longer.drop_first() =~= rest.push(next));
        lemma_deliveries_push(rest, next);
        if received[0] is Closed {
            assert(has_closed(received));
        } else {
            assert(has_closed(received) == has_closed(rest)) by {
                if has_closed(received) {
                    let i = choose|i: int| 0 <= i < received.len() && received[i] is Closed;
                    assert(rest[i - 1] is Closed);
                }
                if has_closed(rest) {
                    let i = choose|i: int| 0 <= i < rest.len() && rest[i] is Closed;
                    assert(received[i + 1] is Closed);
                }
            }
            match received[0] {
                ReceivedView::Item(Some(text)) => {
                    let head = seq![without_nulls(text)];
                    if !has_closed(received) {
                        match relay_of(next) {
                            RelayView::Deliver(t) => {
                                assert(head + deliveries(rest).push(t) =~= (head + deliveries(
                                    rest,
                                )).push(t));
                            },
                            _ => {},
                        }
                    }
                },
                _ => {},
            }
        }
    }
}

/// What a listener registered when `registered_at` items had been produced
/// receives of what the channel produced in all: every item from then on,
/// none from before. This is what a broadcast channel owes its subscribers.
pub open spec fn received_by(produced: Seq<ReceivedView>, registered_at: nat) -> Seq<
    ReceivedView,
> {
    produced.skip(registered_at as int)
}

/// Deliveries keep the order of the items.
pub proof fn lemma_deliveries_in_order(first: Seq<ReceivedView>, second: Seq<ReceivedView>)
    requires
        !has_closed(first),
    ensures
        deliveries(first + second) == deliveries(first) + deliveries(second),
    decreases second.len(),
{
    if second.len() == 0 {
        assert(first + second =~= first);
        assert(deliveries(first) + deliveries(second) =~= deliveries(first));
    } else {
        let shorter = second.drop_last();
        let last = second.last();
        assert(first + second =~= (first + shorter).push(last));
        assert(second =~= shorter.push(last));
        lemma_deliveries_in_order(first, shorter);
        lemma_deliveries_push(first + shorter, last);
        lemma_deliveries_push(shorter, last);
        assert(has_closed(first + shorter) == has_closed(shorter)) by {
            if has_closed(first + shorter) {
                let i = choose|i: int|
                    0 <= i < (first + shorter).len() && (first + shorter)[i] is Closed;
                if i < first.len() {
                    assert(first[i] is Closed);
                } else {
                    assert(shorter[i - first.len()] is Closed);
                }
            }
            if has_closed(shorter) {
                let i = choose|i: int| 0 <= i < shorter.len() && shorter[i] is Closed;
                assert((first + shorter)[first.len() + i] is Closed);
            }
        }
        if !has_closed(shorter) {
            match relay_of(last) {
                RelayView::Deliver(t) => {
                    assert((deliveries(first) + deliveries(shorter)).push(t) =~= deliveries(first)
                        + deliveries(shorter).push(t));
                },
                _ => {},
            }
        }
    }
}

/// Fan-out without replay. Of two listeners registered before an item was
/// produced, each delivers it, sanitized, whatever the other does; a listener
/// registered after it receives nothing of it.
pub proof fn lemma_fan_out(
    produced: Seq<ReceivedView>,
    item: int,
    text: Seq<char>,
    one: nat,
    other: nat,
    late: nat,
)
    requires
        0 <= item < produced.len(),
        produced[item] == ReceivedView::Item(Some(text)),
        !has_closed(produced.take(item)),
        one <= item,
        other <= item,
        item < late <= produced.len(),
    ensures
        deliveries(received_by(produced.take(item + 1), one)) == deliveries(
            received_by(produced.take(item), one),
        ).push(without_nulls(text)),
        deliveries(received_by(produced.take(item + 1), other)) == deliveries(
            received_by(produced.take(item), other),
        ).push(without_nulls(text)),
        received_by(produced.take(late as int), late) == Seq::<ReceivedView>::empty(),
        received_by(produced, late) == produced.skip(item + 1).skip(late - item - 1),
{
    lemma_fan_out_one(produced, item, text, one);
    lemma_fan_out_one(produced, item, text, other);
    assert(received_by(produced.take(late as int), late) =~= Seq::<ReceivedView>::empty());
    assert(received_by(produced, late) =~= produced.skip(item + 1).skip(late - item - 1));
}

proof fn lemma_fan_out_one(produced: Seq<ReceivedView>, item: int, text: Seq<char>, at: nat)
    requires
        0 <= item < produced.len(),
        produced[item] == ReceivedView::Item(Some(text)),
        !has_closed(produced.take(item)),
        at <= item,
    ensures
        deliveries(received_by(produced.take(item + 1), at)) == deliveries(
            received_by(produced.take(item), at),
        ).push(without_nulls(text)),
{
    let before = received_by(produced.take(item), at);
    let after = received_by(produced.take(item + 1), at);
    assert(after =~= before.push(produced[item]));
    assert(!has_closed(before)) by {
        if has_closed(before) {
            let i = choose|i: int| 0 <= i < before.len() && before[i] is Closed;
            assert(produced.take(item)[at + i] is Closed);
        }
    }
    lemma_deliveries_push(before, produced[item]);
}

} // verus!
