//! The event stream: one reader that decodes each line as it arrives and
//! hands a copy of the event to every subscriber.
//!
//! Before [`EventLoop::connect`] there is no stream. A connected stream is
//! [`StreamState::Connected`] until [`EventLoop::run`] has published its
//! first event, [`StreamState::Streaming`] from then on, and
//! [`StreamState::Closed`] once the connection failed or `run` gave up; a
//! closed stream stays closed.
//!
//! The channel keeps a bounded backlog for each subscriber. A subscriber
//! that falls behind by more than the backlog loses the oldest events it
//! has not read; the reader and the other subscribers never wait for it.
//!
//! The channel is tokio's. What it holds is known here by name only: the
//! log of the events it has taken, the capacity it was made with, and the
//! place of each subscription in the log.

use vstd::prelude::*;
use vstd::string::*;
use crate::hyprland::codec::{decode_event, decode_line, decoded};
use crate::hyprland::error::{Error, ErrorView, IoError};
use crate::hyprland::events::{Event, EventView};
use crate::text::{trim_end, trim_end_spec};

verus! {

/// The sending half of the fan-out channel.
#[verifier::external_type_specification]
#[verifier::external_body]
#[verifier::reject_recursive_types(T)]
pub struct ExSender<T>(tokio::sync::broadcast::Sender<T>);

/// A subscription: the receiving half of the fan-out channel.
#[verifier::external_type_specification]
#[verifier::external_body]
#[verifier::reject_recursive_types(T)]
pub struct ExReceiver<T>(tokio::sync::broadcast::Receiver<T>);

/// The values that the channel of `sender` has taken so far, oldest first.
/// A value that was sent while the channel had no subscription was not
/// taken.
pub uninterp spec fn channel_log(sender: tokio::sync::broadcast::Sender<Event>) -> Seq<EventView>;

/// The capacity that the channel of `sender` was made with.
pub uninterp spec fn channel_capacity(sender: tokio::sync::broadcast::Sender<Event>) -> nat;

/// The place in its channel's log of the value that `receiver` is handed
/// next: so many values the channel had taken before it. The channel counts
/// places in 64 bits, which no stream of events fills.
pub uninterp spec fn next_position(receiver: tokio::sync::broadcast::Receiver<Event>) -> nat;

/// Whether `receiver` is a subscription of the channel of `sender`.
pub uninterp spec fn subscribed_to(
    receiver: tokio::sync::broadcast::Receiver<Event>,
    sender: tokio::sync::broadcast::Sender<Event>,
) -> bool;

/// `tokio::sync::broadcast::channel`: makes a channel that retains
/// `capacity` values, rounded up to a power of two, and allocates room for
/// all of them. The channel has taken no value yet, and the receiver that
/// comes with it is its first subscription, at the start of the log. The
/// call panics on a capacity of zero or above half the largest machine
/// word, which the precondition leaves out.
#[verifier::external_body]
fn new_channel(capacity: usize) -> (r: (
    tokio::sync::broadcast::Sender<Event>,
    tokio::sync::broadcast::Receiver<Event>,
))
    requires
        0 < capacity <= usize::MAX / 2,
    ensures
        channel_log(r.0) == Seq::<EventView>::empty(),
        channel_capacity(r.0) == capacity,
        next_position(r.1) == 0,
        subscribed_to(r.1, r.0),
{
    tokio::sync::broadcast::channel(capacity)
}

/// `tokio::sync::broadcast::Sender::subscribe`: makes a subscription of the
/// sender's channel whose next value is the first that the channel takes
/// after this call: its place is the length of the log now. The call panics
/// once the channel has as many subscriptions as it can count, a quarter of
/// the largest machine word, which takes more calls than any process makes.
#[verifier::external_body]
fn subscribe(sender: &tokio::sync::broadcast::Sender<Event>) -> (r:
    tokio::sync::broadcast::Receiver<Event>)
    ensures
        next_position(r) == channel_log(*sender).len(),
        subscribed_to(r, *sender),
{
    sender.subscribe()
}

/// The backlog that [`EventLoop::connect`] gives each subscriber.
pub const DEFAULT_BACKLOG: usize = 8;

/// The largest backlog that a stream can be set up with: the channel
/// allocates all of it at once.
pub const MAX_BACKLOG: usize = 65536;

/// Where a stream stands.
#[derive(Clone, Copy, Debug, PartialEq, Eq, Structural)]
pub enum StreamState {
    /// Connected; nothing was published yet.
    Connected,
    /// At least one event was published.
    Streaming,
    /// The connection failed, or `run` met an error: the stream is over.
    Closed,
}

/// The reader's side of the event stream. It is the only sender of its
/// channel and keeps the channel's first subscription, so that the channel
/// always has one.
pub struct EventLoop {
    state: StreamState,
    backlog: usize,
    sender: tokio::sync::broadcast::Sender<Event>,
    receiver: tokio::sync::broadcast::Receiver<Event>,
}

/// `tokio::sync::broadcast::Sender::send` on the stream's sender, which is
/// the only one of its channel: the channel takes `event` as the next value
/// of its log and the call returns the number of subscriptions. The stream
/// keeps a live subscription of the channel, and the channel counts every
/// live subscription, so there is at least one and the call does not fail
/// for want of any. Nothing else of the stream changes: not its state, its
/// subscription, the channel's capacity, or which subscriptions are the
/// channel's.
#[verifier::external_body]
fn publish(stream: &mut EventLoop, event: Event) -> (r: Option<usize>)
    requires
        subscribed_to(old(stream).receiver, old(stream).sender),
    ensures
        r is Some && r->0 > 0,
        channel_log(final(stream).sender) == channel_log(old(stream).sender).push(event@),
        channel_capacity(final(stream).sender) == channel_capacity(old(stream).sender),
        final(stream).state == old(stream).state,
        final(stream).backlog == old(stream).backlog,
        final(stream).receiver == old(stream).receiver,
        forall|other: tokio::sync::broadcast::Receiver<Event>|
            subscribed_to(other, old(stream).sender) ==> #[trigger] subscribed_to(
                other,
                final(stream).sender,
            ),
{
    stream.sender.send(event).ok()
}

/// What a subscription is handed when it is asked without waiting.
#[derive(Clone, Debug, PartialEq, Eq)]
pub enum Polled {
    /// The next event.
    Event(Event),
    /// Nothing is pending: the subscription has been handed all that was
    /// published.
    Empty,
    /// The subscription fell behind by more than the channel retains and
    /// lost so many of the oldest events; it goes on with the oldest one
    /// that is left.
    Lagged(u64),
    /// The channel is closed: its sender is gone.
    Closed,
}

/// Whether `polled` is what a subscription at the place `before` of the log
/// `log` is handed, and `after` its place from then on, in a channel that
/// was made with the capacity `capacity` and whose sender lives.
///
/// At the end of the log nothing is pending. Behind the end by no more than
/// the capacity, it is handed the event at its place and moves on by one.
/// Behind by more, it may be told instead how many events it lost and is
/// moved on by that number.
pub open spec fn polled_as(
    polled: Polled,
    before: nat,
    after: nat,
    log: Seq<EventView>,
    capacity: nat,
) -> bool {
    match polled {
        Polled::Event(event) => before < log.len() && event@ == log[before as int] && after
            == before + 1,
        Polled::Empty => before == log.len() && after == before,
        Polled::Lagged(lost) => lost > 0 && after == before + lost && after <= log.len()
            && log.len() - before > capacity,
        Polled::Closed => false,
    }
}

/// `tokio::sync::broadcast::Receiver::try_recv` on a subscription of the
/// channel of `sender`, which lives for the length of the call and is the
/// only sender of its channel. The subscription is handed a copy of the
/// value at its place in the log and moves on by one; or, at the end of the
/// log, nothing; or, where the value at its place was overwritten, which
/// happens only behind the end by more than the rounded capacity, the
/// number of values it lost, and it is moved to the oldest value that is
/// left. The channel closes only when its last sender or its last
/// subscription goes, so it is open here. Of a receiver of another channel
/// nothing is claimed.
#[verifier::external_body]
fn try_next(
    sender: &tokio::sync::broadcast::Sender<Event>,
    subscription: &mut tokio::sync::broadcast::Receiver<Event>,
) -> (r: Polled)
    ensures
        subscribed_to(*old(subscription), *sender) ==> subscribed_to(
            *final(subscription),
            *sender,
        ),
        subscribed_to(*old(subscription), *sender) ==> polled_as(
            r,
            next_position(*old(subscription)),
            next_position(*final(subscription)),
            channel_log(*sender),
            channel_capacity(*sender),
        ),
{
    match subscription.try_recv() {
        Ok(event) => Polled::Event(event),
        Err(tokio::sync::broadcast::error::TryRecvError::Empty) => Polled::Empty,
        Err(tokio::sync::broadcast::error::TryRecvError::Lagged(lost)) => Polled::Lagged(lost),
        Err(tokio::sync::broadcast::error::TryRecvError::Closed) => Polled::Closed,
    }
}

/// What reading one line and decoding it comes to: the event, the reason
/// why the line is none, or the failure to read.
pub open spec fn next_of(read: Result<String, IoError>) -> Result<EventView, ErrorView> {
    match read {
        Ok(line) => decode_line(trim_end_spec(line@)),
        Err(failure) => Err(Error::Io(failure)@),
    }
}

/// What a stream in the state `state` makes of what reading the next line
/// gave: a closed stream refuses to go on, whatever was read.
pub open spec fn turn_of(state: StreamState, read: Result<String, IoError>) -> Result<
    EventView,
    ErrorView,
> {
    if state == StreamState::Closed {
        Err(ErrorView::StreamClosed)
    } else {
        next_of(read)
    }
}

impl EventLoop {
    #[verifier::type_invariant]
    spec fn holds_channel(&self) -> bool {
        &&& subscribed_to(self.receiver, self.sender)
        &&& channel_capacity(self.sender) == self.backlog
    }

    /// Where the stream stands.
    pub closed spec fn state_spec(&self) -> StreamState {
        self.state
    }

    /// The backlog that the stream's channel was made with.
    pub closed spec fn backlog_spec(&self) -> nat {
        channel_capacity(self.sender)
    }

    /// The events that the stream's channel has taken, in order.
    pub closed spec fn published(&self) -> Seq<EventView> {
        channel_log(self.sender)
    }

    /// Whether `subscription` is a subscription of this stream.
    pub closed spec fn feeds(&self, subscription: tokio::sync::broadcast::Receiver<Event>) -> bool {
        subscribed_to(subscription, self.sender)
    }

    /// Sets the stream up once the socket is open, with the default backlog.
    pub fn connect() -> (r: EventLoop)
        ensures
            r.state_spec() == StreamState::Connected,
            r.backlog_spec() == DEFAULT_BACKLOG,
            r.published() == Seq::<EventView>::empty(),
    {
        let (sender, receiver) = new_channel(DEFAULT_BACKLOG);
        EventLoop { state: StreamState::Connected, backlog: DEFAULT_BACKLOG, sender, receiver }
    }

    /// Sets the stream up with a backlog of `backlog` events, which the
    /// channel rounds up to a power of two. `None` for a backlog of zero or
    /// of more than [`MAX_BACKLOG`].
    pub fn with_backlog(backlog: usize) -> (r: Option<EventLoop>)
        ensures
            r is Some <==> 0 < backlog <= MAX_BACKLOG,
            r matches Some(stream) ==> stream.state_spec() == StreamState::Connected
                && stream.backlog_spec() == backlog && stream.published() == Seq::<
                EventView,
            >::empty(),
    {
        if 0 < backlog && backlog <= MAX_BACKLOG {
            let (sender, receiver) = new_channel(backlog);
            Some(EventLoop { state: StreamState::Connected, backlog, sender, receiver })
        } else {
            None
        }
    }

    /// Where the stream stands.
    pub fn state(&self) -> (r: StreamState)
        ensures
            r == self.state_spec(),
    {
        self.state
    }

    /// The backlog that the stream's channel was made with.
    pub fn backlog(&self) -> (r: usize)
        ensures
            r == self.backlog_spec(),
    {
        proof {
            use_type_invariant(self);
        }
        self.backlog
    }

    /// A new subscription of this stream. It is handed the events that are
    /// published after this call, in the order of the wire, and none from
    /// before: its place is the end of what was published so far.
    pub fn receiver(&self) -> (r: tokio::sync::broadcast::Receiver<Event>)
        ensures
            next_position(r) == self.published().len(),
            self.feeds(r),
    {
        subscribe(&self.sender)
    }

    /// Asks `subscription` for its next event without waiting. A
    /// subscription of this stream is handed the events that were published
    /// since it was made, each once and in the order of their publication;
    /// one that fell behind by more than the backlog is told how many of
    /// the oldest it lost and goes on after them. Of a receiver that is no
    /// subscription of this stream nothing is said.
    pub fn poll(&self, subscription: &mut tokio::sync::broadcast::Receiver<Event>) -> (r: Polled)
        ensures
            self.feeds(*old(subscription)) ==> self.feeds(*final(subscription)),
            self.feeds(*old(subscription)) ==> polled_as(
                r,
                next_position(*old(subscription)),
                next_position(*final(subscription)),
                self.published(),
                self.backlog_spec(),
            ),
    {
        try_next(&self.sender, subscription)
    }

    /// Takes in what reading the next line gave, the line with or without
    /// its terminator, and decodes it. A line that is no event is refused
    /// and the stream goes on; a failure to read closes the stream. A closed
    /// stream refuses to go on, whatever was read. Nothing is published.
    pub fn next(&mut self, read: Result<String, IoError>) -> (r: Result<Event, Error>)
        ensures
            decoded(r) == turn_of(old(self).state_spec(), read),
            final(self).state_spec() == (if read is Err {
                StreamState::Closed
            } else {
                old(self).state_spec()
            }),
            final(self).backlog_spec() == old(self).backlog_spec(),
            final(self).published() == old(self).published(),
            forall|subscription: tokio::sync::broadcast::Receiver<Event>|
                old(self).feeds(subscription) ==> #[trigger] final(self).feeds(subscription),
    {
        proof {
            use_type_invariant(&*self);
        }
        if self.state == StreamState::Closed {
            return Err(Error::StreamClosed);
        }
        match read {
            Ok(line) => decode_event(trim_end(line.as_str())),
            Err(failure) => {
                self.state = StreamState::Closed;
                Err(Error::Io(failure))
            },
        }
    }

    /// One turn of the reader: decodes what reading the next line gave and
    /// hands the event to the channel, which takes it as the next of its
    /// log and gives a copy to every subscription. Any error, of reading or
    /// of decoding, closes the stream and is returned, and nothing is
    /// published; the caller stops there. A closed stream refuses to go on.
    pub fn run(&mut self, read: Result<String, IoError>) -> (r: Result<(), Error>)
        ensures
            match r {
                Ok(()) => turn_of(old(self).state_spec(), read) is Ok && final(self).published()
                    == old(self).published().push(turn_of(old(self).state_spec(), read)->Ok_0),
                Err(error) => turn_of(old(self).state_spec(), read) == Err::<
                    EventView,
                    ErrorView,
                >(error@) && final(self).published() == old(self).published(),
            },
            final(self).state_spec() == (if turn_of(old(self).state_spec(), read) is Err {
                StreamState::Closed
            } else {
                StreamState::Streaming
            }),
            final(self).backlog_spec() == old(self).backlog_spec(),
            forall|subscription: tokio::sync::broadcast::Receiver<Event>|
                old(self).feeds(subscription) ==> #[trigger] final(self).feeds(subscription),
    {
        match self.next(read) {
            Ok(event) => {
                proof {
                    use_type_invariant(&*self);
                }
                let ghost before = *self;
                let _ = publish(self, event);
                assert(subscribed_to(before.receiver, self.sender));
                self.state = StreamState::Streaming;
                assert forall|subscription: tokio::sync::broadcast::Receiver<Event>|
                    old(self).feeds(subscription) implies #[trigger] self.feeds(subscription) by {
                    assert(before.feeds(subscription));
                    assert(subscribed_to(subscription, self.sender));
                }
                Ok(())
            },
            Err(error) => {
                proof {
                    use_type_invariant(&*self);
                }
                let ghost before = *self;
                self.state = StreamState::Closed;
                assert forall|subscription: tokio::sync::broadcast::Receiver<Event>|
                    old(self).feeds(subscription) implies #[trigger] self.feeds(subscription) by {
                    assert(before.feeds(subscription));
                }
                Err(error)
            },
        }
    }
}

/// A subscription that is behind the end of the log by no more than the
/// backlog loses nothing and is handed nothing twice: while events are
/// pending it is handed exactly the one at its place, the oldest it has not
/// seen, and moves on by one; at the end it is handed nothing and stays.
/// So a subscription made when `n` events were published is handed the
/// events from the `n`-th on, in the order of their publication, and none
/// from before.
pub proof fn law_subscription_order(
    polled: Polled,
    before: nat,
    after: nat,
    log: Seq<EventView>,
    capacity: nat,
)
    requires
        polled_as(polled, before, after, log, capacity),
        log.len() - before <= capacity,
    ensures
        before <= log.len(),
        before < log.len() ==> polled is Event && polled->Event_0@ == log[before as int] && after
            == before + 1,
        before == log.len() ==> polled is Empty && after == before,
{
}

} // verus!
