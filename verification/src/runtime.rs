//! The decisions of the listener: what to do on each accept, link and
//! delivery, and how each delivery is settled.
use vstd::prelude::*;

use crate::callback::{verdict, CallbackOutcome};
use crate::text::{decimal_digits, push_decimal};

verus! {

/// Seconds a receiver waits for the callback's answer before it rejects the
/// message.
pub const CALLBACK_TIMEOUT_SECS: u64 = 30;

/// The address the listener binds: `host:port`.
pub open spec fn listen_address_text(host: Seq<char>, port: u16) -> Seq<char> {
    host + ":"@ + decimal_digits(port as nat)
}

/// The address the listener binds.
pub fn listen_address(host: &str, port: u16) -> (s: String)
    ensures
        s@ == listen_address_text(host@, port),
{
    let mut s = String::from_str(host);
    s.append(":");
    push_decimal(&mut s, port as u64);
    s
}

/// What happened while the listener waited.
pub enum ListenerEvent {
    /// The shutdown signal arrived (it is looked at first).
    Shutdown,
    /// Accepting a TCP connection failed.
    AcceptFailed,
    /// A TCP connection came in but the AMQP handshake failed.
    HandshakeFailed,
    /// An AMQP connection was established.
    Connected,
}

/// What the listener does next.
pub enum ListenerAction {
    /// Leave the loop; the server is done.
    Stop,
    /// Go on waiting.
    KeepListening,
    /// Serve the new connection on a task of its own, and go on waiting.
    ServeConnection,
}

pub open spec fn listener_step(e: ListenerEvent) -> ListenerAction {
    match e {
        ListenerEvent::Shutdown => ListenerAction::Stop,
        ListenerEvent::AcceptFailed => ListenerAction::KeepListening,
        ListenerEvent::HandshakeFailed => ListenerAction::KeepListening,
        ListenerEvent::Connected => ListenerAction::ServeConnection,
    }
}

/// The listener's response to an event: only the shutdown signal ends it;
/// failed accepts and handshakes are skipped.
pub fn on_listener_event(event: ListenerEvent) -> (a: ListenerAction)
    ensures
        a == listener_step(event),
{
    match event {
        ListenerEvent::Shutdown => ListenerAction::Stop,
        ListenerEvent::AcceptFailed => ListenerAction::KeepListening,
        ListenerEvent::HandshakeFailed => ListenerAction::KeepListening,
        ListenerEvent::Connected => ListenerAction::ServeConnection,
    }
}

/// The role of a link a peer attached.
pub enum LinkRole {
    /// The peer receives (the link is a sender here).
    Sender,
    /// The peer sends (the link is a receiver here).
    Receiver,
}

/// What a session does with an attached link.
pub enum LinkAction {
    /// Sending to peers is not supported: the link is dropped.
    Drop,
    /// Receive messages on the link, on a task of its own.
    Receive,
}

/// The state of a session's link-accepting loop.
pub struct SessionLinks {
    has_links: bool,
}

impl View for SessionLinks {
    type V = bool;

    /// Whether any link was attached.
    closed spec fn view(&self) -> bool {
        self.has_links
    }
}

impl SessionLinks {
    /// A session with no link yet.
    pub fn new() -> (s: Self)
        ensures
            !s@,
    {
        SessionLinks { has_links: false }
    }

    /// Records an attached link and says what to do with it.
    pub fn on_link(&mut self, role: LinkRole) -> (a: LinkAction)
        ensures
            final(self)@,
            a == match role {
                LinkRole::Sender => LinkAction::Drop,
                LinkRole::Receiver => LinkAction::Receive,
            },
    {
        self.has_links = true;
        match role {
            LinkRole::Sender => LinkAction::Drop,
            LinkRole::Receiver => LinkAction::Receive,
        }
    }

    /// Whether to end the session properly once no more links come: only
    /// when some link was attached.
    pub fn should_end(&self) -> (b: bool)
        ensures
            b == self@,
    {
        self.has_links
    }
}

/// How handing a delivery to the callback worker ended.
pub enum DispatchOutcome {
    /// The worker's queue was closed.
    QueueClosed,
    /// The worker answered.
    Answered(bool),
    /// The worker went away without answering.
    Dropped,
    /// No answer came within the time limit.
    TimedOut,
}

/// How a delivery is settled.
pub enum Disposition {
    Accept,
    Reject,
}

/// A delivery is accepted exactly when the worker answered `true`; in every
/// other case it is rejected, so that the peer delivers it again.
pub open spec fn disposition_of(d: DispatchOutcome) -> Disposition {
    match d {
        DispatchOutcome::Answered(true) => Disposition::Accept,
        _ => Disposition::Reject,
    }
}

/// The settlement of a delivery.
pub fn settle(outcome: DispatchOutcome) -> (d: Disposition)
    ensures
        d == disposition_of(outcome),
{
    match outcome {
        DispatchOutcome::Answered(accepted) => if accepted {
            Disposition::Accept
        } else {
            Disposition::Reject
        },
        DispatchOutcome::QueueClosed => Disposition::Reject,
        DispatchOutcome::Dropped => Disposition::Reject,
        DispatchOutcome::TimedOut => Disposition::Reject,
    }
}

/// A message the callback was run for is accepted exactly when the callback
/// approved it (or no callback is registered); a message that was never run
/// through the callback, because the worker was gone, went away or was too
/// slow, is rejected.
pub proof fn lemma_accept_iff_approved(outcome: CallbackOutcome, d: DispatchOutcome)
    ensures
        disposition_of(DispatchOutcome::Answered(verdict(outcome))) == Disposition::Accept
            <==> (outcome == CallbackOutcome::Returned(true) || outcome
            == CallbackOutcome::NoCallback),
        (d is QueueClosed || d is Dropped || d is TimedOut) ==> disposition_of(d)
            == Disposition::Reject,
{
}

/// Where a receiver is with its deliveries.
pub struct ReceiverState {
    /// A delivery was received and is not settled yet.
    pub in_flight: bool,
    /// Deliveries received so far.
    pub received: nat,
    /// The dispositions issued so far: the k-th for the k-th delivery.
    pub dispositions: Seq<Disposition>,
}

/// A reachable state: every delivery received is settled before the next is
/// received, in the order received.
pub open spec fn receiver_wf(s: ReceiverState) -> bool {
    s.dispositions.len() + (if s.in_flight { 1int } else { 0int }) == s.received
}

pub open spec fn after_receive(s: ReceiverState) -> ReceiverState {
    ReceiverState { in_flight: true, received: s.received + 1, ..s }
}

pub open spec fn after_settle(s: ReceiverState, outcome: DispatchOutcome) -> ReceiverState {
    ReceiverState { in_flight: false, dispositions: s.dispositions.push(disposition_of(outcome)), ..s }
}

/// The receive loop of one link: a delivery is received, dispatched and
/// settled before the next one is received.
pub struct ReceiverLoop {
    in_flight: bool,
    received_any: bool,
    received: Ghost<nat>,
    dispositions: Ghost<Seq<Disposition>>,
}

impl View for ReceiverLoop {
    type V = ReceiverState;

    closed spec fn view(&self) -> ReceiverState {
        ReceiverState {
            in_flight: self.in_flight,
            received: self.received@,
            dispositions: self.dispositions@,
        }
    }
}

impl ReceiverLoop {
    /// The loop has received something exactly when its count is not zero.
    #[verifier::type_invariant]
    closed spec fn inv(&self) -> bool {
        self.received_any == (self.received@ > 0)
    }

    /// A receiver that has had no delivery yet.
    pub fn new() -> (r: Self)
        ensures
            r@ == (ReceiverState { in_flight: false, received: 0, dispositions: Seq::empty() }),
    {
        ReceiverLoop {
            in_flight: false,
            received_any: false,
            received: Ghost(0),
            dispositions: Ghost(Seq::empty()),
        }
    }

    /// Whether the previous delivery is settled, so that the next may be
    /// received.
    pub fn may_receive(&self) -> (b: bool)
        ensures
            b == !self@.in_flight,
    {
        !self.in_flight
    }

    /// Records a received delivery.
    pub fn receive(&mut self)
        requires
            !old(self)@.in_flight,
        ensures
            final(self)@ == after_receive(old(self)@),
    {
        *self = ReceiverLoop {
            in_flight: true,
            received_any: true,
            received: Ghost(self.received@ + 1),
            dispositions: Ghost(self.dispositions@),
        };
    }

    /// Settles the delivery in hand by how its dispatch ended.
    pub fn settle_delivery(&mut self, outcome: DispatchOutcome) -> (d: Disposition)
        requires
            old(self)@.in_flight,
        ensures
            d == disposition_of(outcome),
            final(self)@ == after_settle(old(self)@, outcome),
    {
        proof {
            use_type_invariant(&*self);
        }
        let ghost pushed = self.dispositions@.push(disposition_of(outcome));
        let d = settle(outcome);
        *self = ReceiverLoop {
            in_flight: false,
            received_any: self.received_any,
            received: Ghost(self.received@),
            dispositions: Ghost(pushed),
        };
        d
    }

    /// Whether to close the link once receiving stops: only when some
    /// delivery arrived; otherwise the connection was dropped and the link
    /// is already gone.
    pub fn should_close(&self) -> (b: bool)
        ensures
            b == (self@.received > 0),
    {
        proof {
            use_type_invariant(self);
        }
        self.received_any
    }
}

/// At most one delivery per link is outstanding, and deliveries are settled
/// in the order received: receiving needs the previous one settled, and the
/// disposition of the k-th delivery is the k-th issued, the earlier ones
/// unchanged.
pub proof fn lemma_receiver_in_order(s: ReceiverState, outcome: DispatchOutcome)
    requires
        receiver_wf(s),
    ensures
        !s.in_flight ==> receiver_wf(after_receive(s)),
        s.in_flight ==> receiver_wf(after_settle(s, outcome)),
        s.in_flight ==> after_settle(s, outcome).dispositions.len() == s.received,
        s.in_flight ==> after_settle(s, outcome).dispositions.last() == disposition_of(outcome),
        s.in_flight ==> after_settle(s, outcome).dispositions.subrange(
            0,
            s.dispositions.len() as int,
        ) == s.dispositions,
        receiver_wf(ReceiverState { in_flight: false, received: 0, dispositions: Seq::empty() }),
{
    if s.in_flight {
        assert(after_settle(s, outcome).dispositions.subrange(0, s.dispositions.len() as int)
            =~= s.dispositions);
    }
}

/// Only the shutdown signal ends the listener; a new connection is served,
/// and a failed accept or handshake is passed over.
pub proof fn lemma_listener_step(e: ListenerEvent)
    ensures
        (listener_step(e) == ListenerAction::Stop) <==> (e == ListenerEvent::Shutdown),
        (listener_step(e) == ListenerAction::ServeConnection) <==> (e == ListenerEvent::Connected),
        (e == ListenerEvent::AcceptFailed || e == ListenerEvent::HandshakeFailed) ==> listener_step(e)
            == ListenerAction::KeepListening,
{
}

/// A delivery is accepted exactly when the worker answered `true`.
pub proof fn lemma_disposition(d: DispatchOutcome, b: bool)
    ensures
        (disposition_of(d) == Disposition::Accept) <==> (d == DispatchOutcome::Answered(true)),
        disposition_of(DispatchOutcome::Answered(b)) == if b {
            Disposition::Accept
        } else {
            Disposition::Reject
        },
{
}

/// The address starts with the host, followed by `:` and the port's digits.
pub proof fn lemma_listen_address(host: Seq<char>, port: u16)
    ensures
        listen_address_text(host, port).subrange(0, host.len() as int) == host,
        listen_address_text(host, port)[host.len() as int] == ':',
        listen_address_text(host, port).subrange(host.len() + 1int, listen_address_text(host, port).len() as int)
            == decimal_digits(port as nat),
{
    reveal_strlit(":");
    let t = listen_address_text(host, port);
    assert(t =~= host + seq![':'] + decimal_digits(port as nat));
    assert(t.subrange(0, host.len() as int) =~= host);
    assert(t.subrange(host.len() + 1int, t.len() as int) =~= decimal_digits(port as nat));
}

} // verus!
