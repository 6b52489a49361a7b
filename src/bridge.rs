use vstd::prelude::*;
use crate::channel::Message;

verus! {

/// How long the bridge waits before it checks a down link again, in
/// milliseconds.
pub const LINK_WAIT_MS: u64 = 500;

/// How long the bridge waits between two failed name resolutions, in
/// milliseconds.
pub const RESOLVE_RETRY_MS: u64 = 500;

/// An address that the broker's host name resolved to.
#[derive(Clone, Copy, Debug, PartialEq, Eq, Structural)]
pub enum IpAddress {
    /// An IPv4 address, first octet in the highest byte.
    V4(u32),
    /// An IPv6 address, first octet in the highest byte.
    V6(u128),
}

impl IpAddress {
    /// The IPv4 address `a.b.c.d`.
    pub fn v4(a: u8, b: u8, c: u8, d: u8) -> (r: IpAddress)
        ensures
            r is V4,
            r->V4_0 == a as int * 0x1000000 + b as int * 0x10000 + c as int * 0x100 + d as int,
    {
        assert((a as u32) * 0x1000000 + (b as u32) * 0x10000 + (c as u32) * 0x100 + d as u32 <= 0xffffffff) by (nonlinear_arith)
            requires a <= 255, b <= 255, c <= 255, d <= 255;
        IpAddress::V4((a as u32) * 0x1000000 + (b as u32) * 0x10000 + (c as u32) * 0x100 + d as u32)
    }
}

/// Delivery guarantee asked of the broker for a publish.
#[derive(Clone, Copy, Debug, PartialEq, Eq, Structural)]
pub enum Qos {
    AtMostOnce,
    AtLeastOnce,
    ExactlyOnce,
}

/// The fixed settings of a broker session.
#[derive(Clone, Debug)]
pub struct SessionConfig {
    /// The broker's host name; also the server name of the encrypted channel.
    pub host: String,
    pub port: u16,
    pub client_id: String,
    /// The topic on which configuration arrives.
    pub config_topic: String,
    /// Whether the stream is wrapped in an encrypted channel.
    pub use_tls: bool,
}

/// What the bridge waits for: each phase is the outcome of one action.
#[derive(Clone, Copy, Debug, PartialEq, Eq, Structural)]
pub enum BridgePhase {
    /// Whether the link is up, at the top of a cycle.
    CheckingLink,
    /// The end of the wait after a down link.
    LinkWait,
    /// The resolution of the broker's host name.
    Resolving,
    /// The end of the wait after a failed resolution.
    ResolveWait,
    /// The opening of a stream to this address.
    Opening(IpAddress),
    /// The encrypted channel's handshake.
    Securing,
    /// The broker's answer to the connect handshake.
    Handshaking,
    /// The broker's answer to the subscription.
    Subscribing,
    /// An outbound or an inbound message, or the outcome of handling one.
    Multiplexing,
}

/// What the environment reports back.
#[derive(Debug, PartialEq, Eq)]
pub enum BridgeEvent {
    LinkStatus(bool),
    TimerElapsed,
    /// The outcome of a resolution: `None` when it failed.
    Resolved(Option<IpAddress>),
    TransportOpened(bool),
    Secured(bool),
    BrokerConnected(bool),
    Subscribed(bool),
    /// A message taken from the outbox.
    Outbound(Message),
    /// A message delivered by the broker, or `None` when receiving failed.
    Inbound(Option<Message>),
    /// The outcome of a publish: whether the broker acknowledged it.
    Published(bool),
    /// The last inbound message now stands in the inbox.
    Forwarded,
}

/// What the bridge asks to be done next.
#[derive(Debug, PartialEq, Eq)]
pub enum BridgeAction {
    QueryLink,
    /// Wait this many milliseconds.
    Sleep(u64),
    /// Resolve the broker's host name.
    Resolve,
    /// Open a stream to this address and port.
    OpenTransport(IpAddress, u16),
    /// Wrap the stream in an encrypted channel, with the host name as server name.
    UpgradeTls,
    /// Perform the broker's connect handshake with the client identifier.
    ConnectBroker,
    /// Subscribe to the configuration topic.
    Subscribe,
    /// Wait for whichever comes first: a message in the outbox or one from the broker.
    AwaitEither,
    /// Publish this message.
    Publish { message: Message, qos: Qos, retain: bool },
    /// Put this message in the inbox, waiting for room if it is full.
    Forward(Message),
}

/// The phase after `e` arrives in phase `p`. A failure from the stream
/// onwards discards the session and starts the cycle again from the link
/// check; an event that does not answer the phase's action leaves the phase
/// as it is.
pub open spec fn bridge_next(use_tls: bool, p: BridgePhase, e: BridgeEvent) -> BridgePhase {
    match p {
        BridgePhase::CheckingLink => match e {
            BridgeEvent::LinkStatus(up) => if up { BridgePhase::Resolving } else { BridgePhase::LinkWait },
            _ => p,
        },
        BridgePhase::LinkWait => match e {
            BridgeEvent::TimerElapsed => BridgePhase::CheckingLink,
            _ => p,
        },
        BridgePhase::Resolving => match e {
            BridgeEvent::Resolved(r) => match r {
                Some(a) => BridgePhase::Opening(a),
                None => BridgePhase::ResolveWait,
            },
            _ => p,
        },
        BridgePhase::ResolveWait => match e {
            BridgeEvent::TimerElapsed => BridgePhase::Resolving,
            _ => p,
        },
        BridgePhase::Opening(_) => match e {
            BridgeEvent::TransportOpened(ok) => if !ok {
                BridgePhase::CheckingLink
            } else if use_tls {
                BridgePhase::Securing
            } else {
                BridgePhase::Handshaking
            },
            _ => p,
        },
        BridgePhase::Securing => match e {
            BridgeEvent::Secured(ok) => if ok { BridgePhase::Handshaking } else { BridgePhase::CheckingLink },
            _ => p,
        },
        BridgePhase::Handshaking => match e {
            BridgeEvent::BrokerConnected(ok) => if ok { BridgePhase::Subscribing } else { BridgePhase::CheckingLink },
            _ => p,
        },
        BridgePhase::Subscribing => match e {
            BridgeEvent::Subscribed(ok) => if ok { BridgePhase::Multiplexing } else { BridgePhase::CheckingLink },
            _ => p,
        },
        BridgePhase::Multiplexing => match e {
            BridgeEvent::Inbound(r) => if r is Some { p } else { BridgePhase::CheckingLink },
            BridgeEvent::Published(ok) => if ok { p } else { BridgePhase::CheckingLink },
            _ => p,
        },
    }
}

/// The action whose outcome phase `p` waits for.
pub open spec fn bridge_action(port: u16, p: BridgePhase) -> BridgeAction {
    match p {
        BridgePhase::CheckingLink => BridgeAction::QueryLink,
        BridgePhase::LinkWait => BridgeAction::Sleep(LINK_WAIT_MS),
        BridgePhase::Resolving => BridgeAction::Resolve,
        BridgePhase::ResolveWait => BridgeAction::Sleep(RESOLVE_RETRY_MS),
        BridgePhase::Opening(a) => BridgeAction::OpenTransport(a, port),
        BridgePhase::Securing => BridgeAction::UpgradeTls,
        BridgePhase::Handshaking => BridgeAction::ConnectBroker,
        BridgePhase::Subscribing => BridgeAction::Subscribe,
        BridgePhase::Multiplexing => BridgeAction::AwaitEither,
    }
}

/// The action that answers `e` in phase `p`: while multiplexing, an
/// outbound message is published at least once and not retained, and an
/// inbound one is forwarded to the inbox; otherwise the action of the phase
/// reached.
pub open spec fn bridge_reply(port: u16, use_tls: bool, p: BridgePhase, e: BridgeEvent) -> BridgeAction {
    if p == BridgePhase::Multiplexing && e is Outbound {
        BridgeAction::Publish { message: e->Outbound_0, qos: Qos::AtLeastOnce, retain: false }
    } else if p == BridgePhase::Multiplexing && e is Inbound && e->Inbound_0 is Some {
        BridgeAction::Forward(e->Inbound_0->Some_0)
    } else {
        bridge_action(port, bridge_next(use_tls, p, e))
    }
}

/// Whether `e` reports that the step of the session that phase `p` waits
/// for failed: the stream, the encryption, the handshake, the subscription,
/// a publish, or receiving from the broker.
pub open spec fn session_failed(p: BridgePhase, e: BridgeEvent) -> bool {
    ||| p is Opening && e == BridgeEvent::TransportOpened(false)
    ||| p == BridgePhase::Securing && e == BridgeEvent::Secured(false)
    ||| p == BridgePhase::Handshaking && e == BridgeEvent::BrokerConnected(false)
    ||| p == BridgePhase::Subscribing && e == BridgeEvent::Subscribed(false)
    ||| p == BridgePhase::Multiplexing && e == BridgeEvent::Published(false)
    ||| p == BridgePhase::Multiplexing && e == BridgeEvent::Inbound(None)
}

/// Any failure of a session discards it and starts the whole cycle again
/// from the link check, from where a new address is resolved and a new
/// session built.
pub proof fn lemma_failure_restarts(port: u16, use_tls: bool, p: BridgePhase, e: BridgeEvent)
    requires
        session_failed(p, e),
    ensures
        bridge_next(use_tls, p, e) == BridgePhase::CheckingLink,
        bridge_reply(port, use_tls, p, e) == BridgeAction::QueryLink,
{
}

/// How many actions of `s` satisfy `pred`.
pub open spec fn count_matching(s: Seq<BridgeAction>, pred: spec_fn(BridgeAction) -> bool) -> nat
    decreases s.len(),
{
    if s.len() == 0 {
        0
    } else {
        (if pred(s[0]) { 1nat } else { 0nat }) + count_matching(s.drop_first(), pred)
    }
}

/// The messages that the publish actions of `s` carry, in order.
pub open spec fn published(s: Seq<BridgeAction>) -> Seq<Message>
    decreases s.len(),
{
    if s.len() == 0 {
        Seq::empty()
    } else if s[0] is Publish {
        seq![s[0]->message] + published(s.drop_first())
    } else {
        published(s.drop_first())
    }
}

/// The messages that the forward actions of `s` carry, in order.
pub open spec fn forwarded(s: Seq<BridgeAction>) -> Seq<Message>
    decreases s.len(),
{
    if s.len() == 0 {
        Seq::empty()
    } else if s[0] is Forward {
        seq![s[0]->Forward_0] + forwarded(s.drop_first())
    } else {
        forwarded(s.drop_first())
    }
}

/// The actions the bridge answers `events` with, from phase `p`, and the
/// phase it reaches.
pub open spec fn bridge_feed(port: u16, use_tls: bool, p: BridgePhase, events: Seq<BridgeEvent>) -> (Seq<BridgeAction>, BridgePhase)
    decreases events.len(),
{
    if events.len() == 0 {
        (Seq::empty(), p)
    } else {
        let rest = bridge_feed(port, use_tls, bridge_next(use_tls, p, events[0]), events.drop_first());
        (seq![bridge_reply(port, use_tls, p, events[0])] + rest.0, rest.1)
    }
}

/// Outbound messages alone: each taken from the outbox, then acknowledged by
/// the broker.
pub open spec fn outbound_load(ms: Seq<Message>) -> Seq<BridgeEvent>
    decreases ms.len(),
{
    if ms.len() == 0 {
        Seq::empty()
    } else {
        seq![BridgeEvent::Outbound(ms[0]), BridgeEvent::Published(true)] + outbound_load(ms.drop_first())
    }
}

/// Inbound messages alone: each delivered by the broker, then put in the inbox.
pub open spec fn inbound_load(ms: Seq<Message>) -> Seq<BridgeEvent>
    decreases ms.len(),
{
    if ms.len() == 0 {
        Seq::empty()
    } else {
        seq![BridgeEvent::Inbound(Some(ms[0])), BridgeEvent::Forwarded] + inbound_load(ms.drop_first())
    }
}

/// With only outbound messages arriving, a multiplexing bridge publishes
/// every one of them exactly once, in the order they were taken from the
/// outbox, forwards nothing, and keeps multiplexing.
pub proof fn lemma_outbound_only(port: u16, use_tls: bool, ms: Seq<Message>)
    ensures
        bridge_feed(port, use_tls, BridgePhase::Multiplexing, outbound_load(ms)).1 == BridgePhase::Multiplexing,
        published(bridge_feed(port, use_tls, BridgePhase::Multiplexing, outbound_load(ms)).0) == ms,
        forwarded(bridge_feed(port, use_tls, BridgePhase::Multiplexing, outbound_load(ms)).0) == Seq::<Message>::empty(),
    decreases ms.len(),
{
    let events = outbound_load(ms);
    if ms.len() == 0 {
        assert(events =~= Seq::<BridgeEvent>::empty());
    } else {
        lemma_outbound_only(port, use_tls, ms.drop_first());
        let later = outbound_load(ms.drop_first());
        assert(events[0] == BridgeEvent::Outbound(ms[0]));
        assert(events.drop_first()[0] == BridgeEvent::Published(true));
        assert(events.drop_first().drop_first() =~= later);
        let rest = bridge_feed(port, use_tls, BridgePhase::Multiplexing, later);
        let mid = bridge_feed(port, use_tls, BridgePhase::Multiplexing, events.drop_first());
        let all = bridge_feed(port, use_tls, BridgePhase::Multiplexing, events);
        assert(mid.0 == seq![BridgeAction::AwaitEither] + rest.0);
        assert(mid.1 == rest.1);
        assert(all.0 == seq![BridgeAction::Publish { message: ms[0], qos: Qos::AtLeastOnce, retain: false }] + mid.0);
        assert(all.1 == mid.1);
        assert(mid.0.drop_first() =~= rest.0);
        assert(all.0.drop_first() =~= mid.0);
        assert(published(mid.0) == published(rest.0));
        assert(forwarded(mid.0) == forwarded(rest.0));
        assert(published(all.0) == seq![ms[0]] + published(mid.0));
        assert(forwarded(all.0) == forwarded(mid.0));
        assert(seq![ms[0]] + ms.drop_first() =~= ms);
    }
}

/// With only inbound messages arriving, a multiplexing bridge forwards every
/// one of them to the inbox exactly once, in the order the broker delivered
/// them, publishes nothing, and keeps multiplexing.
pub proof fn lemma_inbound_only(port: u16, use_tls: bool, ms: Seq<Message>)
    ensures
        bridge_feed(port, use_tls, BridgePhase::Multiplexing, inbound_load(ms)).1 == BridgePhase::Multiplexing,
        forwarded(bridge_feed(port, use_tls, BridgePhase::Multiplexing, inbound_load(ms)).0) == ms,
        published(bridge_feed(port, use_tls, BridgePhase::Multiplexing, inbound_load(ms)).0) == Seq::<Message>::empty(),
    decreases ms.len(),
{
    let events = inbound_load(ms);
    if ms.len() == 0 {
        assert(events =~= Seq::<BridgeEvent>::empty());
    } else {
        lemma_inbound_only(port, use_tls, ms.drop_first());
        let later = inbound_load(ms.drop_first());
        assert(events[0] == BridgeEvent::Inbound(Some(ms[0])));
        assert(events.drop_first()[0] == BridgeEvent::Forwarded);
        assert(events.drop_first().drop_first() =~= later);
        let rest = bridge_feed(port, use_tls, BridgePhase::Multiplexing, later);
        let mid = bridge_feed(port, use_tls, BridgePhase::Multiplexing, events.drop_first());
        let all = bridge_feed(port, use_tls, BridgePhase::Multiplexing, events);
        assert(mid.0 == seq![BridgeAction::AwaitEither] + rest.0);
        assert(mid.1 == rest.1);
        assert(all.0 == seq![BridgeAction::Forward(ms[0])] + mid.0);
        assert(all.1 == mid.1);
        assert(mid.0.drop_first() =~= rest.0);
        assert(all.0.drop_first() =~= mid.0);
        assert(forwarded(mid.0) == forwarded(rest.0));
        assert(published(mid.0) == published(rest.0));
        assert(forwarded(all.0) == seq![ms[0]] + forwarded(mid.0));
        assert(published(all.0) == published(mid.0));
        assert(seq![ms[0]] + ms.drop_first() =~= ms);
    }
}

/// A network on which the link is up, the host name resolves to `addr`,
/// streams and encrypted channels open, and the broker refuses the first
/// `fails` connect handshakes and accepts everything else: its answer to
/// action `a`, with the refusals still to come. No message arrives.
pub open spec fn refusing_broker(addr: IpAddress, fails: nat, a: BridgeAction) -> (BridgeEvent, nat) {
    match a {
        BridgeAction::QueryLink => (BridgeEvent::LinkStatus(true), fails),
        BridgeAction::Sleep(_) => (BridgeEvent::TimerElapsed, fails),
        BridgeAction::Resolve => (BridgeEvent::Resolved(Some(addr)), fails),
        BridgeAction::OpenTransport(_, _) => (BridgeEvent::TransportOpened(true), fails),
        BridgeAction::UpgradeTls => (BridgeEvent::Secured(true), fails),
        BridgeAction::ConnectBroker => if fails > 0 {
            (BridgeEvent::BrokerConnected(false), (fails - 1) as nat)
        } else {
            (BridgeEvent::BrokerConnected(true), fails)
        },
        BridgeAction::Subscribe => (BridgeEvent::Subscribed(true), fails),
        BridgeAction::AwaitEither => (BridgeEvent::TimerElapsed, fails),
        BridgeAction::Publish { .. } => (BridgeEvent::Published(true), fails),
        BridgeAction::Forward(_) => (BridgeEvent::Forwarded, fails),
    }
}

/// `n` steps of the bridge against `refusing_broker`, from phase `p`: the
/// actions taken and the phase reached.
pub open spec fn bridge_run(port: u16, use_tls: bool, p: BridgePhase, addr: IpAddress, fails: nat, n: nat) -> (Seq<BridgeAction>, BridgePhase)
    decreases n,
{
    if n == 0 {
        (Seq::empty(), p)
    } else {
        let a = bridge_action(port, p);
        let (e, f2) = refusing_broker(addr, fails, a);
        let rest = bridge_run(port, use_tls, bridge_next(use_tls, p, e), addr, f2, (n - 1) as nat);
        (seq![a] + rest.0, rest.1)
    }
}

/// One cycle up to the broker's connect handshake.
pub open spec fn session_attempt(port: u16, use_tls: bool, addr: IpAddress) -> Seq<BridgeAction> {
    if use_tls {
        seq![
            BridgeAction::QueryLink,
            BridgeAction::Resolve,
            BridgeAction::OpenTransport(addr, port),
            BridgeAction::UpgradeTls,
            BridgeAction::ConnectBroker,
        ]
    } else {
        seq![BridgeAction::QueryLink, BridgeAction::Resolve, BridgeAction::OpenTransport(addr, port), BridgeAction::ConnectBroker]
    }
}

/// `k` cycles up to the broker's connect handshake, one after the other.
pub open spec fn session_attempts(port: u16, use_tls: bool, addr: IpAddress, k: nat) -> Seq<BridgeAction>
    decreases k,
{
    if k == 0 {
        Seq::empty()
    } else {
        session_attempt(port, use_tls, addr) + session_attempts(port, use_tls, addr, (k - 1) as nat)
    }
}

proof fn lemma_count_append(a: Seq<BridgeAction>, b: Seq<BridgeAction>, pred: spec_fn(BridgeAction) -> bool)
    ensures
        count_matching(a + b, pred) == count_matching(a, pred) + count_matching(b, pred),
    decreases a.len(),
{
    if a.len() > 0 {
        lemma_count_append(a.drop_first(), b, pred);
        assert((a + b).drop_first() =~= a.drop_first() + b);
    } else {
        assert(a + b =~= b);
    }
}

proof fn lemma_count_attempts(port: u16, use_tls: bool, addr: IpAddress, k: nat)
    ensures
        count_matching(session_attempts(port, use_tls, addr, k), |a: BridgeAction| a is Resolve) == k,
        count_matching(session_attempts(port, use_tls, addr, k), |a: BridgeAction| a is OpenTransport) == k,
    decreases k,
{
    if k > 0 {
        let one = session_attempt(port, use_tls, addr);
        let more = session_attempts(port, use_tls, addr, (k - 1) as nat);
        lemma_count_attempts(port, use_tls, addr, (k - 1) as nat);
        lemma_count_append(one, more, |a: BridgeAction| a is Resolve);
        lemma_count_append(one, more, |a: BridgeAction| a is OpenTransport);
        reveal_with_fuel(count_matching, 6);
    }
}

/// From the link check, one cycle against a broker that refuses the
/// handshake `fails + 1` times runs up to the handshake and starts over.
proof fn lemma_refused_attempt(port: u16, use_tls: bool, addr: IpAddress, fails: nat, n: nat)
    ensures
        bridge_run(port, use_tls, BridgePhase::CheckingLink, addr, fails + 1, session_attempt(port, use_tls, addr).len() + n)
            == (session_attempt(port, use_tls, addr) + bridge_run(port, use_tls, BridgePhase::CheckingLink, addr, fails, n).0,
                bridge_run(port, use_tls, BridgePhase::CheckingLink, addr, fails, n).1),
{
    reveal_with_fuel(bridge_run, 6);
    let rest = bridge_run(port, use_tls, BridgePhase::CheckingLink, addr, fails, n);
    let once = bridge_run(port, use_tls, BridgePhase::CheckingLink, addr, fails + 1, session_attempt(port, use_tls, addr).len() + n);
    assert(once.0 =~= session_attempt(port, use_tls, addr) + rest.0);
}

/// The outer cycle starts over after a refused handshake, from resolution:
/// against a broker that refuses the connect handshake `fails` times, the
/// bridge runs `fails + 1` cycles of link check, resolution, stream (and
/// encryption) and handshake, then subscribes and multiplexes. So it
/// resolves the host name and opens a stream exactly `fails + 1` times
/// before it multiplexes.
pub proof fn lemma_restart_after_refusal(port: u16, use_tls: bool, addr: IpAddress, fails: nat)
    ensures
        bridge_run(port, use_tls, BridgePhase::CheckingLink, addr, fails,
            (fails + 1) * session_attempt(port, use_tls, addr).len() + 1)
            == (session_attempts(port, use_tls, addr, fails + 1) + seq![BridgeAction::Subscribe], BridgePhase::Multiplexing),
        count_matching(session_attempts(port, use_tls, addr, fails + 1) + seq![BridgeAction::Subscribe],
            |a: BridgeAction| a is Resolve) == fails + 1,
        count_matching(session_attempts(port, use_tls, addr, fails + 1) + seq![BridgeAction::Subscribe],
            |a: BridgeAction| a is OpenTransport) == fails + 1,
    decreases fails,
{
    let one = session_attempt(port, use_tls, addr);
    let last = seq![BridgeAction::Subscribe];
    lemma_count_attempts(port, use_tls, addr, fails + 1);
    lemma_count_append(session_attempts(port, use_tls, addr, fails + 1), last, |a: BridgeAction| a is Resolve);
    lemma_count_append(session_attempts(port, use_tls, addr, fails + 1), last, |a: BridgeAction| a is OpenTransport);
    reveal_with_fuel(count_matching, 2);
    if fails == 0 {
        reveal_with_fuel(bridge_run, 7);
        let r = bridge_run(port, use_tls, BridgePhase::CheckingLink, addr, 0, one.len() + 1);
        assert(session_attempts(port, use_tls, addr, 0) =~= Seq::<BridgeAction>::empty());
        assert(session_attempts(port, use_tls, addr, 1) =~= one);
        assert(r.0 =~= one + last);
        assert((fails + 1) * one.len() + 1 == one.len() + 1);
    } else {
        let f = (fails - 1) as nat;
        lemma_restart_after_refusal(port, use_tls, addr, f);
        let n = (f + 1) * one.len() + 1;
        lemma_refused_attempt(port, use_tls, addr, f, n);
        assert((fails + 1) * one.len() + 1 == one.len() + n) by (nonlinear_arith)
            requires fails == f + 1, n == (f + 1) * one.len() + 1;
        assert(one + (session_attempts(port, use_tls, addr, f + 1) + last)
            =~= session_attempts(port, use_tls, addr, fails + 1) + last);
    }
}

/// The decisions of the bridge between the application's channels and the
/// broker. Each cycle checks the link, resolves the broker's host name
/// until that succeeds, opens a stream, optionally encrypts it, connects
/// and subscribes, and then multiplexes outbound and inbound messages until
/// something fails; any failure discards the session and starts a new
/// cycle. Whoever owns the network performs each action and reports the
/// outcome to `step`.
pub struct Bridge {
    phase: BridgePhase,
    config: SessionConfig,
}

impl View for Bridge {
    type V = BridgePhase;

    closed spec fn view(&self) -> BridgePhase {
        self.phase
    }
}

impl Bridge {
    /// The session settings the bridge was made with.
    pub closed spec fn cfg(&self) -> SessionConfig {
        self.config
    }

    /// A bridge at the top of its first cycle.
    pub fn new(config: SessionConfig) -> (r: Bridge)
        ensures
            r@ == BridgePhase::CheckingLink,
            r.cfg() == config,
    {
        Bridge { phase: BridgePhase::CheckingLink, config }
    }

    /// The session settings.
    pub fn config(&self) -> (r: &SessionConfig)
        ensures
            *r == self.cfg(),
    {
        &self.config
    }

    /// The phase the bridge is in.
    pub fn phase(&self) -> (r: BridgePhase)
        ensures
            r == self@,
    {
        self.phase
    }

    /// The action to perform now.
    pub fn action(&self) -> (r: BridgeAction)
        ensures
            r == bridge_action(self.cfg().port, self@),
    {
        match self.phase {
            BridgePhase::CheckingLink => BridgeAction::QueryLink,
            BridgePhase::LinkWait => BridgeAction::Sleep(LINK_WAIT_MS),
            BridgePhase::Resolving => BridgeAction::Resolve,
            BridgePhase::ResolveWait => BridgeAction::Sleep(RESOLVE_RETRY_MS),
            BridgePhase::Opening(a) => BridgeAction::OpenTransport(a, self.config.port),
            BridgePhase::Securing => BridgeAction::UpgradeTls,
            BridgePhase::Handshaking => BridgeAction::ConnectBroker,
            BridgePhase::Subscribing => BridgeAction::Subscribe,
            BridgePhase::Multiplexing => BridgeAction::AwaitEither,
        }
    }

    /// The phase that `e` leads to.
    fn next_phase(&self, e: &BridgeEvent) -> (r: BridgePhase)
        ensures
            r == bridge_next(self.cfg().use_tls, self@, *e),
    {
        let p = self.phase;
        match p {
            BridgePhase::CheckingLink => match e {
                BridgeEvent::LinkStatus(up) => if *up { BridgePhase::Resolving } else { BridgePhase::LinkWait },
                _ => p,
            },
            BridgePhase::LinkWait => match e {
                BridgeEvent::TimerElapsed => BridgePhase::CheckingLink,
                _ => p,
            },
            BridgePhase::Resolving => match e {
                BridgeEvent::Resolved(Some(a)) => BridgePhase::Opening(*a),
                BridgeEvent::Resolved(None) => BridgePhase::ResolveWait,
                _ => p,
            },
            BridgePhase::ResolveWait => match e {
                BridgeEvent::TimerElapsed => BridgePhase::Resolving,
                _ => p,
            },
            BridgePhase::Opening(_) => match e {
                BridgeEvent::TransportOpened(ok) => if !*ok {
                    BridgePhase::CheckingLink
                } else if self.config.use_tls {
                    BridgePhase::Securing
                } else {
                    BridgePhase::Handshaking
                },
                _ => p,
            },
            BridgePhase::Securing => match e {
                BridgeEvent::Secured(ok) => if *ok { BridgePhase::Handshaking } else { BridgePhase::CheckingLink },
                _ => p,
            },
            BridgePhase::Handshaking => match e {
                BridgeEvent::BrokerConnected(ok) => if *ok { BridgePhase::Subscribing } else { BridgePhase::CheckingLink },
                _ => p,
            },
            BridgePhase::Subscribing => match e {
                BridgeEvent::Subscribed(ok) => if *ok { BridgePhase::Multiplexing } else { BridgePhase::CheckingLink },
                _ => p,
            },
            BridgePhase::Multiplexing => match e {
                BridgeEvent::Inbound(None) => BridgePhase::CheckingLink,
                BridgeEvent::Published(false) => BridgePhase::CheckingLink,
                _ => p,
            },
        }
    }

    /// Takes in the outcome of the last action, or a message from either
    /// side while multiplexing, and returns the next action.
    pub fn step(&mut self, e: BridgeEvent) -> (r: BridgeAction)
        ensures
            final(self).cfg() == old(self).cfg(),
            final(self)@ == bridge_next(old(self).cfg().use_tls, old(self)@, e),
            r == bridge_reply(old(self).cfg().port, old(self).cfg().use_tls, old(self)@, e),
    {
        let next = self.next_phase(&e);
        let multiplexing = self.phase == BridgePhase::Multiplexing;
        self.phase = next;
        match e {
            BridgeEvent::Outbound(message) if multiplexing => {
                BridgeAction::Publish { message, qos: Qos::AtLeastOnce, retain: false }
            },
            BridgeEvent::Inbound(Some(message)) if multiplexing => BridgeAction::Forward(message),
            _ => self.action(),
        }
    }
}

} // verus!
