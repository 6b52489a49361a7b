use vstd::prelude::*;

verus! {

/// How long the link manager waits after the link dropped before it tries
/// again, in milliseconds.
pub const COOLDOWN_MS: u64 = 5000;

/// How long the link manager waits after a failed configuration, start or
/// connect before it tries again, in milliseconds.
pub const RETRY_DELAY_MS: u64 = 500;

/// What the radio driver reports of the wireless interface.
#[derive(Clone, Copy, Debug, PartialEq, Eq, Structural)]
pub enum LinkState {
    Invalid,
    Stopped,
    Started,
    Connected,
    Disconnected,
}

/// What the link manager waits for: each phase is the outcome of one action.
#[derive(Clone, Copy, Debug, PartialEq, Eq, Structural)]
pub enum LinkPhase {
    /// The state of the interface, at the top of a round.
    Querying,
    /// The state of the interface, once the cooldown after a drop is over.
    Requerying,
    /// The driver's report that the link dropped.
    AwaitingDisconnect,
    /// The end of the cooldown after a drop.
    CoolingDown,
    /// The outcome of applying the client credentials.
    Configuring,
    /// The outcome of starting the interface.
    Starting,
    /// The outcome of connecting to the access point.
    Connecting,
    /// The end of the short delay after a failure.
    BackingOff,
}

/// What the driver, or the timer, reports back.
#[derive(Clone, Copy, Debug, PartialEq, Eq, Structural)]
pub enum LinkEvent {
    State(LinkState),
    Disconnected,
    TimerElapsed,
    Configured(bool),
    StartDone(bool),
    ConnectDone(bool),
}

/// What the link manager asks to be done next.
#[derive(Clone, Copy, Debug, PartialEq, Eq, Structural)]
pub enum LinkAction {
    QueryState,
    WaitForDisconnect,
    /// Wait this many milliseconds.
    Sleep(u64),
    ApplyCredentials,
    Start,
    Connect,
}

/// A stopped or never configured interface needs its credentials and a
/// start before it can connect.
pub open spec fn needs_setup(s: LinkState) -> bool {
    s == LinkState::Invalid || s == LinkState::Stopped
}

/// The phase after `e` arrives in phase `p`. An event that does not answer
/// the phase's action leaves the phase as it is.
pub open spec fn link_next(p: LinkPhase, e: LinkEvent) -> LinkPhase {
    match p {
        LinkPhase::Querying => match e {
            LinkEvent::State(s) => if s == LinkState::Connected {
                LinkPhase::AwaitingDisconnect
            } else if needs_setup(s) {
                LinkPhase::Configuring
            } else {
                LinkPhase::Connecting
            },
            _ => p,
        },
        LinkPhase::Requerying => match e {
            LinkEvent::State(s) => if needs_setup(s) {
                LinkPhase::Configuring
            } else {
                LinkPhase::Connecting
            },
            _ => p,
        },
        LinkPhase::AwaitingDisconnect => match e {
            LinkEvent::Disconnected => LinkPhase::CoolingDown,
            _ => p,
        },
        LinkPhase::CoolingDown => match e {
            LinkEvent::TimerElapsed => LinkPhase::Requerying,
            _ => p,
        },
        LinkPhase::Configuring => match e {
            LinkEvent::Configured(ok) => if ok { LinkPhase::Starting } else { LinkPhase::BackingOff },
            _ => p,
        },
        LinkPhase::Starting => match e {
            LinkEvent::StartDone(ok) => if ok { LinkPhase::Connecting } else { LinkPhase::BackingOff },
            _ => p,
        },
        LinkPhase::Connecting => match e {
            LinkEvent::ConnectDone(ok) => if ok { LinkPhase::Querying } else { LinkPhase::BackingOff },
            _ => p,
        },
        LinkPhase::BackingOff => match e {
            LinkEvent::TimerElapsed => LinkPhase::Querying,
            _ => p,
        },
    }
}

/// The action whose outcome phase `p` waits for.
pub open spec fn link_action(p: LinkPhase) -> LinkAction {
    match p {
        LinkPhase::Querying | LinkPhase::Requerying => LinkAction::QueryState,
        LinkPhase::AwaitingDisconnect => LinkAction::WaitForDisconnect,
        LinkPhase::CoolingDown => LinkAction::Sleep(COOLDOWN_MS),
        LinkPhase::Configuring => LinkAction::ApplyCredentials,
        LinkPhase::Starting => LinkAction::Start,
        LinkPhase::Connecting => LinkAction::Connect,
        LinkPhase::BackingOff => LinkAction::Sleep(RETRY_DELAY_MS),
    }
}

/// A radio driver that refuses the first `fails` configurations and then
/// does at once whatever it is asked: its answer to action `a`, with its
/// state afterwards and the refusals still to come.
pub open spec fn flaky_driver(state: LinkState, fails: nat, a: LinkAction) -> (LinkEvent, LinkState, nat) {
    match a {
        LinkAction::QueryState => (LinkEvent::State(state), state, fails),
        LinkAction::WaitForDisconnect => (LinkEvent::Disconnected, LinkState::Disconnected, fails),
        LinkAction::Sleep(_) => (LinkEvent::TimerElapsed, state, fails),
        LinkAction::ApplyCredentials => if fails > 0 {
            (LinkEvent::Configured(false), state, (fails - 1) as nat)
        } else {
            (LinkEvent::Configured(true), state, fails)
        },
        LinkAction::Start => (LinkEvent::StartDone(true), LinkState::Started, fails),
        LinkAction::Connect => (LinkEvent::ConnectDone(true), LinkState::Connected, fails),
    }
}

/// `n` rounds of the link manager against `flaky_driver`, from phase `p`:
/// the actions taken, the phase reached and the driver's state at the end.
pub open spec fn link_run(p: LinkPhase, state: LinkState, fails: nat, n: nat) -> (Seq<LinkAction>, LinkPhase, LinkState)
    decreases n,
{
    if n == 0 {
        (Seq::empty(), p, state)
    } else {
        let a = link_action(p);
        let (e, s2, f2) = flaky_driver(state, fails, a);
        let rest = link_run(link_next(p, e), s2, f2, (n - 1) as nat);
        (seq![a] + rest.0, rest.1, rest.2)
    }
}

/// `k` failed configuration rounds: each queries the state, applies the
/// credentials and waits the retry delay.
pub open spec fn failed_rounds(k: nat) -> Seq<LinkAction>
    decreases k,
{
    if k == 0 {
        Seq::empty()
    } else {
        seq![LinkAction::QueryState, LinkAction::ApplyCredentials, LinkAction::Sleep(RETRY_DELAY_MS)]
            + failed_rounds((k - 1) as nat)
    }
}

/// The link manager reaches a connected link against a driver that refuses
/// the configuration `k` times: from a stopped or never configured
/// interface it retries exactly `k` times, each retry after the fixed
/// delay, then configures, starts and connects, and stands at the top of
/// its next round with the interface connected.
pub proof fn lemma_link_retry_liveness(initial: LinkState, k: nat)
    requires
        needs_setup(initial),
    ensures
        link_run(LinkPhase::Querying, initial, k, 3 * k + 4) == (
            failed_rounds(k) + seq![
                LinkAction::QueryState,
                LinkAction::ApplyCredentials,
                LinkAction::Start,
                LinkAction::Connect,
            ],
            LinkPhase::Querying,
            LinkState::Connected,
        ),
    decreases k,
{
    let tail = seq![LinkAction::QueryState, LinkAction::ApplyCredentials, LinkAction::Start, LinkAction::Connect];
    if k == 0 {
        reveal_with_fuel(link_run, 5);
        assert(failed_rounds(0) + tail =~= tail);
        assert(link_run(LinkPhase::Querying, initial, 0, 4).0 =~= tail);
    } else {
        let n = 3 * (k - 1) + 4;
        lemma_link_retry_liveness(initial, (k - 1) as nat);
        let r0 = link_run(LinkPhase::BackingOff, initial, (k - 1) as nat, (n + 1) as nat);
        let r1 = link_run(LinkPhase::Configuring, initial, k, (n + 2) as nat);
        let r2 = link_run(LinkPhase::Querying, initial, k, (n + 3) as nat);
        assert(r0.0 =~= seq![LinkAction::Sleep(RETRY_DELAY_MS)] + failed_rounds((k - 1) as nat) + tail);
        assert(r1.0 =~= seq![LinkAction::ApplyCredentials] + r0.0);
        assert(r2.0 =~= seq![LinkAction::QueryState] + r1.0);
        assert(failed_rounds(k) + tail =~= r2.0);
        assert(3 * k + 4 == n + 3);
    }
}

/// The decisions of the link manager, which keeps the wireless interface
/// connected: it configures and starts a stopped interface, connects it,
/// waits for a drop and cools down after one, and retries every failure
/// after a short delay, without end. Whoever owns the interface performs
/// each action and reports the outcome to `step`.
pub struct LinkManager {
    phase: LinkPhase,
}

impl View for LinkManager {
    type V = LinkPhase;

    closed spec fn view(&self) -> LinkPhase {
        self.phase
    }
}

impl LinkManager {
    /// A link manager at the top of its first round.
    pub fn new() -> (r: LinkManager)
        ensures
            r@ == LinkPhase::Querying,
    {
        LinkManager { phase: LinkPhase::Querying }
    }

    /// The phase the manager is in.
    pub fn phase(&self) -> (r: LinkPhase)
        ensures
            r == self@,
    {
        self.phase
    }

    /// The action to perform now.
    pub fn action(&self) -> (r: LinkAction)
        ensures
            r == link_action(self@),
    {
        match self.phase {
            LinkPhase::Querying | LinkPhase::Requerying => LinkAction::QueryState,
            LinkPhase::AwaitingDisconnect => LinkAction::WaitForDisconnect,
            LinkPhase::CoolingDown => LinkAction::Sleep(COOLDOWN_MS),
            LinkPhase::Configuring => LinkAction::ApplyCredentials,
            LinkPhase::Starting => LinkAction::Start,
            LinkPhase::Connecting => LinkAction::Connect,
            LinkPhase::BackingOff => LinkAction::Sleep(RETRY_DELAY_MS),
        }
    }

    /// Takes in the outcome of the last action and returns the next one.
    pub fn step(&mut self, e: LinkEvent) -> (r: LinkAction)
        ensures
            final(self)@ == link_next(old(self)@, e),
            r == link_action(final(self)@),
    {
        let next = match (self.phase, e) {
            (LinkPhase::Querying, LinkEvent::State(s)) => {
                if s == LinkState::Connected {
                    LinkPhase::AwaitingDisconnect
                } else if s == LinkState::Invalid || s == LinkState::Stopped {
                    LinkPhase::Configuring
                } else {
                    LinkPhase::Connecting
                }
            },
            (LinkPhase::Requerying, LinkEvent::State(s)) => {
                if s == LinkState::Invalid || s == LinkState::Stopped {
                    LinkPhase::Configuring
                } else {
                    LinkPhase::Connecting
                }
            },
            (LinkPhase::AwaitingDisconnect, LinkEvent::Disconnected) => LinkPhase::CoolingDown,
            (LinkPhase::CoolingDown, LinkEvent::TimerElapsed) => LinkPhase::Requerying,
            (LinkPhase::Configuring, LinkEvent::Configured(ok)) => {
                if ok { LinkPhase::Starting } else { LinkPhase::BackingOff }
            },
            (LinkPhase::Starting, LinkEvent::StartDone(ok)) => {
                if ok { LinkPhase::Connecting } else { LinkPhase::BackingOff }
            },
            (LinkPhase::Connecting, LinkEvent::ConnectDone(ok)) => {
                if ok { LinkPhase::Querying } else { LinkPhase::BackingOff }
            },
            (LinkPhase::BackingOff, LinkEvent::TimerElapsed) => LinkPhase::Querying,
            (p, _) => p,
        };
        self.phase = next;
        self.action()
    }
}

} // verus!
