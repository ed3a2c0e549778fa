//! Decisions of the probe's network loop: how long it waits for an IP
//! configuration, and how its failures read.
use vstd::prelude::*;

use crate::text::decimal;

verus! {

/// How many times the loop looks for an IP configuration before giving up.
pub const MAX_ATTEMPTS: usize = 5;

/// Why one run of the network loop ended.
#[derive(Debug, Clone, PartialEq, Eq)]
pub enum NetLoopError {
    WifiLeaveTimeout,
    WifiConnectTimeout,
    WifiConnectFail { status: u32 },
    WifiLinkTimeout,
    WifiConfigTimeout,
    IpConfigMaxAttempts,
    TcpConnectTimeout,
    TcpConnectReset,
    /// The message did not fit the write buffer (the encoder's description).
    BufferWrite(String),
    MutexTimeout,
    TcpWriteTimeout,
    TcpWriteConnectionReset,
}

/// Text of a network loop error.
pub open spec fn net_loop_error_text(e: NetLoopError) -> Seq<char> {
    match e {
        NetLoopError::WifiLeaveTimeout => "Timeout at wifi leave"@,
        NetLoopError::WifiConnectTimeout => "Timeout at wifi connect"@,
        NetLoopError::WifiConnectFail { status } => "Wifi connect failure status "@ + decimal(status as nat),
        NetLoopError::WifiLinkTimeout => "Timeout at wifi link up"@,
        NetLoopError::WifiConfigTimeout => "Timeout at wifi config up"@,
        NetLoopError::IpConfigMaxAttempts => "Unable to get IP config after max attempts"@,
        NetLoopError::TcpConnectTimeout => "Timeout at TCP connect"@,
        NetLoopError::TcpConnectReset => "TCP reset at TCP connect"@,
        NetLoopError::BufferWrite(_) => "Unable to write serialized message to buffer"@,
        NetLoopError::MutexTimeout => "Timeout at mutex acquire"@,
        NetLoopError::TcpWriteTimeout => "Timeout at TCP write"@,
        NetLoopError::TcpWriteConnectionReset => "TCP reset at TCP write"@,
    }
}

impl NetLoopError {
    /// The error as text.
    pub fn to_string(&self) -> (s: String)
        ensures
            s@ == net_loop_error_text(*self),
    {
        match self {
            NetLoopError::WifiLeaveTimeout => String::from_str("Timeout at wifi leave"),
            NetLoopError::WifiConnectTimeout => String::from_str("Timeout at wifi connect"),
            NetLoopError::WifiConnectFail { status } => {
                let mut s = String::from_str("Wifi connect failure status ");
                crate::text::append_decimal(&mut s, *status as u64);
                s
            },
            NetLoopError::WifiLinkTimeout => String::from_str("Timeout at wifi link up"),
            NetLoopError::WifiConfigTimeout => String::from_str("Timeout at wifi config up"),
            NetLoopError::IpConfigMaxAttempts => String::from_str(
                "Unable to get IP config after max attempts",
            ),
            NetLoopError::TcpConnectTimeout => String::from_str("Timeout at TCP connect"),
            NetLoopError::TcpConnectReset => String::from_str("TCP reset at TCP connect"),
            NetLoopError::BufferWrite(_) => String::from_str(
                "Unable to write serialized message to buffer",
            ),
            NetLoopError::MutexTimeout => String::from_str("Timeout at mutex acquire"),
            NetLoopError::TcpWriteTimeout => String::from_str("Timeout at TCP write"),
            NetLoopError::TcpWriteConnectionReset => String::from_str("TCP reset at TCP write"),
        }
    }
}

/// What the wait for an IP configuration comes to.
#[derive(Debug, Clone, Copy, PartialEq, Eq, Structural)]
pub enum IpConfigStep {
    /// A configuration is there: go on.
    Configured,
    /// None yet: wait half a second and look again.
    Retry,
    /// The attempts are used up: end the loop with
    /// [`NetLoopError::IpConfigMaxAttempts`].
    GiveUp,
}

/// The wait for an IP configuration: how many looks found none.
#[derive(Debug, Clone, Copy, PartialEq, Eq, Structural)]
pub struct IpConfigWait {
    pub attempts: usize,
}

/// The step after a look that does (`has_config`) or does not find a
/// configuration.
pub open spec fn spec_ip_config_step(has_config: bool) -> IpConfigStep {
    if has_config {
        IpConfigStep::Configured
    } else {
        IpConfigStep::Retry
    }
}

impl IpConfigWait {
    /// A wait with no attempt made.
    pub fn new() -> (w: IpConfigWait)
        ensures
            w.attempts == 0,
    {
        IpConfigWait { attempts: 0 }
    }

    /// Whether the attempts are used up; checked before each look.
    pub fn exhausted(&self) -> (b: bool)
        ensures
            b == (self.attempts >= MAX_ATTEMPTS),
    {
        self.attempts >= MAX_ATTEMPTS
    }

    /// Decide after a look; a look that finds nothing counts one attempt.
    pub fn look(&mut self, has_config: bool) -> (s: IpConfigStep)
        requires
            old(self).attempts < MAX_ATTEMPTS,
        ensures
            s == spec_ip_config_step(has_config),
            final(self).attempts == if has_config {
                old(self).attempts as int
            } else {
                old(self).attempts + 1
            },
    {
        if has_config {
            IpConfigStep::Configured
        } else {
            self.attempts = self.attempts + 1;
            IpConfigStep::Retry
        }
    }
}

/// What the wait comes to, from `attempts` failed looks on, when the looks
/// it makes find a configuration as `found` says: the attempt count is
/// checked before each look. `None` when `found` runs out first.
pub open spec fn ip_config_outcome(attempts: nat, found: Seq<bool>) -> Option<IpConfigStep>
    decreases found.len(),
{
    if attempts >= MAX_ATTEMPTS {
        Some(IpConfigStep::GiveUp)
    } else if found.len() == 0 {
        None
    } else if found[0] {
        Some(IpConfigStep::Configured)
    } else {
        ip_config_outcome(attempts + 1, found.drop_first())
    }
}

/// The wait looks for a configuration at most five times: if the first `k`
/// looks (`k` below five) find none and the next finds one, the loop goes on
/// with it; if five looks find none, it gives up without a sixth look.
pub proof fn law_ip_config_attempts(k: nat)
    requires
        k < MAX_ATTEMPTS,
    ensures
        ip_config_outcome(0, Seq::new(k, |i: int| false).push(true)) == Some(IpConfigStep::Configured),
        ip_config_outcome(0, Seq::new(MAX_ATTEMPTS as nat, |i: int| false)) == Some(IpConfigStep::GiveUp),
{
    lemma_ip_config_misses(0, k, seq![true]);
    assert(Seq::new(k, |i: int| false).push(true) =~= Seq::new(k, |i: int| false) + seq![true]);
    lemma_ip_config_misses(0, MAX_ATTEMPTS as nat, Seq::empty());
    assert(Seq::new(MAX_ATTEMPTS as nat, |i: int| false) =~= Seq::new(MAX_ATTEMPTS as nat, |i: int| false) + Seq::<bool>::empty());
}

proof fn lemma_ip_config_misses(a: nat, k: nat, rest: Seq<bool>)
    requires
        a + k <= MAX_ATTEMPTS,
    ensures
        ip_config_outcome(a, Seq::new(k, |i: int| false) + rest) == ip_config_outcome(a + k, rest),
    decreases k,
{
    let s = Seq::new(k, |i: int| false) + rest;
    if k == 0 {
        assert(s =~= rest);
    } else {
        assert(s[0] == false);
        assert(s.drop_first() =~= Seq::new((k - 1) as nat, |i: int| false) + rest);
        lemma_ip_config_misses(a + 1, (k - 1) as nat, rest);
    }
}

/// Where the network loop is.
#[derive(Debug, Clone, Copy, PartialEq, Eq, Structural)]
pub enum NetPhase {
    Leaving,
    Joining,
    WaitingLink,
    WaitingConfig,
    CheckingIp,
    WaitingIp,
    Connecting,
    Taking,
    Sending,
    Pausing,
    Failed,
}

/// What the network loop's driver does next.
#[derive(Debug, Clone, PartialEq, Eq)]
pub enum NetAction {
    /// Leave any wifi network, within the timeout.
    LeaveWifi { timeout_secs: u64 },
    /// Join the configured wifi network, within the timeout.
    JoinWifi { timeout_secs: u64 },
    /// Wait for the link to come up, within the timeout.
    WaitLinkUp { timeout_secs: u64 },
    /// Wait for the network configuration, within the timeout.
    WaitConfigUp { timeout_secs: u64 },
    /// Look whether an IPv4 configuration is there.
    CheckIpConfig,
    /// Sleep this many milliseconds.
    SleepMillis { millis: u64 },
    /// Connect to the server, within the timeout.
    ConnectTcp { timeout_secs: u64 },
    /// Take the latest reading, if any, locking it within the timeout.
    TakeReading { timeout_secs: u64 },
    /// Encode the reading taken and write it to the server within the
    /// timeout.
    SendReading { timeout_secs: u64 },
    /// The loop ended with this error: log it, and sleep two seconds before
    /// the next run.
    Fail(NetLoopError),
}

/// What happened to the last action.
#[derive(Debug, Clone, PartialEq, Eq)]
pub enum NetEvent {
    /// It completed.
    Done,
    /// Its timeout passed.
    TimedOut,
    /// Joining the network was refused with this status.
    JoinRefused { status: u32 },
    /// The connection was reset.
    Reset,
    /// Whether an IPv4 configuration was there.
    IpConfig { present: bool },
    /// Whether a reading was there to take.
    Taken { present: bool },
    /// The reading did not encode into the write buffer.
    EncodeFailed(String),
}

/// The state of the network loop.
#[derive(Debug, Clone, Copy, PartialEq, Eq, Structural)]
pub struct NetLoop {
    pub phase: NetPhase,
    pub ip_wait: IpConfigWait,
}

/// The events each phase can see.
pub open spec fn net_accepts(phase: NetPhase, e: NetEvent) -> bool {
    match phase {
        NetPhase::Leaving => e is Done || e is TimedOut,
        NetPhase::Joining => e is Done || e is TimedOut || e is JoinRefused,
        NetPhase::WaitingLink => e is Done || e is TimedOut,
        NetPhase::WaitingConfig => e is Done || e is TimedOut,
        NetPhase::CheckingIp => e is IpConfig,
        NetPhase::WaitingIp => e is Done,
        NetPhase::Connecting => e is Done || e is TimedOut || e is Reset,
        NetPhase::Taking => e is Taken || e is TimedOut,
        NetPhase::Sending => e is Done || e is TimedOut || e is Reset || e is EncodeFailed,
        NetPhase::Pausing => e is Done,
        NetPhase::Failed => e is Done,
    }
}

/// The loop moves to `phase` and does `action`.
pub open spec fn net_go(s: NetLoop, phase: NetPhase, action: NetAction) -> (NetLoop, NetAction) {
    (NetLoop { phase, ..s }, action)
}

/// The loop fails with `e`.
pub open spec fn net_fail(s: NetLoop, e: NetLoopError) -> (NetLoop, NetAction) {
    net_go(s, NetPhase::Failed, NetAction::Fail(e))
}

/// One decision of the network loop.
pub open spec fn spec_net_step(s: NetLoop, e: NetEvent) -> (NetLoop, NetAction) {
    match s.phase {
        NetPhase::Leaving => match e {
            NetEvent::Done => net_go(s, NetPhase::Joining, NetAction::JoinWifi { timeout_secs: 5 }),
            _ => net_fail(s, NetLoopError::WifiLeaveTimeout),
        },
        NetPhase::Joining => match e {
            NetEvent::Done => net_go(s, NetPhase::WaitingLink, NetAction::WaitLinkUp { timeout_secs: 5 }),
            NetEvent::JoinRefused { status } => net_fail(s, NetLoopError::WifiConnectFail { status }),
            _ => net_fail(s, NetLoopError::WifiConnectTimeout),
        },
        NetPhase::WaitingLink => match e {
            NetEvent::Done => net_go(s, NetPhase::WaitingConfig, NetAction::WaitConfigUp { timeout_secs: 10 }),
            _ => net_fail(s, NetLoopError::WifiLinkTimeout),
        },
        NetPhase::WaitingConfig => match e {
            NetEvent::Done => (
                NetLoop { phase: NetPhase::CheckingIp, ip_wait: IpConfigWait { attempts: 0 } },
                NetAction::CheckIpConfig,
            ),
            _ => net_fail(s, NetLoopError::WifiConfigTimeout),
        },
        NetPhase::CheckingIp => match e {
            NetEvent::IpConfig { present } => match spec_ip_config_step(present) {
                IpConfigStep::Configured => net_go(s, NetPhase::Connecting, NetAction::ConnectTcp { timeout_secs: 1 }),
                _ => (
                    NetLoop {
                        phase: NetPhase::WaitingIp,
                        ip_wait: IpConfigWait { attempts: (s.ip_wait.attempts + 1) as usize },
                    },
                    NetAction::SleepMillis { millis: 500 },
                ),
            },
            _ => (s, NetAction::CheckIpConfig),
        },
        NetPhase::WaitingIp => if s.ip_wait.attempts >= MAX_ATTEMPTS {
            net_fail(s, NetLoopError::IpConfigMaxAttempts)
        } else {
            net_go(s, NetPhase::CheckingIp, NetAction::CheckIpConfig)
        },
        NetPhase::Connecting => match e {
            NetEvent::Done => net_go(s, NetPhase::Taking, NetAction::TakeReading { timeout_secs: 2 }),
            NetEvent::Reset => net_fail(s, NetLoopError::TcpConnectReset),
            _ => net_fail(s, NetLoopError::TcpConnectTimeout),
        },
        NetPhase::Taking => match e {
            NetEvent::Taken { present } => if present {
                net_go(s, NetPhase::Sending, NetAction::SendReading { timeout_secs: 2 })
            } else {
                net_go(s, NetPhase::Pausing, NetAction::SleepMillis { millis: 2000 })
            },
            _ => net_fail(s, NetLoopError::MutexTimeout),
        },
        NetPhase::Sending => match e {
            NetEvent::Done => net_go(s, NetPhase::Pausing, NetAction::SleepMillis { millis: 2000 }),
            NetEvent::EncodeFailed(m) => net_fail(s, NetLoopError::BufferWrite(m)),
            NetEvent::Reset => net_fail(s, NetLoopError::TcpWriteConnectionReset),
            _ => net_fail(s, NetLoopError::TcpWriteTimeout),
        },
        NetPhase::Pausing => net_go(s, NetPhase::Taking, NetAction::TakeReading { timeout_secs: 2 }),
        NetPhase::Failed => net_go(s, NetPhase::Leaving, NetAction::LeaveWifi { timeout_secs: 1 }),
    }
}

impl NetLoop {
    /// The loop's state is consistent: a look for an IP configuration is
    /// only asked for while attempts are left.
    pub open spec fn wf(&self) -> bool {
        &&& self.ip_wait.attempts <= MAX_ATTEMPTS
        &&& self.phase == NetPhase::CheckingIp ==> self.ip_wait.attempts < MAX_ATTEMPTS
    }

    /// The loop's first run: leave any network first.
    pub fn start() -> (r: (NetLoop, NetAction))
        ensures
            r.0.wf(),
            r.0 == (NetLoop { phase: NetPhase::Leaving, ip_wait: IpConfigWait { attempts: 0 } }),
            r.1 == (NetAction::LeaveWifi { timeout_secs: 1 }),
    {
        (
            NetLoop { phase: NetPhase::Leaving, ip_wait: IpConfigWait { attempts: 0 } },
            NetAction::LeaveWifi { timeout_secs: 1 },
        )
    }

    /// Decide the next action from what happened to the last one. After a
    /// failure, the next run starts over by leaving the network.
    pub fn step(&mut self, event: NetEvent) -> (a: NetAction)
        requires
            net_accepts(old(self).phase, event),
            old(self).wf(),
        ensures
            (*final(self), a) == spec_net_step(*old(self), event),
            final(self).wf(),
    {
        match self.phase {
            NetPhase::Leaving => match event {
                NetEvent::Done => {
                    self.phase = NetPhase::Joining;
                    NetAction::JoinWifi { timeout_secs: 5 }
                },
                _ => {
                    self.phase = NetPhase::Failed;
                    NetAction::Fail(NetLoopError::WifiLeaveTimeout)
                },
            },
            NetPhase::Joining => match event {
                NetEvent::Done => {
                    self.phase = NetPhase::WaitingLink;
                    NetAction::WaitLinkUp { timeout_secs: 5 }
                },
                NetEvent::JoinRefused { status } => {
                    self.phase = NetPhase::Failed;
                    NetAction::Fail(NetLoopError::WifiConnectFail { status })
                },
                _ => {
                    self.phase = NetPhase::Failed;
                    NetAction::Fail(NetLoopError::WifiConnectTimeout)
                },
            },
            NetPhase::WaitingLink => match event {
                NetEvent::Done => {
                    self.phase = NetPhase::WaitingConfig;
                    NetAction::WaitConfigUp { timeout_secs: 10 }
                },
                _ => {
                    self.phase = NetPhase::Failed;
                    NetAction::Fail(NetLoopError::WifiLinkTimeout)
                },
            },
            NetPhase::WaitingConfig => match event {
                NetEvent::Done => {
                    self.phase = NetPhase::CheckingIp;
                    self.ip_wait = IpConfigWait::new();
                    NetAction::CheckIpConfig
                },
                _ => {
                    self.phase = NetPhase::Failed;
                    NetAction::Fail(NetLoopError::WifiConfigTimeout)
                },
            },
            NetPhase::CheckingIp => match event {
                NetEvent::IpConfig { present } => match self.ip_wait.look(present) {
                    IpConfigStep::Configured => {
                        self.phase = NetPhase::Connecting;
                        NetAction::ConnectTcp { timeout_secs: 1 }
                    },
                    _ => {
                        self.phase = NetPhase::WaitingIp;
                        NetAction::SleepMillis { millis: 500 }
                    },
                },
                _ => NetAction::CheckIpConfig,
            },
            NetPhase::WaitingIp => {
                if self.ip_wait.exhausted() {
                    self.phase = NetPhase::Failed;
                    NetAction::Fail(NetLoopError::IpConfigMaxAttempts)
                } else {
                    self.phase = NetPhase::CheckingIp;
                    NetAction::CheckIpConfig
                }
            },
            NetPhase::Connecting => match event {
                NetEvent::Done => {
                    self.phase = NetPhase::Taking;
                    NetAction::TakeReading { timeout_secs: 2 }
                },
                NetEvent::Reset => {
                    self.phase = NetPhase::Failed;
                    NetAction::Fail(NetLoopError::TcpConnectReset)
                },
                _ => {
                    self.phase = NetPhase::Failed;
                    NetAction::Fail(NetLoopError::TcpConnectTimeout)
                },
            },
            NetPhase::Taking => match event {
                NetEvent::Taken { present } => {
                    if present {
                        self.phase = NetPhase::Sending;
                        NetAction::SendReading { timeout_secs: 2 }
                    } else {
                        self.phase = NetPhase::Pausing;
                        NetAction::SleepMillis { millis: 2000 }
                    }
                },
                _ => {
                    self.phase = NetPhase::Failed;
                    NetAction::Fail(NetLoopError::MutexTimeout)
                },
            },
            NetPhase::Sending => match event {
                NetEvent::Done => {
                    self.phase = NetPhase::Pausing;
                    NetAction::SleepMillis { millis: 2000 }
                },
                NetEvent::EncodeFailed(m) => {
                    self.phase = NetPhase::Failed;
                    NetAction::Fail(NetLoopError::BufferWrite(m))
                },
                NetEvent::Reset => {
                    self.phase = NetPhase::Failed;
                    NetAction::Fail(NetLoopError::TcpWriteConnectionReset)
                },
                _ => {
                    self.phase = NetPhase::Failed;
                    NetAction::Fail(NetLoopError::TcpWriteTimeout)
                },
            },
            NetPhase::Pausing => {
                self.phase = NetPhase::Taking;
                NetAction::TakeReading { timeout_secs: 2 }
            },
            NetPhase::Failed => {
                self.phase = NetPhase::Leaving;
                NetAction::LeaveWifi { timeout_secs: 1 }
            },
        }
    }
}


/// The decisions of the loop, from state `s`, for the events `events`: the
/// state it ends in and the actions it asked for.
pub open spec fn net_run(s: NetLoop, events: Seq<NetEvent>) -> (NetLoop, Seq<NetAction>)
    decreases events.len(),
{
    if events.len() == 0 {
        (s, Seq::empty())
    } else {
        let (next, a) = spec_net_step(s, events[0]);
        let (last, actions) = net_run(next, events.drop_first());
        (last, seq![a] + actions)
    }
}

/// The events of a send cycle whose steps succeed: the latest reading is
/// taken (there is one or not), a reading taken is written, and the pause
/// ends.
pub open spec fn cycle_events(present: bool) -> Seq<NetEvent> {
    if present {
        seq![NetEvent::Taken { present: true }, NetEvent::Done, NetEvent::Done]
    } else {
        seq![NetEvent::Taken { present: false }, NetEvent::Done]
    }
}

/// The actions of such a cycle: write the reading taken, if any, pause,
/// and take the next.
pub open spec fn cycle_actions(present: bool) -> Seq<NetAction> {
    if present {
        seq![
            NetAction::SendReading { timeout_secs: 2 },
            NetAction::SleepMillis { millis: 2000 },
            NetAction::TakeReading { timeout_secs: 2 },
        ]
    } else {
        seq![NetAction::SleepMillis { millis: 2000 }, NetAction::TakeReading { timeout_secs: 2 }]
    }
}

/// The events of successive cycles; `slots[i]` is whether the `i`-th take
/// found a reading.
pub open spec fn cycles_events(slots: Seq<bool>) -> Seq<NetEvent>
    decreases slots.len(),
{
    if slots.len() == 0 {
        Seq::empty()
    } else {
        cycle_events(slots[0]) + cycles_events(slots.drop_first())
    }
}

/// The actions of successive cycles.
pub open spec fn cycles_actions(slots: Seq<bool>) -> Seq<NetAction>
    decreases slots.len(),
{
    if slots.len() == 0 {
        Seq::empty()
    } else {
        cycle_actions(slots[0]) + cycles_actions(slots.drop_first())
    }
}

/// How many writes the actions ask for.
pub open spec fn send_count(actions: Seq<NetAction>) -> nat
    decreases actions.len(),
{
    if actions.len() == 0 {
        0
    } else {
        (if actions[0] is SendReading { 1nat } else { 0nat }) + send_count(actions.drop_first())
    }
}

/// How many takes found a reading.
pub open spec fn present_count(slots: Seq<bool>) -> nat
    decreases slots.len(),
{
    if slots.len() == 0 {
        0
    } else {
        (if slots[0] { 1nat } else { 0nat }) + present_count(slots.drop_first())
    }
}

proof fn lemma_net_run_concat(s: NetLoop, a: Seq<NetEvent>, b: Seq<NetEvent>)
    ensures
        net_run(s, a + b) == (
            net_run(net_run(s, a).0, b).0,
            net_run(s, a).1 + net_run(net_run(s, a).0, b).1,
        ),
    decreases a.len(),
{
    if a.len() == 0 {
        assert(a + b =~= b);
        assert(net_run(s, a).1 + net_run(s, b).1 =~= net_run(s, b).1);
    } else {
        let next = spec_net_step(s, a[0]).0;
        assert((a + b)[0] == a[0]);
        assert((a + b).drop_first() =~= a.drop_first() + b);
        lemma_net_run_concat(next, a.drop_first(), b);
        let mid = net_run(next, a.drop_first()).0;
        assert(seq![spec_net_step(s, a[0]).1] + (net_run(next, a.drop_first()).1 + net_run(mid, b).1)
            =~= (seq![spec_net_step(s, a[0]).1] + net_run(next, a.drop_first()).1) + net_run(mid, b).1);
    }
}

proof fn lemma_send_count_concat(a: Seq<NetAction>, b: Seq<NetAction>)
    ensures
        send_count(a + b) == send_count(a) + send_count(b),
    decreases a.len(),
{
    if a.len() == 0 {
        assert(a + b =~= b);
    } else {
        assert((a + b)[0] == a[0]);
        assert((a + b).drop_first() =~= a.drop_first() + b);
        lemma_send_count_concat(a.drop_first(), b);
    }
}

/// Once connected, the loop writes each reading it takes once and writes
/// nothing when there was none: from a request to take the latest reading,
/// cycles whose steps succeed ask to write exactly where a take found a
/// reading, in the order taken, and the loop neither fails nor leaves the
/// connection; it asks for one write per reading found.
pub proof fn law_send_cycles(s: NetLoop, slots: Seq<bool>)
    requires
        s.phase == NetPhase::Taking,
    ensures
        net_run(s, cycles_events(slots)) == (s, cycles_actions(slots)),
        send_count(cycles_actions(slots)) == present_count(slots),
    decreases slots.len(),
{
    if slots.len() == 0 {
        assert(net_run(s, cycles_events(slots)).1 =~= cycles_actions(slots));
    } else {
        let rest = slots.drop_first();
        reveal_with_fuel(net_run, 4);
        reveal_with_fuel(send_count, 4);
        assert(net_run(s, cycle_events(slots[0])) == (s, cycle_actions(slots[0])));
        lemma_net_run_concat(s, cycle_events(slots[0]), cycles_events(rest));
        law_send_cycles(s, rest);
        lemma_send_count_concat(cycle_actions(slots[0]), cycles_actions(rest));
    }
}

/// Every failure ends the run and the next run starts over: whatever the
/// phase, a timeout, a reset, a refused join or a failed encoding moves the
/// loop to `Failed` with a `Fail` action, and the step after that leaves the
/// network to begin again.
pub proof fn law_failures_end_run(s: NetLoop, e: NetEvent)
    requires
        net_accepts(s.phase, e),
        e is TimedOut || e is Reset || e is JoinRefused || e is EncodeFailed,
    ensures
        spec_net_step(s, e).0.phase == NetPhase::Failed,
        spec_net_step(s, e).1 is Fail,
        spec_net_step(spec_net_step(s, e).0, NetEvent::Done) == (
            NetLoop { phase: NetPhase::Leaving, ..spec_net_step(s, e).0 },
            NetAction::LeaveWifi { timeout_secs: 1 },
        ),
{
}

/// A write to the server either completes, and the loop pauses before the
/// next take, or ends the run with the error that names what went wrong: a
/// reset connection, a timeout, or a message that did not fit the buffer
/// (with the encoder's description).
pub proof fn law_write_outcomes(s: NetLoop, e: NetEvent)
    requires
        s.phase == NetPhase::Sending,
        net_accepts(s.phase, e),
    ensures
        e is Done ==> spec_net_step(s, e) == (
            NetLoop { phase: NetPhase::Pausing, ..s },
            NetAction::SleepMillis { millis: 2000 },
        ),
        e is Reset ==> spec_net_step(s, e) == (
            NetLoop { phase: NetPhase::Failed, ..s },
            NetAction::Fail(NetLoopError::TcpWriteConnectionReset),
        ),
        e is TimedOut ==> spec_net_step(s, e) == (
            NetLoop { phase: NetPhase::Failed, ..s },
            NetAction::Fail(NetLoopError::TcpWriteTimeout),
        ),
        e matches NetEvent::EncodeFailed(msg) ==> spec_net_step(s, e) == (
            NetLoop { phase: NetPhase::Failed, ..s },
            NetAction::Fail(NetLoopError::BufferWrite(msg)),
        ),
{
}

} // verus!
