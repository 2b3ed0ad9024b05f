//! The reconnection watchdog.
//!
//! While datagrams arrive from the device the tunnel is alive. When the
//! poll times out, the watchdog has an empty probe sent and waits a fixed
//! time for any datagram; if none came by the next timeout, it asks for a
//! reconnection. The wait before a probe grows fourfold with every timeout,
//! the penalty before a restart by a fixed step with every reconnection.

use crate::clock::get_epoch_millis;
use vstd::prelude::*;

verus! {

/// First poll timeout, in milliseconds.
pub const POLL_TIMEOUT_START: i32 = 1000;

/// Largest poll timeout, in milliseconds.
pub const POLL_TIMEOUT_END: i32 = 4096000;

/// Poll timeout while a probe is unanswered, in milliseconds.
pub const POLL_TIMEOUT_WAITING: i32 = 7000;

/// Factor by which the poll timeout grows.
pub const POLL_TIMEOUT_GROW: i32 = 4;

/// First reconnection penalty, in milliseconds.
pub const INIT_PENALTY_START: u64 = 0;

/// Largest reconnection penalty, in milliseconds.
pub const INIT_PENALTY_END: u64 = 5000;

/// Step by which the reconnection penalty grows, in milliseconds.
pub const INIT_PENALTY_INC: u64 = 200;

/// The UDP port that probes are sent to.
pub const DNS_PORT: u16 = 53;

/// An IPv4 or IPv6 address.
#[derive(Clone, Copy, Debug, PartialEq, Eq)]
pub enum IpAddress {
    V4([u8; 4]),
    V6([u8; 16]),
}

/// What the caller has to do after a poll timeout.
#[derive(Clone, Copy, Debug, PartialEq, Eq)]
pub enum WatchdogAction {
    /// The watchdog is disabled: nothing to do.
    Idle,
    /// A probe stayed unanswered: the tunnel has to be set up anew.
    Reconnect,
    /// Send an empty UDP datagram to this address and port, then report
    /// with [`VpnWatchdog::send_packet`] whether it was sent.
    SendProbe(IpAddress, u16),
}

/// The state of the watchdog. Times are milliseconds since the epoch; 0
/// stands for "never".
pub struct VpnWatchdog {
    enabled: bool,
    init_penalty: u64,
    last_packet_sent: u128,
    last_packet_received: u128,
    poll_timeout: i32,
    target_address: (IpAddress, u16),
}

/// The state of a [`VpnWatchdog`] as a mathematical value.
pub struct WatchdogModel {
    pub enabled: bool,
    pub init_penalty: u64,
    pub last_packet_sent: u128,
    pub last_packet_received: u128,
    pub poll_timeout: i32,
    pub target_address: (IpAddress, u16),
}

impl WatchdogModel {
    /// Timeout and penalty lie within their limits.
    pub open spec fn within_limits(self) -> bool {
        &&& POLL_TIMEOUT_START <= self.poll_timeout <= POLL_TIMEOUT_END
        &&& self.init_penalty <= INIT_PENALTY_END
    }

    /// A probe was sent and nothing has been received since.
    pub open spec fn probe_outstanding(self) -> bool {
        self.last_packet_received < self.last_packet_sent
    }

    /// The timeout to poll with: none (-1) while disabled, the waiting time
    /// while a probe is outstanding, else the current poll timeout.
    pub open spec fn effective_timeout(self) -> int {
        if !self.enabled {
            -1
        } else if self.probe_outstanding() {
            POLL_TIMEOUT_WAITING as int
        } else {
            self.poll_timeout as int
        }
    }

    /// The state after a datagram arrived from the device at `now`.
    pub open spec fn after_packet(self, now: u128) -> WatchdogModel {
        if self.enabled {
            WatchdogModel { last_packet_received: now, ..self }
        } else {
            self
        }
    }

    /// The state after a probe was, or was not, sent at `now`.
    pub open spec fn after_probe(self, sent: bool, now: u128) -> WatchdogModel {
        if self.enabled && sent {
            WatchdogModel { last_packet_sent: now, ..self }
        } else {
            self
        }
    }

    /// The state after a poll timeout.
    pub open spec fn after_timeout(self) -> WatchdogModel {
        if !self.enabled {
            self
        } else if self.probe_outstanding() {
            WatchdogModel { init_penalty: grown_penalty(self.init_penalty), ..self }
        } else {
            WatchdogModel { poll_timeout: grown_timeout(self.poll_timeout), ..self }
        }
    }

    /// What a poll timeout asks of the caller.
    pub open spec fn timeout_action(self) -> WatchdogAction {
        if !self.enabled {
            WatchdogAction::Idle
        } else if self.probe_outstanding() {
            WatchdogAction::Reconnect
        } else {
            WatchdogAction::SendProbe(self.target_address.0, self.target_address.1)
        }
    }
}

/// The poll timeout after one more timeout: four times as long, but no
/// longer than [`POLL_TIMEOUT_END`].
pub open spec fn grown_timeout(timeout: i32) -> i32 {
    if timeout * POLL_TIMEOUT_GROW > POLL_TIMEOUT_END {
        POLL_TIMEOUT_END
    } else {
        (timeout * POLL_TIMEOUT_GROW) as i32
    }
}

/// The penalty after one more reconnection: one step more, but no more than
/// [`INIT_PENALTY_END`].
pub open spec fn grown_penalty(penalty: u64) -> u64 {
    if penalty + INIT_PENALTY_INC > INIT_PENALTY_END {
        INIT_PENALTY_END
    } else {
        (penalty + INIT_PENALTY_INC) as u64
    }
}

/// Four to the power of `n`.
pub open spec fn pow4(n: nat) -> nat
    decreases n,
{
    if n == 0 {
        1
    } else {
        4 * pow4((n - 1) as nat)
    }
}

/// The poll timeout after `n` timeouts without a reconnection.
pub open spec fn timeout_after(n: nat) -> i32
    decreases n,
{
    if n == 0 {
        POLL_TIMEOUT_START
    } else {
        grown_timeout(timeout_after((n - 1) as nat))
    }
}

impl View for VpnWatchdog {
    type V = WatchdogModel;

    closed spec fn view(&self) -> WatchdogModel {
        WatchdogModel {
            enabled: self.enabled,
            init_penalty: self.init_penalty,
            last_packet_sent: self.last_packet_sent,
            last_packet_received: self.last_packet_received,
            poll_timeout: self.poll_timeout,
            target_address: self.target_address,
        }
    }
}

impl VpnWatchdog {
    #[verifier::type_invariant]
    spec fn within_limits(&self) -> bool {
        &&& POLL_TIMEOUT_START <= self.poll_timeout <= POLL_TIMEOUT_END
        &&& self.init_penalty <= INIT_PENALTY_END
    }

    /// A watchdog that has sent and received nothing yet.
    pub fn new(enabled: bool, target_address: (IpAddress, u16)) -> (watchdog: Self)
        ensures
            watchdog@ == (WatchdogModel {
                enabled,
                init_penalty: INIT_PENALTY_START,
                last_packet_sent: 0,
                last_packet_received: 0,
                poll_timeout: POLL_TIMEOUT_START,
                target_address,
            }),
            watchdog@.within_limits(),
    {
        VpnWatchdog {
            enabled,
            init_penalty: INIT_PENALTY_START,
            last_packet_sent: 0,
            last_packet_received: 0,
            poll_timeout: POLL_TIMEOUT_START,
            target_address,
        }
    }

    /// The milliseconds to wait before the loop starts: the current
    /// reconnection penalty.
    pub fn init(&self) -> (wait: u64)
        ensures
            wait == self@.init_penalty,
            wait <= INIT_PENALTY_END,
    {
        proof {
            use_type_invariant(self);
        }
        self.init_penalty
    }

    /// The timeout for the next poll, in milliseconds; -1 for none.
    pub fn get_poll_timeout(&self) -> (timeout: i32)
        ensures
            timeout == self@.effective_timeout(),
            self@.within_limits(),
            timeout == -1 || POLL_TIMEOUT_START <= timeout <= POLL_TIMEOUT_END,
    {
        proof {
            use_type_invariant(self);
        }
        if !self.enabled {
            -1
        } else if self.last_packet_received < self.last_packet_sent {
            POLL_TIMEOUT_WAITING
        } else {
            self.poll_timeout
        }
    }

    /// Notes that a datagram arrived from the device at `now`.
    pub fn handle_packet_at(&mut self, packet_data: &[u8], now: u128)
        ensures
            final(self)@ == old(self)@.after_packet(now),
    {
        proof {
            use_type_invariant(&*self);
        }
        if !self.enabled {
            return ;
        }
        self.last_packet_received = now;
    }

    /// Notes that a datagram arrived from the device, at the time that the
    /// system clock shows.
    pub fn handle_packet(&mut self, packet_data: &[u8])
        ensures
            exists|now: u128| final(self)@ == old(self)@.after_packet(now),
    {
        let now = get_epoch_millis();
        self.handle_packet_at(packet_data, now);
    }

    /// Notes whether the probe that [`VpnWatchdog::handle_timeout`] asked
    /// for was sent, at `now`. A probe that could not be sent leaves no trace.
    pub fn send_packet_at(&mut self, sent: bool, now: u128)
        ensures
            final(self)@ == old(self)@.after_probe(sent, now),
    {
        proof {
            use_type_invariant(&*self);
        }
        if !self.enabled {
            return ;
        }
        if sent {
            self.last_packet_sent = now;
        }
    }

    /// Notes whether the probe was sent, at the time that the system clock
    /// shows.
    pub fn send_packet(&mut self, sent: bool)
        ensures
            exists|now: u128| final(self)@ == old(self)@.after_probe(sent, now),
    {
        let now = get_epoch_millis();
        self.send_packet_at(sent, now);
    }

    /// Handles a poll timeout. While a probe is outstanding the penalty
    /// grows and a reconnection is asked for; else the poll timeout grows and
    /// a probe is asked for. Neither the timeout nor the penalty ever
    /// shrinks, and both stay within their limits.
    pub fn handle_timeout(&mut self) -> (action: WatchdogAction)
        ensures
            action == old(self)@.timeout_action(),
            final(self)@ == old(self)@.after_timeout(),
            final(self)@.within_limits(),
            final(self)@.poll_timeout >= old(self)@.poll_timeout,
            final(self)@.init_penalty >= old(self)@.init_penalty,
    {
        proof {
            use_type_invariant(&*self);
        }
        if !self.enabled {
            return WatchdogAction::Idle;
        }
        if self.last_packet_received < self.last_packet_sent {
            let mut penalty = self.init_penalty + INIT_PENALTY_INC;
            if penalty > INIT_PENALTY_END {
                penalty = INIT_PENALTY_END;
            }
            self.init_penalty = penalty;
            return WatchdogAction::Reconnect;
        }
        let mut timeout = self.poll_timeout * POLL_TIMEOUT_GROW;
        if timeout > POLL_TIMEOUT_END {
            timeout = POLL_TIMEOUT_END;
        }
        self.poll_timeout = timeout;
        WatchdogAction::SendProbe(self.target_address.0, self.target_address.1)
    }
}

/// A timeout within its limits grows to one within its limits, and never
/// shrinks.
pub proof fn lemma_grown_timeout_bounds(timeout: i32)
    requires
        POLL_TIMEOUT_START <= timeout <= POLL_TIMEOUT_END,
    ensures
        timeout <= grown_timeout(timeout) <= POLL_TIMEOUT_END,
{
}

/// After `n` timeouts without a reconnection the poll timeout is
/// `1000 * 4^n` milliseconds, capped at [`POLL_TIMEOUT_END`].
pub proof fn lemma_timeout_after(n: nat)
    ensures
        timeout_after(n) == if POLL_TIMEOUT_START * pow4(n) > POLL_TIMEOUT_END {
            POLL_TIMEOUT_END as int
        } else {
            POLL_TIMEOUT_START * pow4(n)
        },
        pow4(n) >= 1,
    decreases n,
{
    if n > 0 {
        lemma_timeout_after((n - 1) as nat);
    }
}

/// Whether `after` has at least the poll timeout and the penalty of
/// `before`, and lies within the limits.
pub open spec fn advanced(before: WatchdogModel, after: WatchdogModel) -> bool {
    &&& after.within_limits()
    &&& after.poll_timeout >= before.poll_timeout
    &&& after.init_penalty >= before.init_penalty
    &&& after.enabled == before.enabled
    &&& after.target_address == before.target_address
}

/// No step of the watchdog shortens the poll timeout or lowers the
/// penalty, and every step keeps both within their limits. Only a timeout
/// without an outstanding probe lengthens the poll timeout, and only one with
/// an outstanding probe raises the penalty.
pub proof fn lemma_watchdog_only_advances(state: WatchdogModel, sent: bool, now: u128)
    requires
        state.within_limits(),
    ensures
        advanced(state, state.after_packet(now)),
        advanced(state, state.after_probe(sent, now)),
        advanced(state, state.after_timeout()),
        state.after_packet(now).poll_timeout == state.poll_timeout,
        state.after_packet(now).init_penalty == state.init_penalty,
        state.after_probe(sent, now).poll_timeout == state.poll_timeout,
        state.after_probe(sent, now).init_penalty == state.init_penalty,
        state.enabled && state.probe_outstanding() ==> state.after_timeout().poll_timeout
            == state.poll_timeout,
        !(state.enabled && state.probe_outstanding()) ==> state.after_timeout().init_penalty
            == state.init_penalty,
{
}

} // verus!
