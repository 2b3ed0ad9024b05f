//! The state of the event loop and the decisions of one iteration.
//!
//! The caller owns the descriptors. It polls as [`AdVpn::poll_plan`] says,
//! hands the result to [`AdVpn::do_one`], and carries out the step that
//! comes back, reporting each outcome through the method named for it.

use crate::callbacks::{AdVpnCallback, BlockLoggerCallback};
use crate::proxy::{DnsPacketProxy, DropReason, RequestAction};
use crate::status::{LoopOutcome, VpnStatus};
use crate::text::chars_of;
use crate::watchdog::{IpAddress, VpnWatchdog, WatchdogAction, WatchdogModel, DNS_PORT};
use crate::wosp::{after_add, select_ready, WaitingOnSocketPacket, WospList};
use vstd::prelude::*;

verus! {

/// Size of the buffer that an upstream reply is received into.
pub const DNS_RESPONSE_PACKET_SIZE: usize = 1024;

/// Size of the buffer that a datagram is read from the device into.
pub const DEVICE_PACKET_SIZE: usize = 32767;

/// Most datagrams that may wait to be written to the device; when one
/// more arrives, the oldest is given up.
pub const DEVICE_WRITES_MAXIMUM: usize = 64;

/// The operating system's error "network is unreachable".
pub const ENETUNREACH: i32 = 101;

/// The operating system's error "operation not permitted".
pub const EPERM: i32 = 1;

/// The family of an address given as text.
#[derive(Clone, Copy, Debug, PartialEq, Eq)]
pub enum AddressFamily {
    V4,
    V6,
}

/// What to poll for.
#[derive(Clone, Copy, Debug, PartialEq, Eq)]
pub struct PollPlan {
    /// Whether to wait for the device to become writable, besides readable.
    pub device_write: bool,
    /// The number of upstream sockets to watch for input, in queue order.
    pub upstream_sockets: usize,
    /// The timeout in milliseconds; -1 for none.
    pub timeout: i32,
}

/// What a poll found ready.
#[derive(Debug)]
pub struct Readiness {
    /// The stop descriptor shows a hang-up or an error.
    pub stop: bool,
    pub device_readable: bool,
    pub device_writable: bool,
    /// One flag for each upstream socket of the plan, in the same order.
    pub upstream_ready: Vec<bool>,
}

/// How a poll ended.
#[derive(Debug)]
pub enum PollEvent {
    /// The call failed; `interrupted` where a signal cut it short.
    Failed { interrupted: bool },
    /// The timeout passed with nothing ready.
    TimedOut,
    Ready(Readiness),
}

/// What the caller has to do after a poll.
pub enum LoopStep<S> {
    /// Leave the loop.
    Terminate,
    /// Poll again.
    Continue,
    /// Leave the loop and set the tunnel up anew.
    Reconnect,
    /// Send an empty UDP datagram to this address and port, report with
    /// [`AdVpn::probe_sent`], and poll again.
    SendProbe(IpAddress, u16),
    /// Receive a reply on the socket of each of `replies`, in order, and
    /// hand it to [`AdVpn::handle_raw_dns_response`]; then, if `write`, write
    /// the first waiting datagram to the device and report with
    /// [`AdVpn::write_to_device`]; then, if `read`, read a datagram from the
    /// device and hand it to [`AdVpn::read_packet_from_device`]; then leave
    /// the loop if `last`.
    Serve { replies: Vec<WaitingOnSocketPacket<S>>, write: bool, read: bool, last: bool },
}

impl<S> LoopStep<S> {
    /// How the iteration ends once this step is carried out,
    /// `device_failed` telling whether reading from or writing to the device
    /// failed on the way.
    pub open spec fn spec_outcome(self, device_failed: bool) -> LoopOutcome {
        match self {
            LoopStep::Terminate => LoopOutcome::PollFailed,
            LoopStep::Continue => LoopOutcome::Served,
            LoopStep::Reconnect => LoopOutcome::ReconnectDemanded,
            LoopStep::SendProbe(_, _) => LoopOutcome::Served,
            LoopStep::Serve { replies, write, read, last } => if device_failed {
                LoopOutcome::DeviceFailed
            } else if last {
                LoopOutcome::StopRequested
            } else {
                LoopOutcome::Served
            },
        }
    }

    /// How the iteration ends once this step is carried out: a failure of
    /// the device while serving outweighs a request to stop.
    pub fn outcome(&self, device_failed: bool) -> (outcome: LoopOutcome)
        ensures
            outcome == self.spec_outcome(device_failed),
    {
        match self {
            LoopStep::Terminate => LoopOutcome::PollFailed,
            LoopStep::Continue => LoopOutcome::Served,
            LoopStep::Reconnect => LoopOutcome::ReconnectDemanded,
            LoopStep::SendProbe(_, _) => LoopOutcome::Served,
            LoopStep::Serve { replies, write, read, last } => {
                if device_failed {
                    LoopOutcome::DeviceFailed
                } else if *last {
                    LoopOutcome::StopRequested
                } else {
                    LoopOutcome::Served
                }
            },
        }
    }
}

/// How sending a query upstream ended.
#[derive(Clone, Copy, Debug, PartialEq, Eq)]
pub enum SendOutcome {
    Sent,
    /// Sending failed, with the operating system's error code if there was
    /// one.
    Failed(Option<i32>),
}

/// What became of a query that was to be sent upstream.
#[derive(Clone, Copy, Debug, PartialEq, Eq)]
pub enum ForwardResult {
    /// The query was sent and now waits for its reply.
    Waiting,
    /// The network cannot be reached for now; the query is given up.
    Unreachable,
    /// Sending failed otherwise; the query is given up.
    Dropped,
}

/// The state of an [`AdVpn`] as a mathematical value.
pub struct AdVpnModel<S> {
    pub device_writes: Seq<Seq<u8>>,
    pub watchdog: WatchdogModel,
    pub waiting: Seq<WaitingOnSocketPacket<S>>,
}

/// The write queue after `packet` joins it: where the queue is full, the
/// oldest datagram leaves first.
pub open spec fn queue_after(writes: Seq<Seq<u8>>, packet: Seq<u8>) -> Seq<Seq<u8>> {
    if writes.len() >= DEVICE_WRITES_MAXIMUM {
        writes.drop_first().push(packet)
    } else {
        writes.push(packet)
    }
}

/// Whether an operating-system error only says that the network cannot be
/// reached for now.
pub open spec fn is_unreachable(error_code: int) -> bool {
    error_code == ENETUNREACH || error_code == EPERM
}

impl<S> AdVpnModel<S> {
    /// The state with `packet` queued for the device.
    pub open spec fn with_write(self, packet: Seq<u8>) -> AdVpnModel<S> {
        AdVpnModel { device_writes: queue_after(self.device_writes, packet), ..self }
    }

    /// What to poll for in this state.
    pub open spec fn plan(self) -> PollPlan {
        PollPlan {
            device_write: self.device_writes.len() > 0,
            upstream_sockets: self.waiting.len() as usize,
            timeout: self.watchdog.effective_timeout() as i32,
        }
    }
}

/// The views of some datagrams.
pub open spec fn writes_view(writes: Seq<Vec<u8>>) -> Seq<Seq<u8>> {
    writes.map_values(|w: Vec<u8>| w@)
}

/// The event loop's state: the datagrams that wait to be written to the
/// device, the watchdog, and the queries that wait for a reply.
pub struct AdVpn<S> {
    device_writes: Vec<Vec<u8>>,
    vpn_watchdog: VpnWatchdog,
    wosp_list: WospList<S>,
}

impl<S> View for AdVpn<S> {
    type V = AdVpnModel<S>;

    closed spec fn view(&self) -> AdVpnModel<S> {
        AdVpnModel {
            device_writes: writes_view(self.device_writes@),
            watchdog: self.vpn_watchdog@,
            waiting: self.wosp_list@,
        }
    }
}

/// Whether `c` occurs in `text`.
fn contains_char(text: &Vec<char>, c: char) -> (found: bool)
    ensures
        found == text@.contains(c),
{
    let mut i: usize = 0;
    while i < text.len()
        invariant
            i <= text@.len(),
            forall|j: int| 0 <= j < i ==> text@[j] != c,
        decreases text@.len() - i,
    {
        if text[i] == c {
            return true;
        }
        i += 1;
    }
    false
}

impl<S> AdVpn<S> {
    /// The family that a watchdog target given as text belongs to: IPv4
    /// where it holds a dot, else IPv6 where it holds a colon. `None` for any
    /// other text, which is no address.
    pub fn target_family(watchdog_target_address: &str) -> (family: Option<AddressFamily>)
        ensures
            family == (if watchdog_target_address@.contains('.') {
                Some(AddressFamily::V4)
            } else if watchdog_target_address@.contains(':') {
                Some(AddressFamily::V6)
            } else {
                None
            }),
    {
        let text = chars_of(watchdog_target_address);
        if contains_char(&text, '.') {
            Some(AddressFamily::V4)
        } else if contains_char(&text, ':') {
            Some(AddressFamily::V6)
        } else {
            None
        }
    }

    /// A loop state with nothing queued and nothing waiting, whose watchdog
    /// probes `watchdog_target` on the DNS port.
    pub fn new(watchdog_enabled: bool, watchdog_target: IpAddress) -> (vpn: Self)
        ensures
            vpn@.device_writes.len() == 0,
            vpn@.waiting.len() == 0,
            vpn@.watchdog == (WatchdogModel {
                enabled: watchdog_enabled,
                init_penalty: crate::watchdog::INIT_PENALTY_START,
                last_packet_sent: 0,
                last_packet_received: 0,
                poll_timeout: crate::watchdog::POLL_TIMEOUT_START,
                target_address: (watchdog_target, DNS_PORT),
            }),
    {
        AdVpn {
            device_writes: Vec::new(),
            vpn_watchdog: VpnWatchdog::new(watchdog_enabled, (watchdog_target, DNS_PORT)),
            wosp_list: WospList::new(),
        }
    }

    /// The milliseconds to wait before the first poll: the watchdog's
    /// reconnection penalty.
    pub fn start_delay(&self) -> (wait: u64)
        ensures
            wait == self@.watchdog.init_penalty,
    {
        self.vpn_watchdog.init()
    }

    /// What to poll for: the device for input, and for output where
    /// datagrams wait to be written; the stop descriptor; one upstream socket
    /// for each waiting query, in queue order; with the watchdog's timeout.
    pub fn poll_plan(&self) -> (plan: PollPlan)
        ensures
            plan == self@.plan(),
    {
        PollPlan {
            device_write: self.device_writes.len() > 0,
            upstream_sockets: self.wosp_list.len(),
            timeout: self.vpn_watchdog.get_poll_timeout(),
        }
    }

    /// The socket of the waiting query at `index`, for the poll set.
    pub fn waiting_socket(&self, index: usize) -> (socket: Option<&S>)
        ensures
            match socket {
                Some(s) => index < self@.waiting.len() && *s == self@.waiting[index as int].socket,
                None => index >= self@.waiting.len(),
            },
    {
        match self.wosp_list.get(index) {
            Some(wosp) => Some(&wosp.socket),
            None => None,
        }
    }

    /// Decides what one iteration does with the result of its poll.
    ///
    /// A failed poll ends the loop unless it was only interrupted. A timeout
    /// goes to the watchdog. Else the queries whose sockets are ready leave
    /// the queue, in queue order, before anything is read from the device;
    /// the device is written to where it is writable, read from where it is
    /// readable, and the loop ends afterwards where the stop descriptor spoke.
    pub fn do_one(&mut self, event: PollEvent) -> (step: LoopStep<S>)
        ensures
            final(self)@.device_writes == old(self)@.device_writes,
            match event {
                PollEvent::Failed { interrupted } => {
                    &&& final(self)@ == old(self)@
                    &&& interrupted ==> step is Continue
                    &&& !interrupted ==> step is Terminate
                },
                PollEvent::TimedOut => {
                    &&& final(self)@.waiting == old(self)@.waiting
                    &&& final(self)@.watchdog == old(self)@.watchdog.after_timeout()
                    &&& match old(self)@.watchdog.timeout_action() {
                        WatchdogAction::Idle => step is Continue,
                        WatchdogAction::Reconnect => step is Reconnect,
                        WatchdogAction::SendProbe(address, port) => step == LoopStep::<
                            S,
                        >::SendProbe(address, port),
                    }
                },
                PollEvent::Ready(found) => {
                    &&& final(self)@.watchdog == old(self)@.watchdog
                    &&& final(self)@.waiting == select_ready(
                        old(self)@.waiting,
                        found.upstream_ready@,
                        false,
                    )
                    &&& step matches LoopStep::Serve { replies, write, read, last }
                    &&& replies@ == select_ready(old(self)@.waiting, found.upstream_ready@, true)
                    &&& write == found.device_writable
                    &&& read == found.device_readable
                    &&& last == found.stop
                },
            },
    {
        match event {
            PollEvent::Failed { interrupted } => {
                if interrupted {
                    LoopStep::Continue
                } else {
                    LoopStep::Terminate
                }
            },
            PollEvent::TimedOut => {
                match self.vpn_watchdog.handle_timeout() {
                    WatchdogAction::Idle => LoopStep::Continue,
                    WatchdogAction::Reconnect => LoopStep::Reconnect,
                    WatchdogAction::SendProbe(address, port) => LoopStep::SendProbe(address, port),
                }
            },
            PollEvent::Ready(found) => {
                let replies = self.wosp_list.take_ready(&found.upstream_ready);
                LoopStep::Serve {
                    replies,
                    write: found.device_writable,
                    read: found.device_readable,
                    last: found.stop,
                }
            },
        }
    }

    /// Notes whether the probe that a timeout asked for was sent, at `now`.
    pub fn probe_sent(&mut self, sent: bool, now: u128)
        ensures
            final(self)@ == (AdVpnModel {
                watchdog: old(self)@.watchdog.after_probe(sent, now),
                ..old(self)@
            }),
    {
        self.vpn_watchdog.send_packet_at(sent, now);
    }

    /// The datagram that is written to the device next, if one waits.
    pub fn first_device_write(&self) -> (packet: Option<&Vec<u8>>)
        ensures
            match packet {
                Some(p) => self@.device_writes.len() > 0 && p@ == self@.device_writes[0],
                None => self@.device_writes.len() == 0,
            },
    {
        if self.device_writes.len() > 0 {
            Some(&self.device_writes[0])
        } else {
            None
        }
    }

    /// Notes how writing the first waiting datagram to the device ended:
    /// a datagram that was written leaves the queue. Returns whether the loop
    /// goes on: it ends where the write failed or nothing waited.
    pub fn write_to_device(&mut self, written: bool) -> (success: bool)
        ensures
            success == (written && old(self)@.device_writes.len() > 0),
            final(self)@ == (if success {
                AdVpnModel { device_writes: old(self)@.device_writes.drop_first(), ..old(self)@ }
            } else {
                old(self)@
            }),
    {
        if self.device_writes.len() == 0 || !written {
            return false;
        }
        self.device_writes.remove(0);
        assert(writes_view(self.device_writes@) =~= writes_view(
            old(self).device_writes@,
        ).drop_first());
        true
    }

    /// Queues a datagram for the device. Where [`DEVICE_WRITES_MAXIMUM`]
    /// datagrams wait already, the oldest is given up.
    pub fn queue_device_write(&mut self, packet: Vec<u8>)
        ensures
            final(self)@ == old(self)@.with_write(packet@),
    {
        if self.device_writes.len() >= DEVICE_WRITES_MAXIMUM {
            self.device_writes.remove(0);
        }
        self.device_writes.push(packet);
        assert(writes_view(self.device_writes@) =~= queue_after(
            writes_view(old(self).device_writes@),
            packet@,
        ));
    }

    /// Whether an error of the operating system only says that the network
    /// cannot be reached for now.
    pub fn eval_socket_error(error_code: i32) -> (unreachable: bool)
        ensures
            unreachable == is_unreachable(error_code as int),
    {
        error_code == ENETUNREACH || error_code == EPERM
    }

    /// Notes how sending a query upstream ended, at `now`. A query that was
    /// sent waits for its reply with its socket and the datagram that asked;
    /// one that was not is given up, and its socket with it.
    pub fn forward_packet(
        &mut self,
        socket: S,
        request_packet: &[u8],
        outcome: SendOutcome,
        now: u128,
    ) -> (result: ForwardResult)
        ensures
            result == (match outcome {
                SendOutcome::Sent => ForwardResult::Waiting,
                SendOutcome::Failed(Some(code)) => if is_unreachable(code as int) {
                    ForwardResult::Unreachable
                } else {
                    ForwardResult::Dropped
                },
                SendOutcome::Failed(None) => ForwardResult::Dropped,
            }),
            final(self)@.device_writes == old(self)@.device_writes,
            final(self)@.watchdog == old(self)@.watchdog,
            match outcome {
                SendOutcome::Sent => exists|wosp: WaitingOnSocketPacket<S>|
                    {
                        &&& wosp.socket == socket
                        &&& wosp.packet@ == request_packet@
                        &&& wosp.time == now
                        &&& final(self)@.waiting == #[trigger] after_add(
                            old(self)@.waiting,
                            wosp,
                            now,
                        )
                    },
                SendOutcome::Failed(_) => final(self)@.waiting == old(self)@.waiting,
            },
    {
        match outcome {
            SendOutcome::Sent => {
                let packet = vstd::slice::slice_to_vec(request_packet);
                let wosp = WaitingOnSocketPacket::at(socket, packet, now);
                let ghost added = wosp;
                self.wosp_list.add_at(wosp, now);
                assert(self@.waiting == after_add(old(self)@.waiting, added, now));
                ForwardResult::Waiting
            },
            SendOutcome::Failed(Some(code)) => {
                if Self::eval_socket_error(code) {
                    ForwardResult::Unreachable
                } else {
                    ForwardResult::Dropped
                }
            },
            SendOutcome::Failed(None) => ForwardResult::Dropped,
        }
    }

    /// Handles what was received on the socket of a waiting query:
    /// a reply is wrapped into a datagram that answers `parsed_packet` and
    /// queued for the device; a failed receive leaves no trace.
    pub fn handle_raw_dns_response<C: AdVpnCallback, L: BlockLoggerCallback>(
        &mut self,
        dns_packet_proxy: &DnsPacketProxy<C, L>,
        parsed_packet: &Vec<u8>,
        received: Option<Vec<u8>>,
    ) -> (queued: bool)
        ensures
            final(self)@ == (match received {
                Some(reply) => match crate::codec::response_datagram(
                    crate::codec::sliced_ip(parsed_packet@),
                    reply@,
                ) {
                    Some(datagram) => old(self)@.with_write(datagram),
                    None => old(self)@,
                },
                None => old(self)@,
            }),
            queued == (received matches Some(reply) && crate::codec::response_datagram(
                crate::codec::sliced_ip(parsed_packet@),
                reply@,
            ) is Some),
    {
        match received {
            Some(reply) => dns_packet_proxy.handle_dns_response(
                self,
                parsed_packet.as_slice(),
                reply,
            ),
            None => false,
        }
    }

    /// Handles what was read from the device at `now`. An empty read is
    /// passed over. Any other datagram is proof of life for the watchdog and
    /// goes to the proxy, whose answer says what is left to do.
    pub fn read_packet_from_device<C: AdVpnCallback, L: BlockLoggerCallback>(
        &mut self,
        dns_packet_proxy: &DnsPacketProxy<C, L>,
        packet: &[u8],
        now: u128,
    ) -> (action: RequestAction)
        ensures
            final(self)@.waiting == old(self)@.waiting,
            packet@.len() == 0 ==> {
                &&& action == RequestAction::Dropped(DropReason::Empty)
                &&& final(self)@ == old(self)@
            },
            packet@.len() > 0 ==> {
                &&& final(self)@.watchdog == old(self)@.watchdog.after_packet(now)
                &&& dns_packet_proxy@.request_handled(
                    packet@,
                    action,
                    old(self)@.device_writes,
                    final(self)@.device_writes,
                )
            },
    {
        if packet.len() == 0 {
            return RequestAction::Dropped(DropReason::Empty);
        }
        self.vpn_watchdog.handle_packet_at(packet, now);
        dns_packet_proxy.handle_dns_request(self, packet)
    }

    /// Reports a lifecycle state to the host, by its code.
    pub fn notify_status<C: AdVpnCallback>(callback: &C, status: VpnStatus) {
        callback.notify(status.ordinal());
    }
}

} // verus!
