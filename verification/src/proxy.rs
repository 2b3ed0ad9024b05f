//! The DNS packet proxy: what becomes of a datagram that the device hands
//! over.
//!
//! A datagram that carries a DNS query over UDP is answered at once where
//! the first name it asks for is blocked, and is re-addressed to the server
//! resolver where it is not. Everything else is dropped.

use crate::callbacks::{AdVpnCallback, BlockLoggerCallback};
use crate::codec::{
    address_v4, address_v6, build_packet_v4, build_packet_v6, build_response_packet, bytes_view,
    response_datagram, response_model, sliced_ip, to_address_v4, to_address_v6, udp_datagram,
    GenericIpPacket, IpHeader, Ipv4Fields, Ipv6Fields, PacketModel, UdpDatagram, UdpModel,
};
use crate::dns::{
    dns_question_names, dns_reply, question_names, rewrite_as_reply, SoaModel, SoaRecord,
    CLASS_IN, FLAG_RESPONSE, MAX_DNS_MESSAGE, RCODE_NO_ERROR,
};
use crate::rules::{
    built_set, hosts_view, items_view, HostItem, NativeHost, RuleDatabase,
};
use crate::text::{host_hash, lowercased, to_lowercase};
use crate::vpn::{queue_after, AdVpn};
use vstd::prelude::*;
use vstd::string::StringExecFns;

verus! {

/// Seconds for which a client may remember that a blocked name has no
/// records.
pub const NEGATIVE_CACHE_TTL_SECONDS: u32 = 5;

/// Why a datagram was dropped.
#[derive(Clone, Copy, Debug, PartialEq, Eq)]
pub enum DropReason {
    /// Nothing was read.
    Empty,
    /// The bytes are no IPv4 or IPv6 datagram.
    NotIp,
    /// The datagram carries no UDP.
    NotUdp,
    /// The destination selects no upstream server.
    NoUpstream,
    /// The UDP payload is no DNS message.
    NotDns,
    /// The DNS message asks no question.
    NoQuestion,
    /// The reply for a blocked name could not be made.
    ReplyFailed,
    /// The upstream server's address is of another family than the request,
    /// or no address at all.
    AddressMismatch,
    /// The datagram for the upstream server could not be made.
    ForwardFailed,
}

/// What the caller has to do with a datagram from the device.
#[derive(Debug)]
pub enum RequestAction {
    /// Nothing: the datagram was dropped.
    Dropped(DropReason),
    /// Nothing: the reply was queued for the device.
    Answered,
    /// Send this query upstream on a fresh, protected UDP socket, and
    /// report with [`AdVpn::forward_packet`].
    Forward(UpstreamQuery),
}

/// A query on its way to the upstream server: the datagram that carries
/// it, and what a socket needs to send it.
#[derive(Debug, PartialEq, Eq)]
pub struct UpstreamQuery {
    /// The request, re-addressed to the upstream server.
    pub datagram: Vec<u8>,
    /// The upstream server's address, 4 or 16 bytes long.
    pub destination: Vec<u8>,
    pub destination_port: u16,
    /// The DNS message.
    pub payload: Vec<u8>,
}

/// What an [`UpstreamQuery`] holds, as a mathematical value.
pub struct UpstreamQueryModel {
    pub datagram: Seq<u8>,
    pub destination: Seq<u8>,
    pub destination_port: u16,
    pub payload: Seq<u8>,
}

impl View for UpstreamQuery {
    type V = UpstreamQueryModel;

    open spec fn view(&self) -> UpstreamQueryModel {
        UpstreamQueryModel {
            datagram: self.datagram@,
            destination: self.destination@,
            destination_port: self.destination_port,
            payload: self.payload@,
        }
    }
}

/// What becomes of a datagram from the device, as a mathematical value.
pub enum RequestVerdict {
    Drop(DropReason),
    /// This reply is queued for the device.
    Reply(Seq<u8>),
    /// This query is sent upstream.
    Forward(UpstreamQueryModel),
}

/// What a [`DnsPacketProxy`] decides by.
pub struct ProxyModel {
    pub blocked: Set<u64>,
    pub upstreams: Seq<Seq<u8>>,
    pub record: SoaModel,
}

/// The record that tells a client for how long a blocked name has no
/// records.
pub open spec fn negative_cache_record() -> SoaModel {
    SoaModel {
        name: "dnsnet.dnsnet.invalid."@,
        mname: "dnsnet.dnsnet.invalid."@,
        rname: "dnsnet.dnsnet.invalid."@,
        class: CLASS_IN,
        ttl: NEGATIVE_CACHE_TTL_SECONDS,
        serial: 0,
        refresh: 0,
        retry: 0,
        expire: 0,
        minimum: NEGATIVE_CACHE_TTL_SECONDS,
    }
}

/// The real destination of a query sent to `destination`. Without
/// upstream servers the destination stands for itself. With them, its last
/// byte is the index of the server; a destination without bytes, or an index
/// behind the last server, selects none.
pub open spec fn translated(upstreams: Seq<Seq<u8>>, destination: Seq<u8>) -> Option<Seq<u8>> {
    if upstreams.len() == 0 {
        Some(destination)
    } else if destination.len() == 0 {
        None
    } else if destination.last() < upstreams.len() {
        Some(upstreams[destination.last() as int])
    } else {
        None
    }
}

/// The header of the datagram that carries a query on to `server`: the
/// request's header with `server` as its destination. `None` where `server` is
/// no address of the request's family.
pub open spec fn forward_header(net: IpHeader, server: Seq<u8>) -> Option<IpHeader> {
    match net {
        IpHeader::V4(h) => if server.len() == 4 {
            Some(IpHeader::V4(Ipv4Fields { destination: address_v4(server), ..h }))
        } else {
            None
        },
        IpHeader::V6(h) => if server.len() == 16 {
            Some(IpHeader::V6(Ipv6Fields { destination: address_v6(server), ..h }))
        } else {
            None
        },
    }
}

/// The views of some addresses.
pub open spec fn addresses_view(addresses: Seq<Vec<u8>>) -> Seq<Seq<u8>> {
    addresses.map_values(|a: Vec<u8>| a@)
}

impl ProxyModel {
    /// Whether `name` is blocked.
    pub open spec fn blocks(self, name: Seq<char>) -> bool {
        self.blocked.contains(host_hash(lowercased(name)))
    }

    /// What is logged for a query for `name`: the name, lowercased, and
    /// whether the query may pass.
    pub open spec fn logged(self, name: Seq<char>) -> (Seq<char>, bool) {
        (lowercased(name), !self.blocks(name))
    }

    /// What becomes of a query for a blocked name: the reply that is
    /// queued. No reply is made for a query longer than [`MAX_DNS_MESSAGE`].
    pub open spec fn blocked_verdict(self, request: PacketModel) -> RequestVerdict {
        if request.udp->0.payload.len() > MAX_DNS_MESSAGE {
            RequestVerdict::Drop(DropReason::ReplyFailed)
        } else {
            match dns_reply(request.udp->0.payload, FLAG_RESPONSE, RCODE_NO_ERROR, self.record) {
                Some(wire) => match response_datagram(Some(request), wire) {
                    Some(datagram) => RequestVerdict::Reply(datagram),
                    None => RequestVerdict::Drop(DropReason::ReplyFailed),
                },
                None => RequestVerdict::Drop(DropReason::ReplyFailed),
            }
        }
    }

    /// What becomes of a query for a name that is not blocked: it goes to
    /// `server` and the request's destination port, in a datagram that
    /// carries the query's payload under the request's header fields, source
    /// and ports.
    pub open spec fn allowed_verdict(net: IpHeader, udp: UdpModel, server: Seq<u8>) -> RequestVerdict {
        match forward_header(net, server) {
            Some(header) => match udp_datagram(
                header,
                udp.source_port,
                udp.destination_port,
                udp.payload,
            ) {
                Some(datagram) => RequestVerdict::Forward(
                    UpstreamQueryModel {
                        datagram,
                        destination: server,
                        destination_port: udp.destination_port,
                        payload: udp.payload,
                    },
                ),
                None => RequestVerdict::Drop(DropReason::ForwardFailed),
            },
            None => RequestVerdict::Drop(DropReason::AddressMismatch),
        }
    }

    /// What becomes of a dissected UDP datagram, given the names that its
    /// payload asks for.
    pub open spec fn query_verdict(
        self,
        request: PacketModel,
        names: Option<Seq<Seq<char>>>,
    ) -> RequestVerdict {
        match translated(self.upstreams, request.net.destination()) {
            None => RequestVerdict::Drop(DropReason::NoUpstream),
            Some(server) => match names {
                None => RequestVerdict::Drop(DropReason::NotDns),
                Some(names) => if names.len() == 0 {
                    RequestVerdict::Drop(DropReason::NoQuestion)
                } else if self.blocks(names[0]) {
                    self.blocked_verdict(request)
                } else {
                    Self::allowed_verdict(request.net, request.udp->0, server)
                },
            },
        }
    }

    /// What becomes of the datagram `data`.
    pub open spec fn verdict(self, data: Seq<u8>) -> RequestVerdict {
        match sliced_ip(data) {
            None => RequestVerdict::Drop(DropReason::NotIp),
            Some(request) => match request.udp {
                None => RequestVerdict::Drop(DropReason::NotUdp),
                Some(udp) => self.query_verdict(request, dns_question_names(udp.payload)),
            },
        }
    }

    /// Whether `action`, and the write queue after it, are what `verdict`
    /// asks for.
    pub open spec fn carried_out(
        verdict: RequestVerdict,
        action: RequestAction,
        writes_before: Seq<Seq<u8>>,
        writes_after: Seq<Seq<u8>>,
    ) -> bool {
        match verdict {
            RequestVerdict::Drop(reason) => {
                &&& action == RequestAction::Dropped(reason)
                &&& writes_after == writes_before
            },
            RequestVerdict::Reply(datagram) => {
                &&& action is Answered
                &&& writes_after == queue_after(writes_before, datagram)
            },
            RequestVerdict::Forward(query) => {
                &&& action matches RequestAction::Forward(sent)
                &&& sent@ == query
                &&& writes_after == writes_before
            },
        }
    }

    /// Whether `action`, and the write queue after it, are what this proxy
    /// decides for the datagram `data`.
    pub open spec fn request_handled(
        self,
        data: Seq<u8>,
        action: RequestAction,
        writes_before: Seq<Seq<u8>>,
        writes_after: Seq<Seq<u8>>,
    ) -> bool {
        Self::carried_out(self.verdict(data), action, writes_before, writes_after)
    }
}

/// The proxy: the host's two callbacks, the rule database, the upstream
/// servers and the record for blocked names.
pub struct DnsPacketProxy<C: AdVpnCallback, L: BlockLoggerCallback> {
    android_vpn_callback: C,
    block_logger_callback: L,
    rule_database: RuleDatabase,
    upstream_dns_servers: Vec<Vec<u8>>,
    negative_cache_record: SoaRecord,
}

impl<C: AdVpnCallback, L: BlockLoggerCallback> View for DnsPacketProxy<C, L> {
    type V = ProxyModel;

    closed spec fn view(&self) -> ProxyModel {
        ProxyModel {
            blocked: self.rule_database@,
            upstreams: addresses_view(self.upstream_dns_servers@),
            record: self.negative_cache_record@,
        }
    }
}

impl<C: AdVpnCallback, L: BlockLoggerCallback> DnsPacketProxy<C, L> {
    /// A proxy that blocks nothing and knows no upstream server.
    pub fn new(android_vpn_callback: C, block_logger_callback: L) -> (proxy: Self)
        ensures
            proxy@ == (ProxyModel {
                blocked: Set::empty(),
                upstreams: Seq::empty(),
                record: negative_cache_record(),
            }),
    {
        let negative_cache_record = SoaRecord {
            name: String::from_str("dnsnet.dnsnet.invalid."),
            mname: String::from_str("dnsnet.dnsnet.invalid."),
            rname: String::from_str("dnsnet.dnsnet.invalid."),
            class: CLASS_IN,
            ttl: NEGATIVE_CACHE_TTL_SECONDS,
            serial: 0,
            refresh: 0,
            retry: 0,
            expire: 0,
            minimum: NEGATIVE_CACHE_TTL_SECONDS,
        };
        let proxy = DnsPacketProxy {
            android_vpn_callback,
            block_logger_callback,
            rule_database: RuleDatabase::new(),
            upstream_dns_servers: Vec::new(),
            negative_cache_record,
        };
        assert(addresses_view(proxy.upstream_dns_servers@) =~= Seq::<Seq<u8>>::empty());
        proxy
    }

    /// Rebuilds the rule database and replaces the upstream servers.
    pub fn initialize(
        &mut self,
        host_items: Vec<HostItem>,
        host_exceptions: Vec<NativeHost>,
        upstream_dns_servers: Vec<Vec<u8>>,
    )
        ensures
            final(self)@ == (ProxyModel {
                blocked: built_set(items_view(host_items@), hosts_view(host_exceptions@)),
                upstreams: addresses_view(upstream_dns_servers@),
                record: old(self)@.record,
            }),
    {
        self.rule_database.initialize(host_items, host_exceptions);
        self.upstream_dns_servers = upstream_dns_servers;
    }

    /// Asks the host to keep the socket with this descriptor out of the
    /// tunnel.
    pub fn protect_socket(&self, socket_fd: i32) {
        self.android_vpn_callback.protect_raw_socket_fd(socket_fd);
    }

    /// Wraps a reply into the datagram that answers `request_packet` and
    /// queues it for the device. Source and destination of the datagram are
    /// those of the request, exchanged. Returns whether a datagram was
    /// queued: none is where the request does not dissect into a UDP datagram
    /// or the reply is too long.
    pub fn handle_dns_response<S>(
        &self,
        ad_vpn: &mut AdVpn<S>,
        request_packet: &[u8],
        response_payload: Vec<u8>,
    ) -> (queued: bool)
        ensures
            final(ad_vpn)@ == (match response_datagram(
                sliced_ip(request_packet@),
                response_payload@,
            ) {
                Some(datagram) => old(ad_vpn)@.with_write(datagram),
                None => old(ad_vpn)@,
            }),
            queued == response_datagram(sliced_ip(request_packet@), response_payload@).is_some(),
            queued ==> sliced_ip(final(ad_vpn)@.device_writes.last()) == Some(
                response_model(sliced_ip(request_packet@)->0, response_payload@),
            ),
    {
        match build_response_packet(request_packet, response_payload) {
            Some(packet) => {
                ad_vpn.queue_device_write(packet);
                true
            },
            None => false,
        }
    }

    /// The real destination of a query sent to `destination_address`: the
    /// address itself where no upstream servers are set, else the server
    /// whose index is the address's last byte. `None` where the address is
    /// empty or the index selects no server.
    pub fn translate_destination_address(&self, destination_address: &Vec<u8>) -> (server: Option<
        Vec<u8>,
    >)
        ensures
            bytes_view(server) == translated(self@.upstreams, destination_address@),
    {
        if self.upstream_dns_servers.len() > 0 {
            if destination_address.len() == 0 {
                return None;
            }
            let index = destination_address[destination_address.len() - 1] as usize;
            if index < self.upstream_dns_servers.len() {
                Some(vstd::slice::slice_to_vec(self.upstream_dns_servers[index].as_slice()))
            } else {
                None
            }
        } else {
            Some(vstd::slice::slice_to_vec(destination_address.as_slice()))
        }
    }

    /// Builds the query that goes on to `real_destination_address`: the
    /// datagram with the header fields and the source of `net`, the ports and
    /// the payload of `udp_packet` under the new destination, together with
    /// the destination, the port and the payload by themselves. Fails where
    /// the new destination is no address of the header's family, or the
    /// datagram cannot be built.
    pub fn build_forward_packet(
        net: &IpHeader,
        udp_packet: &UdpDatagram,
        real_destination_address: &Vec<u8>,
    ) -> (out_packet: Result<UpstreamQuery, DropReason>)
        ensures
            match ProxyModel::allowed_verdict(*net, udp_packet@, real_destination_address@) {
                RequestVerdict::Forward(query) => out_packet matches Ok(built) && built@ == query,
                RequestVerdict::Drop(reason) => out_packet == Err::<UpstreamQuery, DropReason>(
                    reason,
                ),
                RequestVerdict::Reply(_) => false,
            },
    {
        let built = match *net {
            IpHeader::V4(packet_header) => {
                if real_destination_address.len() != 4 {
                    return Err(DropReason::AddressMismatch);
                }
                let destination = to_address_v4(real_destination_address);
                build_packet_v4(
                    &packet_header.source,
                    udp_packet.source_port,
                    &destination,
                    udp_packet.destination_port,
                    packet_header.time_to_live,
                    packet_header.identification,
                    udp_packet.payload.as_slice(),
                )
            },
            IpHeader::V6(packet_header) => {
                if real_destination_address.len() != 16 {
                    return Err(DropReason::AddressMismatch);
                }
                let destination = to_address_v6(real_destination_address);
                build_packet_v6(
                    &packet_header.source,
                    udp_packet.source_port,
                    &destination,
                    udp_packet.destination_port,
                    packet_header.traffic_class,
                    packet_header.flow_label,
                    packet_header.hop_limit,
                    udp_packet.payload.as_slice(),
                )
            },
        };
        match built {
            Some(datagram) => Ok(
                UpstreamQuery {
                    datagram,
                    destination: vstd::slice::slice_to_vec(real_destination_address.as_slice()),
                    destination_port: udp_packet.destination_port,
                    payload: vstd::slice::slice_to_vec(udp_packet.payload.as_slice()),
                },
            ),
            None => Err(DropReason::ForwardFailed),
        }
    }

    /// What is logged for a query for `name`: the name, lowercased, and
    /// whether the query may pass, which it may unless the name is blocked.
    pub fn decision(&self, name: &str) -> (decision: (String, bool))
        ensures
            decision.0@ == lowercased(name@),
            decision.1 == !self@.blocks(name@),
            (decision.0@, decision.1) == self@.logged(name@),
    {
        let dns_query_name = to_lowercase(name);
        let blocked = self.rule_database.is_blocked(name);
        (dns_query_name, !blocked)
    }

    /// Handles a datagram that the device handed over.
    ///
    /// The datagram is dropped unless it is an IPv4 or IPv6 datagram that
    /// carries UDP, its destination selects an upstream server, and its
    /// payload is a DNS message with a question. What
    /// [`DnsPacketProxy::decision`] gives for the first question's name is
    /// handed to the logger. For a blocked name the query is
    /// turned into a response without error and without answers, whose
    /// additional section holds the negative-cache record, and that reply is
    /// queued for the device as if it came from the query's destination. For
    /// any other name the datagram is re-addressed to the upstream server and
    /// handed back to be sent.
    pub fn handle_dns_request<S>(&self, ad_vpn: &mut AdVpn<S>, packet_data: &[u8]) -> (action:
        RequestAction)
        ensures
            self@.request_handled(
                packet_data@,
                action,
                old(ad_vpn)@.device_writes,
                final(ad_vpn)@.device_writes,
            ),
            final(ad_vpn)@.watchdog == old(ad_vpn)@.watchdog,
            final(ad_vpn)@.waiting == old(ad_vpn)@.waiting,
    {
        let packet = match GenericIpPacket::from_array(packet_data) {
            Some(value) => value,
            None => {
                return RequestAction::Dropped(DropReason::NotIp);
            },
        };
        let udp_packet = match packet.get_udp_packet() {
            Some(value) => value,
            None => {
                return RequestAction::Dropped(DropReason::NotUdp);
            },
        };
        let destination_address = match packet.get_destination_address() {
            Some(value) => value,
            None => {
                return RequestAction::Dropped(DropReason::NoUpstream);
            },
        };
        let real_destination_address = match self.translate_destination_address(
            &destination_address,
        ) {
            Some(value) => value,
            None => {
                return RequestAction::Dropped(DropReason::NoUpstream);
            },
        };
        let names = match question_names(udp_packet.payload.as_slice()) {
            Some(value) => value,
            None => {
                return RequestAction::Dropped(DropReason::NotDns);
            },
        };
        if names.len() == 0 {
            return RequestAction::Dropped(DropReason::NoQuestion);
        }
        let (dns_query_name, allowed) = self.decision(names[0].as_str());
        self.block_logger_callback.log(dns_query_name, allowed);
        if !allowed {
            if udp_packet.payload.len() > MAX_DNS_MESSAGE {
                return RequestAction::Dropped(DropReason::ReplyFailed);
            }
            let wire = match rewrite_as_reply(
                udp_packet.payload.as_slice(),
                FLAG_RESPONSE,
                RCODE_NO_ERROR,
                &self.negative_cache_record,
            ) {
                Some(value) => value,
                None => {
                    return RequestAction::Dropped(DropReason::ReplyFailed);
                },
            };
            if self.handle_dns_response(ad_vpn, packet_data, wire) {
                RequestAction::Answered
            } else {
                RequestAction::Dropped(DropReason::ReplyFailed)
            }
        } else {
            match Self::build_forward_packet(&packet.net, udp_packet, &real_destination_address) {
                Ok(query) => RequestAction::Forward(query),
                Err(reason) => RequestAction::Dropped(reason),
            }
        }
    }
}

} // verus!
