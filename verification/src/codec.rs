//! IPv4/IPv6 + UDP datagrams.
//!
//! Datagrams are taken apart and put together by `etherparse`. What the
//! rest of the crate reads from a datagram is held in plain types of this
//! module; what `etherparse` computes is known to the proofs only by name.

use etherparse::{IpHeaders, IpNumber, Ipv4Header, Ipv6FlowLabel, Ipv6Header};
use etherparse::{NetSlice, PacketBuilder, SlicedPacket, TransportSlice};
use vstd::prelude::*;

verus! {

/// Largest UDP payload that fits an IPv4 datagram without options.
pub const MAX_UDP_PAYLOAD_V4: usize = 65507;

/// Largest UDP payload that fits an IPv6 datagram without extension headers.
pub const MAX_UDP_PAYLOAD_V6: usize = 65527;

/// Largest value of the 20-bit IPv6 flow label.
pub const MAX_FLOW_LABEL: u32 = 0xF_FFFF;

/// The fields of an IPv4 header that the proxy reads and writes.
#[derive(Clone, Copy, Debug, PartialEq, Eq)]
pub struct Ipv4Fields {
    pub source: [u8; 4],
    pub destination: [u8; 4],
    pub time_to_live: u8,
    pub identification: u16,
}

/// The fields of an IPv6 header that the proxy reads and writes.
#[derive(Clone, Copy, Debug, PartialEq, Eq)]
pub struct Ipv6Fields {
    pub source: [u8; 16],
    pub destination: [u8; 16],
    pub traffic_class: u8,
    pub flow_label: u32,
    pub hop_limit: u8,
}

/// The network header of a datagram.
#[derive(Clone, Copy, Debug, PartialEq, Eq)]
pub enum IpHeader {
    V4(Ipv4Fields),
    V6(Ipv6Fields),
}

/// The UDP part of a datagram.
#[derive(Debug, PartialEq, Eq)]
pub struct UdpDatagram {
    pub source_port: u16,
    pub destination_port: u16,
    pub payload: Vec<u8>,
}

/// What a [`UdpDatagram`] holds, as a mathematical value.
pub struct UdpModel {
    pub source_port: u16,
    pub destination_port: u16,
    pub payload: Seq<u8>,
}

impl View for UdpDatagram {
    type V = UdpModel;

    open spec fn view(&self) -> UdpModel {
        UdpModel {
            source_port: self.source_port,
            destination_port: self.destination_port,
            payload: self.payload@,
        }
    }
}

/// A dissected IP datagram: its network header and, where the transport is
/// UDP and the datagram is not a fragment, its UDP part.
#[derive(Debug, PartialEq, Eq)]
pub struct GenericIpPacket {
    pub net: IpHeader,
    pub udp: Option<UdpDatagram>,
}

/// What a [`GenericIpPacket`] holds, as a mathematical value.
pub struct PacketModel {
    pub net: IpHeader,
    pub udp: Option<UdpModel>,
}

/// The view of an optional UDP part.
pub open spec fn udp_view(udp: Option<UdpDatagram>) -> Option<UdpModel> {
    match udp {
        Some(u) => Some(u@),
        None => None,
    }
}

/// The view of an optional byte vector.
pub open spec fn bytes_view(bytes: Option<Vec<u8>>) -> Option<Seq<u8>> {
    match bytes {
        Some(b) => Some(b@),
        None => None,
    }
}

impl View for GenericIpPacket {
    type V = PacketModel;

    open spec fn view(&self) -> PacketModel {
        PacketModel { net: self.net, udp: udp_view(self.udp) }
    }
}

/// The view of an optional dissected datagram.
pub open spec fn packet_view(packet: Option<GenericIpPacket>) -> Option<PacketModel> {
    match packet {
        Some(p) => Some(p@),
        None => None,
    }
}

/// What `etherparse::SlicedPacket::from_ip` finds in `data`: `None` where it
/// reports an error, else the network header and the UDP part, if any.
pub uninterp spec fn sliced_ip(data: Seq<u8>) -> Option<PacketModel>;

/// The bytes that `etherparse::PacketBuilder` writes for an IPv4 header
/// without options, carrying `header`'s fields, followed by a UDP header with
/// the two ports and by `payload`; `None` where it reports an error.
pub uninterp spec fn udp_v4_datagram(
    header: Ipv4Fields,
    source_port: u16,
    destination_port: u16,
    payload: Seq<u8>,
) -> Option<Seq<u8>>;

/// The bytes that `etherparse::PacketBuilder` writes for an IPv6 header
/// without extensions, carrying `header`'s fields, followed by a UDP header
/// with the two ports and by `payload`; `None` where it reports an error.
pub uninterp spec fn udp_v6_datagram(
    header: Ipv6Fields,
    source_port: u16,
    destination_port: u16,
    payload: Seq<u8>,
) -> Option<Seq<u8>>;

/// The network header of a sliced datagram.
pub open spec fn sliced_net(data: Seq<u8>) -> Option<IpHeader> {
    match sliced_ip(data) {
        Some(p) => Some(p.net),
        None => None,
    }
}

/// The UDP part of a sliced datagram.
pub open spec fn sliced_udp(data: Seq<u8>) -> Option<UdpModel> {
    match sliced_ip(data) {
        Some(p) => p.udp,
        None => None,
    }
}

impl IpHeader {
    /// The flow label of an IPv6 header fits its 20 bits.
    pub open spec fn well_formed(self) -> bool {
        match self {
            IpHeader::V4(_) => true,
            IpHeader::V6(h) => h.flow_label <= MAX_FLOW_LABEL,
        }
    }
}

/// Calls `etherparse::SlicedPacket::from_ip` and hands out the network
/// header it found.
///
/// Trusted: the result is the header part of what `from_ip` returns for
/// these bytes, and a flow label read from a header has at most 20 bits
/// (`Ipv6HeaderSlice::flow_label` masks the upper bits). `from_ip` yields
/// either an IPv4 or an IPv6 slice on success.
#[verifier::external_body]
fn slice_net(data: &[u8]) -> (net: Option<IpHeader>)
    ensures
        net == sliced_net(data@),
        net matches Some(h) ==> h.well_formed(),
{
    match SlicedPacket::from_ip(data).ok()?.net? {
        NetSlice::Ipv4(v4) => Some(IpHeader::V4(Ipv4Fields {
            source: v4.header().source(),
            destination: v4.header().destination(),
            time_to_live: v4.header().ttl(), identification: v4.header().identification(),
        })),
        NetSlice::Ipv6(v6) => Some(IpHeader::V6(Ipv6Fields {
            source: v6.header().source(),
            destination: v6.header().destination(),
            traffic_class: v6.header().traffic_class(),
            hop_limit: v6.header().hop_limit(),
            flow_label: v6.header().flow_label().value(),
        })),
        NetSlice::Arp(_) => None,
    }
}

/// Calls `etherparse::SlicedPacket::from_ip` and hands out the UDP part it
/// found, if the transport is UDP.
///
/// Trusted: the result is the UDP part of what `from_ip` returns for these
/// bytes.
#[verifier::external_body]
fn slice_udp(data: &[u8]) -> (udp: Option<UdpDatagram>)
    ensures
        udp_view(udp) == sliced_udp(data@),
{
    match SlicedPacket::from_ip(data).ok()?.transport? {
        TransportSlice::Udp(udp) => Some(UdpDatagram {
            source_port: udp.source_port(),
            destination_port: udp.destination_port(),
            payload: udp.payload().to_vec(),
        }),
        _ => None,
    }
}

/// Writes an IPv4/UDP datagram with `etherparse::PacketBuilder`.
///
/// Trusted: the result is what the builder writes for these values. The
/// builder fails exactly when UDP header and payload exceed what the 16-bit
/// total length of an IPv4 header without options can express; it writes 20
/// bytes of IPv4 header, 8 bytes of UDP header and the payload; and
/// `SlicedPacket::from_ip` reads the same header fields, ports and payload
/// back from what it wrote.
#[verifier::external_body]
fn write_udp_v4(header: &Ipv4Fields, source_port: u16, destination_port: u16, payload: &[u8]) -> (out: Option<Vec<u8>>)
    ensures
        bytes_view(out) == udp_v4_datagram(*header, source_port, destination_port, payload@),
        out.is_some() <==> payload@.len() <= MAX_UDP_PAYLOAD_V4,
        out matches Some(bytes) ==> bytes@.len() == 28 + payload@.len() && sliced_ip(bytes@) == Some(
            PacketModel {
                net: IpHeader::V4(*header),
                udp: Some(UdpModel { source_port, destination_port, payload: payload@ }),
            },
        ),
{
    let mut ip = Ipv4Header::new(payload.len() as u16, header.time_to_live, IpNumber::UDP, header.source, header.destination).ok()?;
    ip.identification = header.identification;
    let builder = PacketBuilder::ip(IpHeaders::Ipv4(ip, Default::default())).udp(source_port, destination_port);
    let mut out = Vec::with_capacity(builder.size(payload.len()));
    builder.write(&mut out, payload).ok()?;
    Some(out)
}

/// Writes an IPv6/UDP datagram with `etherparse::PacketBuilder`.
///
/// Trusted: the result is what the builder writes for these values. The
/// builder fails exactly when the flow label has more than 20 bits or UDP
/// header and payload exceed the 16-bit payload length of an IPv6 header; it
/// writes 40 bytes of IPv6 header, 8 bytes of UDP header and the payload; and
/// `SlicedPacket::from_ip` reads the same header fields, ports and payload
/// back from what it wrote.
#[verifier::external_body]
fn write_udp_v6(header: &Ipv6Fields, source_port: u16, destination_port: u16, payload: &[u8]) -> (out: Option<Vec<u8>>)
    ensures
        bytes_view(out) == udp_v6_datagram(*header, source_port, destination_port, payload@),
        out.is_some() <==> (payload@.len() <= MAX_UDP_PAYLOAD_V6 && header.flow_label <= MAX_FLOW_LABEL),
        out matches Some(bytes) ==> bytes@.len() == 48 + payload@.len() && sliced_ip(bytes@) == Some(
            PacketModel {
                net: IpHeader::V6(*header),
                udp: Some(UdpModel { source_port, destination_port, payload: payload@ }),
            },
        ),
{
    let ip = Ipv6Header {
        traffic_class: header.traffic_class,
        flow_label: Ipv6FlowLabel::try_new(header.flow_label).ok()?,
        payload_length: payload.len() as u16,
        next_header: IpNumber::UDP,
        hop_limit: header.hop_limit,
        source: header.source,
        destination: header.destination,
    };
    let builder = PacketBuilder::ip(IpHeaders::Ipv6(ip, Default::default())).udp(source_port, destination_port);
    let mut out = Vec::with_capacity(builder.size(payload.len()));
    builder.write(&mut out, payload).ok()?;
    Some(out)
}

/// Copies a fixed-size address into a vector.
fn address_to_vec<const N: usize>(address: &[u8; N]) -> (bytes: Vec<u8>)
    ensures
        bytes@ == address@,
{
    let mut bytes: Vec<u8> = Vec::new();
    let mut i: usize = 0;
    while i < N
        invariant
            i <= N,
            bytes@ == address@.subrange(0, i as int),
        decreases N - i,
    {
        bytes.push(address[i]);
        i += 1;
        assert(bytes@ =~= address@.subrange(0, i as int));
    }
    assert(address@.subrange(0, N as int) =~= address@);
    bytes
}

impl IpHeader {
    /// The destination address, 4 or 16 bytes long.
    pub open spec fn destination(self) -> Seq<u8> {
        match self {
            IpHeader::V4(h) => h.destination@,
            IpHeader::V6(h) => h.destination@,
        }
    }

    /// The source address, 4 or 16 bytes long.
    pub open spec fn source(self) -> Seq<u8> {
        match self {
            IpHeader::V4(h) => h.source@,
            IpHeader::V6(h) => h.source@,
        }
    }

    /// The header of a reply: the same fields, with source and destination
    /// address exchanged.
    pub open spec fn reversed(self) -> IpHeader {
        match self {
            IpHeader::V4(h) => IpHeader::V4(
                Ipv4Fields {
                    source: h.destination,
                    destination: h.source,
                    time_to_live: h.time_to_live,
                    identification: h.identification,
                },
            ),
            IpHeader::V6(h) => IpHeader::V6(
                Ipv6Fields {
                    source: h.destination,
                    destination: h.source,
                    traffic_class: h.traffic_class,
                    flow_label: h.flow_label,
                    hop_limit: h.hop_limit,
                },
            ),
        }
    }

    /// The largest UDP payload that a datagram with this header can carry.
    pub open spec fn max_udp_payload(self) -> nat {
        match self {
            IpHeader::V4(_) => MAX_UDP_PAYLOAD_V4 as nat,
            IpHeader::V6(_) => MAX_UDP_PAYLOAD_V6 as nat,
        }
    }
}

/// The datagram that carries `payload` over UDP under the header `net`.
pub open spec fn udp_datagram(
    net: IpHeader,
    source_port: u16,
    destination_port: u16,
    payload: Seq<u8>,
) -> Option<Seq<u8>> {
    match net {
        IpHeader::V4(h) => udp_v4_datagram(h, source_port, destination_port, payload),
        IpHeader::V6(h) => udp_v6_datagram(h, source_port, destination_port, payload),
    }
}

impl GenericIpPacket {
    /// Dissects an IP datagram. `None` where the bytes are no IPv4 or IPv6
    /// datagram.
    pub fn from_array(data: &[u8]) -> (packet: Option<GenericIpPacket>)
        ensures
            packet_view(packet) == sliced_ip(data@),
            packet matches Some(p) ==> p.net.well_formed(),
    {
        match slice_net(data) {
            Some(net) => Some(GenericIpPacket { net, udp: slice_udp(data) }),
            None => None,
        }
    }

    /// The IPv4 header, if this is an IPv4 datagram.
    pub fn get_ipv4_header(&self) -> (header: Option<Ipv4Fields>)
        ensures
            header == (match self.net {
                IpHeader::V4(h) => Some(h),
                IpHeader::V6(_) => None,
            }),
    {
        match self.net {
            IpHeader::V4(h) => Some(h),
            IpHeader::V6(_) => None,
        }
    }

    /// The IPv6 header, if this is an IPv6 datagram.
    pub fn get_ipv6_header(&self) -> (header: Option<Ipv6Fields>)
        ensures
            header == (match self.net {
                IpHeader::V4(_) => None,
                IpHeader::V6(h) => Some(h),
            }),
    {
        match self.net {
            IpHeader::V4(_) => None,
            IpHeader::V6(h) => Some(h),
        }
    }

    /// The destination address: 4 bytes for IPv4, 16 for IPv6.
    pub fn get_destination_address(&self) -> (address: Option<Vec<u8>>)
        ensures
            bytes_view(address) == Some(self.net.destination()),
    {
        match self.get_ipv4_header() {
            Some(h) => Some(address_to_vec(&h.destination)),
            None => match self.get_ipv6_header() {
                Some(h) => Some(address_to_vec(&h.destination)),
                None => None,
            },
        }
    }

    /// The UDP part, if the datagram carries UDP.
    pub fn get_udp_packet(&self) -> (udp: Option<&UdpDatagram>)
        ensures
            match udp {
                Some(u) => self.udp == Some(*u),
                None => self.udp is None,
            },
    {
        match &self.udp {
            Some(u) => Some(u),
            None => None,
        }
    }
}

/// Builds an IPv4 datagram that carries `response_payload` over UDP.
///
/// `None` exactly when the payload is longer than [`MAX_UDP_PAYLOAD_V4`].
/// A datagram that was built dissects into the values it was built from.
pub fn build_packet_v4(
    source_address: &[u8; 4],
    source_port: u16,
    destination_address: &[u8; 4],
    destination_port: u16,
    time_to_live: u8,
    identification: u16,
    response_payload: &[u8],
) -> (packet: Option<Vec<u8>>)
    ensures
        bytes_view(packet) == udp_v4_datagram(
            Ipv4Fields {
                source: *source_address,
                destination: *destination_address,
                time_to_live,
                identification,
            },
            source_port,
            destination_port,
            response_payload@,
        ),
        packet.is_some() <==> response_payload@.len() <= MAX_UDP_PAYLOAD_V4,
        packet matches Some(bytes) ==> bytes@.len() == 28 + response_payload@.len() && sliced_ip(
            bytes@,
        ) == Some(
            PacketModel {
                net: IpHeader::V4(
                    Ipv4Fields {
                        source: *source_address,
                        destination: *destination_address,
                        time_to_live,
                        identification,
                    },
                ),
                udp: Some(
                    UdpModel { source_port, destination_port, payload: response_payload@ },
                ),
            },
        ),
{
    let header = Ipv4Fields {
        source: *source_address,
        destination: *destination_address,
        time_to_live,
        identification,
    };
    write_udp_v4(&header, source_port, destination_port, response_payload)
}

/// Builds an IPv6 datagram that carries `response_payload` over UDP.
///
/// `None` exactly when the payload is longer than [`MAX_UDP_PAYLOAD_V6`] or
/// the flow label exceeds [`MAX_FLOW_LABEL`]. A datagram that was built
/// dissects into the values it was built from.
pub fn build_packet_v6(
    source_address: &[u8; 16],
    source_port: u16,
    destination_address: &[u8; 16],
    destination_port: u16,
    traffic_class: u8,
    flow_label: u32,
    hop_limit: u8,
    response_payload: &[u8],
) -> (packet: Option<Vec<u8>>)
    ensures
        bytes_view(packet) == udp_v6_datagram(
            Ipv6Fields {
                source: *source_address,
                destination: *destination_address,
                traffic_class,
                flow_label,
                hop_limit,
            },
            source_port,
            destination_port,
            response_payload@,
        ),
        packet.is_some() <==> (response_payload@.len() <= MAX_UDP_PAYLOAD_V6 && flow_label
            <= MAX_FLOW_LABEL),
        packet matches Some(bytes) ==> bytes@.len() == 48 + response_payload@.len() && sliced_ip(
            bytes@,
        ) == Some(
            PacketModel {
                net: IpHeader::V6(
                    Ipv6Fields {
                        source: *source_address,
                        destination: *destination_address,
                        traffic_class,
                        flow_label,
                        hop_limit,
                    },
                ),
                udp: Some(
                    UdpModel { source_port, destination_port, payload: response_payload@ },
                ),
            },
        ),
{
    let header = Ipv6Fields {
        source: *source_address,
        destination: *destination_address,
        traffic_class,
        flow_label,
        hop_limit,
    };
    write_udp_v6(&header, source_port, destination_port, response_payload)
}

/// The reply to a dissected request: the datagram that carries `payload`
/// from the request's destination back to its source, with the request's
/// other header fields. `None` where the request is no UDP datagram.
pub open spec fn response_datagram(request: Option<PacketModel>, payload: Seq<u8>) -> Option<
    Seq<u8>,
> {
    match request {
        Some(p) => match p.udp {
            Some(udp) => udp_datagram(
                p.net.reversed(),
                udp.destination_port,
                udp.source_port,
                payload,
            ),
            None => None,
        },
        None => None,
    }
}

/// What a reply dissects into: the request's header reversed, its ports
/// exchanged, and the new payload.
pub open spec fn response_model(request: PacketModel, payload: Seq<u8>) -> PacketModel {
    PacketModel {
        net: request.net.reversed(),
        udp: Some(
            UdpModel {
                source_port: request.udp->0.destination_port,
                destination_port: request.udp->0.source_port,
                payload,
            },
        ),
    }
}

/// Wraps `response_payload` into a datagram that answers `request_packet`:
/// source and destination address and port are those of the request,
/// exchanged; identification and time to live (IPv4) or traffic class, flow
/// label and hop limit (IPv6) are copied.
///
/// `None` exactly when the request is no IPv4 or IPv6 datagram, carries no
/// UDP, or the payload is too long for one datagram.
pub fn build_response_packet(request_packet: &[u8], response_payload: Vec<u8>) -> (packet: Option<
    Vec<u8>,
>)
    ensures
        bytes_view(packet) == response_datagram(sliced_ip(request_packet@), response_payload@),
        packet.is_some() <==> (sliced_ip(request_packet@) matches Some(p) && p.udp is Some
            && response_payload@.len() <= p.net.max_udp_payload()),
        packet matches Some(bytes) ==> sliced_ip(bytes@) == Some(
            response_model(sliced_ip(request_packet@)->0, response_payload@),
        ),
{
    let generic_request_packet = match GenericIpPacket::from_array(request_packet) {
        Some(value) => value,
        None => return None,
    };
    let request_payload = match generic_request_packet.get_udp_packet() {
        Some(value) => value,
        None => return None,
    };
    match generic_request_packet.get_ipv4_header() {
        Some(header) => {
            return build_packet_v4(
                &header.destination,
                request_payload.destination_port,
                &header.source,
                request_payload.source_port,
                header.time_to_live,
                header.identification,
                response_payload.as_slice(),
            );
        },
        None => {},
    };
    match generic_request_packet.get_ipv6_header() {
        Some(header) => {
            return build_packet_v6(
                &header.destination,
                request_payload.destination_port,
                &header.source,
                request_payload.source_port,
                header.traffic_class,
                header.flow_label,
                header.hop_limit,
                response_payload.as_slice(),
            );
        },
        None => {},
    }
    None
}

/// The IPv4 address with these four bytes.
pub open spec fn address_v4(bytes: Seq<u8>) -> [u8; 4] {
    choose|a: [u8; 4]| a@ == bytes
}

/// The IPv6 address with these sixteen bytes.
pub open spec fn address_v6(bytes: Seq<u8>) -> [u8; 16] {
    choose|a: [u8; 16]| a@ == bytes
}

/// Copies four bytes into an IPv4 address.
pub fn to_address_v4(bytes: &Vec<u8>) -> (address: [u8; 4])
    requires
        bytes@.len() == 4,
    ensures
        address@ == bytes@,
        address == address_v4(bytes@),
{
    let address: [u8; 4] = [bytes[0], bytes[1], bytes[2], bytes[3]];
    assert(address@ =~= bytes@);
    assert(address_v4(bytes@)@ == bytes@);
    assert(address =~= address_v4(bytes@));
    address
}

/// Copies sixteen bytes into an IPv6 address.
pub fn to_address_v6(bytes: &Vec<u8>) -> (address: [u8; 16])
    requires
        bytes@.len() == 16,
    ensures
        address@ == bytes@,
        address == address_v6(bytes@),
{
    let address: [u8; 16] = [
        bytes[0],
        bytes[1],
        bytes[2],
        bytes[3],
        bytes[4],
        bytes[5],
        bytes[6],
        bytes[7],
        bytes[8],
        bytes[9],
        bytes[10],
        bytes[11],
        bytes[12],
        bytes[13],
        bytes[14],
        bytes[15],
    ];
    assert(address@ =~= bytes@);
    assert(address_v6(bytes@)@ == bytes@);
    assert(address =~= address_v6(bytes@));
    address
}

} // verus!
