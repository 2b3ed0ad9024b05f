//! DNS messages.
//!
//! Messages are read and written by `simple_dns`. The proxy reads the names
//! of the questions of a query, and has a query rewritten into the reply
//! that tells the client that a blocked name has no records.

use simple_dns::rdata::{RData, SOA};
use simple_dns::{Name, Packet, PacketFlag, ResourceRecord, CLASS, RCODE};
use vstd::prelude::*;

verus! {

/// The header bit that marks a message as a response (QR).
pub const FLAG_RESPONSE: u16 = 0x8000;

/// The response code of a successful answer.
pub const RCODE_NO_ERROR: u16 = 0;

/// The class of Internet records.
pub const CLASS_IN: u16 = 1;

/// Longest query that is rewritten into a reply: what a 16-bit length can
/// count. A longer message could hold more records than its header can
/// count once one more is appended.
pub const MAX_DNS_MESSAGE: usize = 65535;

/// A start-of-authority record: its owner, class and time to live, and
/// the fields of its data.
#[derive(Clone, Debug)]
pub struct SoaRecord {
    pub name: String,
    pub mname: String,
    pub rname: String,
    pub class: u16,
    pub ttl: u32,
    pub serial: u32,
    pub refresh: i32,
    pub retry: i32,
    pub expire: i32,
    pub minimum: u32,
}

/// What a [`SoaRecord`] holds, as a mathematical value.
pub struct SoaModel {
    pub name: Seq<char>,
    pub mname: Seq<char>,
    pub rname: Seq<char>,
    pub class: u16,
    pub ttl: u32,
    pub serial: u32,
    pub refresh: i32,
    pub retry: i32,
    pub expire: i32,
    pub minimum: u32,
}

impl View for SoaRecord {
    type V = SoaModel;

    open spec fn view(&self) -> SoaModel {
        SoaModel {
            name: self.name@,
            mname: self.mname@,
            rname: self.rname@,
            class: self.class,
            ttl: self.ttl,
            serial: self.serial,
            refresh: self.refresh,
            retry: self.retry,
            expire: self.expire,
            minimum: self.minimum,
        }
    }
}

/// The names of the questions of the DNS message that
/// `simple_dns::Packet::parse` reads from `message`, each as
/// `simple_dns::Name` prints it; `None` where the bytes do not parse.
pub uninterp spec fn dns_question_names(message: Seq<u8>) -> Option<Seq<Seq<char>>>;

/// The bytes that `simple_dns` writes for the message it reads from `query`
/// once the header bits `flags` are set, the response code is `rcode` and
/// `record` is appended to the additional section; `None` where the query
/// does not parse, the record cannot be formed, or writing fails. Spoken of
/// only for queries of at most [`MAX_DNS_MESSAGE`] bytes.
pub uninterp spec fn dns_reply(query: Seq<u8>, flags: u16, rcode: u16, record: SoaModel) -> Option<
    Seq<u8>,
>;

/// The views of some names.
pub open spec fn names_view(names: Option<Vec<String>>) -> Option<Seq<Seq<char>>> {
    match names {
        Some(names) => Some(names@.map_values(|n: String| n@)),
        None => None,
    }
}

/// Parses a DNS message with `simple_dns::Packet::parse` and hands out the
/// name of each question, printed by `simple_dns::Name`.
///
/// Trusted: the result depends on the bytes alone.
#[verifier::external_body]
pub(crate) fn question_names(message: &[u8]) -> (names: Option<Vec<String>>)
    ensures
        names_view(names) == dns_question_names(message@),
{
    let packet = Packet::parse(message).ok()?;
    let mut names = Vec::with_capacity(packet.questions.len());
    for question in packet.questions.iter() {
        names.push(question.qname.to_string());
    }
    Some(names)
}

/// Rewrites a query into a reply with `simple_dns`: parses it, sets header
/// bits, replaces the response code, appends one SOA record to the additional
/// section and writes the message out again.
///
/// Trusted: the result depends on the arguments alone. A query longer than
/// [`MAX_DNS_MESSAGE`] is left out: `simple_dns` counts the additional records
/// in 16 bits when it writes the header.
#[verifier::external_body]
pub(crate) fn rewrite_as_reply(query: &[u8], flags: u16, rcode: u16, record: &SoaRecord) -> (reply:
    Option<Vec<u8>>)
    requires
        query@.len() <= MAX_DNS_MESSAGE,
    ensures
        crate::codec::bytes_view(reply) == dns_reply(query@, flags, rcode, record@),
{
    let mut packet = Packet::parse(query).ok()?;
    let class = CLASS::try_from(record.class).ok()?;
    let soa = SOA {
        mname: Name::new(record.mname.as_str()).ok()?, rname: Name::new(record.rname.as_str()).ok()?,
        serial: record.serial, refresh: record.refresh, retry: record.retry,
        expire: record.expire, minimum: record.minimum,
    };
    let name = Name::new(record.name.as_str()).ok()?;
    packet.set_flags(PacketFlag::from_bits_truncate(flags));
    *packet.rcode_mut() = RCODE::from(rcode);
    packet.additional_records.push(ResourceRecord::new(name, class, record.ttl, RData::SOA(soa)));
    packet.build_bytes_vec().ok()
}

} // verus!
