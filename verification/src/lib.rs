//! Core of a DNS-filtering VPN data plane.
//!
//! The crate holds the decisions of the data plane: which queries are
//! answered locally, which are forwarded, how replies are addressed, when
//! pending queries are given up and when the tunnel is declared dead. All
//! descriptor and socket work is left to the caller, who feeds the results in
//! and carries the returned actions out.

pub mod status;
pub mod codec;
pub mod text;
pub mod host_line;
pub mod rules;
pub mod dns;
pub mod clock;
pub mod wosp;
pub mod watchdog;
pub mod callbacks;
pub mod proxy;
pub mod vpn;
