//! What the data plane asks of its host. Both traits are implemented by
//! the embedding application; nothing is assumed of what the calls do.

use vstd::prelude::*;

verus! {

/// The host's VPN service.
pub trait AdVpnCallback: Send + Sync {
    /// Keeps the socket with this descriptor out of the tunnel's own route.
    fn protect_raw_socket_fd(&self, socket_fd: i32);

    /// Reports a lifecycle state by its code (see
    /// [`crate::status::VpnStatus::ordinal`]).
    fn notify(&self, native_status: i32);
}

/// The log of decisions.
pub trait BlockLoggerCallback: Send + Sync {
    /// Records that `connection_name` was asked for and whether the query
    /// was allowed to pass.
    fn log(&self, connection_name: String, allowed: bool);
}

} // verus!
