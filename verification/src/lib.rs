//! A plain value type holding the parameters needed to reach a remote host
//! over SSH: a logical name, the network address, the login user, the port,
//! an optional private-key path, and a cached reachability flag, together
//! with a derived `address:port` endpoint string.

pub mod ssh_host;
