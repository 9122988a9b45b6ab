//! What the socket registry reports about its connections.

use vstd::prelude::*;

verus! {

/// The users that are connected and whose sessions are not expired, and
/// their rooms (`user_<id>`).
#[derive(Debug, Clone, PartialEq, Eq)]
pub struct ConnectionInfo {
    pub connected_users: usize,
    pub rooms: Vec<String>,
}

/// Occupancy figures of the registry.
#[derive(Debug, Clone, Copy, PartialEq, Eq)]
pub struct SocketMemoryMetrics {
    pub total_users: usize,
    pub total_connections: usize,
    pub total_capacity: usize,
    pub memory_overhead: usize,
    pub largest_user_connections: usize,
}

} // verus!
