//! Verified core of the support and error-report backend: the ticket
//! workflows, the WebSocket connection registry, the text rules they use,
//! and the computations behind the push-notification service.

pub mod errors;
pub mod handlers;
pub mod models;
pub mod services;
pub mod texto;
pub mod tiempo;
