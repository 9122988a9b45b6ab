//! Records and request payloads of the two ticket domains, the identity of
//! the authenticated caller, and the socket registry's reports.

pub mod auth;
pub mod socket;
pub mod reporte_error;
pub mod soporte;
