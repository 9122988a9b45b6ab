//! The services: the two ticket workflows, the socket registry, and the
//! push-notification credentials.

pub mod correspondencia;
pub mod firebaseapp;
pub mod reporte_error_service;
pub mod socket_service;
pub mod soporte_service;
