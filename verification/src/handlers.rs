//! What the HTTP handlers decide before they call a service: whose
//! identity a request carries and which tickets a listing selects.

pub mod reporte_error;
pub mod soporte;
pub mod usuarios;
