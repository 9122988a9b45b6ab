//! The follow-up entries of a support ticket.

use vstd::prelude::*;

use crate::models::soporte::{EstadoSoporte, TipoSeguimientoSoporte};

verus! {

/// A stored follow-up entry. `created_at` is in nanoseconds since the Unix epoch.
#[derive(Debug, Clone, PartialEq, Eq)]
pub struct Model {
    pub id: i32,
    pub soporte_id: i32,
    pub usuario_id: Option<i32>,
    pub tipo: TipoSeguimientoSoporte,
    pub comentario: String,
    pub estado_anterior: Option<EstadoSoporte>,
    pub estado_nuevo: Option<EstadoSoporte>,
    pub created_at: Option<i128>,
}

/// A follow-up entry about to be inserted: every column but the generated id.
#[derive(Debug, Clone, PartialEq, Eq)]
pub struct RegistroSeguimiento {
    pub soporte_id: i32,
    pub usuario_id: Option<i32>,
    pub tipo: TipoSeguimientoSoporte,
    pub comentario: String,
    pub estado_anterior: Option<EstadoSoporte>,
    pub estado_nuevo: Option<EstadoSoporte>,
    pub created_at: Option<i128>,
}

} // verus!
