//! The follow-up entries of an error report.

use vstd::prelude::*;

use crate::models::reporte_error::{EstadoReporte, TipoSeguimiento};

verus! {

/// A stored follow-up entry. `created_at` is in nanoseconds since the Unix epoch.
#[derive(Debug, Clone, PartialEq, Eq)]
pub struct Model {
    pub id: i32,
    pub reporte_id: i32,
    pub usuario_id: Option<i32>,
    pub tipo: TipoSeguimiento,
    pub comentario: String,
    pub estado_anterior: Option<EstadoReporte>,
    pub estado_nuevo: Option<EstadoReporte>,
    pub created_at: Option<i128>,
}

/// A follow-up entry about to be inserted: every column but the generated id.
#[derive(Debug, Clone, PartialEq, Eq)]
pub struct RegistroSeguimiento {
    pub reporte_id: i32,
    pub usuario_id: Option<i32>,
    pub tipo: TipoSeguimiento,
    pub comentario: String,
    pub estado_anterior: Option<EstadoReporte>,
    pub estado_nuevo: Option<EstadoReporte>,
    pub created_at: Option<i128>,
}

} // verus!
