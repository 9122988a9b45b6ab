//! Support tickets: their kinds, states and priorities, the stored record,
//! and the payloads that create and change them.

use vstd::prelude::*;

pub mod soporte_seguimiento;

verus! {

/// What a ticket is about.
#[derive(Debug, Clone, Copy, PartialEq, Eq, Structural)]
pub enum TipoSoporte {
    Error,
    Sugerencia,
    Mejora,
    Otro,
}

/// Where a ticket stands in its life cycle.
#[derive(Debug, Clone, Copy, PartialEq, Eq, Structural)]
pub enum EstadoSoporte {
    Recibido,
    EnRevision,
    EnDesarrollo,
    Resuelto,
    Rechazado,
    Cerrado,
}

/// How urgent a ticket is.
#[derive(Debug, Clone, Copy, PartialEq, Eq, Structural)]
pub enum PrioridadSoporte {
    Baja,
    Media,
    Alta,
    Critica,
}

/// What a follow-up entry of a ticket records.
#[derive(Debug, Clone, Copy, PartialEq, Eq, Structural)]
pub enum TipoSeguimientoSoporte {
    CambioEstado,
    Comentario,
    Asignacion,
    Resolucion,
    Reapertura,
    Otro,
}

impl EstadoSoporte {
    /// The variant's name, as `Debug` writes it.
    pub open spec fn nombre_spec(self) -> Seq<char> {
        match self {
            EstadoSoporte::Recibido => "Recibido"@,
            EstadoSoporte::EnRevision => "EnRevision"@,
            EstadoSoporte::EnDesarrollo => "EnDesarrollo"@,
            EstadoSoporte::Resuelto => "Resuelto"@,
            EstadoSoporte::Rechazado => "Rechazado"@,
            EstadoSoporte::Cerrado => "Cerrado"@,
        }
    }

    /// The variant's name, as `Debug` writes it.
    pub fn nombre(&self) -> (r: &'static str)
        ensures
            r@ == self.nombre_spec(),
    {
        match self {
            EstadoSoporte::Recibido => "Recibido",
            EstadoSoporte::EnRevision => "EnRevision",
            EstadoSoporte::EnDesarrollo => "EnDesarrollo",
            EstadoSoporte::Resuelto => "Resuelto",
            EstadoSoporte::Rechazado => "Rechazado",
            EstadoSoporte::Cerrado => "Cerrado",
        }
    }
}

/// A stored ticket. Instants are nanoseconds since the Unix epoch.
#[derive(Debug, Clone, PartialEq, Eq)]
pub struct Model {
    pub id: i32,
    pub usuario_id: Option<i32>,
    pub titulo: String,
    pub descripcion: String,
    pub tipo: TipoSoporte,
    pub prioridad: PrioridadSoporte,
    pub estado: EstadoSoporte,
    pub captura_url: Option<String>,
    pub responsable_id: Option<i32>,
    pub fecha_resolucion: Option<i128>,
    pub solucion: Option<String>,
    pub created_at: Option<i128>,
    pub updated_at: Option<i128>,
}

/// A ticket about to be inserted: every column but the generated id.
#[derive(Debug, Clone, PartialEq, Eq)]
pub struct RegistroSoporte {
    pub usuario_id: Option<i32>,
    pub titulo: String,
    pub descripcion: String,
    pub tipo: TipoSoporte,
    pub prioridad: PrioridadSoporte,
    pub estado: EstadoSoporte,
    pub captura_url: Option<String>,
    pub responsable_id: Option<i32>,
    pub fecha_resolucion: Option<i128>,
    pub solucion: Option<String>,
    pub created_at: Option<i128>,
    pub updated_at: Option<i128>,
}

/// The columns an update writes: `Some(v)` sets the column to `v`, `None`
/// leaves it as stored.
#[derive(Debug, Clone, PartialEq, Eq)]
pub struct CambiosSoporte {
    pub titulo: Option<String>,
    pub descripcion: Option<String>,
    pub prioridad: Option<PrioridadSoporte>,
    pub estado: Option<EstadoSoporte>,
    pub captura_url: Option<Option<String>>,
    pub responsable_id: Option<Option<i32>>,
    pub fecha_resolucion: Option<Option<i128>>,
    pub solucion: Option<Option<String>>,
    pub updated_at: Option<Option<i128>>,
}

/// The value a column takes under an update.
pub open spec fn columna<T>(actual: T, cambio: Option<T>) -> T {
    match cambio {
        Some(v) => v,
        None => actual,
    }
}

impl CambiosSoporte {
    /// The record that results from writing these columns over `m`.
    pub open spec fn aplicar(self, m: Model) -> Model {
        Model {
            id: m.id,
            usuario_id: m.usuario_id,
            titulo: columna(m.titulo, self.titulo),
            descripcion: columna(m.descripcion, self.descripcion),
            tipo: m.tipo,
            prioridad: columna(m.prioridad, self.prioridad),
            estado: columna(m.estado, self.estado),
            captura_url: columna(m.captura_url, self.captura_url),
            responsable_id: columna(m.responsable_id, self.responsable_id),
            fecha_resolucion: columna(m.fecha_resolucion, self.fecha_resolucion),
            solucion: columna(m.solucion, self.solucion),
            created_at: m.created_at,
            updated_at: columna(m.updated_at, self.updated_at),
        }
    }
}

/// The payload that opens a ticket.
#[derive(Debug, Clone, PartialEq, Eq)]
pub struct NuevoSoporteError {
    pub usuario_id: Option<i32>,
    pub titulo: String,
    pub descripcion: String,
    pub tipo: TipoSoporte,
    pub prioridad: Option<PrioridadSoporte>,
    pub captura_url: Option<String>,
}

/// The payload that edits a ticket; absent fields are left alone.
#[derive(Debug, Clone, PartialEq, Eq)]
pub struct ActualizarSoporteError {
    pub titulo: Option<String>,
    pub descripcion: Option<String>,
    pub prioridad: Option<PrioridadSoporte>,
    pub estado: Option<EstadoSoporte>,
    pub captura_url: Option<String>,
    pub responsable_id: Option<i32>,
    pub solucion: Option<String>,
}

/// The payload that adds a follow-up entry to a ticket.
#[derive(Debug, Clone, PartialEq, Eq)]
pub struct NuevoSeguimientoSoporte {
    pub soporte_id: i32,
    pub usuario_id: Option<i32>,
    pub tipo: TipoSeguimientoSoporte,
    pub comentario: String,
    pub estado_anterior: Option<EstadoSoporte>,
    pub estado_nuevo: Option<EstadoSoporte>,
}

/// The payload that moves a ticket to another state.
#[derive(Debug, Clone, PartialEq, Eq)]
pub struct CambiarEstadoSoporte {
    pub estado_nuevo: EstadoSoporte,
    pub comentario: Option<String>,
    pub usuario_id: Option<i32>,
    pub solucion: Option<String>,
}

/// The payload that assigns a ticket to someone.
#[derive(Debug, Clone, PartialEq, Eq)]
pub struct AsignarResponsableRequest {
    pub responsable_id: i32,
    pub comentario: Option<String>,
}

} // verus!
