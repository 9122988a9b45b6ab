//! The support-ticket workflow and the error-report workflow follow the same
//! rules. Each support-ticket value has a counterpart among the error-report
//! values, field for field and variant for variant; the laws here say that
//! every decision of one workflow is the counterpart of the decision the
//! other takes on the counterpart inputs. Only the not-found message differs.

use vstd::prelude::*;

use crate::models::reporte_error as re;
use crate::models::soporte as so;
use crate::services::reporte_error_service as rs;
use crate::services::soporte_service as ss;

verus! {

/// The error-report state of a ticket state.
pub open spec fn estado_r(e: so::EstadoSoporte) -> re::EstadoReporte {
    match e {
        so::EstadoSoporte::Recibido => re::EstadoReporte::Recibido,
        so::EstadoSoporte::EnRevision => re::EstadoReporte::EnRevision,
        so::EstadoSoporte::EnDesarrollo => re::EstadoReporte::EnDesarrollo,
        so::EstadoSoporte::Resuelto => re::EstadoReporte::Resuelto,
        so::EstadoSoporte::Rechazado => re::EstadoReporte::Rechazado,
        so::EstadoSoporte::Cerrado => re::EstadoReporte::Cerrado,
    }
}

/// The error-report priority of a ticket priority.
pub open spec fn prioridad_r(p: so::PrioridadSoporte) -> re::PrioridadReporte {
    match p {
        so::PrioridadSoporte::Baja => re::PrioridadReporte::Baja,
        so::PrioridadSoporte::Media => re::PrioridadReporte::Media,
        so::PrioridadSoporte::Alta => re::PrioridadReporte::Alta,
        so::PrioridadSoporte::Critica => re::PrioridadReporte::Critica,
    }
}

/// The error-report kind of a ticket kind.
pub open spec fn tipo_r(t: so::TipoSoporte) -> re::TipoReporte {
    match t {
        so::TipoSoporte::Error => re::TipoReporte::Error,
        so::TipoSoporte::Sugerencia => re::TipoReporte::Sugerencia,
        so::TipoSoporte::Mejora => re::TipoReporte::Mejora,
        so::TipoSoporte::Otro => re::TipoReporte::Otro,
    }
}

/// The error-report follow-up kind of a ticket follow-up kind.
pub open spec fn seguimiento_r(t: so::TipoSeguimientoSoporte) -> re::TipoSeguimiento {
    match t {
        so::TipoSeguimientoSoporte::CambioEstado => re::TipoSeguimiento::CambioEstado,
        so::TipoSeguimientoSoporte::Comentario => re::TipoSeguimiento::Comentario,
        so::TipoSeguimientoSoporte::Asignacion => re::TipoSeguimiento::Asignacion,
        so::TipoSeguimientoSoporte::Resolucion => re::TipoSeguimiento::Resolucion,
        so::TipoSeguimientoSoporte::Reapertura => re::TipoSeguimiento::Reapertura,
        so::TipoSeguimientoSoporte::Otro => re::TipoSeguimiento::Otro,
    }
}

/// The error report with the columns of a stored ticket.
pub open spec fn modelo_r(m: so::Model) -> re::Model {
    re::Model {
        id: m.id,
        usuario_id: m.usuario_id,
        titulo: m.titulo,
        descripcion: m.descripcion,
        tipo: tipo_r(m.tipo),
        prioridad: prioridad_r(m.prioridad),
        estado: estado_r(m.estado),
        captura_url: m.captura_url,
        responsable_id: m.responsable_id,
        fecha_resolucion: m.fecha_resolucion,
        solucion: m.solucion,
        created_at: m.created_at,
        updated_at: m.updated_at,
    }
}

/// The error-report update that writes the columns a ticket update writes.
pub open spec fn cambios_r(c: so::CambiosSoporte) -> re::CambiosReporte {
    re::CambiosReporte {
        titulo: c.titulo,
        descripcion: c.descripcion,
        prioridad: match c.prioridad {
            Some(p) => Some(prioridad_r(p)),
            None => None,
        },
        estado: match c.estado {
            Some(e) => Some(estado_r(e)),
            None => None,
        },
        captura_url: c.captura_url,
        responsable_id: c.responsable_id,
        fecha_resolucion: c.fecha_resolucion,
        solucion: c.solucion,
        updated_at: c.updated_at,
    }
}

/// The error-report payload of a new-ticket payload.
pub open spec fn nuevo_r(n: so::NuevoSoporteError) -> re::NuevoReporteError {
    re::NuevoReporteError {
        usuario_id: n.usuario_id,
        titulo: n.titulo,
        descripcion: n.descripcion,
        tipo: tipo_r(n.tipo),
        prioridad: match n.prioridad {
            Some(p) => Some(prioridad_r(p)),
            None => None,
        },
        captura_url: n.captura_url,
    }
}

/// The error-report payload of a ticket-edit payload.
pub open spec fn actualizar_r(d: so::ActualizarSoporteError) -> re::ActualizarReporteError {
    re::ActualizarReporteError {
        titulo: d.titulo,
        descripcion: d.descripcion,
        prioridad: match d.prioridad {
            Some(p) => Some(prioridad_r(p)),
            None => None,
        },
        estado: match d.estado {
            Some(e) => Some(estado_r(e)),
            None => None,
        },
        captura_url: d.captura_url,
        responsable_id: d.responsable_id,
        solucion: d.solucion,
    }
}

/// The error-report payload of a ticket state change.
pub open spec fn cambio_estado_r(c: so::CambiarEstadoSoporte) -> re::CambiarEstadoReporte {
    re::CambiarEstadoReporte {
        estado_nuevo: estado_r(c.estado_nuevo),
        comentario: c.comentario,
        usuario_id: c.usuario_id,
        solucion: c.solucion,
    }
}

/// The error-report payload of a ticket assignment.
pub open spec fn asignacion_r(a: so::AsignarResponsableRequest) -> re::AsignarResponsableRequest {
    re::AsignarResponsableRequest { responsable_id: a.responsable_id, comentario: a.comentario }
}

/// A new ticket is refused exactly when its counterpart report is, with the
/// same message; an edit lists the same changes; writing an update over a
/// record gives the counterpart of writing the counterpart update over the
/// counterpart record.
pub proof fn lema_mismas_validaciones(
    n: so::NuevoSoporteError,
    d: so::ActualizarSoporteError,
    c: so::CambiosSoporte,
    m: so::Model,
)
    ensures
        ss::falla_de_nuevo(n) == rs::falla_de_nuevo(nuevo_r(n)),
        ss::descripciones_de(d) == rs::descripciones_de(actualizar_r(d)),
        modelo_r(c.aplicar(m)) == cambios_r(c).aplicar(modelo_r(m)),
{
}

/// A state change and an assignment are recorded with the counterpart
/// follow-up kind and write the counterpart columns, in both workflows.
pub proof fn lema_mismas_transiciones(
    anterior: so::EstadoSoporte,
    c: so::CambiarEstadoSoporte,
    a: so::AsignarResponsableRequest,
    ahora: i128,
)
    ensures
        seguimiento_r(ss::tipo_de_cambio(anterior, c.estado_nuevo)) == rs::tipo_de_cambio(
            estado_r(anterior),
            estado_r(c.estado_nuevo),
        ),
        cambios_r(ss::cambios_de_estado(anterior, c, ahora)) == rs::cambios_de_estado(
            estado_r(anterior),
            cambio_estado_r(c),
            ahora,
        ),
        cambios_r(ss::cambios_de_asignacion(anterior, a, ahora)) == rs::cambios_de_asignacion(
            estado_r(anterior),
            asignacion_r(a),
            ahora,
        ),
{
}

} // verus!
