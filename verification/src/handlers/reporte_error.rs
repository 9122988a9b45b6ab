//! The decisions of the error-report endpoints.

use vstd::prelude::*;

use crate::models::auth::AuthUser;
use crate::models::reporte_error::{
    CambiarEstadoReporte, EstadoReporte, NuevoSeguimientoReporte, NuevoReporteError,
    PrioridadReporte, TipoReporte,
};
use crate::services::reporte_error_service::FiltroReportes;

verus! {

/// The query string of the listing endpoints.
#[derive(Debug, Clone, PartialEq, Eq)]
pub struct ListarReportesQuery {
    pub estado: Option<EstadoReporte>,
    pub tipo: Option<TipoReporte>,
    pub prioridad: Option<PrioridadReporte>,
    pub usuario_id: Option<i32>,
    pub responsable_id: Option<i32>,
    pub limit: Option<u64>,
    pub offset: Option<u64>,
}

/// The id of the authenticated caller.
pub fn extract_user_id(auth_user: &AuthUser) -> (r: Option<i32>)
    ensures
        r == Some(auth_user.user_id),
{
    Some(auth_user.user_id)
}

/// A new ticket is always filed in the caller's name, whatever the payload says.
pub fn nuevo_del_autor(payload: NuevoReporteError, auth_user: &AuthUser) -> (r: NuevoReporteError)
    ensures
        r == (NuevoReporteError { usuario_id: Some(auth_user.user_id), ..payload }),
{
    NuevoReporteError { usuario_id: extract_user_id(auth_user), ..payload }
}

/// A state change is always made in the caller's name.
pub fn cambio_del_autor(payload: CambiarEstadoReporte, auth_user: &AuthUser) -> (r:
    CambiarEstadoReporte)
    ensures
        r == (CambiarEstadoReporte { usuario_id: Some(auth_user.user_id), ..payload }),
{
    CambiarEstadoReporte { usuario_id: extract_user_id(auth_user), ..payload }
}

/// A follow-up entry goes to the ticket of the URL, in the caller's name.
pub fn seguimiento_del_autor(
    payload: NuevoSeguimientoReporte,
    reporte_id: i32,
    auth_user: &AuthUser,
) -> (r: NuevoSeguimientoReporte)
    ensures
        r == (NuevoSeguimientoReporte {
            reporte_id,
            usuario_id: Some(auth_user.user_id),
            ..payload
        }),
{
    NuevoSeguimientoReporte { reporte_id, usuario_id: extract_user_id(auth_user), ..payload }
}

/// The selection of the general listing: the filters of the query string.
pub fn filtro_listar_reportes(params: &ListarReportesQuery) -> (f: FiltroReportes)
    ensures
        f.estado == params.estado,
        f.tipo == params.tipo,
        f.prioridad == params.prioridad,
        f.usuario_id == params.usuario_id,
        f.responsable_id == params.responsable_id,
        f.estados_excluidos@ == Seq::<EstadoReporte>::empty(),
{
    FiltroReportes::de_listado(
        params.estado,
        params.tipo,
        params.prioridad,
        params.usuario_id,
        params.responsable_id,
    )
}

/// The selection of "my tickets": the query's filters, with the author
/// replaced by the caller.
pub fn filtro_mis_reportes(params: &ListarReportesQuery, auth_user: &AuthUser) -> (f:
    FiltroReportes)
    ensures
        f.estado == params.estado,
        f.tipo == params.tipo,
        f.prioridad == params.prioridad,
        f.usuario_id == Some(auth_user.user_id),
        f.responsable_id == params.responsable_id,
        f.estados_excluidos@ == Seq::<EstadoReporte>::empty(),
{
    FiltroReportes::de_listado(
        params.estado,
        params.tipo,
        params.prioridad,
        extract_user_id(auth_user),
        params.responsable_id,
    )
}

/// The selection of "tickets assigned to me": the query's filters, with
/// the assignee replaced by the caller.
pub fn filtro_reportes_asignados(params: &ListarReportesQuery, auth_user: &AuthUser) -> (f:
    FiltroReportes)
    ensures
        f.estado == params.estado,
        f.tipo == params.tipo,
        f.prioridad == params.prioridad,
        f.usuario_id == params.usuario_id,
        f.responsable_id == Some(auth_user.user_id),
        f.estados_excluidos@ == Seq::<EstadoReporte>::empty(),
{
    FiltroReportes::de_listado(
        params.estado,
        params.tipo,
        params.prioridad,
        params.usuario_id,
        extract_user_id(auth_user),
    )
}

} // verus!
