//! The decisions of the support-ticket endpoints.

use vstd::prelude::*;

use crate::models::auth::AuthUser;
use crate::models::soporte::{
    CambiarEstadoSoporte, EstadoSoporte, NuevoSeguimientoSoporte, NuevoSoporteError,
    PrioridadSoporte, TipoSoporte,
};
use crate::services::soporte_service::FiltroSoportes;

verus! {

/// The query string of the listing endpoints.
#[derive(Debug, Clone, PartialEq, Eq)]
pub struct ListarSoportesQuery {
    pub estado: Option<EstadoSoporte>,
    pub tipo: Option<TipoSoporte>,
    pub prioridad: Option<PrioridadSoporte>,
    pub usuario_id: Option<i32>,
    pub responsable_id: Option<i32>,
    pub limit: Option<u64>,
    pub offset: Option<u64>,
}

/// The id of the authenticated caller.
pub fn extract_user_id(auth_user: &AuthUser) -> (r: Option<i32>)
    ensures
        r == Some(auth_user.user_id),
{
    Some(auth_user.user_id)
}

/// A new ticket is always filed in the caller's name, whatever the payload says.
pub fn nuevo_del_autor(payload: NuevoSoporteError, auth_user: &AuthUser) -> (r: NuevoSoporteError)
    ensures
        r == (NuevoSoporteError { usuario_id: Some(auth_user.user_id), ..payload }),
{
    NuevoSoporteError { usuario_id: extract_user_id(auth_user), ..payload }
}

/// A state change is always made in the caller's name.
pub fn cambio_del_autor(payload: CambiarEstadoSoporte, auth_user: &AuthUser) -> (r:
    CambiarEstadoSoporte)
    ensures
        r == (CambiarEstadoSoporte { usuario_id: Some(auth_user.user_id), ..payload }),
{
    CambiarEstadoSoporte { usuario_id: extract_user_id(auth_user), ..payload }
}

/// A follow-up entry goes to the ticket of the URL, in the caller's name.
pub fn seguimiento_del_autor(
    payload: NuevoSeguimientoSoporte,
    soporte_id: i32,
    auth_user: &AuthUser,
) -> (r: NuevoSeguimientoSoporte)
    ensures
        r == (NuevoSeguimientoSoporte {
            soporte_id,
            usuario_id: Some(auth_user.user_id),
            ..payload
        }),
{
    NuevoSeguimientoSoporte { soporte_id, usuario_id: extract_user_id(auth_user), ..payload }
}

/// The selection of the general listing: the filters of the query string.
pub fn filtro_listar_soportes(params: &ListarSoportesQuery) -> (f: FiltroSoportes)
    ensures
        f.estado == params.estado,
        f.tipo == params.tipo,
        f.prioridad == params.prioridad,
        f.usuario_id == params.usuario_id,
        f.responsable_id == params.responsable_id,
        f.estados_excluidos@ == Seq::<EstadoSoporte>::empty(),
{
    FiltroSoportes::de_listado(
        params.estado,
        params.tipo,
        params.prioridad,
        params.usuario_id,
        params.responsable_id,
    )
}

/// The selection of "my tickets": the query's filters, with the author
/// replaced by the caller.
pub fn filtro_mis_soportes(params: &ListarSoportesQuery, auth_user: &AuthUser) -> (f:
    FiltroSoportes)
    ensures
        f.estado == params.estado,
        f.tipo == params.tipo,
        f.prioridad == params.prioridad,
        f.usuario_id == Some(auth_user.user_id),
        f.responsable_id == params.responsable_id,
        f.estados_excluidos@ == Seq::<EstadoSoporte>::empty(),
{
    FiltroSoportes::de_listado(
        params.estado,
        params.tipo,
        params.prioridad,
        extract_user_id(auth_user),
        params.responsable_id,
    )
}

/// The selection of "tickets assigned to me": the query's filters, with
/// the assignee replaced by the caller.
pub fn filtro_soportes_asignados(params: &ListarSoportesQuery, auth_user: &AuthUser) -> (f:
    FiltroSoportes)
    ensures
        f.estado == params.estado,
        f.tipo == params.tipo,
        f.prioridad == params.prioridad,
        f.usuario_id == params.usuario_id,
        f.responsable_id == Some(auth_user.user_id),
        f.estados_excluidos@ == Seq::<EstadoSoporte>::empty(),
{
    FiltroSoportes::de_listado(
        params.estado,
        params.tipo,
        params.prioridad,
        params.usuario_id,
        extract_user_id(auth_user),
    )
}

} // verus!
