//! The decisions of the error-report workflow. The database is the
//! caller's: it fetches a record, hands it here, and writes back what these
//! functions return.

use vstd::prelude::*;

use crate::errors::AppError;
use crate::models::reporte_error::seguimiento_reporte::RegistroSeguimiento;
use crate::models::reporte_error::{
    ActualizarReporteError, AsignarResponsableRequest, CambiarEstadoReporte, CambiosReporte,
    EstadoReporte, Model, NuevoSeguimientoReporte, NuevoReporteError, PrioridadReporte,
    RegistroReporte, TipoSeguimiento, TipoReporte,
};
use crate::texto::{decimal, en_blanco, formatear_entero, recortado, recortar, textos, unido, unir};
use vstd::string::StringExecFns;
use vstd::utf8::encode_utf8;

verus! {

/// The error-report service; `D` is the database handle it works against.
pub struct ReporteErrorService<D> {
    db: D,
}

/// The message of a lookup that finds no ticket.
pub open spec fn msg_no_encontrado() -> Seq<char> {
    "Reporte no encontrado"@
}

/// The validation failure of a new ticket, if any, in the order the checks run:
/// blank title, blank description, title over 200 bytes.
pub open spec fn falla_de_nuevo(n: NuevoReporteError) -> Option<Seq<char>> {
    if en_blanco(n.titulo@) {
        Some("El título es obligatorio"@)
    } else if en_blanco(n.descripcion@) {
        Some("La descripción es obligatoria"@)
    } else if encode_utf8(n.titulo@).len() as usize > 200 {
        Some("El título no puede exceder 200 caracteres"@)
    } else {
        None
    }
}

/// The record a valid new ticket is stored as: trimmed texts, priority
/// `Media` unless given, state `Recibido`, no assignee, resolution or
/// solution, both timestamps `ahora`.
pub open spec fn es_registro_de(r: RegistroReporte, n: NuevoReporteError, ahora: i128) -> bool {
    &&& r.usuario_id == n.usuario_id
    &&& r.titulo@ == recortado(n.titulo@)
    &&& r.descripcion@ == recortado(n.descripcion@)
    &&& r.tipo == n.tipo
    &&& r.prioridad == (match n.prioridad {
        Some(p) => p,
        None => PrioridadReporte::Media,
    })
    &&& r.estado == EstadoReporte::Recibido
    &&& r.captura_url == n.captura_url
    &&& r.responsable_id == None::<i32>
    &&& r.fecha_resolucion == None::<i128>
    &&& r.solucion == None::<String>
    &&& r.created_at == Some(ahora)
    &&& r.updated_at == Some(ahora)
}

/// A follow-up entry with exactly these columns.
pub open spec fn es_seguimiento(
    s: RegistroSeguimiento,
    reporte_id: i32,
    usuario_id: Option<i32>,
    tipo: TipoSeguimiento,
    comentario: Seq<char>,
    estado_anterior: Option<EstadoReporte>,
    estado_nuevo: Option<EstadoReporte>,
    ahora: i128,
) -> bool {
    &&& s.reporte_id == reporte_id
    &&& s.usuario_id == usuario_id
    &&& s.tipo == tipo
    &&& s.comentario@ == comentario
    &&& s.estado_anterior == estado_anterior
    &&& s.estado_nuevo == estado_nuevo
    &&& s.created_at == Some(ahora)
}

/// An entry of the change list if `cond` holds, else nothing.
pub open spec fn si(cond: bool, texto: Seq<char>) -> Seq<Seq<char>> {
    if cond {
        seq![texto]
    } else {
        Seq::empty()
    }
}

/// Whether an edit carries a title (or description) that is not blank.
pub open spec fn texto_util(t: Option<String>) -> bool {
    t is Some && !en_blanco(t->0@)
}

/// The change list an edit produces, in the order the fields are examined.
pub open spec fn descripciones_de(d: ActualizarReporteError) -> Seq<Seq<char>> {
    si(texto_util(d.titulo), "título actualizado"@) + si(
        texto_util(d.descripcion),
        "descripción actualizada"@,
    ) + si(d.prioridad is Some, "prioridad modificada"@) + si(
        d.captura_url is Some,
        "captura de pantalla actualizada"@,
    ) + si(d.responsable_id is Some, "responsable asignado"@)
}

/// What an edit of a ticket writes, and what its follow-up entry needs.
#[derive(Debug, Clone, PartialEq, Eq)]
pub struct PlanActualizacion {
    pub cambios: CambiosReporte,
    pub descripciones: Vec<String>,
    pub cambio_estado: bool,
    pub estado_anterior: EstadoReporte,
}

/// The follow-up kind of a state change from `anterior` to `nuevo`.
pub open spec fn tipo_de_cambio(anterior: EstadoReporte, nuevo: EstadoReporte) -> TipoSeguimiento {
    if nuevo == EstadoReporte::Resuelto {
        TipoSeguimiento::Resolucion
    } else if anterior == EstadoReporte::Resuelto {
        TipoSeguimiento::Reapertura
    } else {
        TipoSeguimiento::CambioEstado
    }
}

/// The columns a state change writes over a ticket in state `anterior`.
pub open spec fn cambios_de_estado(
    anterior: EstadoReporte,
    c: CambiarEstadoReporte,
    ahora: i128,
) -> CambiosReporte {
    let nuevo = c.estado_nuevo;
    CambiosReporte {
        titulo: None,
        descripcion: None,
        prioridad: None,
        estado: Some(nuevo),
        captura_url: None,
        responsable_id: None,
        fecha_resolucion: if nuevo == EstadoReporte::Resuelto {
            Some(Some(ahora))
        } else if nuevo == EstadoReporte::Recibido && anterior == EstadoReporte::Resuelto {
            Some(None)
        } else {
            None
        },
        solucion: if nuevo == EstadoReporte::Resuelto && c.solucion is Some {
            Some(c.solucion)
        } else {
            None
        },
        updated_at: Some(Some(ahora)),
    }
}

/// The columns an assignment writes over a ticket in state `anterior`.
pub open spec fn cambios_de_asignacion(
    anterior: EstadoReporte,
    a: AsignarResponsableRequest,
    ahora: i128,
) -> CambiosReporte {
    CambiosReporte {
        titulo: None,
        descripcion: None,
        prioridad: None,
        estado: if anterior == EstadoReporte::Recibido {
            Some(EstadoReporte::EnRevision)
        } else {
            None
        },
        captura_url: None,
        responsable_id: Some(Some(a.responsable_id)),
        fecha_resolucion: None,
        solucion: None,
        updated_at: Some(Some(ahora)),
    }
}

/// Which tickets a listing or a count selects: every given field must match,
/// and the state must not be one of the excluded ones.
#[derive(Debug, Clone, PartialEq, Eq)]
pub struct FiltroReportes {
    pub estado: Option<EstadoReporte>,
    pub tipo: Option<TipoReporte>,
    pub prioridad: Option<PrioridadReporte>,
    pub usuario_id: Option<i32>,
    pub responsable_id: Option<i32>,
    pub estados_excluidos: Vec<EstadoReporte>,
}

impl FiltroReportes {
    /// Whether ticket `m` is selected.
    pub open spec fn coincide(self, m: Model) -> bool {
        &&& (self.estado matches Some(e) ==> m.estado == e)
        &&& (self.tipo matches Some(t) ==> m.tipo == t)
        &&& (self.prioridad matches Some(p) ==> m.prioridad == p)
        &&& (self.usuario_id matches Some(u) ==> m.usuario_id == Some(u))
        &&& (self.responsable_id matches Some(r) ==> m.responsable_id == Some(r))
        &&& !self.estados_excluidos@.contains(m.estado)
    }

    /// The selection of a listing: the tickets that match every filter given.
    pub fn de_listado(
        estado: Option<EstadoReporte>,
        tipo: Option<TipoReporte>,
        prioridad: Option<PrioridadReporte>,
        usuario_id: Option<i32>,
        responsable_id: Option<i32>,
    ) -> (f: FiltroReportes)
        ensures
            f.estado == estado,
            f.tipo == tipo,
            f.prioridad == prioridad,
            f.usuario_id == usuario_id,
            f.responsable_id == responsable_id,
            f.estados_excluidos@ == Seq::<EstadoReporte>::empty(),
    {
        FiltroReportes {
            estado,
            tipo,
            prioridad,
            usuario_id,
            responsable_id,
            estados_excluidos: Vec::new(),
        }
    }
}

/// The figures of the statistics view.
#[derive(Debug, Clone, Copy, PartialEq, Eq)]
pub struct EstadisticasReportes {
    pub total: u64,
    pub recibidos: u64,
    pub en_revision: u64,
    pub en_desarrollo: u64,
    pub resueltos: u64,
    pub rechazados: u64,
    pub criticos_pendientes: u64,
}

/// The selection counted for each figure of the statistics.
#[derive(Debug, Clone, PartialEq, Eq)]
pub struct FiltrosEstadisticas {
    pub total: FiltroReportes,
    pub recibidos: FiltroReportes,
    pub en_revision: FiltroReportes,
    pub en_desarrollo: FiltroReportes,
    pub resueltos: FiltroReportes,
    pub rechazados: FiltroReportes,
    pub criticos_pendientes: FiltroReportes,
}

/// What each figure of the statistics counts: all tickets; those in each
/// of five states; and the critical ones not yet resolved, rejected or closed.
pub open spec fn son_filtros_estadisticas(f: FiltrosEstadisticas) -> bool {
    &&& forall|m: Model| #[trigger] f.total.coincide(m)
    &&& forall|m: Model|
        #[trigger] f.recibidos.coincide(m) <==> m.estado == EstadoReporte::Recibido
    &&& forall|m: Model|
        #[trigger] f.en_revision.coincide(m) <==> m.estado == EstadoReporte::EnRevision
    &&& forall|m: Model|
        #[trigger] f.en_desarrollo.coincide(m) <==> m.estado == EstadoReporte::EnDesarrollo
    &&& forall|m: Model|
        #[trigger] f.resueltos.coincide(m) <==> m.estado == EstadoReporte::Resuelto
    &&& forall|m: Model|
        #[trigger] f.rechazados.coincide(m) <==> m.estado == EstadoReporte::Rechazado
    &&& forall|m: Model| #[trigger]
        f.criticos_pendientes.coincide(m) <==> m.prioridad == PrioridadReporte::Critica
            && m.estado != EstadoReporte::Resuelto && m.estado != EstadoReporte::Rechazado
            && m.estado != EstadoReporte::Cerrado
}

/// How many of the tickets `filas` the filter `f` selects.
pub open spec fn cuenta(filas: Seq<Model>, f: FiltroReportes) -> nat
    decreases filas.len(),
{
    if filas.len() == 0 {
        0
    } else {
        cuenta(filas.drop_last(), f) + if f.coincide(filas.last()) {
            1nat
        } else {
            0nat
        }
    }
}

/// How many of the tickets `filas` are closed.
pub open spec fn cerrados(filas: Seq<Model>) -> nat
    decreases filas.len(),
{
    if filas.len() == 0 {
        0
    } else {
        cerrados(filas.drop_last()) + if filas.last().estado == EstadoReporte::Cerrado {
            1nat
        } else {
            0nat
        }
    }
}

/// The statistics of any set of tickets add up: the five state counts and
/// the closed tickets make up the total, and the critical pending tickets
/// are among those received, in review or in development.
pub proof fn lema_estadisticas_suman(filas: Seq<Model>, f: FiltrosEstadisticas)
    requires
        son_filtros_estadisticas(f),
    ensures
        cuenta(filas, f.recibidos) + cuenta(filas, f.en_revision) + cuenta(filas, f.en_desarrollo)
            + cuenta(filas, f.resueltos) + cuenta(filas, f.rechazados) + cerrados(filas)
            == cuenta(filas, f.total),
        cuenta(filas, f.criticos_pendientes) <= cuenta(filas, f.recibidos) + cuenta(
            filas,
            f.en_revision,
        ) + cuenta(filas, f.en_desarrollo),
    decreases filas.len(),
{
    if filas.len() > 0 {
        lema_estadisticas_suman(filas.drop_last(), f);
        let m = filas.last();
        assert(f.total.coincide(m));
        assert(f.recibidos.coincide(m) <==> m.estado == EstadoReporte::Recibido);
        assert(f.en_revision.coincide(m) <==> m.estado == EstadoReporte::EnRevision);
        assert(f.en_desarrollo.coincide(m) <==> m.estado == EstadoReporte::EnDesarrollo);
        assert(f.resueltos.coincide(m) <==> m.estado == EstadoReporte::Resuelto);
        assert(f.rechazados.coincide(m) <==> m.estado == EstadoReporte::Rechazado);
        assert(f.criticos_pendientes.coincide(m) ==> m.estado == EstadoReporte::Recibido
            || m.estado == EstadoReporte::EnRevision || m.estado == EstadoReporte::EnDesarrollo);
    }
}

fn filtro_por_estado(estado: Option<EstadoReporte>) -> (f: FiltroReportes)
    ensures
        f.estado == estado,
        f.tipo is None,
        f.prioridad is None,
        f.usuario_id is None,
        f.responsable_id is None,
        f.estados_excluidos@ == Seq::<EstadoReporte>::empty(),
{
    FiltroReportes {
        estado,
        tipo: None,
        prioridad: None,
        usuario_id: None,
        responsable_id: None,
        estados_excluidos: Vec::new(),
    }
}

impl<D> ReporteErrorService<D> {
    /// The database handle the service was built with.
    pub closed spec fn base(&self) -> D {
        self.db
    }

    /// A service over the database handle `db`.
    pub fn new(db: D) -> (s: Self)
        ensures
            s.base() == db,
    {
        ReporteErrorService { db }
    }

    /// The database handle.
    pub fn db(&self) -> (r: &D)
        ensures
            *r == self.base(),
    {
        &self.db
    }

    /// The answer of a lookup by id: the ticket, or `NotFound` when there is none.
    pub fn resultado_busqueda<T>(&self, hallado: Option<T>) -> (r: Result<T, AppError>)
        ensures
            match hallado {
                Some(m) => r == Ok::<T, AppError>(m),
                None => r matches Err(AppError::NotFound(t)) && t@ == msg_no_encontrado(),
            },
    {
        match hallado {
            Some(m) => Ok(m),
            None => Err(AppError::NotFound("Reporte no encontrado".to_owned())),
        }
    }

    /// Checks a new ticket and builds the record to insert.
    pub fn preparar_reporte(&self, nuevo: NuevoReporteError, ahora: i128) -> (r: Result<
        RegistroReporte,
        AppError,
    >)
        ensures
            match falla_de_nuevo(nuevo) {
                Some(m) => r matches Err(AppError::BadRequest(t)) && t@ == m,
                None => r matches Ok(reg) && es_registro_de(reg, nuevo, ahora),
            },
    {
        let titulo = recortar(nuevo.titulo.as_str());
        if titulo.as_str().is_empty() {
            return Err(AppError::BadRequest("El título es obligatorio".to_owned()));
        }
        let descripcion = recortar(nuevo.descripcion.as_str());
        if descripcion.as_str().is_empty() {
            return Err(AppError::BadRequest("La descripción es obligatoria".to_owned()));
        }
        if nuevo.titulo.as_str().len() > 200 {
            return Err(AppError::BadRequest("El título no puede exceder 200 caracteres".to_owned()));
        }
        let prioridad = match nuevo.prioridad {
            Some(p) => p,
            None => PrioridadReporte::Media,
        };
        Ok(RegistroReporte {
            usuario_id: nuevo.usuario_id,
            titulo,
            descripcion,
            tipo: nuevo.tipo,
            prioridad,
            estado: EstadoReporte::Recibido,
            captura_url: nuevo.captura_url,
            responsable_id: None,
            fecha_resolucion: None,
            solucion: None,
            created_at: Some(ahora),
            updated_at: Some(ahora),
        })
    }

    /// A follow-up entry with the given columns, stamped `ahora`.
    pub fn seguimiento_interno(
        &self,
        reporte_id: i32,
        usuario_id: Option<i32>,
        tipo: TipoSeguimiento,
        comentario: String,
        estado_anterior: Option<EstadoReporte>,
        estado_nuevo: Option<EstadoReporte>,
        ahora: i128,
    ) -> (s: RegistroSeguimiento)
        ensures
            es_seguimiento(
                s,
                reporte_id,
                usuario_id,
                tipo,
                comentario@,
                estado_anterior,
                estado_nuevo,
                ahora,
            ),
    {
        RegistroSeguimiento {
            reporte_id,
            usuario_id,
            tipo,
            comentario,
            estado_anterior,
            estado_nuevo,
            created_at: Some(ahora),
        }
    }

    /// The entry recorded when ticket `reporte_id` is opened by `usuario_id`.
    pub fn seguimiento_de_creacion(&self, reporte_id: i32, usuario_id: Option<i32>, ahora: i128) -> (s:
        RegistroSeguimiento)
        ensures
            es_seguimiento(
                s,
                reporte_id,
                usuario_id,
                TipoSeguimiento::Otro,
                "Reporte creado y registrado en el sistema"@,
                None,
                Some(EstadoReporte::Recibido),
                ahora,
            ),
    {
        self.seguimiento_interno(
            reporte_id,
            usuario_id,
            TipoSeguimiento::Otro,
            "Reporte creado y registrado en el sistema".to_owned(),
            None,
            Some(EstadoReporte::Recibido),
            ahora,
        )
    }

    /// What an edit writes over ticket `actual`: non-blank title and
    /// description (trimmed), priority, screenshot, state, assignee, and, when
    /// the new state is `Resuelto`, the resolution instant and any solution
    /// given; the update instant always. Also the list of changes made.
    pub fn preparar_actualizacion(&self, actual: &Model, datos: ActualizarReporteError, ahora: i128) -> (p:
        PlanActualizacion)
        ensures
            p.estado_anterior == actual.estado,
            p.cambio_estado == datos.estado is Some,
            textos(p.descripciones@) == descripciones_de(datos),
            texto_util(datos.titulo) ==> (p.cambios.titulo matches Some(t) && t@ == recortado(
                datos.titulo->0@,
            )),
            !texto_util(datos.titulo) ==> p.cambios.titulo is None,
            texto_util(datos.descripcion) ==> (p.cambios.descripcion matches Some(t) && t@
                == recortado(datos.descripcion->0@)),
            !texto_util(datos.descripcion) ==> p.cambios.descripcion is None,
            p.cambios.prioridad == datos.prioridad,
            p.cambios.estado == datos.estado,
            p.cambios.captura_url == (match datos.captura_url {
                Some(c) => Some(Some(c)),
                None => None,
            }),
            p.cambios.responsable_id == (match datos.responsable_id {
                Some(r) => Some(Some(r)),
                None => None,
            }),
            p.cambios.fecha_resolucion == (if datos.estado == Some(EstadoReporte::Resuelto) {
                Some(Some(ahora))
            } else {
                None
            }),
            p.cambios.solucion == (if datos.estado == Some(EstadoReporte::Resuelto)
                && datos.solucion is Some {
                Some(datos.solucion)
            } else {
                None
            }),
            p.cambios.updated_at == Some(Some(ahora)),
    {
        let ghost d0 = datos;
        let mut desc: Vec<String> = Vec::new();
        let titulo = match datos.titulo {
            Some(t) => {
                let r = recortar(t.as_str());
                if r.as_str().is_empty() {
                    None
                } else {
                    desc.push("título actualizado".to_owned());
                    Some(r)
                }
            },
            None => None,
        };
        let ghost g1 = si(texto_util(d0.titulo), "título actualizado"@);
        assert(textos(desc@) =~= g1);
        let descripcion = match datos.descripcion {
            Some(t) => {
                let r = recortar(t.as_str());
                if r.as_str().is_empty() {
                    None
                } else {
                    desc.push("descripción actualizada".to_owned());
                    Some(r)
                }
            },
            None => None,
        };
        let ghost g2 = g1 + si(texto_util(d0.descripcion), "descripción actualizada"@);
        assert(textos(desc@) =~= g2);
        if datos.prioridad.is_some() {
            desc.push("prioridad modificada".to_owned());
        }
        let ghost g3 = g2 + si(d0.prioridad is Some, "prioridad modificada"@);
        assert(textos(desc@) =~= g3);
        let captura_url = match datos.captura_url {
            Some(c) => {
                desc.push("captura de pantalla actualizada".to_owned());
                Some(Some(c))
            },
            None => None,
        };
        let ghost g4 = g3 + si(d0.captura_url is Some, "captura de pantalla actualizada"@);
        assert(textos(desc@) =~= g4);
        let mut fecha_resolucion = None;
        let mut solucion = None;
        let cambio_estado = datos.estado.is_some();
        match datos.estado {
            Some(e) => {
                if e == EstadoReporte::Resuelto {
                    fecha_resolucion = Some(Some(ahora));
                    if datos.solucion.is_some() {
                        solucion = Some(datos.solucion);
                    }
                }
            },
            None => {},
        }
        let responsable_id = match datos.responsable_id {
            Some(r) => {
                desc.push("responsable asignado".to_owned());
                Some(Some(r))
            },
            None => None,
        };
        assert(textos(desc@) =~= g4 + si(d0.responsable_id is Some, "responsable asignado"@));
        PlanActualizacion {
            cambios: CambiosReporte {
                titulo,
                descripcion,
                prioridad: datos.prioridad,
                estado: datos.estado,
                captura_url,
                responsable_id,
                fecha_resolucion,
                solucion,
                updated_at: Some(Some(ahora)),
            },
            descripciones: desc,
            cambio_estado,
            estado_anterior: actual.estado,
        }
    }

    /// The follow-up entry of an edit, once the ticket is written back as
    /// `actualizado`: a state change records the old and new state; otherwise
    /// any change is listed in a comment; an edit that changed nothing records nothing.
    pub fn seguimiento_de_actualizacion(
        &self,
        plan: &PlanActualizacion,
        actualizado: &Model,
        usuario_accion: Option<i32>,
        ahora: i128,
    ) -> (r: Option<RegistroSeguimiento>)
        ensures
            plan.cambio_estado ==> (r matches Some(s) && es_seguimiento(
                s,
                actualizado.id,
                usuario_accion,
                TipoSeguimiento::CambioEstado,
                "Cambio de estado: "@ + plan.estado_anterior.nombre_spec() + " -> "@
                    + actualizado.estado.nombre_spec(),
                Some(plan.estado_anterior),
                Some(actualizado.estado),
                ahora,
            )),
            !plan.cambio_estado && plan.descripciones.len() > 0 ==> (r matches Some(s)
                && es_seguimiento(
                s,
                actualizado.id,
                usuario_accion,
                TipoSeguimiento::Comentario,
                "Actualización: "@ + unido(textos(plan.descripciones@), ", "@),
                None,
                None,
                ahora,
            )),
            !plan.cambio_estado && plan.descripciones.len() == 0 ==> r is None,
    {
        if plan.cambio_estado {
            let mut c = "Cambio de estado: ".to_owned();
            c.append(plan.estado_anterior.nombre());
            c.append(" -> ");
            c.append(actualizado.estado.nombre());
            Some(
                self.seguimiento_interno(
                    actualizado.id,
                    usuario_accion,
                    TipoSeguimiento::CambioEstado,
                    c,
                    Some(plan.estado_anterior),
                    Some(actualizado.estado),
                    ahora,
                ),
            )
        } else if plan.descripciones.len() > 0 {
            let mut c = "Actualización: ".to_owned();
            let lista = unir(&plan.descripciones, ", ");
            c.append(lista.as_str());
            Some(
                self.seguimiento_interno(
                    actualizado.id,
                    usuario_accion,
                    TipoSeguimiento::Comentario,
                    c,
                    None,
                    None,
                    ahora,
                ),
            )
        } else {
            None
        }
    }

    /// What a state change writes over ticket `actual`: the new state and
    /// update instant; on `Resuelto` the resolution instant and any solution
    /// given; on a reopening (`Resuelto` back to `Recibido`) a cleared
    /// resolution instant.
    pub fn preparar_cambio_estado(&self, actual: &Model, cambio: &CambiarEstadoReporte, ahora: i128) -> (c:
        CambiosReporte)
        ensures
            c == cambios_de_estado(actual.estado, *cambio, ahora),
    {
        let nuevo = cambio.estado_nuevo;
        let mut fecha_resolucion = None;
        let mut solucion = None;
        if nuevo == EstadoReporte::Resuelto {
            fecha_resolucion = Some(Some(ahora));
            if cambio.solucion.is_some() {
                solucion = Some(cambio.solucion.clone());
            }
        }
        if nuevo == EstadoReporte::Recibido && actual.estado == EstadoReporte::Resuelto {
            fecha_resolucion = Some(None);
        }
        CambiosReporte {
            titulo: None,
            descripcion: None,
            prioridad: None,
            estado: Some(nuevo),
            captura_url: None,
            responsable_id: None,
            fecha_resolucion,
            solucion,
            updated_at: Some(Some(ahora)),
        }
    }

    /// The follow-up entry of a state change of ticket `reporte_id` from
    /// `estado_anterior`: its kind by `tipo_de_cambio`, the comment given or
    /// `Estado cambiado a: <state>`, and both states.
    pub fn seguimiento_de_cambio_estado(
        &self,
        reporte_id: i32,
        estado_anterior: EstadoReporte,
        cambio: CambiarEstadoReporte,
        ahora: i128,
    ) -> (s: RegistroSeguimiento)
        ensures
            es_seguimiento(
                s,
                reporte_id,
                cambio.usuario_id,
                tipo_de_cambio(estado_anterior, cambio.estado_nuevo),
                match cambio.comentario {
                    Some(c) => c@,
                    None => "Estado cambiado a: "@ + cambio.estado_nuevo.nombre_spec(),
                },
                Some(estado_anterior),
                Some(cambio.estado_nuevo),
                ahora,
            ),
    {
        let nuevo = cambio.estado_nuevo;
        let tipo = if nuevo == EstadoReporte::Resuelto {
            TipoSeguimiento::Resolucion
        } else if estado_anterior == EstadoReporte::Resuelto {
            TipoSeguimiento::Reapertura
        } else {
            TipoSeguimiento::CambioEstado
        };
        let comentario = match cambio.comentario {
            Some(c) => c,
            None => {
                let mut c = "Estado cambiado a: ".to_owned();
                c.append(nuevo.nombre());
                c
            },
        };
        self.seguimiento_interno(
            reporte_id,
            cambio.usuario_id,
            tipo,
            comentario,
            Some(estado_anterior),
            Some(nuevo),
            ahora,
        )
    }

    /// What an assignment writes over ticket `actual`: the assignee and update
    /// instant, and state `EnRevision` if the ticket was `Recibido`.
    pub fn preparar_asignacion(&self, actual: &Model, asignacion: &AsignarResponsableRequest, ahora: i128) -> (c:
        CambiosReporte)
        ensures
            c == cambios_de_asignacion(actual.estado, *asignacion, ahora),
    {
        let estado = if actual.estado == EstadoReporte::Recibido {
            Some(EstadoReporte::EnRevision)
        } else {
            None
        };
        CambiosReporte {
            titulo: None,
            descripcion: None,
            prioridad: None,
            estado,
            captura_url: None,
            responsable_id: Some(Some(asignacion.responsable_id)),
            fecha_resolucion: None,
            solucion: None,
            updated_at: Some(Some(ahora)),
        }
    }

    /// The follow-up entry of an assignment of ticket `reporte_id`: the
    /// comment given, or `Responsable asignado: usuario <id>`.
    pub fn seguimiento_de_asignacion(
        &self,
        reporte_id: i32,
        asignacion: AsignarResponsableRequest,
        usuario_accion: Option<i32>,
        ahora: i128,
    ) -> (s: RegistroSeguimiento)
        ensures
            es_seguimiento(
                s,
                reporte_id,
                usuario_accion,
                TipoSeguimiento::Asignacion,
                match asignacion.comentario {
                    Some(c) => c@,
                    None => "Responsable asignado: usuario "@ + decimal(
                        asignacion.responsable_id as int,
                    ),
                },
                None,
                None,
                ahora,
            ),
    {
        let comentario = match asignacion.comentario {
            Some(c) => c,
            None => {
                let mut c = "Responsable asignado: usuario ".to_owned();
                let id = formatear_entero(asignacion.responsable_id as i64);
                c.append(id.as_str());
                c
            },
        };
        self.seguimiento_interno(
            reporte_id,
            usuario_accion,
            TipoSeguimiento::Asignacion,
            comentario,
            None,
            None,
            ahora,
        )
    }

    /// Checks a manual follow-up entry and builds the record to insert, with
    /// its comment trimmed; a blank comment is refused.
    pub fn preparar_seguimiento(&self, seguimiento: NuevoSeguimientoReporte, ahora: i128) -> (r: Result<
        RegistroSeguimiento,
        AppError,
    >)
        ensures
            en_blanco(seguimiento.comentario@) ==> (r matches Err(AppError::BadRequest(t)) && t@
                == "El comentario es obligatorio"@),
            !en_blanco(seguimiento.comentario@) ==> (r matches Ok(s) && es_seguimiento(
                s,
                seguimiento.reporte_id,
                seguimiento.usuario_id,
                seguimiento.tipo,
                recortado(seguimiento.comentario@),
                seguimiento.estado_anterior,
                seguimiento.estado_nuevo,
                ahora,
            )),
    {
        let comentario = recortar(seguimiento.comentario.as_str());
        if comentario.as_str().is_empty() {
            return Err(AppError::BadRequest("El comentario es obligatorio".to_owned()));
        }
        Ok(
            self.seguimiento_interno(
                seguimiento.reporte_id,
                seguimiento.usuario_id,
                seguimiento.tipo,
                comentario,
                seguimiento.estado_anterior,
                seguimiento.estado_nuevo,
                ahora,
            ),
        )
    }

    /// What each figure of the statistics counts: all tickets; those in each
    /// of five states; and the critical ones not yet resolved, rejected or closed.
    pub fn filtros_estadisticas(&self) -> (f: FiltrosEstadisticas)
        ensures
            son_filtros_estadisticas(f),
    {
        let mut excluidos = Vec::new();
        excluidos.push(EstadoReporte::Resuelto);
        excluidos.push(EstadoReporte::Rechazado);
        excluidos.push(EstadoReporte::Cerrado);
        let criticos = FiltroReportes {
            estado: None,
            tipo: None,
            prioridad: Some(PrioridadReporte::Critica),
            usuario_id: None,
            responsable_id: None,
            estados_excluidos: excluidos,
        };
        assert forall|m: Model| #[trigger]
            criticos.coincide(m) <==> m.prioridad == PrioridadReporte::Critica && m.estado
                != EstadoReporte::Resuelto && m.estado != EstadoReporte::Rechazado && m.estado
                != EstadoReporte::Cerrado by {
            assert(criticos.estados_excluidos@ == seq![
                EstadoReporte::Resuelto,
                EstadoReporte::Rechazado,
                EstadoReporte::Cerrado,
            ]);
            if m.estado == EstadoReporte::Resuelto {
                assert(criticos.estados_excluidos@[0] == m.estado);
            }
            if m.estado == EstadoReporte::Rechazado {
                assert(criticos.estados_excluidos@[1] == m.estado);
            }
            if m.estado == EstadoReporte::Cerrado {
                assert(criticos.estados_excluidos@[2] == m.estado);
            }
        }
        FiltrosEstadisticas {
            total: filtro_por_estado(None),
            recibidos: filtro_por_estado(Some(EstadoReporte::Recibido)),
            en_revision: filtro_por_estado(Some(EstadoReporte::EnRevision)),
            en_desarrollo: filtro_por_estado(Some(EstadoReporte::EnDesarrollo)),
            resueltos: filtro_por_estado(Some(EstadoReporte::Resuelto)),
            rechazados: filtro_por_estado(Some(EstadoReporte::Rechazado)),
            criticos_pendientes: criticos,
        }
    }
}

/// A state change is recorded as a resolution exactly when it moves the
/// ticket to `Resuelto`, as a reopening exactly when it moves a resolved
/// ticket to another state, and as a plain state change in every other case.
pub proof fn lema_tipo_de_cambio(anterior: EstadoReporte, nuevo: EstadoReporte)
    ensures
        (tipo_de_cambio(anterior, nuevo) == TipoSeguimiento::Resolucion) <==> (nuevo
            == EstadoReporte::Resuelto),
        (tipo_de_cambio(anterior, nuevo) == TipoSeguimiento::Reapertura) <==> (nuevo
            != EstadoReporte::Resuelto && anterior == EstadoReporte::Resuelto),
        (tipo_de_cambio(anterior, nuevo) == TipoSeguimiento::CambioEstado) <==> (nuevo
            != EstadoReporte::Resuelto && anterior != EstadoReporte::Resuelto),
{
}

/// An edit, a state change or an assignment never alters a ticket's id,
/// author, kind or creation instant.
pub proof fn lema_columnas_fijas(c: CambiosReporte, m: Model)
    ensures
        c.aplicar(m).id == m.id,
        c.aplicar(m).usuario_id == m.usuario_id,
        c.aplicar(m).tipo == m.tipo,
        c.aplicar(m).created_at == m.created_at,
{
}

/// Resolving a ticket stamps the resolution instant, keeps the solution
/// given, and is recorded as a resolution.
pub proof fn lema_resolucion(m: Model, c: CambiarEstadoReporte, ahora: i128)
    requires
        c.estado_nuevo == EstadoReporte::Resuelto,
    ensures
        cambios_de_estado(m.estado, c, ahora).aplicar(m).estado == EstadoReporte::Resuelto,
        cambios_de_estado(m.estado, c, ahora).aplicar(m).fecha_resolucion == Some(ahora),
        c.solucion is Some ==> cambios_de_estado(m.estado, c, ahora).aplicar(m).solucion
            == c.solucion,
        c.solucion is None ==> cambios_de_estado(m.estado, c, ahora).aplicar(m).solucion
            == m.solucion,
        tipo_de_cambio(m.estado, c.estado_nuevo) == TipoSeguimiento::Resolucion,
{
}

/// Reopening a resolved ticket (moving it back to `Recibido`) clears the
/// resolution instant that resolving set, and is recorded as a reopening.
pub proof fn lema_reapertura(
    m: Model,
    resolver: CambiarEstadoReporte,
    reabrir: CambiarEstadoReporte,
    t1: i128,
    t2: i128,
)
    requires
        resolver.estado_nuevo == EstadoReporte::Resuelto,
        reabrir.estado_nuevo == EstadoReporte::Recibido,
    ensures
        ({
            let m1 = cambios_de_estado(m.estado, resolver, t1).aplicar(m);
            let m2 = cambios_de_estado(m1.estado, reabrir, t2).aplicar(m1);
            &&& m1.fecha_resolucion == Some(t1)
            &&& m2.estado == EstadoReporte::Recibido
            &&& m2.fecha_resolucion == None::<i128>
            &&& m2.solucion == m1.solucion
            &&& tipo_de_cambio(m1.estado, reabrir.estado_nuevo) == TipoSeguimiento::Reapertura
        }),
{
}

/// A state change that neither resolves nor reopens leaves the resolution
/// instant and the solution as they were.
pub proof fn lema_cambio_sin_resolucion(m: Model, c: CambiarEstadoReporte, ahora: i128)
    requires
        c.estado_nuevo != EstadoReporte::Resuelto,
        !(c.estado_nuevo == EstadoReporte::Recibido && m.estado == EstadoReporte::Resuelto),
    ensures
        cambios_de_estado(m.estado, c, ahora).aplicar(m).estado == c.estado_nuevo,
        cambios_de_estado(m.estado, c, ahora).aplicar(m).fecha_resolucion == m.fecha_resolucion,
        cambios_de_estado(m.estado, c, ahora).aplicar(m).solucion == m.solucion,
{
}

/// Assigning a ticket sets its assignee and moves it from `Recibido` to
/// `EnRevision`; a ticket in any other state keeps its state.
pub proof fn lema_asignacion(m: Model, a: AsignarResponsableRequest, ahora: i128)
    ensures
        cambios_de_asignacion(m.estado, a, ahora).aplicar(m).responsable_id == Some(
            a.responsable_id,
        ),
        m.estado == EstadoReporte::Recibido ==> cambios_de_asignacion(m.estado, a, ahora).aplicar(
            m,
        ).estado == EstadoReporte::EnRevision,
        m.estado != EstadoReporte::Recibido ==> cambios_de_asignacion(m.estado, a, ahora).aplicar(
            m,
        ).estado == m.estado,
{
}

/// A listing with no filter selects every ticket.
pub proof fn lema_filtro_vacio(f: FiltroReportes, m: Model)
    requires
        f.estado is None,
        f.tipo is None,
        f.prioridad is None,
        f.usuario_id is None,
        f.responsable_id is None,
        f.estados_excluidos@.len() == 0,
    ensures
        f.coincide(m),
{
}

} // verus!
