use rust_api_backend::errors::AppError;
use rust_api_backend::handlers::soporte::{
    cambio_del_autor, extract_user_id, filtro_listar_soportes, filtro_mis_soportes,
    filtro_soportes_asignados, nuevo_del_autor, seguimiento_del_autor, ListarSoportesQuery,
};
use rust_api_backend::models::auth::AuthUser;
use rust_api_backend::models::soporte::{
    ActualizarSoporteError, AsignarResponsableRequest, CambiarEstadoSoporte, CambiosSoporte,
    EstadoSoporte, Model, NuevoSeguimientoSoporte, NuevoSoporteError, PrioridadSoporte,
    TipoSeguimientoSoporte, TipoSoporte,
};
use rust_api_backend::services::soporte_service::{FiltroSoportes, SoporteService};

const AHORA: i128 = 1_700_000_000_000_000_000;

fn servicio() -> SoporteService<()> {
    SoporteService::new(())
}

fn nuevo(titulo: &str, descripcion: &str) -> NuevoSoporteError {
    NuevoSoporteError {
        usuario_id: Some(3),
        titulo: titulo.to_string(),
        descripcion: descripcion.to_string(),
        tipo: TipoSoporte::Error,
        prioridad: None,
        captura_url: Some("http://img/1.png".to_string()),
    }
}

fn ticket(estado: EstadoSoporte) -> Model {
    Model {
        id: 9,
        usuario_id: Some(3),
        titulo: "Falla".to_string(),
        descripcion: "No carga".to_string(),
        tipo: TipoSoporte::Error,
        prioridad: PrioridadSoporte::Media,
        estado,
        captura_url: None,
        responsable_id: None,
        fecha_resolucion: None,
        solucion: None,
        created_at: Some(1),
        updated_at: Some(1),
    }
}

fn aplicar(m: &Model, c: &CambiosSoporte) -> Model {
    let mut r = m.clone();
    if let Some(v) = &c.titulo { r.titulo = v.clone(); }
    if let Some(v) = &c.descripcion { r.descripcion = v.clone(); }
    if let Some(v) = c.prioridad { r.prioridad = v; }
    if let Some(v) = c.estado { r.estado = v; }
    if let Some(v) = &c.captura_url { r.captura_url = v.clone(); }
    if let Some(v) = c.responsable_id { r.responsable_id = v; }
    if let Some(v) = c.fecha_resolucion { r.fecha_resolucion = v; }
    if let Some(v) = &c.solucion { r.solucion = v.clone(); }
    if let Some(v) = c.updated_at { r.updated_at = v; }
    r
}

#[test]
fn soporte_nuevo_recibido_con_prioridad_media() {
    let r = servicio().preparar_soporte(nuevo("  Falla  ", " No carga "), AHORA).unwrap();
    assert_eq!(r.titulo, "Falla");
    assert_eq!(r.descripcion, "No carga");
    assert_eq!(r.estado, EstadoSoporte::Recibido);
    assert_eq!(r.prioridad, PrioridadSoporte::Media);
    assert_eq!(r.usuario_id, Some(3));
    assert_eq!(r.responsable_id, None);
    assert_eq!(r.fecha_resolucion, None);
    assert_eq!(r.created_at, Some(AHORA));
    assert_eq!(r.updated_at, Some(AHORA));
    let mut con_prioridad = nuevo("a", "b");
    con_prioridad.prioridad = Some(PrioridadSoporte::Critica);
    assert_eq!(servicio().preparar_soporte(con_prioridad, AHORA).unwrap().prioridad, PrioridadSoporte::Critica);
}

#[test]
fn soporte_nuevo_validaciones() {
    let s = servicio();
    assert_eq!(
        s.preparar_soporte(nuevo("   ", "x"), AHORA),
        Err(AppError::BadRequest("El título es obligatorio".to_string()))
    );
    assert_eq!(
        s.preparar_soporte(nuevo("t", "\n\t"), AHORA),
        Err(AppError::BadRequest("La descripción es obligatoria".to_string()))
    );
    // 200 bytes pass, 201 fail; the limit counts bytes of the untrimmed title
    assert!(s.preparar_soporte(nuevo(&"a".repeat(200), "x"), AHORA).is_ok());
    assert_eq!(
        s.preparar_soporte(nuevo(&"a".repeat(201), "x"), AHORA),
        Err(AppError::BadRequest("El título no puede exceder 200 caracteres".to_string()))
    );
    assert!(s.preparar_soporte(nuevo(&"ñ".repeat(101), "x"), AHORA).is_err());
    assert!(s.preparar_soporte(nuevo(&format!("{} ", "a".repeat(200)), "x"), AHORA).is_err());
}

#[test]
fn soporte_seguimiento_de_creacion() {
    let s = servicio().seguimiento_de_creacion(9, Some(3), AHORA);
    assert_eq!(s.soporte_id, 9);
    assert_eq!(s.tipo, TipoSeguimientoSoporte::Otro);
    assert_eq!(s.comentario, "Reporte creado y registrado en el sistema");
    assert_eq!(s.estado_anterior, None);
    assert_eq!(s.estado_nuevo, Some(EstadoSoporte::Recibido));
    assert_eq!(s.created_at, Some(AHORA));
}

#[test]
fn soporte_no_encontrado() {
    let s = servicio();
    assert_eq!(
        s.resultado_busqueda::<Model>(None),
        Err(AppError::NotFound("Soporte no encontrado".to_string()))
    );
    assert_eq!(s.resultado_busqueda(Some(5)), Ok(5));
}

#[test]
fn soporte_actualizacion_lista_cambios() {
    let s = servicio();
    let actual = ticket(EstadoSoporte::EnRevision);
    let datos = ActualizarSoporteError {
        titulo: Some("  Nuevo  ".to_string()),
        descripcion: Some("   ".to_string()),
        prioridad: Some(PrioridadSoporte::Alta),
        estado: None,
        captura_url: Some("c.png".to_string()),
        responsable_id: Some(8),
        solucion: Some("ignorada".to_string()),
    };
    let plan = s.preparar_actualizacion(&actual, datos, AHORA);
    assert_eq!(plan.descripciones, vec![
        "título actualizado".to_string(),
        "prioridad modificada".to_string(),
        "captura de pantalla actualizada".to_string(),
        "responsable asignado".to_string(),
    ]);
    assert!(!plan.cambio_estado);
    assert_eq!(plan.cambios.titulo, Some("Nuevo".to_string()));
    assert_eq!(plan.cambios.descripcion, None);
    assert_eq!(plan.cambios.solucion, None);
    assert_eq!(plan.cambios.fecha_resolucion, None);
    let actualizado = aplicar(&actual, &plan.cambios);
    assert_eq!(actualizado.responsable_id, Some(8));
    assert_eq!(actualizado.updated_at, Some(AHORA));
    let seg = s.seguimiento_de_actualizacion(&plan, &actualizado, Some(1), AHORA).unwrap();
    assert_eq!(seg.tipo, TipoSeguimientoSoporte::Comentario);
    assert_eq!(
        seg.comentario,
        "Actualización: título actualizado, prioridad modificada, captura de pantalla actualizada, responsable asignado"
    );
    assert_eq!(seg.estado_anterior, None);
}

#[test]
fn soporte_actualizacion_con_estado() {
    let s = servicio();
    let actual = ticket(EstadoSoporte::EnDesarrollo);
    let datos = ActualizarSoporteError {
        titulo: None,
        descripcion: None,
        prioridad: None,
        estado: Some(EstadoSoporte::Resuelto),
        captura_url: None,
        responsable_id: None,
        solucion: Some("reiniciar".to_string()),
    };
    let plan = s.preparar_actualizacion(&actual, datos, AHORA);
    assert!(plan.cambio_estado);
    assert_eq!(plan.cambios.fecha_resolucion, Some(Some(AHORA)));
    assert_eq!(plan.cambios.solucion, Some(Some("reiniciar".to_string())));
    let actualizado = aplicar(&actual, &plan.cambios);
    let seg = s.seguimiento_de_actualizacion(&plan, &actualizado, Some(2), AHORA).unwrap();
    assert_eq!(seg.tipo, TipoSeguimientoSoporte::CambioEstado);
    assert_eq!(seg.comentario, "Cambio de estado: EnDesarrollo -> Resuelto");
    assert_eq!(seg.estado_anterior, Some(EstadoSoporte::EnDesarrollo));
    assert_eq!(seg.estado_nuevo, Some(EstadoSoporte::Resuelto));
    assert_eq!(seg.usuario_id, Some(2));
}

#[test]
fn soporte_actualizacion_vacia_no_registra() {
    let s = servicio();
    let actual = ticket(EstadoSoporte::Recibido);
    let datos = ActualizarSoporteError {
        titulo: Some(" ".to_string()),
        descripcion: None,
        prioridad: None,
        estado: None,
        captura_url: None,
        responsable_id: None,
        solucion: None,
    };
    let plan = s.preparar_actualizacion(&actual, datos, AHORA);
    assert!(plan.descripciones.is_empty());
    assert_eq!(plan.cambios.updated_at, Some(Some(AHORA)));
    assert!(s.seguimiento_de_actualizacion(&plan, &actual, None, AHORA).is_none());
}

#[test]
fn soporte_resolver_y_reabrir() {
    let s = servicio();
    let m0 = ticket(EstadoSoporte::EnRevision);
    let resolver = CambiarEstadoSoporte {
        estado_nuevo: EstadoSoporte::Resuelto,
        comentario: None,
        usuario_id: Some(4),
        solucion: Some("parche".to_string()),
    };
    let c1 = s.preparar_cambio_estado(&m0, &resolver, AHORA);
    let m1 = aplicar(&m0, &c1);
    assert_eq!(m1.estado, EstadoSoporte::Resuelto);
    assert_eq!(m1.fecha_resolucion, Some(AHORA));
    assert_eq!(m1.solucion, Some("parche".to_string()));
    let seg1 = s.seguimiento_de_cambio_estado(m1.id, m0.estado, resolver, AHORA);
    assert_eq!(seg1.tipo, TipoSeguimientoSoporte::Resolucion);
    assert_eq!(seg1.comentario, "Estado cambiado a: Resuelto");
    let reabrir = CambiarEstadoSoporte {
        estado_nuevo: EstadoSoporte::Recibido,
        comentario: Some("vuelve a fallar".to_string()),
        usuario_id: Some(4),
        solucion: None,
    };
    let c2 = s.preparar_cambio_estado(&m1, &reabrir, AHORA + 5);
    let m2 = aplicar(&m1, &c2);
    assert_eq!(m2.estado, EstadoSoporte::Recibido);
    assert_eq!(m2.fecha_resolucion, None);
    assert_eq!(m2.solucion, Some("parche".to_string()));
    assert_eq!(m2.updated_at, Some(AHORA + 5));
    let seg2 = s.seguimiento_de_cambio_estado(m2.id, m1.estado, reabrir, AHORA + 5);
    assert_eq!(seg2.tipo, TipoSeguimientoSoporte::Reapertura);
    assert_eq!(seg2.comentario, "vuelve a fallar");
    assert_eq!(seg2.estado_anterior, Some(EstadoSoporte::Resuelto));
}

#[test]
fn soporte_cambio_estado_comun() {
    let s = servicio();
    let m0 = ticket(EstadoSoporte::Recibido);
    let cambio = CambiarEstadoSoporte {
        estado_nuevo: EstadoSoporte::Rechazado,
        comentario: None,
        usuario_id: None,
        solucion: Some("no aplica".to_string()),
    };
    let c = s.preparar_cambio_estado(&m0, &cambio, AHORA);
    assert_eq!(c.fecha_resolucion, None);
    assert_eq!(c.solucion, None);
    let seg = s.seguimiento_de_cambio_estado(9, m0.estado, cambio, AHORA);
    assert_eq!(seg.tipo, TipoSeguimientoSoporte::CambioEstado);
    assert_eq!(seg.comentario, "Estado cambiado a: Rechazado");
}

#[test]
fn soporte_asignacion() {
    let s = servicio();
    let a = AsignarResponsableRequest { responsable_id: 12, comentario: None };
    let m = aplicar(&ticket(EstadoSoporte::Recibido), &s.preparar_asignacion(&ticket(EstadoSoporte::Recibido), &a, AHORA));
    assert_eq!(m.estado, EstadoSoporte::EnRevision);
    assert_eq!(m.responsable_id, Some(12));
    let otro = ticket(EstadoSoporte::EnDesarrollo);
    let m2 = aplicar(&otro, &s.preparar_asignacion(&otro, &a, AHORA));
    assert_eq!(m2.estado, EstadoSoporte::EnDesarrollo);
    let seg = s.seguimiento_de_asignacion(9, a, Some(1), AHORA);
    assert_eq!(seg.tipo, TipoSeguimientoSoporte::Asignacion);
    assert_eq!(seg.comentario, "Responsable asignado: usuario 12");
    let con_comentario = AsignarResponsableRequest { responsable_id: -5, comentario: Some("tuyo".to_string()) };
    assert_eq!(s.seguimiento_de_asignacion(9, con_comentario, None, AHORA).comentario, "tuyo");
}

#[test]
fn soporte_seguimiento_manual() {
    let s = servicio();
    let seg = NuevoSeguimientoSoporte {
        soporte_id: 9,
        usuario_id: Some(2),
        tipo: TipoSeguimientoSoporte::Comentario,
        comentario: "  revisado  ".to_string(),
        estado_anterior: None,
        estado_nuevo: None,
    };
    let r = s.preparar_seguimiento(seg.clone(), AHORA).unwrap();
    assert_eq!(r.comentario, "revisado");
    assert_eq!(r.soporte_id, 9);
    let vacio = NuevoSeguimientoSoporte { comentario: " \t ".to_string(), ..seg };
    assert_eq!(
        s.preparar_seguimiento(vacio, AHORA),
        Err(AppError::BadRequest("El comentario es obligatorio".to_string()))
    );
}

#[test]
fn soporte_filtros_estadisticas() {
    let f = servicio().filtros_estadisticas();
    assert_eq!(f.total.estado, None);
    assert_eq!(f.recibidos.estado, Some(EstadoSoporte::Recibido));
    assert_eq!(f.en_revision.estado, Some(EstadoSoporte::EnRevision));
    assert_eq!(f.en_desarrollo.estado, Some(EstadoSoporte::EnDesarrollo));
    assert_eq!(f.resueltos.estado, Some(EstadoSoporte::Resuelto));
    assert_eq!(f.rechazados.estado, Some(EstadoSoporte::Rechazado));
    assert_eq!(f.criticos_pendientes.prioridad, Some(PrioridadSoporte::Critica));
    assert_eq!(
        f.criticos_pendientes.estados_excluidos,
        vec![EstadoSoporte::Resuelto, EstadoSoporte::Rechazado, EstadoSoporte::Cerrado]
    );
}

#[test]
fn soporte_handlers_usan_al_autor() {
    let auth = AuthUser { user_id: 77 };
    assert_eq!(extract_user_id(&auth), Some(77));
    assert_eq!(nuevo_del_autor(nuevo("a", "b"), &auth).usuario_id, Some(77));
    let cambio = CambiarEstadoSoporte {
        estado_nuevo: EstadoSoporte::Cerrado,
        comentario: None,
        usuario_id: Some(1),
        solucion: None,
    };
    assert_eq!(cambio_del_autor(cambio, &auth).usuario_id, Some(77));
    let seg = NuevoSeguimientoSoporte {
        soporte_id: 1,
        usuario_id: None,
        tipo: TipoSeguimientoSoporte::Otro,
        comentario: "x".to_string(),
        estado_anterior: None,
        estado_nuevo: None,
    };
    let r = seguimiento_del_autor(seg, 31, &auth);
    assert_eq!((r.soporte_id, r.usuario_id), (31, Some(77)));
    let q = ListarSoportesQuery {
        estado: Some(EstadoSoporte::Recibido),
        tipo: None,
        prioridad: None,
        usuario_id: Some(5),
        responsable_id: Some(6),
        limit: Some(10),
        offset: None,
    };
    let f = filtro_listar_soportes(&q);
    assert_eq!((f.usuario_id, f.responsable_id, f.estado), (Some(5), Some(6), Some(EstadoSoporte::Recibido)));
    let f = filtro_mis_soportes(&q, &auth);
    assert_eq!((f.usuario_id, f.responsable_id), (Some(77), Some(6)));
    let f = filtro_soportes_asignados(&q, &auth);
    assert_eq!((f.usuario_id, f.responsable_id), (Some(5), Some(77)));
}

#[test]
fn soporte_nombres_de_estado() {
    for e in [
        EstadoSoporte::Recibido,
        EstadoSoporte::EnRevision,
        EstadoSoporte::EnDesarrollo,
        EstadoSoporte::Resuelto,
        EstadoSoporte::Rechazado,
        EstadoSoporte::Cerrado,
    ] {
        assert_eq!(e.nombre(), format!("{:?}", e));
    }
}

fn selecciona(f: &FiltroSoportes, m: &Model) -> bool {
    f.estado.map_or(true, |e| m.estado == e)
        && f.tipo.map_or(true, |t| m.tipo == t)
        && f.prioridad.map_or(true, |p| m.prioridad == p)
        && f.usuario_id.map_or(true, |u| m.usuario_id == Some(u))
        && f.responsable_id.map_or(true, |r| m.responsable_id == Some(r))
        && !f.estados_excluidos.contains(&m.estado)
}

#[test]
fn soporte_estadisticas_suman() {
    let estados = [
        EstadoSoporte::Recibido,
        EstadoSoporte::EnRevision,
        EstadoSoporte::EnDesarrollo,
        EstadoSoporte::Resuelto,
        EstadoSoporte::Rechazado,
        EstadoSoporte::Cerrado,
    ];
    let mut filas = Vec::new();
    for (k, e) in estados.iter().enumerate() {
        for critica in [false, true] {
            let mut m = ticket(*e);
            m.id = k as i32;
            if critica {
                m.prioridad = PrioridadSoporte::Critica;
            }
            filas.push(m);
        }
    }
    filas.push(ticket(EstadoSoporte::Cerrado));
    let f = servicio().filtros_estadisticas();
    let cuenta = |g: &FiltroSoportes| filas.iter().filter(|m| selecciona(g, m)).count();
    assert_eq!(cuenta(&f.total), 13);
    assert_eq!(
        (cuenta(&f.recibidos), cuenta(&f.en_revision), cuenta(&f.en_desarrollo), cuenta(&f.resueltos), cuenta(&f.rechazados)),
        (2, 2, 2, 2, 2)
    );
    // the five state counts and the closed tickets make up the total
    let cerrados = filas.iter().filter(|m| m.estado == EstadoSoporte::Cerrado).count();
    assert_eq!(cerrados, 3);
    let en_estados = cuenta(&f.recibidos) + cuenta(&f.en_revision) + cuenta(&f.en_desarrollo)
        + cuenta(&f.resueltos) + cuenta(&f.rechazados);
    assert_eq!(en_estados + cerrados, cuenta(&f.total));
    // the critical pending tickets are the critical ones received, in review or in development
    assert_eq!(cuenta(&f.criticos_pendientes), 3);
}
