use rust_api_backend::models::reporte_error as re;
use rust_api_backend::models::soporte as so;
use rust_api_backend::services::reporte_error_service::ReporteErrorService;
use rust_api_backend::services::soporte_service::SoporteService;

const AHORA: i128 = 1_700_000_000_000_000_000;

#[test]
fn ambos_flujos_validan_igual() {
    let s = SoporteService::new(());
    let r = ReporteErrorService::new(());
    for (titulo, descripcion) in [("  ", "x"), ("t", " "), (&*"é".repeat(101), "x"), (" ok ", " bien ")] {
        let ns = so::NuevoSoporteError {
            usuario_id: Some(1),
            titulo: titulo.to_string(),
            descripcion: descripcion.to_string(),
            tipo: so::TipoSoporte::Mejora,
            prioridad: Some(so::PrioridadSoporte::Alta),
            captura_url: None,
        };
        let nr = re::NuevoReporteError {
            usuario_id: Some(1),
            titulo: titulo.to_string(),
            descripcion: descripcion.to_string(),
            tipo: re::TipoReporte::Mejora,
            prioridad: Some(re::PrioridadReporte::Alta),
            captura_url: None,
        };
        match (s.preparar_soporte(ns, AHORA), r.preparar_reporte(nr, AHORA)) {
            (Err(a), Err(b)) => assert_eq!(a, b),
            (Ok(a), Ok(b)) => {
                assert_eq!((a.titulo, a.descripcion), (b.titulo, b.descripcion));
                assert_eq!(a.estado.nombre(), b.estado.nombre());
                assert_eq!((a.created_at, a.updated_at), (b.created_at, b.updated_at));
            }
            _ => panic!("los flujos discrepan en {:?}", titulo),
        }
    }
}

#[test]
fn ambos_flujos_resuelven_igual() {
    let s = SoporteService::new(());
    let r = ReporteErrorService::new(());
    let ms = so::Model {
        id: 2,
        usuario_id: None,
        titulo: "t".to_string(),
        descripcion: "d".to_string(),
        tipo: so::TipoSoporte::Error,
        prioridad: so::PrioridadSoporte::Baja,
        estado: so::EstadoSoporte::Resuelto,
        captura_url: None,
        responsable_id: None,
        fecha_resolucion: Some(5),
        solucion: None,
        created_at: Some(1),
        updated_at: Some(1),
    };
    let mr = re::Model {
        id: 2,
        usuario_id: None,
        titulo: "t".to_string(),
        descripcion: "d".to_string(),
        tipo: re::TipoReporte::Error,
        prioridad: re::PrioridadReporte::Baja,
        estado: re::EstadoReporte::Resuelto,
        captura_url: None,
        responsable_id: None,
        fecha_resolucion: Some(5),
        solucion: None,
        created_at: Some(1),
        updated_at: Some(1),
    };
    let cs = so::CambiarEstadoSoporte {
        estado_nuevo: so::EstadoSoporte::Recibido,
        comentario: None,
        usuario_id: Some(7),
        solucion: None,
    };
    let cr = re::CambiarEstadoReporte {
        estado_nuevo: re::EstadoReporte::Recibido,
        comentario: None,
        usuario_id: Some(7),
        solucion: None,
    };
    let a = s.preparar_cambio_estado(&ms, &cs, AHORA);
    let b = r.preparar_cambio_estado(&mr, &cr, AHORA);
    assert_eq!(a.estado.map(|e| e.nombre()), b.estado.map(|e| e.nombre()));
    assert_eq!(a.fecha_resolucion, Some(None));
    assert_eq!((a.fecha_resolucion, a.updated_at), (b.fecha_resolucion, b.updated_at));
    let sa = s.seguimiento_de_cambio_estado(2, ms.estado, cs, AHORA);
    let sb = r.seguimiento_de_cambio_estado(2, mr.estado, cr, AHORA);
    assert_eq!(sa.comentario, sb.comentario);
    assert_eq!(format!("{:?}", sa.tipo), format!("{:?}", sb.tipo));
}
