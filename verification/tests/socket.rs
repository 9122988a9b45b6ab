use rust_api_backend::services::socket_service::{capacidad_acumulada, debe_compactar_con, SocketService};

fn ids(s: &SocketService<u32>, u: i64) -> Vec<(String, u32)> {
    s.conexiones_de(u)
        .map(|v| v.iter().map(|c| (c.socket_id.clone(), c.sender)).collect())
        .unwrap_or_default()
}

#[test]
fn socket_agregar_y_quitar() {
    let mut s: SocketService<u32> = SocketService::new();
    s.add_connection(1, "a", 10);
    s.add_connection(1, "b", 11);
    s.add_connection(2, "c", 20);
    assert_eq!(ids(&s, 1), vec![("a".to_string(), 10), ("b".to_string(), 11)]);
    assert_eq!(s.get_total_connections(), 3);
    s.remove_connection(1, "a");
    assert_eq!(ids(&s, 1), vec![("b".to_string(), 11)]);
    s.remove_connection(1, "b");
    assert!(s.conexiones_de(1).is_none());
    s.remove_connection(7, "x");
    assert_eq!(s.get_total_connections(), 1);
    let mut usuarios = s.usuarios_conectados();
    usuarios.sort();
    assert_eq!(usuarios, vec![2]);
}

#[test]
fn socket_quitar_todos_los_del_mismo_id() {
    let mut s: SocketService<u32> = SocketService::new();
    s.add_connection(1, "a", 1);
    s.add_connection(1, "b", 2);
    s.add_connection(1, "a", 3);
    s.remove_connection(1, "a");
    assert_eq!(ids(&s, 1), vec![("b".to_string(), 2)]);
}

#[test]
fn socket_desconectar_devuelve_los_sockets() {
    let mut s: SocketService<u32> = SocketService::new();
    s.add_connection(5, "x", 1);
    s.add_connection(5, "y", 2);
    let cerrados = s.disconnect_all_user_sockets(5).unwrap();
    assert_eq!(cerrados.iter().map(|c| c.sender).collect::<Vec<_>>(), vec![1, 2]);
    assert!(s.conexiones_de(5).is_none());
    assert!(s.disconnect_all_user_sockets(5).is_none());
}

#[test]
fn socket_expirada_no_aparece_conectada() {
    let mut s: SocketService<u32> = SocketService::new();
    s.add_connection(1, "a", 1);
    s.add_connection(2, "b", 2);
    s.add_connection(3, "c", 3);
    let cerrados = s.expire_user_session(2).unwrap();
    assert_eq!(cerrados.len(), 1);
    // a user marked expired who reconnects is still left out
    s.add_connection(2, "d", 4);
    let info = s.get_connection_info();
    let mut rooms = info.rooms.clone();
    rooms.sort();
    assert_eq!(info.connected_users, 2);
    assert_eq!(rooms, vec!["user_1".to_string(), "user_3".to_string()]);
    s.clear_expired_session(2);
    let info = s.get_connection_info();
    assert_eq!(info.connected_users, 3);
    assert!(info.rooms.contains(&"user_2".to_string()));
}

#[test]
fn socket_metricas() {
    let mut s: SocketService<u32> = SocketService::new();
    let vacio = s.get_memory_metrics();
    assert_eq!((vacio.total_users, vacio.total_connections, vacio.largest_user_connections), (0, 0, 0));
    assert_eq!((vacio.total_capacity, vacio.memory_overhead), (0, 0));
    s.add_connection(1, "a", 1);
    s.add_connection(2, "b", 1);
    s.add_connection(2, "c", 1);
    s.add_connection(2, "d", 1);
    let m = s.get_memory_metrics();
    assert_eq!(m.total_users, 2);
    assert_eq!(m.total_connections, 4);
    assert_eq!(m.largest_user_connections, 3);
    assert!(m.total_capacity >= 4);
    assert_eq!(m.memory_overhead, m.total_capacity - 4);
    assert!(s.is_available());
}

#[test]
fn socket_optimizar_memoria() {
    let mut s: SocketService<u32> = SocketService::new();
    for k in 0..40u32 {
        s.add_connection(1, &format!("s{}", k), k);
    }
    for k in 1..40u32 {
        s.remove_connection(1, &format!("s{}", k));
    }
    s.add_connection(2, "solo", 0);
    let antes = s.get_memory_metrics();
    assert!(antes.total_capacity >= 40);
    assert_eq!(s.optimize_memory(), 1);
    assert_eq!(ids(&s, 1), vec![("s0".to_string(), 0)]);
    let despues = s.get_memory_metrics();
    assert!(despues.total_capacity < antes.total_capacity);
    assert_eq!(s.optimize_memory(), 0);
}

#[test]
fn socket_capacidad_acumulada() {
    assert_eq!(capacidad_acumulada(&vec![]), 0);
    assert_eq!(capacidad_acumulada(&vec![4, 0, 16]), 20);
    assert_eq!(capacidad_acumulada(&vec![usize::MAX - 1, 5, 3]), usize::MAX);
}

#[test]
fn socket_criterio_de_compactar() {
    assert!(debe_compactar_con(30, 1));
    assert!(debe_compactar_con(15, 5));
    assert!(!debe_compactar_con(14, 5));
    assert!(!debe_compactar_con(20, 10));
    assert!(!debe_compactar_con(5, 10));
}

#[test]
fn socket_total_verificado() {
    let mut s: SocketService<u32> = SocketService::new();
    assert_eq!(s.total_verificado(), Some(0));
    s.add_connection(1, "a", 1);
    s.add_connection(1, "b", 2);
    s.add_connection(9, "c", 3);
    assert_eq!(s.total_verificado(), Some(3));
    assert_eq!(s.get_total_connections(), 3);
}
