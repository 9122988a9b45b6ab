use rust_api_backend::tiempo::marca_en_segundos;
use rust_api_backend::handlers::usuarios::{
    analizar_sala, claims_de_sesion, ids_de_salas, mensaje_sesion_expirada,
    LoginPayload, LoginResponse,
};

#[test]
fn sala_de_usuario_se_lee() {
    assert_eq!(analizar_sala("user_15"), Some(15));
    assert_eq!(analizar_sala("user_-3"), Some(-3));
    assert_eq!(analizar_sala("user_"), None);
    assert_eq!(analizar_sala("usr_15"), None);
    assert_eq!(analizar_sala("user_15x"), None);
    assert_eq!(analizar_sala("user_2147483648"), None);
    assert_eq!(analizar_sala("admin"), None);
}

#[test]
fn ids_de_salas_omite_las_ajenas() {
    let rooms = vec!["user_1".to_string(), "lobby".to_string(), "user_30".to_string()];
    assert_eq!(ids_de_salas(&rooms), vec![1, 30]);
}

#[test]
fn sala_formateada_vuelve_al_usuario() {
    for id in [0i64, 5, -7, 2147483647, -2147483648] {
        let room = format!("user_{}", id);
        assert_eq!(analizar_sala(&room), Some(id as i32));
    }
    assert_eq!(analizar_sala(&format!("user_{}", 4_000_000_000i64)), None);
}

#[test]
fn claims_de_sesion_duran_un_dia() {
    let ahora: i128 = 1_700_000_000_123_456_789;
    let c = claims_de_sesion(42, "ana@example.com".to_string(), ahora);
    assert_eq!(c.sub, "42");
    assert_eq!(c.email, "ana@example.com");
    assert_eq!(c.iat, 1_700_000_000);
    assert_eq!(c.exp, 1_700_000_000 + 86_400);
}

#[test]
fn marca_en_segundos_redondea_hacia_abajo() {
    assert_eq!(marca_en_segundos(1_999_999_999), 1);
    assert_eq!(marca_en_segundos(0), 0);
    assert_eq!(marca_en_segundos(-1), -1);
    assert_eq!(marca_en_segundos(-1_000_000_000), -1);
    assert_eq!(marca_en_segundos(-1_000_000_001), -2);
}

#[test]
fn mensaje_de_sesion_expirada() {
    assert_eq!(mensaje_sesion_expirada("Ana"), "Sesión de Ana expirada exitosamente");
}

#[test]
fn login_payload_y_respuesta() {
    let p = LoginPayload { identificador: "ana@example.com".into(), contrasena: "x".into() };
    assert_eq!(p.identificador, "ana@example.com");
    let r = LoginResponse { token: "t".to_string(), usuario: 7u32 };
    assert_eq!(r.usuario, 7);
}
