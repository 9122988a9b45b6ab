use rust_api_backend::errors::AppError;
use rust_api_backend::services::firebaseapp::{
    fcm_scope, preparar_credenciales, quitar_escapes, token_desde_respuesta, token_vigente,
    CachedToken, FcmMessage, FcmNotification, RawServiceAccount,
};

// A PEM block tagged as a PKCS#1 RSA private key whose DER body is a toy
// SEQUENCE of three small integers (0, 5, 3): the PEM framing and DER
// structure parse, though it is no usable key. Its line breaks are escaped
// as they are in a service-account JSON file.
fn llave_de_prueba() -> String {
    let etiqueta = "RSA PRIVATE KEY";
    format!("-----BEGIN {e}-----\\nMAkCAQACAQUCAQM=\\n-----END {e}-----\\n", e = etiqueta)
}

fn cuenta(project_id: Option<&str>, llave: &str) -> RawServiceAccount {
    RawServiceAccount {
        project_id: project_id.map(|p| p.to_string()),
        private_key: llave.to_string(),
        client_email: "svc@proyecto.iam.gserviceaccount.com".to_string(),
        token_uri: "https://oauth2.googleapis.com/token".to_string(),
    }
}

#[test]
fn quitar_escapes_como_replace() {
    for s in ["a\\nb", "\\n\\n", "sin", "\\", "\\\\n", "x\\", "", "\\nz\\"] {
        assert_eq!(quitar_escapes(s), s.replace("\\n", "\n"), "entrada {:?}", s);
    }
}

#[test]
fn credenciales_con_llave_valida() {
    let c = preparar_credenciales(None, cuenta(Some("proyecto-1"), &llave_de_prueba())).ok().unwrap();
    assert_eq!(c.project_id, "proyecto-1");
    assert_eq!(
        c.summary(),
        "project_id=proyecto-1, client_email=svc@proyecto.iam.gserviceaccount.com, token_uri=https://oauth2.googleapis.com/token"
    );
    assert_eq!(c.url_envio(), "https://fcm.googleapis.com/v1/projects/proyecto-1/messages:send");
    let c = preparar_credenciales(Some("otro".to_string()), cuenta(Some("proyecto-1"), &llave_de_prueba())).ok().unwrap();
    assert_eq!(c.project_id, "otro");
    let claims = c.claims_asercion(1_700_000_000_500_000_000);
    assert_eq!(claims.iat, 1_700_000_000);
    assert_eq!(claims.exp, 1_700_000_000 + 3300);
    assert_eq!(claims.scope, fcm_scope());
    assert_eq!(claims.aud, "https://oauth2.googleapis.com/token");
    assert_eq!(claims.iss, "svc@proyecto.iam.gserviceaccount.com");
}

#[test]
fn credenciales_sin_proyecto() {
    match preparar_credenciales(None, cuenta(None, &llave_de_prueba())) {
        Err(e) => assert_eq!(
            e,
            AppError::InternalServerError("FCM project_id no configurado ni en .env ni en el JSON".to_string())
        ),
        Ok(_) => panic!("se esperaba un error"),
    }
}

#[test]
fn credenciales_llave_invalida() {
    match preparar_credenciales(Some("p".to_string()), cuenta(None, "no es una llave")) {
        Err(AppError::InternalServerError(m)) => {
            assert!(m.starts_with("No se pudo parsear la llave privada FCM: "), "{}", m)
        }
        _ => panic!("se esperaba un error de llave"),
    }
    // the same key parses once its escaped line breaks are restored
    assert!(preparar_credenciales(Some("p".to_string()), cuenta(None, &llave_de_prueba())).is_ok());
}

#[test]
fn cache_de_token() {
    let ahora: i128 = 1_000_000_000_000;
    let t = token_desde_respuesta("abc".to_string(), 3600, ahora);
    assert_eq!(t.expires_at, ahora + 3570 * 1_000_000_000);
    let cache = Some(t.clone());
    assert_eq!(token_vigente(&cache, ahora), Some("abc".to_string()));
    assert_eq!(token_vigente(&cache, ahora + 3540 * 1_000_000_000 - 1), Some("abc".to_string()));
    assert_eq!(token_vigente(&cache, ahora + 3540 * 1_000_000_000), None);
    assert_eq!(token_vigente(&None, ahora), None);
    // a token granted for a minute or less is kept only 30 s and never reused
    let corto = token_desde_respuesta("x".to_string(), 5, ahora);
    assert_eq!(corto, CachedToken { access_token: "x".to_string(), expires_at: ahora + 30 * 1_000_000_000 });
    assert_eq!(token_vigente(&Some(corto), ahora), None);
}

#[test]
fn mensajes_fcm() {
    let n = FcmNotification::new(Some("Hola".to_string()), None);
    assert_eq!(n.title.as_deref(), Some("Hola"));
    let m = FcmMessage::new("dispositivo".to_string());
    assert!(m.notification.is_none() && m.data.is_none());
    let mut datos = serde_json::Map::new();
    datos.insert("k".to_string(), serde_json::Value::from(1));
    let m = m.with_notification(n.clone()).with_data(datos);
    assert_eq!(m.token, "dispositivo");
    assert_eq!(m.notification, Some(n));
    assert_eq!(m.data.unwrap().get("k"), Some(&serde_json::Value::from(1)));
}

#[test]
fn cache_de_token_de_vida_larga() {
    let ahora: i128 = 1_700_000_000_000_000_000;
    let t = token_desde_respuesta("largo".to_string(), i64::MAX, ahora);
    assert_eq!(t.expires_at, ahora + (i128::from(i64::MAX) - 30) * 1_000_000_000);
    assert_eq!(token_vigente(&Some(t), ahora), Some("largo".to_string()));
}
