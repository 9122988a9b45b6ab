//! The computations of the push-notification service: preparing the
//! service-account credentials, the OAuth assertion's claims, the access
//! token cache, and the messages. The HTTP exchanges are the caller's.

use vstd::prelude::*;

use crate::errors::AppError;
use crate::tiempo::{lema_sumar_segundos, marca_en_segundos, segundos, NANOS_POR_SEGUNDO};
use vstd::string::StrSliceExecFns;
use vstd::string::StringExecFns;

verus! {

#[verifier::external_type_specification]
#[verifier::external_body]
pub struct ExEncodingKey(jsonwebtoken::EncodingKey);

#[verifier::external_type_specification]
#[verifier::external_body]
pub struct ExJwtError(jsonwebtoken::errors::Error);

#[verifier::external_type_specification]
#[verifier::external_body]
#[verifier::reject_recursive_types(K)]
#[verifier::reject_recursive_types(V)]
pub struct ExJsonMap<K, V>(serde_json::Map<K, V>);

#[verifier::external_type_specification]
#[verifier::external_body]
pub struct ExJsonValue(serde_json::Value);

/// Whether `jsonwebtoken::EncodingKey::from_rsa_pem` accepts the bytes
/// `pem` as an RSA key.
pub uninterp spec fn pem_rsa_aceptado(pem: Seq<u8>) -> bool;

/// An RSA signing key together with the PEM bytes it was parsed from.
/// `llave_rsa_desde_pem` is the only way to build one.
pub struct LlaveRsa {
    llave: jsonwebtoken::EncodingKey,
    pem: Vec<u8>,
}

impl LlaveRsa {
    /// The PEM bytes the key was parsed from.
    pub closed spec fn origen(&self) -> Seq<u8> {
        self.pem@
    }

    /// The parsed key.
    pub closed spec fn clave(&self) -> jsonwebtoken::EncodingKey {
        self.llave
    }

    /// The parsed key, to sign with.
    pub fn llave(&self) -> (r: &jsonwebtoken::EncodingKey)
        ensures
            *r == self.clave(),
    {
        &self.llave
    }
}

/// `jsonwebtoken::EncodingKey::from_rsa_pem`: parses PEM-encoded bytes as
/// an RSA key. The crate takes a PKCS#1 `RSA PRIVATE KEY` or
/// `RSA PUBLIC KEY` block as it stands, and a PKCS#8 `PRIVATE KEY`,
/// `PUBLIC KEY` or `CERTIFICATE` block whose content is classified as RSA.
/// The contract claims that it succeeds on exactly the inputs
/// `pem_rsa_aceptado` names (which those are is left to the crate) and that
/// the key it returns is recorded with the bytes it was parsed from.
#[verifier::external_body]
fn llave_rsa_desde_pem(pem: &[u8]) -> (r: Result<LlaveRsa, jsonwebtoken::errors::Error>)
    ensures
        r is Ok <==> pem_rsa_aceptado(pem@),
        r matches Ok(k) ==> k.origen() == pem@,
{
    match jsonwebtoken::EncodingKey::from_rsa_pem(pem) {
        Ok(llave) => Ok(LlaveRsa { llave, pem: pem.to_vec() }),
        Err(e) => Err(e),
    }
}

/// The fields of a service-account file that the service reads.
#[derive(Debug, Clone, PartialEq, Eq)]
pub struct RawServiceAccount {
    pub project_id: Option<String>,
    pub private_key: String,
    pub client_email: String,
    pub token_uri: String,
}

/// The credentials the service signs its OAuth assertions with.
pub struct CredencialesFcm {
    pub project_id: String,
    pub client_email: String,
    pub token_uri: String,
    pub signing_key: LlaveRsa,
}

/// `s` with each `\n` escape (a backslash then `n`) replaced by a newline,
/// scanning from the left as `str::replace` does.
pub open spec fn sin_escapes(s: Seq<char>) -> Seq<char>
    decreases s.len(),
{
    if s.len() == 0 {
        Seq::empty()
    } else if s.len() >= 2 && s[0] == '\\' && s[1] == 'n' {
        seq!['\n'] + sin_escapes(s.subrange(2, s.len() as int))
    } else {
        seq![s[0]] + sin_escapes(s.drop_first())
    }
}

/// `s.replace("\\n", "\n")`: turns the escaped line breaks of a key stored
/// in JSON into real ones.
pub fn quitar_escapes(s: &str) -> (r: String)
    ensures
        r@ == sin_escapes(s@),
{
    let v = crate::texto::caracteres(s);
    let n = v.len();
    let mut r = String::new();
    let mut inicio: usize = 0;
    let mut i: usize = 0;
    proof {
        reveal_strlit("\n");
        assert(s@.subrange(0, n as int) =~= s@);
        assert(r@ + s@.subrange(0, 0) =~= Seq::<char>::empty());
    }
    while i < n
        invariant
            v@ == s@,
            n == v.len(),
            inicio <= i <= n,
            "\n"@ == seq!['\n'],
            r@ + s@.subrange(inicio as int, i as int) + sin_escapes(s@.subrange(i as int, n as int))
                == sin_escapes(s@),
        decreases n - i,
    {
        let ghost resto = s@.subrange(i as int, n as int);
        if i + 1 < n && v[i] == '\\' && v[i + 1] == 'n' {
            assert(resto.subrange(2, resto.len() as int) =~= s@.subrange(i + 2, n as int));
            let tramo = s.substring_char(inicio, i);
            r.append(tramo);
            r.append("\n");
            i = i + 2;
            inicio = i;
            assert(s@.subrange(inicio as int, i as int) =~= Seq::<char>::empty());
        } else {
            assert(resto.drop_first() =~= s@.subrange(i + 1, n as int));
            assert(s@.subrange(inicio as int, i + 1) =~= s@.subrange(inicio as int, i as int).push(
                s@[i as int],
            ));
            i = i + 1;
        }
    }
    let tramo = s.substring_char(inicio, n);
    r.append(tramo);
    assert(s@.subrange(n as int, n as int) =~= Seq::<char>::empty());
    r
}

/// The message of a missing project id.
pub open spec fn msg_sin_proyecto() -> Seq<char> {
    "FCM project_id no configurado ni en .env ni en el JSON"@
}

/// The start of the message of a private key that does not parse.
pub open spec fn msg_llave_invalida() -> Seq<char> {
    "No se pudo parsear la llave privada FCM: "@
}

/// Prepares the credentials of a service account: the project id is the
/// one configured, else the file's; the private key has its `\n` escapes
/// turned into line breaks and is parsed as an RSA PEM key, and the signing
/// key returned is the one parsed from exactly those bytes.
pub fn preparar_credenciales(project_id_override: Option<String>, creds: RawServiceAccount) -> (r:
    Result<CredencialesFcm, AppError>)
    ensures
        project_id_override is None && creds.project_id is None ==> (r matches Err(
            AppError::InternalServerError(m),
        ) && m@ == msg_sin_proyecto()),
        !(project_id_override is None && creds.project_id is None) && !pem_rsa_aceptado(
            vstd::utf8::encode_utf8(sin_escapes(creds.private_key@)),
        ) ==> (r matches Err(AppError::InternalServerError(m)) && m@.len()
            >= msg_llave_invalida().len() && m@.subrange(0, msg_llave_invalida().len() as int)
            == msg_llave_invalida()),
        r matches Ok(c) ==> {
            &&& c.project_id == (match project_id_override {
                Some(p) => p,
                None => creds.project_id->0,
            })
            &&& c.client_email == creds.client_email
            &&& c.token_uri == creds.token_uri
            &&& c.signing_key.origen() == vstd::utf8::encode_utf8(sin_escapes(creds.private_key@))
        },
        (project_id_override is Some || creds.project_id is Some) && pem_rsa_aceptado(
            vstd::utf8::encode_utf8(sin_escapes(creds.private_key@)),
        ) ==> r is Ok,
{
    let project_id = match project_id_override {
        Some(p) => p,
        None => match creds.project_id {
            Some(p) => p,
            None => {
                return Err(
                    AppError::InternalServerError(
                        "FCM project_id no configurado ni en .env ni en el JSON".to_owned(),
                    ),
                );
            },
        },
    };
    let private_key = quitar_escapes(creds.private_key.as_str());
    match llave_rsa_desde_pem(private_key.as_str().as_bytes()) {
        Ok(signing_key) => Ok(
            CredencialesFcm {
                project_id,
                client_email: creds.client_email,
                token_uri: creds.token_uri,
                signing_key,
            },
        ),
        Err(err) => {
            let mut m = "No se pudo parsear la llave privada FCM: ".to_owned();
            let detalle = err.to_string();
            let ghost prefijo = m@;
            m.append(detalle.as_str());
            assert(m@.subrange(0, prefijo.len() as int) =~= prefijo);
            Err(AppError::InternalServerError(m))
        },
    }
}

impl CredencialesFcm {
    /// A readable summary that leaves out the key.
    pub fn summary(&self) -> (r: String)
        ensures
            r@ == "project_id="@ + self.project_id@ + ", client_email="@ + self.client_email@
                + ", token_uri="@ + self.token_uri@,
    {
        let mut r = "project_id=".to_owned();
        r.append(self.project_id.as_str());
        r.append(", client_email=");
        r.append(self.client_email.as_str());
        r.append(", token_uri=");
        r.append(self.token_uri.as_str());
        r
    }

    /// The endpoint messages of this project are sent to.
    pub fn url_envio(&self) -> (r: String)
        ensures
            r@ == "https://fcm.googleapis.com/v1/projects/"@ + self.project_id@
                + "/messages:send"@,
    {
        let mut r = "https://fcm.googleapis.com/v1/projects/".to_owned();
        r.append(self.project_id.as_str());
        r.append("/messages:send");
        r
    }
}

/// The OAuth scope the access token is requested for.
pub fn fcm_scope() -> (r: &'static str)
    ensures
        r@ == "https://www.googleapis.com/auth/firebase.messaging"@,
{
    "https://www.googleapis.com/auth/firebase.messaging"
}

/// How long before its expiry a cached access token stops being used (30 s).
pub const MARGEN_CACHE: i128 = 30_000_000_000;

/// How long the OAuth assertion is valid (55 minutes).
pub const VIGENCIA_ASERCION: i128 = 3_300_000_000_000;

/// An access token and the instant (nanoseconds since the Unix epoch) it
/// is taken to expire at.
#[derive(Debug, Clone, PartialEq, Eq)]
pub struct CachedToken {
    pub access_token: String,
    pub expires_at: i128,
}

/// The cached access token, if there is one that is still good at `ahora`:
/// one that expires more than 30 seconds from now.
pub fn token_vigente(cache: &Option<CachedToken>, ahora: i128) -> (r: Option<String>)
    requires
        ahora + MARGEN_CACHE <= i128::MAX,
    ensures
        match cache {
            Some(t) => if t.expires_at > ahora + MARGEN_CACHE {
                r == Some(t.access_token)
            } else {
                r is None
            },
            None => r is None,
        },
{
    match cache {
        Some(t) => {
            if t.expires_at > ahora + MARGEN_CACHE {
                Some(t.access_token.clone())
            } else {
                None
            }
        },
        None => None,
    }
}

/// The claims of the OAuth assertion: issuer the service account, the
/// messaging scope, audience the token endpoint, issued at `ahora` and
/// expiring 55 minutes later, both in whole seconds.
#[derive(Debug, Clone, PartialEq, Eq)]
pub struct GoogleClaims {
    pub iss: String,
    pub scope: String,
    pub aud: String,
    pub exp: usize,
    pub iat: usize,
}

impl CredencialesFcm {
    /// The claims of the assertion signed at `ahora` to obtain an access token.
    pub fn claims_asercion(&self, ahora: i128) -> (c: GoogleClaims)
        requires
            ahora + VIGENCIA_ASERCION <= i128::MAX,
        ensures
            c.iss@ == self.client_email@,
            c.scope@ == "https://www.googleapis.com/auth/firebase.messaging"@,
            c.aud@ == self.token_uri@,
            c.iat == segundos(ahora as int) as usize,
            c.exp == segundos(ahora + VIGENCIA_ASERCION) as usize,
    {
        let iat = marca_en_segundos(ahora);
        let exp = marca_en_segundos(ahora + VIGENCIA_ASERCION);
        GoogleClaims {
            iss: self.client_email.clone(),
            scope: fcm_scope().to_owned(),
            aud: self.token_uri.clone(),
            exp: exp as usize,
            iat: iat as usize,
        }
    }
}

/// How many seconds a token granted for `expires_in` seconds is kept:
/// at least 60, less a 30-second margin.
pub open spec fn vida_util(expires_in: int) -> int {
    (if expires_in > 60 {
        expires_in
    } else {
        60
    }) - 30
}

/// The cache entry of a token granted at `ahora` for `expires_in` seconds.
pub fn token_desde_respuesta(access_token: String, expires_in: i64, ahora: i128) -> (t: CachedToken)
    requires
        ahora + vida_util(expires_in as int) * NANOS_POR_SEGUNDO <= i128::MAX,
    ensures
        t.access_token == access_token,
        t.expires_at == ahora + vida_util(expires_in as int) * NANOS_POR_SEGUNDO,
{
    let vida = if expires_in > 60 {
        expires_in
    } else {
        60
    } - 30;
    assert(0 <= vida * NANOS_POR_SEGUNDO <= 9223372036854775807 * 1000000000) by (nonlinear_arith)
        requires
            30 <= vida <= 9223372036854775807,
    ;
    let expira = ahora + (vida as i128) * NANOS_POR_SEGUNDO;
    CachedToken { access_token, expires_at: expira }
}

/// The visible part of a push notification.
#[derive(Debug, Clone, PartialEq, Eq)]
pub struct FcmNotification {
    pub title: Option<String>,
    pub body: Option<String>,
}

impl FcmNotification {
    /// A notification with this title and body.
    pub fn new(title: Option<String>, body: Option<String>) -> (n: Self)
        ensures
            n.title == title,
            n.body == body,
    {
        FcmNotification { title, body }
    }
}

/// A push message to one device.
pub struct FcmMessage {
    pub token: String,
    pub notification: Option<FcmNotification>,
    pub data: Option<serde_json::Map<String, serde_json::Value>>,
}

impl FcmMessage {
    /// A message to device `token`, with no notification and no data.
    pub fn new(token: String) -> (m: Self)
        ensures
            m.token == token,
            m.notification is None,
            m.data is None,
    {
        FcmMessage { token, notification: None, data: None }
    }

    /// The message with this notification.
    pub fn with_notification(self, notification: FcmNotification) -> (m: Self)
        ensures
            m.token == self.token,
            m.notification == Some(notification),
            m.data == self.data,
    {
        FcmMessage { notification: Some(notification), ..self }
    }

    /// The message with this data payload.
    pub fn with_data(self, data: serde_json::Map<String, serde_json::Value>) -> (m: Self)
        ensures
            m.token == self.token,
            m.notification == self.notification,
            m.data == Some(data),
    {
        FcmMessage { data: Some(data), ..self }
    }
}

/// An OAuth assertion is valid for exactly 55 minutes: its expiry is
/// 3300 seconds after its issue.
pub proof fn lema_vigencia_asercion(ahora: int)
    ensures
        segundos(ahora + VIGENCIA_ASERCION) == segundos(ahora) + 3300,
{
    lema_sumar_segundos(ahora, 3300);
}

/// A token granted for a minute or more is kept for 30 seconds less than it
/// was granted for; one granted for a minute or less is kept 30 seconds.
pub proof fn lema_vida_util(expires_in: int)
    ensures
        expires_in >= 60 ==> vida_util(expires_in) == expires_in - 30,
        expires_in <= 60 ==> vida_util(expires_in) == 30,
{
}

/// A token obtained at `t0` for `expires_in` seconds is served from the
/// cache at every later instant up to 30 seconds before the instant it is
/// taken to expire, and never after; so a token granted for 60 seconds or
/// less is never reused.
pub proof fn lema_token_reutilizado(expires_in: int, t0: int, t: int)
    requires
        t0 <= t,
    ensures
        (t0 + vida_util(expires_in) * NANOS_POR_SEGUNDO > t + MARGEN_CACHE) <==> (t - t0
            < (vida_util(expires_in) - 30) * NANOS_POR_SEGUNDO),
        expires_in <= 60 ==> !(t0 + vida_util(expires_in) * NANOS_POR_SEGUNDO > t + MARGEN_CACHE),
{
}

} // verus!
