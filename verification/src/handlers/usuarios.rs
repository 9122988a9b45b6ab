//! The decisions of the user endpoints: the claims of a session token, the
//! users behind the connected rooms, and the session-expiry message.

use vstd::prelude::*;

use crate::models::auth::Claims;
use crate::services::socket_service::sala;
use crate::tiempo::{lema_sumar_segundos, marca_en_segundos, segundos, NANOS_POR_SEGUNDO};
use crate::texto::{analizado_i32, analizar_i32, caracteres, decimal, formatear_entero, lema_decimal_se_lee};
use vstd::string::StringExecFns;

verus! {

/// The login form: an e-mail or document number, and the password.
#[derive(Debug, Clone, PartialEq, Eq)]
pub struct LoginPayload {
    pub identificador: String,
    pub contrasena: String,
}

/// The answer to a successful login: the session token and the user's record.
#[derive(Debug, Clone, PartialEq, Eq)]
pub struct LoginResponse<U> {
    pub token: String,
    pub usuario: U,
}

/// How long a session token lasts, in nanoseconds (24 hours).
pub const VIGENCIA_SESION: i128 = 86_400_000_000_000;

/// The claims of the session token issued at instant `ahora` (nanoseconds)
/// to user `usuario_id` with e-mail `correo`: subject the id in decimal,
/// issued at `ahora` and expiring 24 hours later, both in whole seconds.
pub fn claims_de_sesion(usuario_id: i32, correo: String, ahora: i128) -> (c: Claims)
    requires
        ahora + VIGENCIA_SESION <= i128::MAX,
    ensures
        c.sub@ == decimal(usuario_id as int),
        c.email == correo,
        c.iat == segundos(ahora as int) as usize,
        c.exp == segundos(ahora + VIGENCIA_SESION) as usize,
{
    let exp = marca_en_segundos(ahora + VIGENCIA_SESION);
    let iat = marca_en_segundos(ahora);
    Claims { sub: formatear_entero(usuario_id as i64), email: correo, exp: exp as usize, iat: iat as usize }
}

/// The user a room belongs to: the text after `user_`, read as an `i32`
/// (`room.strip_prefix("user_").and_then(|id| id.parse().ok())`).
pub open spec fn usuario_de_sala(room: Seq<char>) -> Option<i32> {
    let prefijo = seq!['u', 's', 'e', 'r', '_'];
    if room.len() >= 5 && room.subrange(0, 5) == prefijo {
        analizado_i32(room.subrange(5, room.len() as int))
    } else {
        None
    }
}

/// The user a room belongs to, if the room is a user room.
pub fn analizar_sala(room: &str) -> (r: Option<i32>)
    ensures
        r == usuario_de_sala(room@),
{
    let v = caracteres(room);
    let n = v.len();
    if n < 5 || v[0] != 'u' || v[1] != 's' || v[2] != 'e' || v[3] != 'r' || v[4] != '_' {
        proof {
            if n >= 5 {
                let p = v@.subrange(0, 5);
                if p == seq!['u', 's', 'e', 'r', '_'] {
                    assert(p[0] == v@[0] && p[1] == v@[1] && p[2] == v@[2] && p[3] == v@[3] && p[4]
                        == v@[4]);
                }
            }
        }
        return None;
    }
    assert(v@.subrange(0, 5) =~= seq!['u', 's', 'e', 'r', '_']);
    let mut resto: Vec<char> = Vec::new();
    let mut i: usize = 5;
    while i < n
        invariant
            5 <= i <= n,
            n == v.len(),
            resto@ == v@.subrange(5, i as int),
        decreases n - i,
    {
        resto.push(v[i]);
        assert(resto@ =~= v@.subrange(5, i + 1));
        i = i + 1;
    }
    analizar_i32(&resto)
}

/// The users behind a list of rooms, in order, skipping rooms that name none.
pub open spec fn usuarios_de_salas(rooms: Seq<Seq<char>>) -> Seq<i32>
    decreases rooms.len(),
{
    if rooms.len() == 0 {
        Seq::empty()
    } else {
        let previos = usuarios_de_salas(rooms.drop_last());
        match usuario_de_sala(rooms.last()) {
            Some(id) => previos.push(id),
            None => previos,
        }
    }
}

/// The users behind the connected rooms, as the listing of connected users reads them.
pub fn ids_de_salas(rooms: &Vec<String>) -> (ids: Vec<i32>)
    ensures
        ids@ == usuarios_de_salas(rooms@.map_values(|r: String| r@)),
{
    let ghost textos = rooms@.map_values(|r: String| r@);
    let mut ids: Vec<i32> = Vec::new();
    let mut i: usize = 0;
    while i < rooms.len()
        invariant
            i <= rooms.len(),
            textos == rooms@.map_values(|r: String| r@),
            ids@ == usuarios_de_salas(textos.take(i as int)),
        decreases rooms.len() - i,
    {
        assert(textos.take(i + 1).drop_last() =~= textos.take(i as int));
        match analizar_sala(rooms[i].as_str()) {
            Some(id) => ids.push(id),
            None => {},
        }
        i = i + 1;
    }
    assert(textos.take(rooms.len() as int) =~= textos);
    ids
}

/// Reading a room back gives the user it was made for, when the user id
/// fits in an `i32`; a room of a larger id names no user.
pub proof fn lema_sala_se_lee(user_id: i64)
    ensures
        usuario_de_sala(sala(user_id)) == (if i32::MIN <= user_id <= i32::MAX {
            Some(user_id as i32)
        } else {
            None::<i32>
        }),
{
    let s = sala(user_id);
    assert(s.subrange(0, 5) =~= seq!['u', 's', 'e', 'r', '_']);
    assert(s.subrange(5, s.len() as int) =~= decimal(user_id as int));
    lema_decimal_se_lee(user_id as int);
}

/// The message that confirms that the session of `nombre` was expired.
pub fn mensaje_sesion_expirada(nombre: &str) -> (r: String)
    ensures
        r@ == "Sesión de "@ + nombre@ + " expirada exitosamente"@,
{
    let mut r = "Sesión de ".to_owned();
    r.append(nombre);
    r.append(" expirada exitosamente");
    r
}

/// A session token is valid for exactly 24 hours: its expiry is 86400
/// seconds after its issue.
pub proof fn lema_vigencia_sesion(ahora: int)
    ensures
        segundos(ahora + VIGENCIA_SESION) == segundos(ahora) + 86400,
{
    lema_sumar_segundos(ahora, 86400);
}

} // verus!
