//! The registry of WebSocket connections: which sockets each user has open,
//! and which users' sessions were expired. Sending on a socket is the
//! caller's; the registry says which sockets a message goes to, and hands
//! back the sockets it drops so that the caller can close them.

use std::collections::{HashMap, HashSet};
use vstd::prelude::*;
use vstd::std_specs::iter::IteratorSpec;

use crate::models::socket::{ConnectionInfo, SocketMemoryMetrics};
use crate::texto::{decimal, formatear_entero, lema_decimal_inyectivo};
use vstd::string::StringExecFns;

verus! {

broadcast use vstd::std_specs::hash::group_hash_axioms;

/// One open socket of a user: its id and the handle that messages are sent through.
pub struct SocketConnection<S> {
    pub socket_id: String,
    pub sender: S,
}

/// The registry. `S` is the type of the send handle of a socket.
pub struct SocketService<S> {
    connections: HashMap<i64, Vec<SocketConnection<S>>>,
    expired_sessions: HashSet<i64>,
}

/// Whether connection `c` is the socket named `socket_id`.
pub open spec fn es_socket<S>(c: SocketConnection<S>, socket_id: Seq<char>) -> bool {
    c.socket_id@ == socket_id
}

/// The test that keeps every connection but socket `socket_id`.
pub open spec fn otro_socket<S>(socket_id: Seq<char>) -> spec_fn(SocketConnection<S>) -> bool {
    |c: SocketConnection<S>| !es_socket(c, socket_id)
}

/// The connections of a user that remain once socket `socket_id` is removed.
pub open spec fn sin_socket<S>(cs: Seq<SocketConnection<S>>, socket_id: Seq<char>) -> Seq<
    SocketConnection<S>,
> {
    cs.filter(otro_socket(socket_id))
}

/// The registry `m` once connection `c` of user `u` is registered after
/// the user's other sockets.
pub open spec fn agregado<S>(m: Map<i64, Seq<SocketConnection<S>>>, u: i64, c: SocketConnection<S>) -> Map<
    i64,
    Seq<SocketConnection<S>>,
> {
    let antes = if m.contains_key(u) {
        m[u]
    } else {
        Seq::empty()
    };
    m.insert(u, antes.push(c))
}

/// The registry `m` once socket `socket_id` of user `u` is removed; a user
/// left with no socket is dropped.
pub open spec fn quitado<S>(m: Map<i64, Seq<SocketConnection<S>>>, u: i64, socket_id: Seq<char>) -> Map<
    i64,
    Seq<SocketConnection<S>>,
> {
    if !m.contains_key(u) {
        m
    } else if sin_socket(m[u], socket_id).len() == 0 {
        m.remove(u)
    } else {
        m.insert(u, sin_socket(m[u], socket_id))
    }
}

/// The room of a user: `user_` and the user id in decimal.
pub open spec fn sala(user_id: i64) -> Seq<char> {
    seq!['u', 's', 'e', 'r', '_'] + decimal(user_id as int)
}

/// Whether the room of user `u` is among `rooms`.
pub open spec fn sala_listada(rooms: Seq<String>, u: i64) -> bool {
    exists|j: int| 0 <= j < rooms.len() && #[trigger] rooms[j]@ == sala(u)
}

/// Different users have different rooms.
pub proof fn lema_sala_inyectiva(a: i64, b: i64)
    requires
        sala(a) == sala(b),
    ensures
        a == b,
{
    assert(sala(a).subrange(5, sala(a).len() as int) =~= decimal(a as int));
    assert(sala(b).subrange(5, sala(b).len() as int) =~= decimal(b as int));
    lema_decimal_inyectivo(a as int, b as int);
}

/// Rooms listed one per user of `ids` are listed exactly for those users.
proof fn lema_salas_listadas(ids: Seq<i64>, rooms: Seq<String>)
    requires
        ids.len() == rooms.len(),
        forall|j: int| 0 <= j < ids.len() ==> #[trigger] rooms[j]@ == sala(ids[j]),
    ensures
        forall|u: i64| #[trigger] sala_listada(rooms, u) <==> ids.contains(u),
{
    assert forall|u: i64| #[trigger] sala_listada(rooms, u) <==> ids.contains(u) by {
        if sala_listada(rooms, u) {
            let j = choose|j: int| 0 <= j < rooms.len() && #[trigger] rooms[j]@ == sala(u);
            assert(rooms[j]@ == sala(ids[j]));
            lema_sala_inyectiva(ids[j], u);
        }
        if ids.contains(u) {
            let j = choose|j: int| 0 <= j < ids.len() && ids[j] == u;
            assert(rooms[j]@ == sala(ids[j]));
        }
    }
}

/// Adds the number of sockets of user `k` to `acc`.
pub open spec fn sumar_sockets<S>(m: Map<i64, Seq<SocketConnection<S>>>) -> spec_fn(nat, i64) -> nat {
    |acc: nat, k: i64| acc + m[k].len()
}

/// The number of open sockets over all users.
pub open spec fn total_conexiones<S>(m: Map<i64, Seq<SocketConnection<S>>>) -> nat {
    m.dom().fold(0nat, sumar_sockets(m))
}

/// The number of sockets of the users `ks`, taken in order.
pub open spec fn suma_en<S>(m: Map<i64, Seq<SocketConnection<S>>>, ks: Seq<i64>) -> nat
    decreases ks.len(),
{
    if ks.len() == 0 {
        0
    } else {
        suma_en(m, ks.drop_last()) + m[ks.last()].len()
    }
}

proof fn lema_suma_creciente<S>(m: Map<i64, Seq<SocketConnection<S>>>, ks: Seq<i64>, i: int)
    requires
        0 <= i <= ks.len(),
    ensures
        suma_en(m, ks.take(i)) <= suma_en(m, ks),
    decreases ks.len() - i,
{
    if i < ks.len() {
        lema_suma_creciente(m, ks, i + 1);
        assert(ks.take(i + 1).drop_last() =~= ks.take(i));
    } else {
        assert(ks.take(i) =~= ks);
    }
}

/// Counting the sockets user by user, in any order that lists each user once,
/// gives the total.
proof fn lema_suma_total<S>(m: Map<i64, Seq<SocketConnection<S>>>, ks: Seq<i64>)
    requires
        ks.no_duplicates(),
    ensures
        suma_en(m, ks) == ks.to_set().fold(0nat, sumar_sockets(m)),
    decreases ks.len(),
{
    broadcast use vstd::seq_lib::seq_to_set_is_finite;

    let f = sumar_sockets(m);
    assert(vstd::set::fold::is_fun_commutative(f));
    if ks.len() == 0 {
        assert(ks.to_set() =~= Set::<i64>::empty());
        vstd::set::fold::lemma_fold_empty(0nat, f);
    } else {
        let r = ks.drop_last();
        lema_suma_total(m, r);
        assert(ks =~= r.push(ks.last()));
        r.lemma_push_to_set_commute(ks.last());
        assert(!r.to_set().contains(ks.last())) by {
            if r.contains(ks.last()) {
                let j = choose|j: int| 0 <= j < r.len() && r[j] == ks.last();
                assert(ks[j] == ks[ks.len() - 1]);
            }
        }
        vstd::set::fold::lemma_fold_insert(r.to_set(), 0nat, f, ks.last());
    }
}

/// The test `optimize_memory` applies: more spare slots than used ones,
/// and at least ten of them.
pub open spec fn debe_compactar(capacidad: int, usados: int) -> bool {
    let libres = if capacidad >= usados {
        capacidad - usados
    } else {
        0
    };
    libres > usados && libres >= 10
}

/// How many of the users `ks`, whose capacities were `caps`, pass `debe_compactar`.
pub open spec fn contar_compactables<S>(
    m: Map<i64, Seq<SocketConnection<S>>>,
    ks: Seq<i64>,
    caps: Seq<usize>,
) -> nat
    decreases ks.len(),
{
    if ks.len() == 0 {
        0
    } else {
        contar_compactables(m, ks.drop_last(), caps.drop_last()) + if debe_compactar(
            caps.last() as int,
            m[ks.last()].len() as int,
        ) {
            1nat
        } else {
            0nat
        }
    }
}

/// The capacities `caps` added up in order, the running sum staying at
/// `usize::MAX` once it reaches it.
pub open spec fn suma_saturada(caps: Seq<usize>) -> nat
    decreases caps.len(),
{
    if caps.len() == 0 {
        0
    } else {
        let s = suma_saturada(caps.drop_last()) + caps.last();
        if s > usize::MAX {
            usize::MAX as nat
        } else {
            s as nat
        }
    }
}

/// Adds up the capacities `caps` without overflow.
pub fn capacidad_acumulada(caps: &Vec<usize>) -> (r: usize)
    ensures
        r == suma_saturada(caps@),
{
    let mut total: usize = 0;
    let mut i: usize = 0;
    while i < caps.len()
        invariant
            i <= caps.len(),
            total == suma_saturada(caps@.take(i as int)),
        decreases caps.len() - i,
    {
        assert(caps@.take(i + 1).drop_last() =~= caps@.take(i as int));
        total = total.saturating_add(caps[i]);
        i = i + 1;
    }
    assert(caps@.take(caps.len() as int) =~= caps@);
    total
}

/// Capacities that each cover the sockets of their user cover the total,
/// as long as the total fits in a `usize`.
proof fn lema_capacidad_cubre<S>(m: Map<i64, Seq<SocketConnection<S>>>, ks: Seq<i64>, caps: Seq<usize>)
    requires
        caps.len() == ks.len(),
        forall|j: int| 0 <= j < ks.len() ==> #[trigger] caps[j] >= m[ks[j]].len(),
        suma_en(m, ks) <= usize::MAX,
    ensures
        suma_saturada(caps) >= suma_en(m, ks),
    decreases ks.len(),
{
    if ks.len() > 0 {
        lema_suma_creciente(m, ks, ks.len() - 1);
        assert(ks.take(ks.len() - 1) =~= ks.drop_last());
        let ks2 = ks.drop_last();
        let caps2 = caps.drop_last();
        assert forall|j: int| 0 <= j < ks2.len() implies #[trigger] caps2[j] >= m[ks2[j]].len() by {
            assert(caps2[j] == caps[j] && ks2[j] == ks[j]);
        }
        lema_capacidad_cubre(m, ks2, caps2);
        assert(caps[ks.len() - 1] >= m[ks[ks.len() - 1]].len());
    }
}

/// Whether a user whose sockets fill `usados` of `capacidad` slots is one
/// `optimize_memory` gives the spare capacity back for.
pub fn debe_compactar_con(capacidad: usize, usados: usize) -> (r: bool)
    ensures
        r == debe_compactar(capacidad as int, usados as int),
{
    let libres = capacidad.saturating_sub(usados);
    libres > usados && libres >= 10
}

/// `Vec::capacity`: how many elements the vector can hold without
/// reallocating, which is never less than its length. The figure itself is
/// the allocator's choice and is left unsaid.
#[verifier::external_body]
fn capacidad<T>(v: &Vec<T>) -> (c: usize)
    ensures
        c >= v.len(),
{
    v.capacity()
}

/// `Vec::shrink_to_fit`: gives spare capacity back; the elements are untouched.
#[verifier::external_body]
fn compactar<T>(v: &mut Vec<T>)
    ensures
        final(v)@ == old(v)@,
{
    v.shrink_to_fit()
}

impl<S> SocketService<S> {
    /// The open sockets of each connected user.
    pub closed spec fn conexiones(&self) -> Map<i64, Seq<SocketConnection<S>>> {
        self.connections@.map_values(|v: Vec<SocketConnection<S>>| v@)
    }

    /// The users whose sessions are marked expired.
    pub closed spec fn expiradas(&self) -> Set<i64> {
        self.expired_sessions@
    }

    /// The registry's invariant: a user is listed only while some socket of
    /// theirs is open.
    pub open spec fn bien_formado(&self) -> bool {
        forall|u: i64| #[trigger] self.conexiones().contains_key(u) ==> self.conexiones()[u].len() > 0
    }

    /// Every registry is `bien_formado`, stated over the map itself.
    #[verifier::type_invariant]
    spec fn invariante(&self) -> bool {
        forall|u: i64| #[trigger]
            self.connections@.contains_key(u) ==> self.connections@[u]@.len() > 0
    }

    /// An empty registry.
    pub fn new() -> (s: Self)
        ensures
            s.bien_formado(),
            s.conexiones() == Map::<i64, Seq<SocketConnection<S>>>::empty(),
            s.expiradas() == Set::<i64>::empty(),
    {
        let s = SocketService { connections: HashMap::with_capacity(1000), expired_sessions: HashSet::new() };
        assert(s.conexiones() =~= Map::<i64, Seq<SocketConnection<S>>>::empty());
        s
    }

    /// Takes all of a user's sockets out of the registry and returns them.
    fn quitar_usuario(&mut self, user_id: i64) -> (r: Option<Vec<SocketConnection<S>>>)
        ensures
            final(self).bien_formado(),
            final(self).conexiones() == old(self).conexiones().remove(user_id),
            final(self).expiradas() == old(self).expiradas(),
            match r {
                Some(v) => old(self).conexiones().contains_key(user_id) && v@ == old(self).conexiones()[user_id],
                None => !old(self).conexiones().contains_key(user_id),
            },
    {
        proof {
            use_type_invariant(&*self);
        }
        let mut conns = HashMap::new();
        std::mem::swap(&mut conns, &mut self.connections);
        assert(self.conexiones() =~= Map::<i64, Seq<SocketConnection<S>>>::empty());
        let r = conns.remove(&user_id);
        assert(conns@.map_values(|v: Vec<SocketConnection<S>>| v@) =~= old(self).conexiones().remove(
            user_id,
        ));
        self.connections = conns;
        r
    }

    /// Sets the sockets of a user, who is to have at least one.
    fn poner_usuario(&mut self, user_id: i64, v: Vec<SocketConnection<S>>)
        requires
            v@.len() > 0,
        ensures
            final(self).bien_formado(),
            final(self).conexiones() == old(self).conexiones().insert(user_id, v@),
            final(self).expiradas() == old(self).expiradas(),
    {
        proof {
            use_type_invariant(&*self);
        }
        let ghost vista = v@;
        let mut conns = HashMap::new();
        std::mem::swap(&mut conns, &mut self.connections);
        assert(self.conexiones() =~= Map::<i64, Seq<SocketConnection<S>>>::empty());
        conns.insert(user_id, v);
        assert(conns@.map_values(|w: Vec<SocketConnection<S>>| w@) =~= old(self).conexiones().insert(
            user_id,
            vista,
        ));
        self.connections = conns;
    }

    /// Marks a user's session as expired and drops all of their sockets,
    /// which are returned so that they can be closed.
    pub fn expire_user_session(&mut self, user_id: i64) -> (r: Option<Vec<SocketConnection<S>>>)
        ensures
            final(self).bien_formado(),
            final(self).expiradas() == old(self).expiradas().insert(user_id),
            final(self).conexiones() == old(self).conexiones().remove(user_id),
            match r {
                Some(v) => old(self).conexiones().contains_key(user_id) && v@ == old(self).conexiones()[user_id],
                None => !old(self).conexiones().contains_key(user_id),
            },
    {
        proof {
            use_type_invariant(&*self);
        }
        let mut expiradas = HashSet::new();
        std::mem::swap(&mut expiradas, &mut self.expired_sessions);
        expiradas.insert(user_id);
        self.expired_sessions = expiradas;
        assert(self.conexiones() =~= old(self).conexiones());
        self.quitar_usuario(user_id)
    }

    /// Lifts the expired mark of a user, so that they can connect again.
    pub fn clear_expired_session(&mut self, user_id: i64)
        ensures
            final(self).bien_formado(),
            final(self).expiradas() == old(self).expiradas().remove(user_id),
            final(self).conexiones() == old(self).conexiones(),
    {
        proof {
            use_type_invariant(&*self);
        }
        let mut expiradas = HashSet::new();
        std::mem::swap(&mut expiradas, &mut self.expired_sessions);
        expiradas.remove(&user_id);
        self.expired_sessions = expiradas;
        assert(self.conexiones() =~= old(self).conexiones());
    }

    /// Registers a new socket of a user, after the ones they already have.
    pub fn add_connection(&mut self, user_id: i64, socket_id: &str, sender: S)
        ensures
            final(self).bien_formado(),
            final(self).expiradas() == old(self).expiradas(),
            exists|c: SocketConnection<S>|
                c.socket_id@ == socket_id@ && c.sender == sender && #[trigger] final(self).conexiones()
                    == agregado(old(self).conexiones(), user_id, c),
    {
        let previas = self.quitar_usuario(user_id);
        let ghost medio = self.conexiones();
        let mut lista = match previas {
            Some(v) => v,
            None => Vec::new(),
        };
        let ghost antes = lista@;
        lista.push(SocketConnection { socket_id: socket_id.to_owned(), sender });
        assert(lista@.drop_last() =~= antes);
        self.poner_usuario(user_id, lista);
        assert(self.conexiones() =~= medio.insert(user_id, lista@));
        assert(self.conexiones() =~= agregado(old(self).conexiones(), user_id, lista@.last()));
    }

    /// Removes one socket of a user; a user left with no socket is dropped
    /// from the registry.
    pub fn remove_connection(&mut self, user_id: i64, socket_id: &str)
        ensures
            final(self).bien_formado(),
            final(self).expiradas() == old(self).expiradas(),
            final(self).conexiones() == quitado(old(self).conexiones(), user_id, socket_id@),
    {
        let previas = self.quitar_usuario(user_id);
        match previas {
            None => {
                assert(self.conexiones() =~= old(self).conexiones());
            },
            Some(v) => {
                let ghost original = v@;
                let ghost medio = self.conexiones();
                let buscado = socket_id.to_owned();
                // removes in place, keeping the vector's allocation as `retain` does
                let mut quedan = v;
                let mut i: usize = 0;
                let ghost mut j: int = 0;
                while i < quedan.len()
                    invariant
                        buscado@ == socket_id@,
                        0 <= j <= original.len(),
                        quedan@ == sin_socket(original.take(j), socket_id@) + original.subrange(
                            j,
                            original.len() as int,
                        ),
                        i == sin_socket(original.take(j), socket_id@).len(),
                    decreases quedan.len() - i,
                {
                    let ghost previo = sin_socket(original.take(j), socket_id@);
                    assert(quedan@[i as int] == original[j]);
                    proof {
                        original.take(j).lemma_filter_push(original[j], otro_socket(socket_id@));
                        assert(original.take(j + 1) =~= original.take(j).push(original[j]));
                    }
                    assert(otro_socket(socket_id@)(original[j]) == !(original[j].socket_id@
                        == socket_id@));
                    if quedan[i].socket_id == buscado {
                        quedan.remove(i);
                        assert(quedan@ =~= previo + original.subrange(j + 1, original.len() as int));
                    } else {
                        assert(quedan@ =~= previo.push(original[j]) + original.subrange(
                            j + 1,
                            original.len() as int,
                        ));
                        i = i + 1;
                    }
                    proof {
                        j = j + 1;
                    }
                }
                assert(j == original.len()) by {
                    if j < original.len() {
                        assert(quedan@.len() > i);
                    }
                }
                assert(original.take(original.len() as int) =~= original);
                assert(quedan@ =~= sin_socket(original, socket_id@));
                if quedan.len() > 0 {
                    self.poner_usuario(user_id, quedan);
                    assert(self.conexiones() =~= medio.insert(user_id, sin_socket(original, socket_id@)));
                    assert(self.conexiones() =~= old(self).conexiones().insert(
                        user_id,
                        sin_socket(original, socket_id@),
                    ));
                }
            },
        }
    }

    /// Drops all of a user's sockets (at logout) and returns them so that
    /// they can be closed.
    pub fn disconnect_all_user_sockets(&mut self, user_id: i64) -> (r: Option<
        Vec<SocketConnection<S>>,
    >)
        ensures
            final(self).bien_formado(),
            final(self).expiradas() == old(self).expiradas(),
            final(self).conexiones() == old(self).conexiones().remove(user_id),
            match r {
                Some(v) => old(self).conexiones().contains_key(user_id) && v@ == old(self).conexiones()[user_id],
                None => !old(self).conexiones().contains_key(user_id),
            },
    {
        self.quitar_usuario(user_id)
    }

    /// The connected users, each once, in no particular order.
    pub fn usuarios_conectados(&self) -> (ks: Vec<i64>)
        ensures
            ks@.no_duplicates(),
            ks@.to_set() == self.conexiones().dom(),
    {
        let mut ks: Vec<i64> = Vec::new();
        let ghost todas = self.connections.keys().remaining().unref();
        for k in it: self.connections.keys()
            invariant
                it.seq().unref() == todas,
                ks@ == todas.take(it.index()),
        {
            ks.push(*k);
            assert(ks@ =~= todas.take(it.index() + 1));
        }
        assert(ks@ =~= todas);
        assert(ks@.to_set() =~= self.conexiones().dom());
        ks
    }

    /// The open sockets of a user, which a notification to them is sent to.
    pub fn conexiones_de(&self, user_id: i64) -> (r: Option<&Vec<SocketConnection<S>>>)
        ensures
            match r {
                Some(v) => self.conexiones().contains_key(user_id) && v@ == self.conexiones()[user_id],
                None => !self.conexiones().contains_key(user_id),
            },
    {
        self.connections.get(&user_id)
    }

    /// Whether the registry can take requests; it always can.
    pub fn is_available(&self) -> (r: bool)
        ensures
            r,
    {
        true
    }

    /// The number of open sockets over all users.
    pub fn get_total_connections(&self) -> (r: usize)
        requires
            total_conexiones(self.conexiones()) <= usize::MAX,
        ensures
            r == total_conexiones(self.conexiones()),
    {
        let ks = self.usuarios_conectados();
        let ghost m = self.conexiones();
        proof {
            lema_suma_total(m, ks@);
        }
        let mut total: usize = 0;
        let mut i: usize = 0;
        while i < ks.len()
            invariant
                i <= ks.len(),
                m == self.conexiones(),
                ks@.to_set() == m.dom(),
                suma_en(m, ks@) <= usize::MAX,
                total == suma_en(m, ks@.take(i as int)),
            decreases ks.len() - i,
        {
            assert(ks@.to_set().contains(ks@[i as int]));
            let cs = self.conexiones_de(ks[i]).unwrap();
            assert(ks@.take(i + 1).drop_last() =~= ks@.take(i as int));
            proof {
                lema_suma_creciente(m, ks@, i + 1);
            }
            total = total + cs.len();
            i = i + 1;
        }
        assert(ks@.take(ks.len() as int) =~= ks@);
        total
    }

    /// The number of open sockets over all users, or `None` where it does
    /// not fit in a `usize`.
    pub fn total_verificado(&self) -> (r: Option<usize>)
        ensures
            match r {
                Some(t) => t == total_conexiones(self.conexiones()),
                None => total_conexiones(self.conexiones()) > usize::MAX,
            },
    {
        let ks = self.usuarios_conectados();
        let ghost m = self.conexiones();
        proof {
            lema_suma_total(m, ks@);
        }
        let mut total: usize = 0;
        let mut i: usize = 0;
        while i < ks.len()
            invariant
                i <= ks.len(),
                m == self.conexiones(),
                ks@.to_set() == m.dom(),
                suma_en(m, ks@) == total_conexiones(m),
                total == suma_en(m, ks@.take(i as int)),
            decreases ks.len() - i,
        {
            assert(ks@.to_set().contains(ks@[i as int]));
            let cs = self.conexiones_de(ks[i]).unwrap();
            assert(ks@.take(i + 1).drop_last() =~= ks@.take(i as int));
            proof {
                lema_suma_creciente(m, ks@, i + 1);
            }
            match total.checked_add(cs.len()) {
                Some(t) => total = t,
                None => return None,
            }
            i = i + 1;
        }
        assert(ks@.take(ks.len() as int) =~= ks@);
        Some(total)
    }

    /// The users that are connected and not expired, and their rooms, one
    /// per user, in no particular order: an expired user's room is never
    /// listed.
    pub fn get_connection_info(&self) -> (r: ConnectionInfo)
        ensures
            r.connected_users == r.rooms.len(),
            r.connected_users == self.conexiones().dom().difference(self.expiradas()).len(),
            exists|ids: Seq<i64>|
                {
                    &&& ids.no_duplicates()
                    &&& ids.to_set() == self.conexiones().dom().difference(self.expiradas())
                    &&& ids.len() == r.rooms.len()
                    &&& forall|j: int| 0 <= j < ids.len() ==> #[trigger] r.rooms@[j]@ == sala(ids[j])
                },
            forall|u: i64| #[trigger]
                sala_listada(r.rooms@, u) <==> (self.conexiones().contains_key(u)
                    && !self.expiradas().contains(u)),
    {
        let ks = self.usuarios_conectados();
        let ghost dom = self.conexiones().dom();
        let ghost exp = self.expiradas();
        let mut rooms: Vec<String> = Vec::new();
        let ghost mut ids: Seq<i64> = Seq::empty();
        let mut i: usize = 0;
        proof {
            reveal_strlit("user_");
        }
        while i < ks.len()
            invariant
                i <= ks.len(),
                ks@.no_duplicates(),
                ks@.to_set() == dom,
                exp == self.expiradas(),
                "user_"@ == seq!['u', 's', 'e', 'r', '_'],
                ids.no_duplicates(),
                ids.to_set() == ks@.take(i as int).to_set().difference(exp),
                ids.len() == rooms@.len(),
                forall|j: int| 0 <= j < ids.len() ==> #[trigger] rooms@[j]@ == sala(ids[j]),
            decreases ks.len() - i,
        {
            let k = ks[i];
            assert(ks@.take(i + 1).to_set() =~= ks@.take(i as int).to_set().insert(k)) by {
                assert(ks@.take(i + 1) =~= ks@.take(i as int).push(k));
                ks@.take(i as int).lemma_push_to_set_commute(k);
            }
            assert(!ks@.take(i as int).contains(k)) by {
                if ks@.take(i as int).contains(k) {
                    let j = choose|j: int| 0 <= j < i && ks@.take(i as int)[j] == k;
                    assert(ks@[j] == ks@[i as int]);
                }
            }
            if !self.expired_sessions.contains(&k) {
                let mut sala_k = "user_".to_owned();
                let num = formatear_entero(k);
                sala_k.append(num.as_str());
                rooms.push(sala_k);
                proof {
                    assert(!ids.contains(k)) by {
                        if ids.contains(k) {
                            assert(ids.to_set().contains(k));
                            assert(ks@.take(i as int).to_set().contains(k));
                        }
                    }
                    ids.lemma_push_to_set_commute(k);
                    ids = ids.push(k);
                }
            }
            assert(ids.to_set() =~= ks@.take(i + 1).to_set().difference(exp));
            i = i + 1;
        }
        assert(ks@.take(ks.len() as int) =~= ks@);
        proof {
            ids.unique_seq_to_set();
            lema_salas_listadas(ids, rooms@);
            assert(ids.to_set() =~= self.conexiones().dom().difference(self.expiradas()));
            assert forall|u: i64| #[trigger]
                sala_listada(rooms@, u) <==> (self.conexiones().contains_key(u)
                    && !self.expiradas().contains(u)) by {
                assert(ids.contains(u) <==> ids.to_set().contains(u));
            }
        }
        ConnectionInfo { connected_users: rooms.len(), rooms }
    }

    /// Occupancy figures: users, sockets, the capacity reserved for them
    /// (each user's capacity read once and the capacities summed without
    /// overflow), the spare part of it, and the most sockets one user has.
    pub fn get_memory_metrics(&self) -> (r: SocketMemoryMetrics)
        requires
            total_conexiones(self.conexiones()) <= usize::MAX,
        ensures
            r.total_users == self.conexiones().dom().len(),
            r.total_connections == total_conexiones(self.conexiones()),
            exists|ks: Seq<i64>, caps: Seq<usize>|
                {
                    &&& ks.no_duplicates()
                    &&& ks.to_set() == self.conexiones().dom()
                    &&& caps.len() == ks.len()
                    &&& forall|j: int|
                        0 <= j < ks.len() ==> #[trigger] caps[j] >= self.conexiones()[ks[j]].len()
                    &&& r.total_capacity == suma_saturada(caps)
                },
            r.total_capacity >= r.total_connections,
            r.memory_overhead == r.total_capacity - r.total_connections,
            forall|u: i64| #[trigger]
                self.conexiones().contains_key(u) ==> self.conexiones()[u].len()
                    <= r.largest_user_connections,
            self.conexiones().dom().len() == 0 ==> r.largest_user_connections == 0,
            self.conexiones().dom().len() > 0 ==> exists|u: i64| #[trigger]
                self.conexiones().contains_key(u) && self.conexiones()[u].len()
                    == r.largest_user_connections,
    {
        let ks = self.usuarios_conectados();
        let ghost m = self.conexiones();
        proof {
            lema_suma_total(m, ks@);
            ks@.unique_seq_to_set();
        }
        let mut total: usize = 0;
        let mut caps: Vec<usize> = Vec::new();
        let mut mayor: usize = 0;
        let ghost mut testigo: int = 0;
        let mut i: usize = 0;
        while i < ks.len()
            invariant
                i <= ks.len(),
                m == self.conexiones(),
                ks@.to_set() == m.dom(),
                suma_en(m, ks@) <= usize::MAX,
                total == suma_en(m, ks@.take(i as int)),
                caps@.len() == i,
                forall|j: int| 0 <= j < i ==> #[trigger] caps@[j] >= m[ks@[j]].len(),
                forall|j: int| 0 <= j < i ==> m[#[trigger] ks@[j]].len() <= mayor,
                i == 0 ==> mayor == 0,
                i > 0 ==> 0 <= testigo < i && m[ks@[testigo]].len() == mayor,
            decreases ks.len() - i,
        {
            assert(ks@.to_set().contains(ks@[i as int]));
            let cs = self.conexiones_de(ks[i]).unwrap();
            assert(ks@.take(i + 1).drop_last() =~= ks@.take(i as int));
            proof {
                lema_suma_creciente(m, ks@, i + 1);
            }
            total = total + cs.len();
            caps.push(capacidad(cs));
            if cs.len() > mayor || i == 0 {
                mayor = cs.len();
                proof {
                    testigo = i as int;
                }
            }
            i = i + 1;
        }
        assert(ks@.take(ks.len() as int) =~= ks@);
        proof {
            if ks.len() > 0 {
                assert(ks@.to_set().contains(ks@[testigo]));
            }
            assert(self.conexiones().dom() =~= self.connections@.dom());
            assert forall|u: i64| #[trigger] m.contains_key(u) implies m[u].len() <= mayor by {
                assert(ks@.to_set().contains(u));
                let j = choose|j: int| 0 <= j < ks.len() && ks@[j] == u;
            }
        }
        let capacidad_total = capacidad_acumulada(&caps);
        proof {
            lema_capacidad_cubre(m, ks@, caps@);
        }
        SocketMemoryMetrics {
            total_users: self.connections.len(),
            total_connections: total,
            total_capacity: capacidad_total,
            memory_overhead: capacidad_total.saturating_sub(total),
            largest_user_connections: mayor,
        }
    }

    /// Gives back the spare capacity of every user whose sockets occupy less
    /// than half of it with at least ten slots free; returns how many users
    /// that was. The sockets themselves are untouched.
    pub fn optimize_memory(&mut self) -> (r: usize)
        ensures
            final(self).bien_formado(),
            final(self).conexiones() == old(self).conexiones(),
            final(self).expiradas() == old(self).expiradas(),
            r <= old(self).conexiones().dom().len(),
            exists|ks: Seq<i64>, caps: Seq<usize>|
                {
                    &&& ks.no_duplicates()
                    &&& ks.to_set() == old(self).conexiones().dom()
                    &&& caps.len() == ks.len()
                    &&& forall|j: int|
                        0 <= j < ks.len() ==> #[trigger] caps[j] >= old(self).conexiones()[ks[j]].len()
                    &&& r == contar_compactables(old(self).conexiones(), ks, caps)
                },
    {
        proof {
            use_type_invariant(&*self);
        }
        let ks = self.usuarios_conectados();
        let ghost m = self.conexiones();
        proof {
            ks@.unique_seq_to_set();
        }
        let mut conns = HashMap::new();
        std::mem::swap(&mut conns, &mut self.connections);
        assert(self.conexiones() =~= Map::<i64, Seq<SocketConnection<S>>>::empty());
        let ghost mut caps: Seq<usize> = Seq::empty();
        let mut cuenta: usize = 0;
        let mut i: usize = 0;
        while i < ks.len()
            invariant
                i <= ks.len(),
                m == old(self).conexiones(),
                m == conns@.map_values(|w: Vec<SocketConnection<S>>| w@),
                ks@.to_set() == m.dom(),
                ks@.len() == m.dom().len(),
                caps.len() == i,
                forall|j: int| 0 <= j < i ==> #[trigger] caps[j] >= m[ks@[j]].len(),
                cuenta == contar_compactables(m, ks@.take(i as int), caps),
                cuenta <= i,
            decreases ks.len() - i,
        {
            let k = ks[i];
            assert(ks@.to_set().contains(k));
            let mut v = conns.remove(&k).unwrap();
            let cap = capacidad(&v);
            if debe_compactar_con(cap, v.len()) {
                compactar(&mut v);
                cuenta = cuenta + 1;
            }
            conns.insert(k, v);
            assert(conns@.map_values(|w: Vec<SocketConnection<S>>| w@) =~= m);
            proof {
                assert(ks@.take(i + 1).drop_last() =~= ks@.take(i as int));
                let nuevas = caps.push(cap);
                assert(nuevas.drop_last() =~= caps);
                caps = nuevas;
            }
            i = i + 1;
        }
        assert forall|u: i64| #[trigger] conns@.contains_key(u) implies conns@[u]@.len() > 0 by {
            assert(m.contains_key(u) && m[u] == conns@[u]@);
            assert(old(self).connections@.contains_key(u));
        }
        self.connections = conns;
        assert(ks@.take(ks.len() as int) =~= ks@);
        cuenta
    }
}

proof fn lema_filtro_sin_cambios<S>(cs: Seq<SocketConnection<S>>, socket_id: Seq<char>)
    requires
        forall|k: int| 0 <= k < cs.len() ==> !es_socket(#[trigger] cs[k], socket_id),
    ensures
        sin_socket(cs, socket_id) == cs,
    decreases cs.len(),
{
    if cs.len() > 0 {
        let r = cs.drop_last();
        lema_filtro_sin_cambios(r, socket_id);
        assert(cs =~= r.push(cs.last()));
        r.lemma_filter_push(cs.last(), otro_socket(socket_id));
    }
}

/// If none of `cs` has id `socket_id`, every one of them does.
proof fn lema_filtro_vacio_todos<S>(cs: Seq<SocketConnection<S>>, socket_id: Seq<char>)
    requires
        sin_socket(cs, socket_id).len() == 0,
    ensures
        forall|k: int| 0 <= k < cs.len() ==> es_socket(#[trigger] cs[k], socket_id),
    decreases cs.len(),
{
    if cs.len() > 0 {
        let r = cs.drop_last();
        assert(cs =~= r.push(cs.last()));
        r.lemma_filter_push(cs.last(), otro_socket(socket_id));
        lema_filtro_vacio_todos(r, socket_id);
        assert forall|k: int| 0 <= k < cs.len() implies es_socket(#[trigger] cs[k], socket_id) by {
            if k < r.len() {
                assert(cs[k] == r[k]);
            }
        }
    }
}

/// Removing a socket id that none of the user's sockets has leaves the
/// registry as it was; a user is dropped only when every socket of theirs
/// had that id, and otherwise keeps exactly the sockets with other ids.
pub proof fn lema_quitar_socket<S>(m: Map<i64, Seq<SocketConnection<S>>>, u: i64, socket_id: Seq<char>)
    requires
        m.contains_key(u) ==> m[u].len() > 0,
    ensures
        (m.contains_key(u) ==> forall|k: int|
            0 <= k < m[u].len() ==> !es_socket(#[trigger] m[u][k], socket_id)) ==> quitado(
            m,
            u,
            socket_id,
        ) == m,
        m.contains_key(u) && !quitado(m, u, socket_id).contains_key(u) ==> forall|k: int|
            0 <= k < m[u].len() ==> es_socket(#[trigger] m[u][k], socket_id),
        quitado(m, u, socket_id).contains_key(u) ==> forall|k: int|
            0 <= k < quitado(m, u, socket_id)[u].len() ==> !es_socket(
                #[trigger] quitado(m, u, socket_id)[u][k],
                socket_id,
            ),
        forall|v: i64| v != u ==> #[trigger] quitado(m, u, socket_id).contains_key(v) == m.contains_key(v),
        forall|v: i64| v != u && m.contains_key(v) ==> #[trigger] quitado(m, u, socket_id)[v] == m[v],
{
    if m.contains_key(u) {
        let cs = m[u];
        if forall|k: int| 0 <= k < cs.len() ==> !es_socket(#[trigger] cs[k], socket_id) {
            lema_filtro_sin_cambios(cs, socket_id);
            assert(m.insert(u, cs) =~= m);
        }
        if sin_socket(cs, socket_id).len() == 0 {
            lema_filtro_vacio_todos(cs, socket_id);
        } else {
            let f = sin_socket(cs, socket_id);
            assert forall|k: int| 0 <= k < f.len() implies !es_socket(#[trigger] f[k], socket_id) by {
                cs.filter_lemma(otro_socket(socket_id));
                assert(otro_socket(socket_id)(f[k]));
            }
        }
    }
}

/// Registering a socket and then removing it by its id gives back the
/// registry as it was, when the user had no other socket of that id.
pub proof fn lema_agregar_y_quitar<S>(
    m: Map<i64, Seq<SocketConnection<S>>>,
    u: i64,
    c: SocketConnection<S>,
)
    requires
        forall|v: i64| #[trigger] m.contains_key(v) ==> m[v].len() > 0,
        m.contains_key(u) ==> forall|k: int|
            0 <= k < m[u].len() ==> !es_socket(#[trigger] m[u][k], c.socket_id@),
    ensures
        quitado(agregado(m, u, c), u, c.socket_id@) == m,
{
    let antes = if m.contains_key(u) {
        m[u]
    } else {
        Seq::empty()
    };
    lema_filtro_sin_cambios(antes, c.socket_id@);
    antes.lemma_filter_push(c, otro_socket(c.socket_id@));
    assert(sin_socket(antes.push(c), c.socket_id@) == antes);
    if m.contains_key(u) {
        assert(agregado(m, u, c).insert(u, antes) =~= m);
    } else {
        assert(agregado(m, u, c).remove(u) =~= m);
    }
}

/// Once a user's session is expired, the user has no socket left and is
/// not counted among the connected users (so their room is not listed),
/// even after opening a new socket; once the mark is cleared, a connected
/// user is counted again, as is one who then opens a socket.
pub proof fn lema_expirada_no_conectada<S>(
    m: Map<i64, Seq<SocketConnection<S>>>,
    expiradas: Set<i64>,
    u: i64,
    c: SocketConnection<S>,
)
    ensures
        !m.remove(u).contains_key(u),
        !m.remove(u).dom().difference(expiradas.insert(u)).contains(u),
        !agregado(m.remove(u), u, c).dom().difference(expiradas.insert(u)).contains(u),
        expiradas.insert(u).remove(u) == expiradas.remove(u),
        m.contains_key(u) ==> m.dom().difference(expiradas.remove(u)).contains(u),
        agregado(m, u, c).dom().difference(expiradas.remove(u)).contains(u),
{
    assert(expiradas.insert(u).remove(u) =~= expiradas.remove(u));
}

/// Folding the socket counts of two registries over a set of users on
/// which they agree gives the same total.
proof fn lema_suma_congruente<S>(
    m1: Map<i64, Seq<SocketConnection<S>>>,
    m2: Map<i64, Seq<SocketConnection<S>>>,
    usuarios: Set<i64>,
)
    requires
        usuarios.finite(),
        forall|u: i64| #[trigger] usuarios.contains(u) ==> m1[u].len() == m2[u].len(),
    ensures
        usuarios.fold(0nat, sumar_sockets(m1)) == usuarios.fold(0nat, sumar_sockets(m2)),
    decreases usuarios.len(),
{
    let f1 = sumar_sockets(m1);
    let f2 = sumar_sockets(m2);
    assert(vstd::set::fold::is_fun_commutative(f1));
    assert(vstd::set::fold::is_fun_commutative(f2));
    if usuarios.len() == 0 {
        assert(usuarios =~= Set::<i64>::empty());
        vstd::set::fold::lemma_fold_empty(0nat, f1);
        vstd::set::fold::lemma_fold_empty(0nat, f2);
    } else {
        let a = usuarios.choose();
        let resto = usuarios.remove(a);
        lema_suma_congruente(m1, m2, resto);
        assert(resto.insert(a) =~= usuarios);
        vstd::set::fold::lemma_fold_insert(resto, 0nat, f1, a);
        vstd::set::fold::lemma_fold_insert(resto, 0nat, f2, a);
    }
}

/// Registering a socket adds one to the total of open sockets.
pub proof fn lema_total_tras_agregar<S>(
    m: Map<i64, Seq<SocketConnection<S>>>,
    u: i64,
    c: SocketConnection<S>,
)
    requires
        m.dom().finite(),
    ensures
        total_conexiones(agregado(m, u, c)) == total_conexiones(m) + 1,
{
    let m2 = agregado(m, u, c);
    let f = sumar_sockets(m);
    let f2 = sumar_sockets(m2);
    assert(vstd::set::fold::is_fun_commutative(f));
    assert(vstd::set::fold::is_fun_commutative(f2));
    if m.contains_key(u) {
        let resto = m.dom().remove(u);
        lema_suma_congruente(m, m2, resto);
        assert(resto.insert(u) =~= m.dom());
        assert(m2.dom() =~= m.dom());
        vstd::set::fold::lemma_fold_insert(resto, 0nat, f, u);
        vstd::set::fold::lemma_fold_insert(resto, 0nat, f2, u);
    } else {
        lema_suma_congruente(m, m2, m.dom());
        assert(m2.dom() =~= m.dom().insert(u));
        vstd::set::fold::lemma_fold_insert(m.dom(), 0nat, f2, u);
    }
}

/// Dropping a user's sockets takes exactly their number off the total.
pub proof fn lema_total_tras_quitar_usuario<S>(m: Map<i64, Seq<SocketConnection<S>>>, u: i64)
    requires
        m.dom().finite(),
    ensures
        total_conexiones(m.remove(u)) == total_conexiones(m) - (if m.contains_key(u) {
            m[u].len() as int
        } else {
            0
        }),
{
    let m2 = m.remove(u);
    let f = sumar_sockets(m);
    let f2 = sumar_sockets(m2);
    assert(vstd::set::fold::is_fun_commutative(f));
    assert(vstd::set::fold::is_fun_commutative(f2));
    if m.contains_key(u) {
        let resto = m.dom().remove(u);
        assert(m2.dom() =~= resto);
        lema_suma_congruente(m, m2, resto);
        assert(resto.insert(u) =~= m.dom());
        vstd::set::fold::lemma_fold_insert(resto, 0nat, f, u);
    } else {
        assert(m2 =~= m);
    }
}

} // verus!
