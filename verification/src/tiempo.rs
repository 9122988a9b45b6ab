//! Instants. The library counts time in nanoseconds since the Unix epoch;
//! tokens count it in whole seconds.

use vstd::prelude::*;

verus! {

/// Nanoseconds in a second.
pub const NANOS_POR_SEGUNDO: i128 = 1_000_000_000;

/// The whole seconds since the Unix epoch of instant `ns` (nanoseconds),
/// rounded down, as `DateTime::timestamp` gives them.
pub open spec fn segundos(ns: int) -> int {
    ns / (NANOS_POR_SEGUNDO as int)
}

/// `DateTime::timestamp` of an instant given in nanoseconds.
pub fn marca_en_segundos(ns: i128) -> (r: i128)
    ensures
        r == segundos(ns as int),
{
    let q = ns / NANOS_POR_SEGUNDO;
    let resto = ns % NANOS_POR_SEGUNDO;
    if resto < 0 {
        q - 1
    } else {
        q
    }
}

/// Adding a whole number of seconds to an instant adds exactly that many
/// to its seconds.
pub proof fn lema_sumar_segundos(ns: int, s: int)
    ensures
        segundos(ns + s * NANOS_POR_SEGUNDO) == segundos(ns) + s,
{
    vstd::arithmetic::div_mod::lemma_hoist_over_denominator(ns, s, NANOS_POR_SEGUNDO as nat);
}

} // verus!
