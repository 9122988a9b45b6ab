//! Text rules shared by the services: whitespace trimming, decimal
//! rendering of integers, joining, and parsing of signed integers.

use vstd::prelude::*;
use vstd::std_specs::iter::IteratorSpec;
use vstd::string::StrSliceExecFns;
use vstd::string::StringExecFns;

verus! {

broadcast use vstd::string::group_string_axioms;

/// The Unicode `White_Space` property, which is what `char::is_whitespace`
/// (and hence `str::trim`) tests.
pub open spec fn es_espacio(c: char) -> bool {
    let u = c as u32;
    ||| 0x9 <= u <= 0xD
    ||| u == 0x20
    ||| u == 0x85
    ||| u == 0xA0
    ||| u == 0x1680
    ||| 0x2000 <= u <= 0x200A
    ||| u == 0x2028
    ||| u == 0x2029
    ||| u == 0x202F
    ||| u == 0x205F
    ||| u == 0x3000
}

/// Executable test of `es_espacio`.
pub fn es_espacio_exec(c: char) -> (r: bool)
    ensures
        r == es_espacio(c),
{
    let u = c as u32;
    (0x9 <= u && u <= 0xD) || u == 0x20 || u == 0x85 || u == 0xA0 || u == 0x1680 || (0x2000 <= u
        && u <= 0x200A) || u == 0x2028 || u == 0x2029 || u == 0x202F || u == 0x205F || u == 0x3000
}

/// Drops the leading whitespace of `s`.
pub open spec fn sin_espacios_iniciales(s: Seq<char>) -> Seq<char>
    decreases s.len(),
{
    if s.len() > 0 && es_espacio(s[0]) {
        sin_espacios_iniciales(s.drop_first())
    } else {
        s
    }
}

/// Drops the trailing whitespace of `s`.
pub open spec fn sin_espacios_finales(s: Seq<char>) -> Seq<char>
    decreases s.len(),
{
    if s.len() > 0 && es_espacio(s.last()) {
        sin_espacios_finales(s.drop_last())
    } else {
        s
    }
}

/// What `str::trim` returns: `s` without its leading and trailing whitespace.
pub open spec fn recortado(s: Seq<char>) -> Seq<char> {
    sin_espacios_finales(sin_espacios_iniciales(s))
}

/// Every character with the Unicode `White_Space` property counts as
/// whitespace when trimming: tab, line feed, vertical tab, form feed,
/// carriage return, space, next line, no-break space, ogham space mark, the
/// spaces from en quad to hair space, line and paragraph separators, narrow
/// no-break space, medium mathematical space and ideographic space. ASCII
/// letters and digits never do.
pub proof fn lema_espacios_unicode(c: char)
    ensures
        es_espacio('\u{9}') && es_espacio('\u{A}') && es_espacio('\u{B}') && es_espacio('\u{C}')
            && es_espacio('\u{D}') && es_espacio(' ') && es_espacio('\u{85}') && es_espacio('\u{A0}')
            && es_espacio('\u{1680}'),
        es_espacio('\u{2000}') && es_espacio('\u{2001}') && es_espacio('\u{2002}') && es_espacio(
            '\u{2003}',
        ) && es_espacio('\u{2004}') && es_espacio('\u{2005}') && es_espacio('\u{2006}')
            && es_espacio('\u{2007}') && es_espacio('\u{2008}') && es_espacio('\u{2009}')
            && es_espacio('\u{200A}'),
        es_espacio('\u{2028}') && es_espacio('\u{2029}') && es_espacio('\u{202F}') && es_espacio(
            '\u{205F}',
        ) && es_espacio('\u{3000}'),
        ('0' <= c <= '9' || 'a' <= c <= 'z' || 'A' <= c <= 'Z') ==> !es_espacio(c),
{
}

proof fn lema_iniciales_con_final(s: Seq<char>, c: char)
    requires
        es_espacio(c),
    ensures
        sin_espacios_iniciales(s.push(c)) == (if sin_espacios_iniciales(s).len() == 0 {
            Seq::<char>::empty()
        } else {
            sin_espacios_iniciales(s).push(c)
        }),
    decreases s.len(),
{
    if s.len() == 0 {
        assert(s.push(c).drop_first() =~= Seq::<char>::empty());
        assert(sin_espacios_iniciales(Seq::<char>::empty()) == Seq::<char>::empty());
    } else if es_espacio(s[0]) {
        lema_iniciales_con_final(s.drop_first(), c);
        assert(s.push(c).drop_first() =~= s.drop_first().push(c));
    } else {
        assert(s.push(c)[0] == s[0]);
        assert(sin_espacios_iniciales(s) == s);
    }
}

/// Trimming ignores whitespace added at either end: a string with a
/// whitespace character put before or after it trims to the same text.
pub proof fn lema_recortar_extremos(s: Seq<char>, c: char)
    requires
        es_espacio(c),
    ensures
        recortado(seq![c] + s) == recortado(s),
        recortado(s.push(c)) == recortado(s),
{
    assert((seq![c] + s).drop_first() =~= s);
    lema_iniciales_con_final(s, c);
    let i = sin_espacios_iniciales(s);
    if i.len() > 0 {
        assert(i.push(c).drop_last() =~= i);
    }
}

/// The characters of `s`, in order.
pub fn caracteres(s: &str) -> (v: Vec<char>)
    ensures
        v@ == s@,
{
    let mut v: Vec<char> = Vec::new();
    for c in it: s.chars()
        invariant
            it.seq() == s@,
            v@ == it.seq().take(it.index()),
    {
        v.push(c);
    }
    v
}

/// `s` without its leading and trailing whitespace, as `str::trim` gives it.
pub fn recortar(s: &str) -> (r: String)
    ensures
        r@ == recortado(s@),
{
    let v = caracteres(s);
    let n = v.len();
    let mut i: usize = 0;
    assert(s@.subrange(0, n as int) =~= s@);
    while i < n && es_espacio_exec(v[i])
        invariant
            v@ == s@,
            n == v.len(),
            i <= n,
            sin_espacios_iniciales(s@) == sin_espacios_iniciales(s@.subrange(i as int, n as int)),
        decreases n - i,
    {
        assert(s@.subrange(i as int, n as int).drop_first() =~= s@.subrange(i + 1, n as int));
        i = i + 1;
    }
    let ghost t = s@.subrange(i as int, n as int);
    assert(sin_espacios_iniciales(s@) == t);
    let mut j: usize = n;
    while j > i && es_espacio_exec(v[j - 1])
        invariant
            v@ == s@,
            n == v.len(),
            i <= j <= n,
            t == s@.subrange(i as int, n as int),
            sin_espacios_finales(t) == sin_espacios_finales(s@.subrange(i as int, j as int)),
        decreases j - i,
    {
        assert(s@.subrange(i as int, j as int).drop_last() =~= s@.subrange(i as int, j - 1));
        j = j - 1;
    }
    let parte = s.substring_char(i, j);
    parte.to_owned()
}

/// Whether `s` holds nothing but whitespace (what `s.trim().is_empty()` tests).
pub open spec fn en_blanco(s: Seq<char>) -> bool {
    recortado(s).len() == 0
}

/// The decimal digit character of `d`, for `0 <= d <= 9`.
pub open spec fn digito(d: int) -> char {
    if d == 0 {
        '0'
    } else if d == 1 {
        '1'
    } else if d == 2 {
        '2'
    } else if d == 3 {
        '3'
    } else if d == 4 {
        '4'
    } else if d == 5 {
        '5'
    } else if d == 6 {
        '6'
    } else if d == 7 {
        '7'
    } else if d == 8 {
        '8'
    } else {
        '9'
    }
}

/// The decimal digits of `n`, most significant first, with no leading zero.
pub open spec fn digitos(n: nat) -> Seq<char>
    decreases n,
{
    if n < 10 {
        seq![digito(n as int)]
    } else {
        digitos(n / 10).push(digito((n % 10) as int))
    }
}

/// How `Display` renders the integer `n`: an optional minus sign, then its digits.
pub open spec fn decimal(n: int) -> Seq<char> {
    if n < 0 {
        seq!['-'] + digitos((-n) as nat)
    } else {
        digitos(n as nat)
    }
}

fn texto_digito(d: u64) -> (r: &'static str)
    requires
        d < 10,
    ensures
        r@ == seq![digito(d as int)],
{
    if d == 0 {
        proof { reveal_strlit("0"); }
        "0"
    } else if d == 1 {
        proof { reveal_strlit("1"); }
        "1"
    } else if d == 2 {
        proof { reveal_strlit("2"); }
        "2"
    } else if d == 3 {
        proof { reveal_strlit("3"); }
        "3"
    } else if d == 4 {
        proof { reveal_strlit("4"); }
        "4"
    } else if d == 5 {
        proof { reveal_strlit("5"); }
        "5"
    } else if d == 6 {
        proof { reveal_strlit("6"); }
        "6"
    } else if d == 7 {
        proof { reveal_strlit("7"); }
        "7"
    } else if d == 8 {
        proof { reveal_strlit("8"); }
        "8"
    } else {
        proof { reveal_strlit("9"); }
        "9"
    }
}

/// The decimal digits of `m`.
fn formatear_natural(m: u64) -> (r: String)
    ensures
        r@ == digitos(m as nat),
{
    let mut resto: u64 = m;
    let mut acc = String::new();
    loop
        invariant_except_break
            digitos(m as nat) == digitos(resto as nat) + acc@,
        ensures
            digitos(m as nat) == acc@,
        decreases resto,
    {
        let d = resto % 10;
        let ghost previo = acc@;
        let mut t = texto_digito(d).to_owned();
        t.append(acc.as_str());
        acc = t;
        assert(acc@ == seq![digito(d as int)] + previo);
        let siguiente = resto / 10;
        if siguiente == 0 {
            assert(digitos(resto as nat) == seq![digito(d as int)]);
            break;
        }
        assert(digitos(resto as nat) == digitos(siguiente as nat).push(digito(d as int)));
        assert(digitos(resto as nat) + previo =~= digitos(siguiente as nat) + acc@);
        resto = siguiente;
    }
    acc
}

/// `n` written in decimal, as `n.to_string()` writes it.
pub fn formatear_entero(n: i64) -> (r: String)
    ensures
        r@ == decimal(n as int),
{
    if n < 0 {
        let m: u64 = (0i128 - (n as i128)) as u64;
        let digs = formatear_natural(m);
        proof { reveal_strlit("-"); }
        let mut r = "-".to_owned();
        r.append(digs.as_str());
        r
    } else {
        formatear_natural(n as u64)
    }
}

/// The pieces of `partes` with `sep` between each two of them, as `join` builds it.
pub open spec fn unido(partes: Seq<Seq<char>>, sep: Seq<char>) -> Seq<char>
    decreases partes.len(),
{
    if partes.len() == 0 {
        Seq::empty()
    } else if partes.len() == 1 {
        partes[0]
    } else {
        unido(partes.drop_last(), sep) + sep + partes.last()
    }
}

/// The texts of a list of strings.
pub open spec fn textos(partes: Seq<String>) -> Seq<Seq<char>> {
    partes.map_values(|p: String| p@)
}

/// `partes.join(sep)`.
pub fn unir(partes: &Vec<String>, sep: &str) -> (r: String)
    ensures
        r@ == unido(textos(partes@), sep@),
{
    let mut r = String::new();
    let n = partes.len();
    let mut i: usize = 0;
    while i < n
        invariant
            n == partes.len(),
            i <= n,
            r@ == unido(textos(partes@).take(i as int), sep@),
        decreases n - i,
    {
        let ghost previo = textos(partes@).take(i as int);
        assert(textos(partes@).take(i + 1).drop_last() =~= previo);
        if i > 0 {
            r.append(sep);
        } else {
            assert(previo =~= Seq::<Seq<char>>::empty());
        }
        r.append(partes[i].as_str());
        i = i + 1;
    }
    assert(textos(partes@).take(n as int) =~= textos(partes@));
    r
}

/// Whether `c` is an ASCII decimal digit.
pub open spec fn es_digito(c: char) -> bool {
    '0' <= c <= '9'
}

/// The numeric value of the digit character `c`.
pub open spec fn valor_digito(c: char) -> int {
    c as int - '0' as int
}

/// The value of a string of decimal digits, read most significant first.
pub open spec fn valor(ds: Seq<char>) -> int
    decreases ds.len(),
{
    if ds.len() == 0 {
        0
    } else {
        valor(ds.drop_last()) * 10 + valor_digito(ds.last())
    }
}

/// Whether every character of `ds` is a decimal digit.
pub open spec fn solo_digitos(ds: Seq<char>) -> bool {
    forall|k: int| 0 <= k < ds.len() ==> es_digito(#[trigger] ds[k])
}

/// What `s.parse::<i32>()` yields, as an `Option`: an optional `+` or `-`,
/// then at least one decimal digit and nothing else, with a value that fits.
pub open spec fn analizado_i32(s: Seq<char>) -> Option<i32> {
    let negativo = s.len() > 0 && s[0] == '-';
    let con_signo = s.len() > 0 && (s[0] == '-' || s[0] == '+');
    let ds = if con_signo {
        s.drop_first()
    } else {
        s
    };
    let v = if negativo {
        -valor(ds)
    } else {
        valor(ds)
    };
    if ds.len() == 0 || !solo_digitos(ds) || v < i32::MIN || v > i32::MAX {
        None
    } else {
        Some(v as i32)
    }
}

proof fn lema_valor_no_negativo(ds: Seq<char>)
    requires
        solo_digitos(ds),
    ensures
        valor(ds) >= 0,
    decreases ds.len(),
{
    if ds.len() > 0 {
        lema_valor_no_negativo(ds.drop_last());
    }
}

/// The value of a digit string never falls as digits are added.
proof fn lema_valor_creciente(ds: Seq<char>, k: int)
    requires
        solo_digitos(ds),
        0 <= k <= ds.len(),
    ensures
        valor(ds.take(k)) <= valor(ds),
    decreases ds.len() - k,
{
    if k < ds.len() {
        lema_valor_creciente(ds, k + 1);
        assert(ds.take(k + 1).drop_last() =~= ds.take(k));
        lema_valor_no_negativo(ds.take(k));
        assert(es_digito(ds[k]));
    } else {
        assert(ds.take(k) =~= ds);
    }
}

/// `s.parse::<i32>().ok()`.
pub fn analizar_i32(s: &Vec<char>) -> (r: Option<i32>)
    ensures
        r == analizado_i32(s@),
{
    let n = s.len();
    if n == 0 {
        return None;
    }
    let negativo = s[0] == '-';
    let con_signo = negativo || s[0] == '+';
    let inicio: usize = if con_signo {
        1
    } else {
        0
    };
    let ghost ds = s@.subrange(inicio as int, n as int);
    assert(ds =~= (if con_signo {
        s@.drop_first()
    } else {
        s@
    }));
    if inicio == n {
        return None;
    }
    let mut acc: i64 = 0;
    let mut i: usize = inicio;
    while i < n
        invariant
            n == s.len(),
            inicio <= i <= n,
            ds == s@.subrange(inicio as int, n as int),
            n > 0,
            negativo == (s@[0] == '-'),
            con_signo == (s@[0] == '-' || s@[0] == '+'),
            ds == (if con_signo {
                s@.drop_first()
            } else {
                s@
            }),
            solo_digitos(ds.take(i - inicio)),
            acc == valor(ds.take(i - inicio)),
            0 <= acc <= 2147483648,
        decreases n - i,
    {
        let c = s[i];
        if !('0' <= c && c <= '9') {
            assert(ds[i - inicio] == c);
            return None;
        }
        let d = (c as u32 - '0' as u32) as i64;
        assert(ds.take(i + 1 - inicio).drop_last() =~= ds.take(i - inicio));
        acc = acc * 10 + d;
        assert(solo_digitos(ds.take(i + 1 - inicio)));
        if acc > 2147483648 {
            proof {
                if solo_digitos(ds) {
                    lema_valor_creciente(ds, i + 1 - inicio);
                }
            }
            return None;
        }
        i = i + 1;
    }
    assert(ds.take(n - inicio) =~= ds);
    if negativo {
        Some((0 - acc) as i32)
    } else if acc > 2147483647 {
        None
    } else {
        Some(acc as i32)
    }
}

proof fn lema_digitos(n: nat)
    ensures
        solo_digitos(digitos(n)),
        valor(digitos(n)) == n,
        digitos(n).len() >= 1,
        es_digito(digitos(n)[0]),
    decreases n,
{
    if n >= 10 {
        lema_digitos(n / 10);
        assert(digitos(n).drop_last() =~= digitos(n / 10));
        assert forall|k: int| 0 <= k < digitos(n).len() implies es_digito(#[trigger] digitos(n)[k]) by {
            if k < digitos(n).len() - 1 {
                assert(digitos(n)[k] == digitos(n / 10)[k]);
            }
        }
    } else {
        assert(valor(digitos(n).drop_last()) == 0);
    }
}

/// Reading back what `decimal` writes gives the number again, whenever it fits in an `i32`.
pub proof fn lema_decimal_se_lee(n: int)
    ensures
        analizado_i32(decimal(n)) == (if i32::MIN <= n <= i32::MAX {
            Some(n as i32)
        } else {
            None::<i32>
        }),
{
    if n < 0 {
        lema_digitos((-n) as nat);
        assert(decimal(n).drop_first() =~= digitos((-n) as nat));
    } else {
        lema_digitos(n as nat);
    }
}

/// Different numbers are written differently.
pub proof fn lema_decimal_inyectivo(a: int, b: int)
    requires
        decimal(a) == decimal(b),
    ensures
        a == b,
{
    if a < 0 {
        lema_digitos((-a) as nat);
        assert(decimal(a).drop_first() =~= digitos((-a) as nat));
    } else {
        lema_digitos(a as nat);
    }
    if b < 0 {
        lema_digitos((-b) as nat);
        assert(decimal(b).drop_first() =~= digitos((-b) as nat));
    } else {
        lema_digitos(b as nat);
    }
    if a < 0 && b < 0 {
        assert(digitos((-a) as nat) == digitos((-b) as nat));
    } else if a < 0 {
        assert(decimal(a)[0] == '-');
    } else if b < 0 {
        assert(decimal(b)[0] == '-');
    }
}

} // verus!
