use vstd::prelude::*;

use crate::estados::Accion;

verus! {

/// One parsed line of the protocol.
///
/// A line is exactly one of: the structure request, a seat operation, an
/// availability query, a line that names a command but breaks its grammar,
/// or free chat to be broadcast.
pub enum Comando {
    Estructura,
    Operar { accion: Accion, categoria: Vec<u8>, zona: Vec<u8>, fila: usize, asiento: usize },
    Consultar { categoria: Vec<u8>, zona: Vec<u8>, fila: usize, asiento: usize },
    Malformado { es_consulta: bool },
    Chat,
}

/// The keyword each command line starts with.
#[derive(Clone, Copy, PartialEq, Eq, Structural, Debug)]
pub enum TipoOrden {
    Reservar,
    Comprar,
    Liberar,
    Check,
}

/// "GET_STADIUM_STRUCTURE"
pub open spec fn kw_estructura() -> Seq<u8> {
    seq![71u8, 69u8, 84u8, 95u8, 83u8, 84u8, 65u8, 68u8, 73u8, 85u8, 77u8, 95u8, 83u8, 84u8, 82u8, 85u8, 67u8, 84u8, 85u8, 82u8, 69u8]
}

/// "RESERVAR_ASIENTO"
pub open spec fn kw_reservar() -> Seq<u8> {
    seq![82u8, 69u8, 83u8, 69u8, 82u8, 86u8, 65u8, 82u8, 95u8, 65u8, 83u8, 73u8, 69u8, 78u8, 84u8, 79u8]
}

/// "COMPRAR_ASIENTO"
pub open spec fn kw_comprar() -> Seq<u8> {
    seq![67u8, 79u8, 77u8, 80u8, 82u8, 65u8, 82u8, 95u8, 65u8, 83u8, 73u8, 69u8, 78u8, 84u8, 79u8]
}

/// "LIBERAR_ASIENTO"
pub open spec fn kw_liberar() -> Seq<u8> {
    seq![76u8, 73u8, 66u8, 69u8, 82u8, 65u8, 82u8, 95u8, 65u8, 83u8, 73u8, 69u8, 78u8, 84u8, 79u8]
}

/// "CHECK_ASIENTO"
pub open spec fn kw_check() -> Seq<u8> {
    seq![67u8, 72u8, 69u8, 67u8, 75u8, 95u8, 65u8, 83u8, 73u8, 69u8, 78u8, 84u8, 79u8]
}

pub open spec fn kw_de_tipo(t: TipoOrden) -> Seq<u8> {
    match t {
        TipoOrden::Reservar => kw_reservar(),
        TipoOrden::Comprar => kw_comprar(),
        TipoOrden::Liberar => kw_liberar(),
        TipoOrden::Check => kw_check(),
    }
}

pub open spec fn tipo_de_accion(a: Accion) -> TipoOrden {
    match a {
        Accion::Reservar => TipoOrden::Reservar,
        Accion::Comprar => TipoOrden::Comprar,
        Accion::Liberar => TipoOrden::Liberar,
    }
}

pub open spec fn es_prefijo(p: Seq<u8>, l: Seq<u8>) -> bool {
    p.len() <= l.len() && l.take(p.len() as int) == p
}

/// Which command keyword, if any, the line starts with.  The keywords are
/// pairwise non-overlapping, so at most one matches.
pub open spec fn tipo_de_linea(l: Seq<u8>) -> Option<TipoOrden> {
    if es_prefijo(kw_reservar(), l) {
        Some(TipoOrden::Reservar)
    } else if es_prefijo(kw_comprar(), l) {
        Some(TipoOrden::Comprar)
    } else if es_prefijo(kw_liberar(), l) {
        Some(TipoOrden::Liberar)
    } else if es_prefijo(kw_check(), l) {
        Some(TipoOrden::Check)
    } else {
        None
    }
}

pub open spec fn es_espacio(b: u8) -> bool {
    b == 32 || b == 9
}

pub open spec fn es_digito(b: u8) -> bool {
    48 <= b <= 57
}

/// Index just past the run of whitespace starting at `i`.
pub open spec fn fin_espacios(s: Seq<u8>, i: int) -> int
    decreases s.len() - i when 0 <= i <= s.len()
{
    if i < s.len() && es_espacio(s[i]) {
        fin_espacios(s, i + 1)
    } else {
        i
    }
}

/// Index just past the run of decimal digits starting at `i`.
pub open spec fn fin_digitos(s: Seq<u8>, i: int) -> int
    decreases s.len() - i when 0 <= i <= s.len()
{
    if i < s.len() && es_digito(s[i]) {
        fin_digitos(s, i + 1)
    } else {
        i
    }
}

/// Index of the first double quote at or after `i`, or the end of the line.
pub open spec fn fin_cadena(s: Seq<u8>, i: int) -> int
    decreases s.len() - i when 0 <= i <= s.len()
{
    if i < s.len() && s[i] != 34 {
        fin_cadena(s, i + 1)
    } else {
        i
    }
}

/// Numeric value of the digit run s[i..j), most significant digit first.
pub open spec fn valor_digitos(s: Seq<u8>, i: int, j: int) -> int
    decreases j - i when i <= j
{
    if i >= j {
        0
    } else {
        valor_digitos(s, i, j - 1) * 10 + (s[j - 1] - 48)
    }
}

/// The number a digit run denotes at the protocol boundary: a value that
/// does not fit in `usize` reads as 0, which no grid can contain.
pub open spec fn valor_acotado(s: Seq<u8>, i: int, j: int) -> int {
    if valor_digitos(s, i, j) > usize::MAX as int {
        0
    } else {
        valor_digitos(s, i, j)
    }
}

/// The parameter grammar that follows a command keyword ending at `i0`:
/// whitespace, a quoted category, whitespace, a quoted zone, whitespace,
/// a row number, whitespace, a seat number, then only trailing whitespace.
/// Quoted names are nonempty and hold no quote; numbers are nonempty digit
/// runs.  Yields (category, zone, row, seat) or `None` on any breach.
pub open spec fn analiza_parametros(l: Seq<u8>, i0: int) -> Option<(Seq<u8>, Seq<u8>, int, int)> {
    let i1 = fin_espacios(l, i0);
    if i1 == i0 || !(i1 < l.len() && l[i1] == 34) {
        None
    } else {
        let j1 = fin_cadena(l, i1 + 1);
        if !(j1 < l.len()) || j1 == i1 + 1 {
            None
        } else {
            let categoria = l.subrange(i1 + 1, j1);
            let i2 = fin_espacios(l, j1 + 1);
            if i2 == j1 + 1 || !(i2 < l.len() && l[i2] == 34) {
                None
            } else {
                let j2 = fin_cadena(l, i2 + 1);
                if !(j2 < l.len()) || j2 == i2 + 1 {
                    None
                } else {
                    let zona = l.subrange(i2 + 1, j2);
                    let i3 = fin_espacios(l, j2 + 1);
                    if i3 == j2 + 1 {
                        None
                    } else {
                        let j3 = fin_digitos(l, i3);
                        if j3 == i3 {
                            None
                        } else {
                            let i4 = fin_espacios(l, j3);
                            if i4 == j3 {
                                None
                            } else {
                                let j4 = fin_digitos(l, i4);
                                if j4 == i4 || fin_espacios(l, j4) != l.len() {
                                    None
                                } else {
                                    Some(
                                        (
                                            categoria,
                                            zona,
                                            valor_acotado(l, i3, j3),
                                            valor_acotado(l, i4, j4),
                                        ),
                                    )
                                }
                            }
                        }
                    }
                }
            }
        }
    }
}

/// The parse a whole line owes: exactly one variant of `Comando` fits any
/// given line.
pub open spec fn clasificacion_correcta(l: Seq<u8>, c: Comando) -> bool {
    match c {
        Comando::Estructura => l == kw_estructura(),
        Comando::Operar { accion, categoria, zona, fila, asiento } => {
            &&& l != kw_estructura()
            &&& tipo_de_linea(l) == Some(tipo_de_accion(accion))
            &&& analiza_parametros(l, kw_de_tipo(tipo_de_accion(accion)).len() as int) == Some(
                (categoria@, zona@, fila as int, asiento as int),
            )
        },
        Comando::Consultar { categoria, zona, fila, asiento } => {
            &&& l != kw_estructura()
            &&& tipo_de_linea(l) == Some(TipoOrden::Check)
            &&& analiza_parametros(l, kw_check().len() as int) == Some(
                (categoria@, zona@, fila as int, asiento as int),
            )
        },
        Comando::Malformado { es_consulta } => {
            &&& l != kw_estructura()
            &&& match tipo_de_linea(l) {
                None => false,
                Some(t) => {
                    &&& es_consulta == (t == TipoOrden::Check)
                    &&& analiza_parametros(l, kw_de_tipo(t).len() as int) is None
                },
            }
        },
        Comando::Chat => {
            &&& l != kw_estructura()
            &&& tipo_de_linea(l) is None
        },
    }
}

fn saltar_espacios(l: &Vec<u8>, i: usize) -> (r: usize)
    requires
        i <= l@.len(),
    ensures
        r == fin_espacios(l@, i as int),
        i <= r <= l@.len(),
{
    let mut j: usize = i;
    while j < l.len() && es_espacio_exec(l[j])
        invariant
            i <= j <= l@.len(),
            fin_espacios(l@, i as int) == fin_espacios(l@, j as int),
        decreases l@.len() - j,
    {
        j += 1;
    }
    j
}

fn es_espacio_exec(b: u8) -> (r: bool)
    ensures
        r == es_espacio(b),
{
    b == 32 || b == 9
}

fn es_digito_exec(b: u8) -> (r: bool)
    ensures
        r == es_digito(b),
{
    48 <= b && b <= 57
}

fn saltar_digitos(l: &Vec<u8>, i: usize) -> (r: usize)
    requires
        i <= l@.len(),
    ensures
        r == fin_digitos(l@, i as int),
        i <= r <= l@.len(),
        forall|k: int| i <= k < r ==> es_digito(l@[k]),
{
    let mut j: usize = i;
    while j < l.len() && es_digito_exec(l[j])
        invariant
            i <= j <= l@.len(),
            fin_digitos(l@, i as int) == fin_digitos(l@, j as int),
            forall|k: int| i <= k < j ==> es_digito(l@[k]),
        decreases l@.len() - j,
    {
        j += 1;
    }
    j
}

fn buscar_comilla(l: &Vec<u8>, i: usize) -> (r: usize)
    requires
        i <= l@.len(),
    ensures
        r == fin_cadena(l@, i as int),
        i <= r <= l@.len(),
{
    let mut j: usize = i;
    while j < l.len() && l[j] != 34
        invariant
            i <= j <= l@.len(),
            fin_cadena(l@, i as int) == fin_cadena(l@, j as int),
        decreases l@.len() - j,
    {
        j += 1;
    }
    j
}

/// The digit run s[i..j) read as a number never shrinks as the run grows.
proof fn lema_valor_crece(s: Seq<u8>, i: int, j: int)
    requires
        i <= j,
        forall|k: int| i <= k < j ==> es_digito(s[k]),
    ensures
        valor_digitos(s, i, j) >= 0,
        i < j ==> valor_digitos(s, i, j) >= valor_digitos(s, i, j - 1),
    decreases j - i,
{
    if i < j {
        lema_valor_crece(s, i, j - 1);
    }
}

fn leer_numero(l: &Vec<u8>, i: usize, j: usize) -> (r: usize)
    requires
        i <= j <= l@.len(),
        forall|k: int| i <= k < j ==> es_digito(l@[k]),
    ensures
        r as int == valor_acotado(l@, i as int, j as int),
{
    let mut acc: usize = 0;
    let mut desbordado: bool = false;
    let mut k: usize = i;
    while k < j
        invariant
            i <= k <= j <= l@.len(),
            forall|m: int| i <= m < j ==> es_digito(l@[m]),
            !desbordado ==> acc == valor_digitos(l@, i as int, k as int),
            desbordado ==> valor_digitos(l@, i as int, k as int) > usize::MAX as int,
        decreases j - k,
    {
        let d = (l[k] - 48) as usize;
        proof {
            lema_valor_crece(l@, i as int, k + 1 as int);
        }
        if desbordado {
        } else if acc > usize::MAX / 10 || (acc == usize::MAX / 10 && d > usize::MAX % 10) {
            desbordado = true;
            proof {
                assert(valor_digitos(l@, i as int, k + 1 as int) == acc * 10 + d);
                assert(usize::MAX as int == (usize::MAX / 10) as int * 10 + (usize::MAX % 10) as int);
            }
        } else {
            proof {
                assert(valor_digitos(l@, i as int, k + 1 as int) == acc * 10 + d);
                assert(usize::MAX as int == (usize::MAX / 10) as int * 10 + (usize::MAX % 10) as int);
                assert(acc * 10 + d <= usize::MAX);
            }
            acc = acc * 10 + d;
        }
        k += 1;
    }
    if desbordado {
        0
    } else {
        acc
    }
}

/// The bytes l[i..j) as a fresh vector.
fn trozo(l: &Vec<u8>, i: usize, j: usize) -> (r: Vec<u8>)
    requires
        i <= j <= l@.len(),
    ensures
        r@ == l@.subrange(i as int, j as int),
{
    let mut r: Vec<u8> = Vec::new();
    let mut k: usize = i;
    while k < j
        invariant
            i <= k <= j <= l@.len(),
            r@ == l@.subrange(i as int, k as int),
        decreases j - k,
    {
        r.push(l[k]);
        proof {
            assert(l@.subrange(i as int, k + 1 as int) =~= l@.subrange(i as int, k as int).push(
                l@[k as int],
            ));
        }
        k += 1;
    }
    r
}

fn es_prefijo_exec(p: &Vec<u8>, l: &Vec<u8>) -> (r: bool)
    ensures
        r == es_prefijo(p@, l@),
{
    if p.len() > l.len() {
        return false;
    }
    let mut i: usize = 0;
    while i < p.len()
        invariant
            0 <= i <= p@.len() <= l@.len(),
            forall|k: int| 0 <= k < i ==> p@[k] == l@[k],
        decreases p@.len() - i,
    {
        if p[i] != l[i] {
            proof {
                assert(l@.take(p@.len() as int)[i as int] == l@[i as int]);
            }
            return false;
        }
        i += 1;
    }
    proof {
        assert(l@.take(p@.len() as int) =~= p@);
    }
    true
}

fn kw_estructura_exec() -> (v: Vec<u8>)
    ensures
        v@ == kw_estructura(),
{
    vec![71u8, 69u8, 84u8, 95u8, 83u8, 84u8, 65u8, 68u8, 73u8, 85u8, 77u8, 95u8, 83u8, 84u8, 82u8, 85u8, 67u8, 84u8, 85u8, 82u8, 69u8]
}

fn kw_reservar_exec() -> (v: Vec<u8>)
    ensures
        v@ == kw_reservar(),
{
    vec![82u8, 69u8, 83u8, 69u8, 82u8, 86u8, 65u8, 82u8, 95u8, 65u8, 83u8, 73u8, 69u8, 78u8, 84u8, 79u8]
}

fn kw_comprar_exec() -> (v: Vec<u8>)
    ensures
        v@ == kw_comprar(),
{
    vec![67u8, 79u8, 77u8, 80u8, 82u8, 65u8, 82u8, 95u8, 65u8, 83u8, 73u8, 69u8, 78u8, 84u8, 79u8]
}

fn kw_liberar_exec() -> (v: Vec<u8>)
    ensures
        v@ == kw_liberar(),
{
    vec![76u8, 73u8, 66u8, 69u8, 82u8, 65u8, 82u8, 95u8, 65u8, 83u8, 73u8, 69u8, 78u8, 84u8, 79u8]
}

fn kw_check_exec() -> (v: Vec<u8>)
    ensures
        v@ == kw_check(),
{
    vec![67u8, 72u8, 69u8, 67u8, 75u8, 95u8, 65u8, 83u8, 73u8, 69u8, 78u8, 84u8, 79u8]
}

/// Parses the parameter list that follows a keyword ending at `i0`, as
/// `analiza_parametros` describes it.
fn analizar_parametros(l: &Vec<u8>, i0: usize) -> (r: Option<(Vec<u8>, Vec<u8>, usize, usize)>)
    requires
        i0 <= l@.len(),
    ensures
        match r {
            None => analiza_parametros(l@, i0 as int) is None,
            Some(q) => analiza_parametros(l@, i0 as int) == Some(
                (q.0@, q.1@, q.2 as int, q.3 as int),
            ),
        },
{
    let i1 = saltar_espacios(l, i0);
    if i1 == i0 || i1 == l.len() || l[i1] != 34 {
        return None;
    }
    let j1 = buscar_comilla(l, i1 + 1);
    if j1 == l.len() || j1 == i1 + 1 {
        return None;
    }
    let categoria = trozo(l, i1 + 1, j1);
    let i2 = saltar_espacios(l, j1 + 1);
    if i2 == j1 + 1 || i2 == l.len() || l[i2] != 34 {
        return None;
    }
    let j2 = buscar_comilla(l, i2 + 1);
    if j2 == l.len() || j2 == i2 + 1 {
        return None;
    }
    let zona = trozo(l, i2 + 1, j2);
    let i3 = saltar_espacios(l, j2 + 1);
    if i3 == j2 + 1 {
        return None;
    }
    let j3 = saltar_digitos(l, i3);
    if j3 == i3 {
        return None;
    }
    let i4 = saltar_espacios(l, j3);
    if i4 == j3 {
        return None;
    }
    let j4 = saltar_digitos(l, i4);
    if j4 == i4 {
        return None;
    }
    if saltar_espacios(l, j4) != l.len() {
        return None;
    }
    let fila = leer_numero(l, i3, j3);
    let asiento = leer_numero(l, i4, j4);
    Some((categoria, zona, fila, asiento))
}

/// Classifies one (already trimmed) line of input, as
/// `clasificacion_correcta` describes it.
pub fn clasificar(linea: &Vec<u8>) -> (c: Comando)
    ensures
        clasificacion_correcta(linea@, c),
{
    if crate::bytes::iguales(linea, &kw_estructura_exec()) {
        return Comando::Estructura;
    }
    if es_prefijo_exec(&kw_reservar_exec(), linea) {
        return match analizar_parametros(linea, 16) {
            None => Comando::Malformado { es_consulta: false },
            Some(q) => Comando::Operar {
                accion: Accion::Reservar,
                categoria: q.0,
                zona: q.1,
                fila: q.2,
                asiento: q.3,
            },
        };
    }
    if es_prefijo_exec(&kw_comprar_exec(), linea) {
        return match analizar_parametros(linea, 15) {
            None => Comando::Malformado { es_consulta: false },
            Some(q) => Comando::Operar {
                accion: Accion::Comprar,
                categoria: q.0,
                zona: q.1,
                fila: q.2,
                asiento: q.3,
            },
        };
    }
    if es_prefijo_exec(&kw_liberar_exec(), linea) {
        return match analizar_parametros(linea, 15) {
            None => Comando::Malformado { es_consulta: false },
            Some(q) => Comando::Operar {
                accion: Accion::Liberar,
                categoria: q.0,
                zona: q.1,
                fila: q.2,
                asiento: q.3,
            },
        };
    }
    if es_prefijo_exec(&kw_check_exec(), linea) {
        return match analizar_parametros(linea, 13) {
            None => Comando::Malformado { es_consulta: true },
            Some(q) => Comando::Consultar {
                categoria: q.0,
                zona: q.1,
                fila: q.2,
                asiento: q.3,
            },
        };
    }
    Comando::Chat
}

} // verus!
