use vstd::prelude::*;

use crate::barrido::barrido;
use crate::estados::{CategoriaZona, Resultado, SeatState};
use crate::inventario::{lema_exito_sii, rel_transicion};
use crate::modelo::{en_rango, lema_misma_forma_trans, misma_forma, Estadio};

verus! {

/// A seat that resolves but does not hold the required source state makes
/// a transition fail with `NoDisponible`.
pub proof fn lema_no_disponible(e: Estadio, c: CategoriaZona, n: Seq<u8>, f: int, a: int, requerido: SeatState)
    requires
        e.estado_de(c, n, f, a) is Some,
        e.estado_de(c, n, f, a) != Some(requerido),
    ensures
        e.resultado_esperado(c, n, f, a, requerido) == Resultado::NoDisponible,
{
}

/// Law: a reservation succeeds exactly where the seat is `Libre`; after a
/// success the seat is user-held, and a repeated reservation of the same
/// seat fails with `NoDisponible` and changes nothing.
pub proof fn ley_reserva_repetida(
    e0: Estadio,
    e1: Estadio,
    e2: Estadio,
    c: CategoriaZona,
    n: Seq<u8>,
    f: int,
    a: int,
    r1: Resultado,
    r2: Resultado,
)
    requires
        rel_transicion(e0, e1, c, n, f, a, SeatState::Libre, SeatState::ReservadoPorUsuario, r1),
        rel_transicion(e1, e2, c, n, f, a, SeatState::Libre, SeatState::ReservadoPorUsuario, r2),
    ensures
        (r1 == Resultado::Exito) <==> (e0.estado_de(c, n, f, a) == Some(SeatState::Libre)),
        r1 == Resultado::Exito ==> e1.estado_de(c, n, f, a) == Some(SeatState::ReservadoPorUsuario),
        r1 == Resultado::Exito ==> r2 == Resultado::NoDisponible && e2 == e1,
{
    lema_exito_sii(e0, c, n, f, a, SeatState::Libre);
    if r1 == Resultado::Exito {
        lema_no_disponible(e1, c, n, f, a, SeatState::Libre);
    }
}

/// Law: a purchase succeeds exactly where the seat is user-held; after a
/// success the seat is `Comprado` and terminal: no reservation, purchase
/// or release of it can succeed any more.
pub proof fn ley_compra_terminal(
    e0: Estadio,
    e1: Estadio,
    c: CategoriaZona,
    n: Seq<u8>,
    f: int,
    a: int,
    r1: Resultado,
)
    requires
        rel_transicion(e0, e1, c, n, f, a, SeatState::ReservadoPorUsuario, SeatState::Comprado, r1),
    ensures
        (r1 == Resultado::Exito) <==> (e0.estado_de(c, n, f, a) == Some(
            SeatState::ReservadoPorUsuario,
        )),
        r1 == Resultado::Exito ==> e1.estado_de(c, n, f, a) == Some(SeatState::Comprado),
        r1 == Resultado::Exito ==> e1.resultado_esperado(c, n, f, a, SeatState::Libre)
            == Resultado::NoDisponible,
        r1 == Resultado::Exito ==> e1.resultado_esperado(c, n, f, a, SeatState::ReservadoPorUsuario)
            == Resultado::NoDisponible,
{
    lema_exito_sii(e0, c, n, f, a, SeatState::ReservadoPorUsuario);
    if r1 == Resultado::Exito {
        lema_no_disponible(e1, c, n, f, a, SeatState::Libre);
        lema_no_disponible(e1, c, n, f, a, SeatState::ReservadoPorUsuario);
    }
}

/// Law: reserving a free seat and then releasing it is a no-op on the
/// observable state of the venue — every address reads afterwards exactly
/// what it read before.
pub proof fn ley_ida_y_vuelta(
    e0: Estadio,
    e1: Estadio,
    e2: Estadio,
    c: CategoriaZona,
    n: Seq<u8>,
    f: int,
    a: int,
)
    requires
        rel_transicion(
            e0,
            e1,
            c,
            n,
            f,
            a,
            SeatState::Libre,
            SeatState::ReservadoPorUsuario,
            Resultado::Exito,
        ),
        rel_transicion(
            e1,
            e2,
            c,
            n,
            f,
            a,
            SeatState::ReservadoPorUsuario,
            SeatState::Libre,
            Resultado::Exito,
        ),
    ensures
        misma_forma(e0, e2),
        forall|c2: CategoriaZona, n2: Seq<u8>, f2: int, a2: int|
            #[trigger] e2.estado_de(c2, n2, f2, a2) == e0.estado_de(c2, n2, f2, a2),
{
    lema_exito_sii(e0, c, n, f, a, SeatState::Libre);
    lema_misma_forma_trans(e0, e1, e2);
    assert forall|c2: CategoriaZona, n2: Seq<u8>, f2: int, a2: int| #[trigger] e2.estado_de(
        c2,
        n2,
        f2,
        a2,
    ) == e0.estado_de(c2, n2, f2, a2) by {
        if c2 == c && n2 == n && f2 == f && a2 == a {
            assert(e0.estado_de(c, n, f, a) == Some(SeatState::Libre));
            assert(e2.estado_de(c, n, f, a) == Some(SeatState::Libre));
        }
    }
}

/// Law: of two purchases racing on one user-held seat — serialized by the
/// venue's single lock — exactly one succeeds: the one served first wins,
/// the other observes `NoDisponible` and changes nothing.
pub proof fn ley_compra_unica(
    e0: Estadio,
    e1: Estadio,
    e2: Estadio,
    c: CategoriaZona,
    n: Seq<u8>,
    f: int,
    a: int,
    r1: Resultado,
    r2: Resultado,
)
    requires
        rel_transicion(e0, e1, c, n, f, a, SeatState::ReservadoPorUsuario, SeatState::Comprado, r1),
        rel_transicion(e1, e2, c, n, f, a, SeatState::ReservadoPorUsuario, SeatState::Comprado, r2),
    ensures
        !(r1 == Resultado::Exito && r2 == Resultado::Exito),
        r1 == Resultado::Exito ==> r2 == Resultado::NoDisponible && e2 == e1,
        e0.estado_de(c, n, f, a) == Some(SeatState::ReservadoPorUsuario) ==> r1
            == Resultado::Exito,
{
    lema_exito_sii(e0, c, n, f, a, SeatState::ReservadoPorUsuario);
    if r1 == Resultado::Exito {
        lema_no_disponible(e1, c, n, f, a, SeatState::ReservadoPorUsuario);
    }
}

/// Law: after a disconnect sweep no seat anywhere remains user-held; every
/// seat a user was holding reads `Libre` again, and every other seat keeps
/// exactly the state it had.
pub proof fn ley_barrido_limpia(e0: Estadio, e1: Estadio)
    requires
        forall|c: CategoriaZona, n: Seq<u8>, f: int, a: int|
            #[trigger] e1.estado_de(c, n, f, a) == match e0.estado_de(c, n, f, a) {
                Some(s) => Some(barrido(s)),
                None => None::<SeatState>,
            },
    ensures
        forall|c: CategoriaZona, n: Seq<u8>, f: int, a: int|
            #[trigger] e1.estado_de(c, n, f, a) != Some(SeatState::ReservadoPorUsuario),
        forall|c: CategoriaZona, n: Seq<u8>, f: int, a: int|
            e0.estado_de(c, n, f, a) == Some(SeatState::ReservadoPorUsuario)
                ==> #[trigger] e1.estado_de(c, n, f, a) == Some(SeatState::Libre),
        forall|c: CategoriaZona, n: Seq<u8>, f: int, a: int|
            e0.estado_de(c, n, f, a) is Some && e0.estado_de(c, n, f, a) != Some(
                SeatState::ReservadoPorUsuario,
            ) ==> #[trigger] e1.estado_de(c, n, f, a) == e0.estado_de(c, n, f, a),
{
}

/// Law: an out-of-range row or seat index — 0, or past the matrix bounds —
/// always answers `FueraDeRango` and mutates nothing.
pub proof fn ley_fuera_de_rango(
    e0: Estadio,
    e1: Estadio,
    c: CategoriaZona,
    n: Seq<u8>,
    f: int,
    a: int,
    requerido: SeatState,
    nuevo: SeatState,
    r: Resultado,
)
    requires
        rel_transicion(e0, e1, c, n, f, a, requerido, nuevo, r),
        match e0.grid_de(c, n) {
            Some(g) => !en_rango(g, f, a),
            None => false,
        },
    ensures
        r == Resultado::FueraDeRango,
        e1 == e0,
{
}

/// Law: an unknown category or zone name always answers `NoEncontrado` and
/// mutates nothing.
pub proof fn ley_no_encontrado(
    e0: Estadio,
    e1: Estadio,
    c: CategoriaZona,
    n: Seq<u8>,
    f: int,
    a: int,
    requerido: SeatState,
    nuevo: SeatState,
    r: Resultado,
)
    requires
        rel_transicion(e0, e1, c, n, f, a, requerido, nuevo, r),
        e0.grid_de(c, n) is None,
    ensures
        r == Resultado::NoEncontrado,
        e1 == e0,
{
}

} // verus!
