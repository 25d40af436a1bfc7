use vstd::prelude::*;

use crate::estados::{CategoriaZona, Resultado, Seat, SeatState};
use crate::modelo::{
    busca_categoria, busca_zona, buscar_categoria, buscar_zona, lema_busca_categoria_encontrada,
    lema_busca_categoria_igual, lema_busca_zona_encontrada, lema_busca_zona_igual,
    lema_inv_por_forma, misma_forma, vista_fila, vista_matriz, Estadio,
};

verus! {

/// Full description of one attempted seat transition, relating the venue
/// before (`e0`) and after (`e1`): the outcome follows the error taxonomy,
/// a failure leaves the venue untouched, and a success rewrites exactly the
/// addressed seat to `nuevo` and nothing else.
pub open spec fn rel_transicion(
    e0: Estadio,
    e1: Estadio,
    c: CategoriaZona,
    nombre: Seq<u8>,
    fila: int,
    asiento: int,
    requerido: SeatState,
    nuevo: SeatState,
    r: Resultado,
) -> bool {
    &&& r == e0.resultado_esperado(c, nombre, fila, asiento, requerido)
    &&& (r != Resultado::Exito ==> e1 == e0)
    &&& (r == Resultado::Exito ==> {
        &&& misma_forma(e0, e1)
        &&& e1.estado_de(c, nombre, fila, asiento) == Some(nuevo)
        &&& forall|c2: CategoriaZona, n2: Seq<u8>, f2: int, a2: int|
            !(c2 == c && n2 == nombre && f2 == fila && a2 == asiento)
                ==> #[trigger] e1.estado_de(c2, n2, f2, a2) == e0.estado_de(c2, n2, f2, a2)
    })
}

/// A transition demanding `requerido` succeeds exactly where the addressed
/// seat resolves and holds `requerido`.
pub proof fn lema_exito_sii(e: Estadio, c: CategoriaZona, nombre: Seq<u8>, fila: int, asiento: int, requerido: SeatState)
    ensures
        e.resultado_esperado(c, nombre, fila, asiento, requerido) == Resultado::Exito
            <==> e.estado_de(c, nombre, fila, asiento) == Some(requerido),
{
}

/// Reading `vista_matriz` is reading the seat states of the matrix.
pub proof fn lema_vista_matriz(m: Seq<Vec<Seat>>, i: int)
    requires
        0 <= i < m.len(),
    ensures
        vista_matriz(m).len() == m.len(),
        vista_matriz(m)[i] == vista_fila(m[i]),
        vista_fila(m[i]).len() == m[i]@.len(),
        forall|j: int| 0 <= j < m[i]@.len() ==> #[trigger] vista_fila(m[i])[j] == m[i]@[j].estado,
{
}

/// After rewriting one seat of `e0` to `nuevo`, the venue keeps its shape,
/// the target address reads `nuevo`, and every other address keeps its
/// state.  The indices (`zi`, `ci`) must be the ones the address
/// (`c`, `nombre`) resolves to.
proof fn lema_actualizacion_puntual(
    e0: Estadio,
    e1: Estadio,
    c: CategoriaZona,
    nombre: Seq<u8>,
    zi: int,
    ci: int,
    fi: int,
    ai: int,
    nuevo: SeatState,
)
    requires
        busca_zona(e0.zonas@, nombre, 0) == Some(zi),
        busca_categoria(e0.zonas@[zi].categorias@, c, 0) == Some(ci),
        0 <= fi < e0.zonas@[zi].categorias@[ci].asientos@.len(),
        0 <= ai < e0.zonas@[zi].categorias@[ci].asientos@[fi]@.len(),
        e1.zonas@.len() == e0.zonas@.len(),
        forall|k: int| 0 <= k < e0.zonas@.len() && k != zi ==> #[trigger] e1.zonas@[k] == e0.zonas@[k],
        e1.zonas@[zi].nombre@ == e0.zonas@[zi].nombre@,
        e1.zonas@[zi].categorias@.len() == e0.zonas@[zi].categorias@.len(),
        forall|k: int|
            0 <= k < e0.zonas@[zi].categorias@.len() && k != ci
                ==> #[trigger] e1.zonas@[zi].categorias@[k] == e0.zonas@[zi].categorias@[k],
        e1.zonas@[zi].categorias@[ci].categoria == e0.zonas@[zi].categorias@[ci].categoria,
        e1.zonas@[zi].categorias@[ci].asientos@.len() == e0.zonas@[zi].categorias@[ci].asientos@.len(),
        forall|k: int|
            0 <= k < e0.zonas@[zi].categorias@[ci].asientos@.len() && k != fi
                ==> #[trigger] e1.zonas@[zi].categorias@[ci].asientos@[k]
                    == e0.zonas@[zi].categorias@[ci].asientos@[k],
        e1.zonas@[zi].categorias@[ci].asientos@[fi]@
            == e0.zonas@[zi].categorias@[ci].asientos@[fi]@.update(ai, Seat { estado: nuevo }),
    ensures
        misma_forma(e0, e1),
        e1.estado_de(c, nombre, fi + 1, ai + 1) == Some(nuevo),
        forall|c2: CategoriaZona, n2: Seq<u8>, f2: int, a2: int|
            !(c2 == c && n2 == nombre && f2 == fi + 1 && a2 == ai + 1)
                ==> #[trigger] e1.estado_de(c2, n2, f2, a2) == e0.estado_de(c2, n2, f2, a2),
{
    lema_busca_zona_encontrada(e0.zonas@, nombre, 0, zi);
    lema_busca_categoria_encontrada(e0.zonas@[zi].categorias@, c, 0, ci);
    let cats0 = e0.zonas@[zi].categorias@;
    let cats1 = e1.zonas@[zi].categorias@;
    let m0 = cats0[ci].asientos@;
    let m1 = cats1[ci].asientos@;

    assert forall|i: int| 0 <= i < e0.zonas@.len() implies #[trigger] e1.zonas@[i].nombre@
        == e0.zonas@[i].nombre@ by {}
    assert forall|k: int| 0 <= k < cats0.len() implies #[trigger] cats1[k].categoria
        == cats0[k].categoria by {}
    assert(misma_forma(e0, e1));

    // The target address resolves in e1 to the rewritten seat.
    lema_busca_zona_igual(e0.zonas@, e1.zonas@, nombre, 0);
    lema_busca_categoria_igual(cats0, cats1, c, 0);
    lema_vista_matriz(m1, fi);
    assert(vista_matriz(m1)[fi][ai] == nuevo);
    assert(e1.estado_de(c, nombre, fi + 1, ai + 1) == Some(nuevo));

    // Every other address keeps its state.
    assert forall|c2: CategoriaZona, n2: Seq<u8>, f2: int, a2: int|
        !(c2 == c && n2 == nombre && f2 == fi + 1 && a2 == ai + 1) implies #[trigger] e1.estado_de(
        c2,
        n2,
        f2,
        a2,
    ) == e0.estado_de(c2, n2, f2, a2) by {
        lema_busca_zona_igual(e0.zonas@, e1.zonas@, n2, 0);
        match busca_zona(e0.zonas@, n2, 0) {
            None => {},
            Some(z2) => {
                lema_busca_zona_encontrada(e0.zonas@, n2, 0, z2);
                if z2 != zi {
                    assert(e1.zonas@[z2] == e0.zonas@[z2]);
                    lema_busca_categoria_igual(
                        e0.zonas@[z2].categorias@,
                        e1.zonas@[z2].categorias@,
                        c2,
                        0,
                    );
                } else {
                    assert(n2 == nombre);
                    lema_busca_categoria_igual(cats0, cats1, c2, 0);
                    match busca_categoria(cats0, c2, 0) {
                        None => {},
                        Some(c2i) => {
                            lema_busca_categoria_encontrada(cats0, c2, 0, c2i);
                            if c2i != ci {
                                assert(cats1[c2i] == cats0[c2i]);
                            } else {
                                assert(c2 == c);
                                // Same matrix; the address differs in row or seat.
                                assert(vista_matriz(m1).len() == vista_matriz(m0).len());
                                assert forall|k: int| 0 <= k < m0.len() implies #[trigger] vista_matriz(
                                    m1,
                                )[k].len() == vista_matriz(m0)[k].len() by {
                                    lema_vista_matriz(m0, k);
                                    lema_vista_matriz(m1, k);
                                }
                                if 1 <= f2 <= m0.len() && 1 <= a2 <= m0[f2 - 1]@.len() {
                                    lema_vista_matriz(m0, f2 - 1);
                                    lema_vista_matriz(m1, f2 - 1);
                                    if f2 - 1 != fi {
                                        assert(m1[f2 - 1] == m0[f2 - 1]);
                                    } else {
                                        assert(a2 - 1 != ai);
                                        assert(m1[f2 - 1]@[a2 - 1] == m0[f2 - 1]@[a2 - 1]);
                                    }
                                }
                            }
                        },
                    }
                }
            },
        }
    }
}

/// Writes one seat of a matrix, leaving every other row untouched.
fn poner_estado(m: &mut Vec<Vec<Seat>>, fi: usize, ai: usize, nuevo: SeatState)
    requires
        fi < old(m)@.len(),
        ai < old(m)@[fi as int]@.len(),
    ensures
        final(m)@.len() == old(m)@.len(),
        forall|k: int| 0 <= k < old(m)@.len() && k != fi ==> #[trigger] final(m)@[k] == old(m)@[k],
        final(m)@[fi as int]@ == old(m)@[fi as int]@.update(ai as int, Seat { estado: nuevo }),
{
    m[fi][ai] = Seat { estado: nuevo };
}

impl Estadio {
    /// The one mutation point of the inventory: moves the addressed seat
    /// from the required source state to `nuevo`, or reports why it cannot.
    /// A failed attempt leaves every seat exactly as it was.
    pub fn transicion(
        &mut self,
        c: CategoriaZona,
        nombre: &Vec<u8>,
        fila: usize,
        asiento: usize,
        requerido: SeatState,
        nuevo: SeatState,
    ) -> (r: Resultado)
        requires
            old(self).inv(),
        ensures
            final(self).inv(),
            rel_transicion(
                *old(self),
                *final(self),
                c,
                nombre@,
                fila as int,
                asiento as int,
                requerido,
                nuevo,
                r,
            ),
    {
        let zi = match buscar_zona(&self.zonas, nombre) {
            None => {
                return Resultado::NoEncontrado;
            },
            Some(i) => i,
        };
        proof {
            lema_busca_zona_encontrada(self.zonas@, nombre@, 0, zi as int);
        }
        let ci = match buscar_categoria(&self.zonas[zi].categorias, c) {
            None => {
                return Resultado::NoEncontrado;
            },
            Some(i) => i,
        };
        proof {
            lema_busca_categoria_encontrada(self.zonas@[zi as int].categorias@, c, 0, ci as int);
        }
        let filas = self.zonas[zi].categorias[ci].asientos.len();
        if fila == 0 || fila > filas {
            proof {
                lema_vista_matriz_len(self.zonas@[zi as int].categorias@[ci as int].asientos@);
            }
            return Resultado::FueraDeRango;
        }
        let ancho = self.zonas[zi].categorias[ci].asientos[fila - 1].len();
        proof {
            lema_vista_matriz(self.zonas@[zi as int].categorias@[ci as int].asientos@, fila - 1);
        }
        if asiento == 0 || asiento > ancho {
            return Resultado::FueraDeRango;
        }
        let actual = self.zonas[zi].categorias[ci].asientos[fila - 1][asiento - 1].estado;
        if !(actual == requerido) {
            return Resultado::NoDisponible;
        }
        poner_estado(&mut self.zonas[zi].categorias[ci].asientos, fila - 1, asiento - 1, nuevo);
        proof {
            lema_actualizacion_puntual(
                *old(self),
                *self,
                c,
                nombre@,
                zi as int,
                ci as int,
                fila - 1,
                asiento - 1,
                nuevo,
            );
            lema_inv_por_forma(*old(self), *self);
        }
        Resultado::Exito
    }

    /// Reserves a free seat for a user: `Libre` becomes
    /// `ReservadoPorUsuario`.  Succeeds exactly where the addressed seat is
    /// `Libre`; any failure leaves the inventory untouched.
    pub fn reservar(&mut self, c: CategoriaZona, nombre: &Vec<u8>, fila: usize, asiento: usize) -> (r: Resultado)
        requires
            old(self).inv(),
        ensures
            final(self).inv(),
            rel_transicion(
                *old(self),
                *final(self),
                c,
                nombre@,
                fila as int,
                asiento as int,
                SeatState::Libre,
                SeatState::ReservadoPorUsuario,
                r,
            ),
            r == Resultado::Exito <==> old(self).estado_de(c, nombre@, fila as int, asiento as int)
                == Some(SeatState::Libre),
    {
        proof {
            lema_exito_sii(*old(self), c, nombre@, fila as int, asiento as int, SeatState::Libre);
        }
        self.transicion(c, nombre, fila, asiento, SeatState::Libre, SeatState::ReservadoPorUsuario)
    }

    /// Purchases a seat a user holds: `ReservadoPorUsuario` becomes
    /// `Comprado`.  Succeeds exactly where the seat is currently held by a
    /// user reservation; any failure leaves the inventory untouched.
    pub fn comprar(&mut self, c: CategoriaZona, nombre: &Vec<u8>, fila: usize, asiento: usize) -> (r: Resultado)
        requires
            old(self).inv(),
        ensures
            final(self).inv(),
            rel_transicion(
                *old(self),
                *final(self),
                c,
                nombre@,
                fila as int,
                asiento as int,
                SeatState::ReservadoPorUsuario,
                SeatState::Comprado,
                r,
            ),
            r == Resultado::Exito <==> old(self).estado_de(c, nombre@, fila as int, asiento as int)
                == Some(SeatState::ReservadoPorUsuario),
    {
        proof {
            lema_exito_sii(
                *old(self),
                c,
                nombre@,
                fila as int,
                asiento as int,
                SeatState::ReservadoPorUsuario,
            );
        }
        self.transicion(
            c,
            nombre,
            fila,
            asiento,
            SeatState::ReservadoPorUsuario,
            SeatState::Comprado,
        )
    }

    /// Releases a seat a user holds: `ReservadoPorUsuario` becomes `Libre`.
    /// Succeeds exactly where the seat is currently held by a user
    /// reservation; any failure leaves the inventory untouched.
    pub fn liberar(&mut self, c: CategoriaZona, nombre: &Vec<u8>, fila: usize, asiento: usize) -> (r: Resultado)
        requires
            old(self).inv(),
        ensures
            final(self).inv(),
            rel_transicion(
                *old(self),
                *final(self),
                c,
                nombre@,
                fila as int,
                asiento as int,
                SeatState::ReservadoPorUsuario,
                SeatState::Libre,
                r,
            ),
            r == Resultado::Exito <==> old(self).estado_de(c, nombre@, fila as int, asiento as int)
                == Some(SeatState::ReservadoPorUsuario),
    {
        proof {
            lema_exito_sii(
                *old(self),
                c,
                nombre@,
                fila as int,
                asiento as int,
                SeatState::ReservadoPorUsuario,
            );
        }
        self.transicion(
            c,
            nombre,
            fila,
            asiento,
            SeatState::ReservadoPorUsuario,
            SeatState::Libre,
        )
    }

    /// Read-only availability check: true exactly where the address
    /// resolves and the seat is `Libre`.  An address that does not resolve
    /// reads as unavailable rather than as an error.
    pub fn check_asiento(&self, c: CategoriaZona, nombre: &Vec<u8>, fila: usize, asiento: usize) -> (r: bool)
        ensures
            r == (self.estado_de(c, nombre@, fila as int, asiento as int) == Some(SeatState::Libre)),
    {
        let zi = match buscar_zona(&self.zonas, nombre) {
            None => {
                return false;
            },
            Some(i) => i,
        };
        proof {
            lema_busca_zona_encontrada(self.zonas@, nombre@, 0, zi as int);
        }
        let ci = match buscar_categoria(&self.zonas[zi].categorias, c) {
            None => {
                return false;
            },
            Some(i) => i,
        };
        proof {
            lema_busca_categoria_encontrada(self.zonas@[zi as int].categorias@, c, 0, ci as int);
        }
        let filas = self.zonas[zi].categorias[ci].asientos.len();
        if fila == 0 || fila > filas {
            proof {
                lema_vista_matriz_len(self.zonas@[zi as int].categorias@[ci as int].asientos@);
            }
            return false;
        }
        let ancho = self.zonas[zi].categorias[ci].asientos[fila - 1].len();
        proof {
            lema_vista_matriz(self.zonas@[zi as int].categorias@[ci as int].asientos@, fila - 1);
        }
        if asiento == 0 || asiento > ancho {
            return false;
        }
        let actual = self.zonas[zi].categorias[ci].asientos[fila - 1][asiento - 1].estado;
        actual == SeatState::Libre
    }
}

/// The matrix view keeps the number of rows.
pub proof fn lema_vista_matriz_len(m: Seq<Vec<Seat>>)
    ensures
        vista_matriz(m).len() == m.len(),
{
}

} // verus!
