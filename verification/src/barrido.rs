use vstd::prelude::*;

use crate::estados::{CategoriaZona, Seat, SeatState};
use crate::inventario::lema_vista_matriz;
use crate::modelo::{
    busca_categoria, busca_zona, lema_busca_categoria_igual, lema_busca_zona_igual,
    lema_inv_por_forma, misma_forma, vista_matriz, Estadio, Zone,
};

verus! {

/// What the disconnect sweep does to one seat state: a user-held seat
/// returns to `Libre`; every other state stays.
pub open spec fn barrido(s: SeatState) -> SeatState {
    if s == SeatState::ReservadoPorUsuario {
        SeatState::Libre
    } else {
        s
    }
}

/// Row `f1` is row `f0` after the sweep.
pub open spec fn fila_barrida(f0: Vec<Seat>, f1: Vec<Seat>) -> bool {
    &&& f1@.len() == f0@.len()
    &&& forall|j: int| 0 <= j < f0@.len() ==> #[trigger] f1@[j].estado == barrido(f0@[j].estado)
}

/// Matrix `m1` is matrix `m0` after the sweep.
pub open spec fn matriz_barrida(m0: Seq<Vec<Seat>>, m1: Seq<Vec<Seat>>) -> bool {
    &&& m1.len() == m0.len()
    &&& forall|i: int| 0 <= i < m0.len() ==> fila_barrida(m0[i], #[trigger] m1[i])
}

/// Zone `z1` is zone `z0` after the sweep: same name, same categories,
/// every matrix swept.
pub open spec fn zona_barrida(z0: Zone, z1: Zone) -> bool {
    &&& z1.nombre@ == z0.nombre@
    &&& z1.categorias@.len() == z0.categorias@.len()
    &&& forall|ci: int|
        0 <= ci < z0.categorias@.len() ==> #[trigger] z1.categorias@[ci].categoria
            == z0.categorias@[ci].categoria
    &&& forall|ci: int|
        0 <= ci < z0.categorias@.len() ==> matriz_barrida(
            z0.categorias@[ci].asientos@,
            #[trigger] z1.categorias@[ci].asientos@,
        )
}

fn barrer_fila(fila: &mut Vec<Seat>)
    ensures
        fila_barrida(*old(fila), *final(fila)),
{
    let mut j: usize = 0;
    while j < fila.len()
        invariant
            0 <= j <= fila@.len(),
            fila@.len() == old(fila)@.len(),
            forall|k: int| 0 <= k < j ==> #[trigger] fila@[k].estado == barrido(old(fila)@[k].estado),
            forall|k: int| j <= k < fila@.len() ==> #[trigger] fila@[k] == old(fila)@[k],
        decreases fila@.len() - j,
    {
        if fila[j].estado == SeatState::ReservadoPorUsuario {
            fila[j] = Seat { estado: SeatState::Libre };
        }
        j += 1;
    }
}

fn barrer_matriz(m: &mut Vec<Vec<Seat>>)
    ensures
        matriz_barrida(old(m)@, final(m)@),
{
    let mut i: usize = 0;
    while i < m.len()
        invariant
            0 <= i <= m@.len(),
            m@.len() == old(m)@.len(),
            forall|k: int| 0 <= k < i ==> fila_barrida(old(m)@[k], #[trigger] m@[k]),
            forall|k: int| i <= k < m@.len() ==> #[trigger] m@[k] == old(m)@[k],
        decreases m@.len() - i,
    {
        barrer_fila(&mut m[i]);
        i += 1;
    }
}

fn barrer_zona(z: &mut Zone)
    ensures
        zona_barrida(*old(z), *final(z)),
{
    let mut ci: usize = 0;
    while ci < z.categorias.len()
        invariant
            0 <= ci <= z.categorias@.len(),
            z.nombre@ == old(z).nombre@,
            z.categorias@.len() == old(z).categorias@.len(),
            forall|k: int|
                0 <= k < ci ==> #[trigger] z.categorias@[k].categoria == old(z).categorias@[k].categoria,
            forall|k: int|
                0 <= k < ci ==> matriz_barrida(
                    old(z).categorias@[k].asientos@,
                    #[trigger] z.categorias@[k].asientos@,
                ),
            forall|k: int|
                ci <= k < z.categorias@.len() ==> #[trigger] z.categorias@[k] == old(z).categorias@[k],
        decreases z.categorias@.len() - ci,
    {
        barrer_matriz(&mut z.categorias[ci].asientos);
        ci += 1;
    }
}

/// A sweep of every zone maps every resolvable address through `barrido`
/// and resolves no new address.
proof fn lema_barrido_estados(e0: Estadio, e1: Estadio)
    requires
        e1.zonas@.len() == e0.zonas@.len(),
        forall|zi: int| 0 <= zi < e0.zonas@.len() ==> zona_barrida(e0.zonas@[zi], #[trigger] e1.zonas@[zi]),
    ensures
        misma_forma(e0, e1),
        forall|c: CategoriaZona, n: Seq<u8>, f: int, a: int|
            #[trigger] e1.estado_de(c, n, f, a) == match e0.estado_de(c, n, f, a) {
                Some(s) => Some(barrido(s)),
                None => None::<SeatState>,
            },
{
    assert(misma_forma(e0, e1)) by {
        assert forall|zi: int, ci: int, fi: int|
            0 <= zi < e0.zonas@.len() && 0 <= ci < e0.zonas@[zi].categorias@.len() && 0 <= fi
                < e0.zonas@[zi].categorias@[ci].asientos@.len() implies #[trigger] e1.zonas@[zi].categorias@[ci].asientos@[fi]@.len()
            == e0.zonas@[zi].categorias@[ci].asientos@[fi]@.len() by {
            assert(zona_barrida(e0.zonas@[zi], e1.zonas@[zi]));
            assert(matriz_barrida(
                e0.zonas@[zi].categorias@[ci].asientos@,
                e1.zonas@[zi].categorias@[ci].asientos@,
            ));
        }
    }
    assert forall|c: CategoriaZona, n: Seq<u8>, f: int, a: int| #[trigger] e1.estado_de(c, n, f, a)
        == match e0.estado_de(c, n, f, a) {
        Some(s) => Some(barrido(s)),
        None => None::<SeatState>,
    } by {
        assert forall|i: int| 0 <= i < e0.zonas@.len() implies #[trigger] e0.zonas@[i].nombre@
            == e1.zonas@[i].nombre@ by {
            assert(zona_barrida(e0.zonas@[i], e1.zonas@[i]));
        }
        lema_busca_zona_igual(e0.zonas@, e1.zonas@, n, 0);
        match busca_zona(e0.zonas@, n, 0) {
            None => {},
            Some(zi) => {
                crate::modelo::lema_busca_zona_encontrada(e0.zonas@, n, 0, zi);
                assert(zona_barrida(e0.zonas@[zi], e1.zonas@[zi]));
                let cats0 = e0.zonas@[zi].categorias@;
                let cats1 = e1.zonas@[zi].categorias@;
                assert forall|i: int| 0 <= i < cats0.len() implies #[trigger] cats0[i].categoria
                    == cats1[i].categoria by {}
                lema_busca_categoria_igual(cats0, cats1, c, 0);
                match busca_categoria(cats0, c, 0) {
                    None => {},
                    Some(ci) => {
                        crate::modelo::lema_busca_categoria_encontrada(cats0, c, 0, ci);
                        let m0 = cats0[ci].asientos@;
                        let m1 = cats1[ci].asientos@;
                        assert(matriz_barrida(m0, m1));
                        assert forall|k: int| 0 <= k < m0.len() implies #[trigger] vista_matriz(
                            m1,
                        )[k].len() == vista_matriz(m0)[k].len() by {
                            lema_vista_matriz(m0, k);
                            lema_vista_matriz(m1, k);
                            assert(fila_barrida(m0[k], m1[k]));
                        }
                        if 1 <= f <= m0.len() && 1 <= a <= m0[f - 1]@.len() {
                            lema_vista_matriz(m0, f - 1);
                            lema_vista_matriz(m1, f - 1);
                            assert(fila_barrida(m0[f - 1], m1[f - 1]));
                            assert(m1[f - 1]@[a - 1].estado == barrido(m0[f - 1]@[a - 1].estado));
                        }
                    },
                }
            },
        }
    }
}

/// The disconnect sweep: returns every `ReservadoPorUsuario` seat of the
/// whole venue to `Libre` and touches nothing else.  The inventory does not
/// record which user holds which seat, so the sweep is store-wide and the
/// requester identity is deliberately ignored.
pub fn liberar_asientos_reservados_por_usuario(estadio: &mut Estadio, _usuario: &str)
    requires
        old(estadio).inv(),
    ensures
        final(estadio).inv(),
        misma_forma(*old(estadio), *final(estadio)),
        forall|c: CategoriaZona, n: Seq<u8>, f: int, a: int|
            #[trigger] final(estadio).estado_de(c, n, f, a) == match old(estadio).estado_de(c, n, f, a) {
                Some(s) => Some(barrido(s)),
                None => None::<SeatState>,
            },
{
    let mut zi: usize = 0;
    while zi < estadio.zonas.len()
        invariant
            0 <= zi <= estadio.zonas@.len(),
            estadio.zonas@.len() == old(estadio).zonas@.len(),
            forall|k: int| 0 <= k < zi ==> zona_barrida(old(estadio).zonas@[k], #[trigger] estadio.zonas@[k]),
            forall|k: int|
                zi <= k < estadio.zonas@.len() ==> #[trigger] estadio.zonas@[k] == old(estadio).zonas@[k],
        decreases estadio.zonas@.len() - zi,
    {
        barrer_zona(&mut estadio.zonas[zi]);
        zi += 1;
    }
    proof {
        assert forall|k: int| 0 <= k < old(estadio).zonas@.len() implies zona_barrida(
            old(estadio).zonas@[k],
            #[trigger] estadio.zonas@[k],
        ) by {}
        lema_barrido_estados(*old(estadio), *estadio);
        lema_inv_por_forma(*old(estadio), *estadio);
    }
}

} // verus!
