use vstd::prelude::*;

use crate::estados::{CategoriaZona, SeatState};
use crate::modelo::{vista_fila, vista_matriz, Estadio};

verus! {

/// One category of one zone, as the structure dump reports it: the tag and
/// the full matrix of seat states.
pub struct CategoriaResumen {
    pub categoria: CategoriaZona,
    pub estados: Vec<Vec<SeatState>>,
}

/// One zone of the structure dump.
pub struct ZonaResumen {
    pub nombre: Vec<u8>,
    pub categorias: Vec<CategoriaResumen>,
}

/// The states of a dumped matrix, row by row.
pub open spec fn vista_estados(m: Seq<Vec<SeatState>>) -> Seq<Seq<SeatState>> {
    m.map(|i: int, fila: Vec<SeatState>| fila@)
}

/// `d` is a faithful dump of venue `e`: every zone with its name, every
/// category with its tag, and every seat state, in the venue's own order.
pub open spec fn resumen_correcto(e: Estadio, d: Seq<ZonaResumen>) -> bool {
    &&& d.len() == e.zonas@.len()
    &&& forall|zi: int| 0 <= zi < e.zonas@.len() ==> #[trigger] d[zi].nombre@ == e.zonas@[zi].nombre@
    &&& forall|zi: int|
        0 <= zi < e.zonas@.len() ==> #[trigger] d[zi].categorias@.len() == e.zonas@[zi].categorias@.len()
    &&& forall|zi: int, ci: int|
        0 <= zi < e.zonas@.len() && 0 <= ci < e.zonas@[zi].categorias@.len()
            ==> #[trigger] d[zi].categorias@[ci].categoria == e.zonas@[zi].categorias@[ci].categoria
    &&& forall|zi: int, ci: int|
        0 <= zi < e.zonas@.len() && 0 <= ci < e.zonas@[zi].categorias@.len()
            ==> #[trigger] vista_estados(d[zi].categorias@[ci].estados@) == vista_matriz(
                e.zonas@[zi].categorias@[ci].asientos@,
            )
}

impl Estadio {
    /// A full structured dump of the inventory, taken in one read: every
    /// zone with its name, every category with its tag, and every seat
    /// state, in the venue's own order.
    pub fn snapshot(&self) -> (r: Vec<ZonaResumen>)
        ensures
            resumen_correcto(*self, r@),
    {
        let mut r: Vec<ZonaResumen> = Vec::new();
        let mut zi: usize = 0;
        while zi < self.zonas.len()
            invariant
                0 <= zi <= self.zonas@.len(),
                r@.len() == zi,
                forall|k: int| 0 <= k < zi ==> #[trigger] r@[k].nombre@ == self.zonas@[k].nombre@,
                forall|k: int|
                    0 <= k < zi ==> #[trigger] r@[k].categorias@.len()
                        == self.zonas@[k].categorias@.len(),
                forall|k: int, ci: int|
                    0 <= k < zi && 0 <= ci < self.zonas@[k].categorias@.len()
                        ==> #[trigger] r@[k].categorias@[ci].categoria
                            == self.zonas@[k].categorias@[ci].categoria,
                forall|k: int, ci: int|
                    0 <= k < zi && 0 <= ci < self.zonas@[k].categorias@.len()
                        ==> #[trigger] vista_estados(r@[k].categorias@[ci].estados@) == vista_matriz(
                            self.zonas@[k].categorias@[ci].asientos@,
                        ),
            decreases self.zonas@.len() - zi,
        {
            let mut cats: Vec<CategoriaResumen> = Vec::new();
            let mut ci: usize = 0;
            while ci < self.zonas[zi].categorias.len()
                invariant
                    0 <= zi < self.zonas@.len(),
                    0 <= ci <= self.zonas@[zi as int].categorias@.len(),
                    cats@.len() == ci,
                    forall|k: int|
                        0 <= k < ci ==> #[trigger] cats@[k].categoria
                            == self.zonas@[zi as int].categorias@[k].categoria,
                    forall|k: int|
                        0 <= k < ci ==> #[trigger] vista_estados(cats@[k].estados@) == vista_matriz(
                            self.zonas@[zi as int].categorias@[k].asientos@,
                        ),
                decreases self.zonas@[zi as int].categorias@.len() - ci,
            {
                let estados = copiar_matriz(&self.zonas[zi].categorias[ci].asientos);
                cats.push(
                    CategoriaResumen {
                        categoria: self.zonas[zi].categorias[ci].categoria,
                        estados,
                    },
                );
                ci += 1;
            }
            r.push(ZonaResumen { nombre: crate::bytes::copia(&self.zonas[zi].nombre), categorias: cats });
            zi += 1;
        }
        r
    }
}

/// Reads the states out of one seat matrix.
fn copiar_matriz(m: &Vec<Vec<crate::estados::Seat>>) -> (r: Vec<Vec<SeatState>>)
    ensures
        vista_estados(r@) == vista_matriz(m@),
{
    let mut r: Vec<Vec<SeatState>> = Vec::new();
    let mut fi: usize = 0;
    while fi < m.len()
        invariant
            0 <= fi <= m@.len(),
            r@.len() == fi,
            forall|k: int| 0 <= k < fi ==> #[trigger] r@[k]@ == vista_fila(m@[k]),
        decreases m@.len() - fi,
    {
        let mut fila: Vec<SeatState> = Vec::new();
        let mut ai: usize = 0;
        while ai < m[fi].len()
            invariant
                0 <= fi < m@.len(),
                0 <= ai <= m@[fi as int]@.len(),
                fila@.len() == ai,
                forall|k: int| 0 <= k < ai ==> #[trigger] fila@[k] == m@[fi as int]@[k].estado,
            decreases m@[fi as int]@.len() - ai,
        {
            fila.push(m[fi][ai].estado);
            ai += 1;
        }
        proof {
            crate::inventario::lema_vista_matriz(m@, fi as int);
            assert(fila@ =~= vista_fila(m@[fi as int]));
        }
        r.push(fila);
        fi += 1;
    }
    proof {
        assert(vista_estados(r@) =~= vista_matriz(m@)) by {
            assert forall|k: int| 0 <= k < m@.len() implies vista_estados(r@)[k] == vista_matriz(
                m@,
            )[k] by {
                crate::inventario::lema_vista_matriz(m@, k);
            }
        }
    }
    r
}

} // verus!
