use vstd::prelude::*;

use crate::estados::{CategoriaZona, Seat, SeatState};
use crate::modelo::{vista_matriz, CategoriaAsientos, Estadio, Zone};

verus! {

/// The state a seed entry list leaves at the (0-based) cell (fi, ai):
/// the state of the last entry addressing that cell, or `Libre`.
pub open spec fn estado_sembrado(estados: Seq<(usize, usize, SeatState)>, fi: int, ai: int) -> SeatState
    decreases estados.len(),
{
    if estados.len() == 0 {
        SeatState::Libre
    } else {
        let u = estados.last();
        if u.0 == fi && u.1 == ai {
            u.2
        } else {
            estado_sembrado(estados.drop_last(), fi, ai)
        }
    }
}

/// Number of seat rows each category's matrix is built with.
pub open spec fn filas_de(c: CategoriaZona) -> int {
    match c {
        CategoriaZona::VIP => 3,
        CategoriaZona::Regular => 7,
        CategoriaZona::Sol => 5,
        CategoriaZona::Platea => 6,
    }
}

/// Seats per row: every matrix of the seeded venue is five seats wide.
pub open spec fn ancho_inicial() -> int {
    5
}

/// The state every seat of the seeded venue starts in, by category and
/// 0-based cell: a handful of seats are pre-set, the rest are `Libre`.
pub open spec fn estado_inicial(c: CategoriaZona, fi: int, ai: int) -> SeatState {
    match c {
        CategoriaZona::VIP => if fi == 0 && ai == 0 {
            SeatState::Reservado
        } else if fi == 1 && ai == 2 {
            SeatState::Comprado
        } else {
            SeatState::Libre
        },
        CategoriaZona::Regular => if fi == 2 && ai == 3 {
            SeatState::Reservado
        } else {
            SeatState::Libre
        },
        CategoriaZona::Sol => if fi == 2 && ai == 2 {
            SeatState::Comprado
        } else {
            SeatState::Libre
        },
        CategoriaZona::Platea => if fi == 2 && ai == 2 {
            SeatState::Reservado
        } else {
            SeatState::Libre
        },
    }
}

/// The name of each of the four seeded zones, in order: "A", "B", "C", "D".
pub open spec fn nombre_zona_inicial(zi: int) -> Seq<u8> {
    if zi == 0 {
        seq![65u8]
    } else if zi == 1 {
        seq![66u8]
    } else if zi == 2 {
        seq![67u8]
    } else {
        seq![68u8]
    }
}

/// Whether a wire name denotes one of the four seeded zones.
pub open spec fn es_zona_inicial(n: Seq<u8>) -> bool {
    ||| n == seq![65u8]
    ||| n == seq![66u8]
    ||| n == seq![67u8]
    ||| n == seq![68u8]
}

/// The category laid out at each position of a zone's category list.
pub open spec fn categoria_inicial(ci: int) -> CategoriaZona {
    if ci == 0 {
        CategoriaZona::VIP
    } else if ci == 1 {
        CategoriaZona::Regular
    } else if ci == 2 {
        CategoriaZona::Sol
    } else {
        CategoriaZona::Platea
    }
}

/// A zone as `Estadio::new` seeds it: the four categories in order, each
/// with its seeded matrix.
pub open spec fn zona_bien_sembrada(z: Zone) -> bool {
    &&& z.categorias@.len() == 4
    &&& forall|ci: int| 0 <= ci < 4 ==> #[trigger] z.categorias@[ci].categoria == categoria_inicial(ci)
    &&& forall|ci: int|
        0 <= ci < 4 ==> #[trigger] z.categorias@[ci].asientos@.len() == filas_de(categoria_inicial(ci))
    &&& forall|ci: int, fi: int|
        0 <= ci < 4 && 0 <= fi < filas_de(categoria_inicial(ci))
            ==> #[trigger] z.categorias@[ci].asientos@[fi]@.len() == ancho_inicial()
    &&& forall|ci: int, fi: int, ai: int|
        0 <= ci < 4 && 0 <= fi < filas_de(categoria_inicial(ci)) && 0 <= ai < ancho_inicial()
            ==> #[trigger] z.categorias@[ci].asientos@[fi]@[ai].estado
                == estado_inicial(categoria_inicial(ci), fi, ai)
}

impl Estadio {
    /// Builds the fixed seeded venue: zones "A" to "D", each with the four
    /// categories and their pre-set seats.  Every address made of a seeded
    /// zone name and in-range indices resolves to its seeded state, and no
    /// other address resolves.
    pub fn new() -> (r: Estadio)
        ensures
            r.inv(),
            r.zonas@.len() == 4,
            forall|zi: int| 0 <= zi < 4 ==> #[trigger] r.zonas@[zi].nombre@ == nombre_zona_inicial(zi),
            forall|zi: int| 0 <= zi < 4 ==> zona_bien_sembrada(#[trigger] r.zonas@[zi]),
            forall|c: CategoriaZona, n: Seq<u8>, fi: int, ai: int|
                #[trigger] r.estado_de(c, n, fi, ai) == if es_zona_inicial(n) && 1 <= fi <= filas_de(c)
                    && 1 <= ai <= ancho_inicial() {
                    Some(estado_inicial(c, fi - 1, ai - 1))
                } else {
                    None::<SeatState>
                },
    {
        let zona_a = Zone { nombre: vec![65u8], categorias: Self::crear_categorias() };
        let zona_b = Zone { nombre: vec![66u8], categorias: Self::crear_categorias() };
        let zona_c = Zone { nombre: vec![67u8], categorias: Self::crear_categorias() };
        let zona_d = Zone { nombre: vec![68u8], categorias: Self::crear_categorias() };
        let r = Estadio { zonas: vec![zona_a, zona_b, zona_c, zona_d] };
        proof {
            assert(r.zonas@.len() == 4);
            assert(r.zonas@[0].nombre@ == nombre_zona_inicial(0));
            assert(r.zonas@[1].nombre@ == nombre_zona_inicial(1));
            assert(r.zonas@[2].nombre@ == nombre_zona_inicial(2));
            assert(r.zonas@[3].nombre@ == nombre_zona_inicial(3));
            assert(zona_bien_sembrada(r.zonas@[0]));
            assert(zona_bien_sembrada(r.zonas@[1]));
            assert(zona_bien_sembrada(r.zonas@[2]));
            assert(zona_bien_sembrada(r.zonas@[3]));
            lema_estadio_sembrado(r);
        }
        r
    }

    /// Builds the four category matrices of one zone, in the fixed order
    /// VIP, Regular, Sol, Platea, each with its hard-coded dimensions and
    /// pre-set seats.
    pub fn crear_categorias() -> (r: Vec<CategoriaAsientos>)
        ensures
            r@.len() == 4,
            forall|ci: int| 0 <= ci < 4 ==> #[trigger] r@[ci].categoria == categoria_inicial(ci),
            forall|ci: int| 0 <= ci < 4 ==> #[trigger] r@[ci].asientos@.len() == filas_de(categoria_inicial(ci)),
            forall|ci: int, fi: int|
                0 <= ci < 4 && 0 <= fi < filas_de(categoria_inicial(ci))
                    ==> #[trigger] r@[ci].asientos@[fi]@.len() == ancho_inicial(),
            forall|ci: int, fi: int, ai: int|
                0 <= ci < 4 && 0 <= fi < filas_de(categoria_inicial(ci)) && 0 <= ai < ancho_inicial()
                    ==> #[trigger] r@[ci].asientos@[fi]@[ai].estado
                        == estado_inicial(categoria_inicial(ci), fi, ai),
    {
        let semillas_vip: Vec<(usize, usize, SeatState)> =
            vec![(0usize, 0usize, SeatState::Reservado), (1usize, 2usize, SeatState::Comprado)];
        let semillas_regular: Vec<(usize, usize, SeatState)> =
            vec![(0usize, 1usize, SeatState::Libre), (2usize, 3usize, SeatState::Reservado)];
        let semillas_sol: Vec<(usize, usize, SeatState)> =
            vec![(2usize, 2usize, SeatState::Comprado), (4usize, 4usize, SeatState::Libre)];
        let semillas_platea: Vec<(usize, usize, SeatState)> =
            vec![(3usize, 3usize, SeatState::Libre), (2usize, 2usize, SeatState::Reservado)];
        let ghost sv = semillas_vip@;
        let ghost sr = semillas_regular@;
        let ghost ss = semillas_sol@;
        let ghost sp = semillas_platea@;
        let vip = CategoriaAsientos {
            categoria: CategoriaZona::VIP,
            asientos: Self::crear_matriz_asientos(3, 5, semillas_vip),
        };
        let regular = CategoriaAsientos {
            categoria: CategoriaZona::Regular,
            asientos: Self::crear_matriz_asientos(7, 5, semillas_regular),
        };
        let sol = CategoriaAsientos {
            categoria: CategoriaZona::Sol,
            asientos: Self::crear_matriz_asientos(5, 5, semillas_sol),
        };
        let platea = CategoriaAsientos {
            categoria: CategoriaZona::Platea,
            asientos: Self::crear_matriz_asientos(6, 5, semillas_platea),
        };
        let r = vec![vip, regular, sol, platea];
        proof {
            assert forall|fi: int, ai: int| #[trigger] estado_sembrado(sv, fi, ai) == estado_inicial(
                CategoriaZona::VIP,
                fi,
                ai,
            ) by {
                lema_siembra_de_dos(sv, fi, ai);
            }
            assert forall|fi: int, ai: int| #[trigger] estado_sembrado(sr, fi, ai) == estado_inicial(
                CategoriaZona::Regular,
                fi,
                ai,
            ) by {
                lema_siembra_de_dos(sr, fi, ai);
            }
            assert forall|fi: int, ai: int| #[trigger] estado_sembrado(ss, fi, ai) == estado_inicial(
                CategoriaZona::Sol,
                fi,
                ai,
            ) by {
                lema_siembra_de_dos(ss, fi, ai);
            }
            assert forall|fi: int, ai: int| #[trigger] estado_sembrado(sp, fi, ai) == estado_inicial(
                CategoriaZona::Platea,
                fi,
                ai,
            ) by {
                lema_siembra_de_dos(sp, fi, ai);
            }
        }
        r
    }

    /// Builds a `filas` × `asientos_por_fila` matrix of `Libre` seats, then
    /// applies the seed entries in order, skipping any that fall outside
    /// the matrix.
    pub fn crear_matriz_asientos(
        filas: usize,
        asientos_por_fila: usize,
        estados: Vec<(usize, usize, SeatState)>,
    ) -> (m: Vec<Vec<Seat>>)
        ensures
            m@.len() == filas,
            forall|fi: int| 0 <= fi < filas ==> #[trigger] m@[fi]@.len() == asientos_por_fila,
            forall|fi: int, ai: int|
                0 <= fi < filas && 0 <= ai < asientos_por_fila
                    ==> #[trigger] m@[fi]@[ai].estado == estado_sembrado(estados@, fi, ai),
    {
        let mut m: Vec<Vec<Seat>> = Vec::new();
        let mut i: usize = 0;
        while i < filas
            invariant
                0 <= i <= filas,
                m@.len() == i,
                forall|fi: int| 0 <= fi < i ==> #[trigger] m@[fi]@.len() == asientos_por_fila,
                forall|fi: int, ai: int|
                    0 <= fi < i && 0 <= ai < asientos_por_fila
                        ==> #[trigger] m@[fi]@[ai].estado == SeatState::Libre,
            decreases filas - i,
        {
            let mut fila: Vec<Seat> = Vec::new();
            let mut j: usize = 0;
            while j < asientos_por_fila
                invariant
                    0 <= j <= asientos_por_fila,
                    fila@.len() == j,
                    forall|ai: int| 0 <= ai < j ==> #[trigger] fila@[ai].estado == SeatState::Libre,
                decreases asientos_por_fila - j,
            {
                fila.push(Seat { estado: SeatState::Libre });
                j += 1;
            }
            m.push(fila);
            i += 1;
        }

        let mut k: usize = 0;
        while k < estados.len()
            invariant
                0 <= k <= estados@.len(),
                m@.len() == filas,
                forall|fi: int| 0 <= fi < filas ==> #[trigger] m@[fi]@.len() == asientos_por_fila,
                forall|fi: int, ai: int|
                    0 <= fi < filas && 0 <= ai < asientos_por_fila
                        ==> #[trigger] m@[fi]@[ai].estado == estado_sembrado(
                            estados@.take(k as int),
                            fi,
                            ai,
                        ),
            decreases estados@.len() - k,
        {
            let e = estados[k];
            let ghost prefijo = estados@.take(k as int);
            if e.0 < filas && e.1 < asientos_por_fila {
                m[e.0][e.1] = Seat { estado: e.2 };
            }
            proof {
                let tomado = estados@.take(k + 1 as int);
                assert(tomado.last() == estados@[k as int]);
                assert(tomado.drop_last() =~= prefijo);
            }
            k += 1;
        }
        proof {
            assert(estados@.take(estados@.len() as int) =~= estados@);
        }
        m
    }
}

/// Unfolds `estado_sembrado` over a two-entry seed list.
proof fn lema_siembra_de_dos(s: Seq<(usize, usize, SeatState)>, fi: int, ai: int)
    requires
        s.len() == 2,
    ensures
        estado_sembrado(s, fi, ai) == if s[1].0 == fi && s[1].1 == ai {
            s[1].2
        } else if s[0].0 == fi && s[0].1 == ai {
            s[0].2
        } else {
            SeatState::Libre
        },
{
    assert(s.last() == s[1]);
    let s1 = s.drop_last();
    assert(s1.last() == s[0]);
    assert(s1.drop_last().len() == 0);
    assert(estado_sembrado(s1.drop_last(), fi, ai) == SeatState::Libre);
    assert(estado_sembrado(s1, fi, ai) == if s[0].0 == fi && s[0].1 == ai {
        s[0].2
    } else {
        SeatState::Libre
    });
}

/// A venue of four well-seeded zones named "A" to "D" satisfies the
/// published contract of `Estadio::new`.
proof fn lema_estadio_sembrado(r: Estadio)
    requires
        r.zonas@.len() == 4,
        forall|zi: int| 0 <= zi < 4 ==> #[trigger] r.zonas@[zi].nombre@ == nombre_zona_inicial(zi),
        forall|zi: int| 0 <= zi < 4 ==> zona_bien_sembrada(#[trigger] r.zonas@[zi]),
    ensures
        r.inv(),
        forall|c: CategoriaZona, n: Seq<u8>, fi: int, ai: int|
            #[trigger] r.estado_de(c, n, fi, ai) == if es_zona_inicial(n) && 1 <= fi <= filas_de(c)
                && 1 <= ai <= ancho_inicial() {
                Some(estado_inicial(c, fi - 1, ai - 1))
            } else {
                None::<SeatState>
            },
{
    assert(nombre_zona_inicial(0) != nombre_zona_inicial(1)) by {
        assert(nombre_zona_inicial(0)[0] == 65u8);
        assert(nombre_zona_inicial(1)[0] == 66u8);
    }
    assert forall|i: int, j: int| 0 <= i < j < 4 implies nombre_zona_inicial(i)
        != nombre_zona_inicial(j) by {
        assert(nombre_zona_inicial(i)[0] != nombre_zona_inicial(j)[0]);
    }
    assert(r.inv()) by {
        assert forall|zi: int, i: int, j: int|
            0 <= zi < r.zonas@.len() && 0 <= i < j < r.zonas@[zi].categorias@.len() implies #[trigger] r.zonas@[zi].categorias@[i].categoria
            != #[trigger] r.zonas@[zi].categorias@[j].categoria by {
            assert(zona_bien_sembrada(r.zonas@[zi]));
        }
    }
    assert forall|c: CategoriaZona, n: Seq<u8>, fi: int, ai: int| #[trigger] r.estado_de(c, n, fi, ai)
        == if es_zona_inicial(n) && 1 <= fi <= filas_de(c) && 1 <= ai <= ancho_inicial() {
        Some(estado_inicial(c, fi - 1, ai - 1))
    } else {
        None::<SeatState>
    } by {
        lema_estado_en_sembrado(r, c, n, fi, ai);
    }
}

/// One address of a well-seeded venue reads exactly its seeded state.
proof fn lema_estado_en_sembrado(r: Estadio, c: CategoriaZona, n: Seq<u8>, fi: int, ai: int)
    requires
        r.zonas@.len() == 4,
        forall|zi: int| 0 <= zi < 4 ==> #[trigger] r.zonas@[zi].nombre@ == nombre_zona_inicial(zi),
        forall|zi: int| 0 <= zi < 4 ==> zona_bien_sembrada(#[trigger] r.zonas@[zi]),
    ensures
        r.estado_de(c, n, fi, ai) == if es_zona_inicial(n) && 1 <= fi <= filas_de(c) && 1 <= ai
            <= ancho_inicial() {
            Some(estado_inicial(c, fi - 1, ai - 1))
        } else {
            None::<SeatState>
        },
{
    reveal_with_fuel(crate::modelo::busca_zona, 6);
    reveal_with_fuel(crate::modelo::busca_categoria, 6);
    if es_zona_inicial(n) {
        let zi: int = if n == seq![65u8] {
            0
        } else if n == seq![66u8] {
            1
        } else if n == seq![67u8] {
            2
        } else {
            3
        };
        assert(r.zonas@[zi].nombre@ == n);
        assert forall|j: int| 0 <= j < zi implies r.zonas@[j].nombre@ != n by {
            assert(nombre_zona_inicial(j)[0] != nombre_zona_inicial(zi)[0]);
        }
        assert(crate::modelo::busca_zona(r.zonas@, n, 0) == Some(zi));
        let z = r.zonas@[zi];
        assert(zona_bien_sembrada(z));
        let ci: int = match c {
            CategoriaZona::VIP => 0,
            CategoriaZona::Regular => 1,
            CategoriaZona::Sol => 2,
            CategoriaZona::Platea => 3,
        };
        assert(z.categorias@[ci].categoria == c);
        assert(crate::modelo::busca_categoria(z.categorias@, c, 0) == Some(ci));
        let m = z.categorias@[ci].asientos@;
        let g = vista_matriz(m);
        assert(g.len() == m.len());
        assert forall|k: int| 0 <= k < m.len() implies #[trigger] g[k].len() == m[k]@.len() by {
            crate::inventario::lema_vista_matriz(m, k);
        }
        if 1 <= fi <= filas_de(c) && 1 <= ai <= ancho_inicial() {
            crate::inventario::lema_vista_matriz(m, fi - 1);
            assert(g[fi - 1][ai - 1] == m[fi - 1]@[ai - 1].estado);
            assert(m[fi - 1]@[ai - 1].estado == estado_inicial(c, fi - 1, ai - 1));
        }
    } else {
        assert forall|j: int| 0 <= j < 4 implies r.zonas@[j].nombre@ != n by {}
        assert(crate::modelo::busca_zona(r.zonas@, n, 0) is None);
    }
}

} // verus!
