use vstd::prelude::*;

use crate::estados::{CategoriaZona, Resultado, Seat, SeatState};

verus! {

/// The seat matrix of one category inside one zone.
pub struct CategoriaAsientos {
    pub categoria: CategoriaZona,
    pub asientos: Vec<Vec<Seat>>,
}

/// A named zone of the venue; owns one seat matrix per category.
pub struct Zone {
    pub nombre: Vec<u8>,
    pub categorias: Vec<CategoriaAsientos>,
}

/// The whole venue: the root aggregate that owns every zone.
pub struct Estadio {
    pub zonas: Vec<Zone>,
}

/// The states of one row of seats.
pub open spec fn vista_fila(fila: Vec<Seat>) -> Seq<SeatState> {
    fila@.map(|j: int, s: Seat| s.estado)
}

/// The states of a whole seat matrix, row by row.
pub open spec fn vista_matriz(m: Seq<Vec<Seat>>) -> Seq<Seq<SeatState>> {
    m.map(|i: int, fila: Vec<Seat>| vista_fila(fila))
}

/// Index of the first zone named `nombre` at or after `desde`, if any.
pub open spec fn busca_zona(zonas: Seq<Zone>, nombre: Seq<u8>, desde: int) -> Option<int>
    decreases zonas.len() - desde when 0 <= desde <= zonas.len()
{
    if desde >= zonas.len() {
        None
    } else if zonas[desde].nombre@ == nombre {
        Some(desde)
    } else {
        busca_zona(zonas, nombre, desde + 1)
    }
}

/// Index of the first entry for category `c` at or after `desde`, if any.
pub open spec fn busca_categoria(cats: Seq<CategoriaAsientos>, c: CategoriaZona, desde: int) -> Option<int>
    decreases cats.len() - desde when 0 <= desde <= cats.len()
{
    if desde >= cats.len() {
        None
    } else if cats[desde].categoria == c {
        Some(desde)
    } else {
        busca_categoria(cats, c, desde + 1)
    }
}

/// Whether the 1-based address (fila, asiento) lands inside the matrix `g`.
pub open spec fn en_rango(g: Seq<Seq<SeatState>>, fila: int, asiento: int) -> bool {
    &&& 1 <= fila <= g.len()
    &&& 1 <= asiento <= g[fila - 1].len()
}

impl Estadio {
    /// The seat matrix addressed by (category, zone name), if both resolve.
    pub open spec fn grid_de(self, c: CategoriaZona, nombre: Seq<u8>) -> Option<Seq<Seq<SeatState>>> {
        match busca_zona(self.zonas@, nombre, 0) {
            None => None,
            Some(zi) => match busca_categoria(self.zonas@[zi].categorias@, c, 0) {
                None => None,
                Some(ci) => Some(vista_matriz(self.zonas@[zi].categorias@[ci].asientos@)),
            },
        }
    }

    /// The state of the seat at a full (category, zone, row, seat) address,
    /// or `None` where the address does not resolve.
    pub open spec fn estado_de(self, c: CategoriaZona, nombre: Seq<u8>, fila: int, asiento: int) -> Option<SeatState> {
        match self.grid_de(c, nombre) {
            None => None,
            Some(g) => if en_rango(g, fila, asiento) {
                Some(g[fila - 1][asiento - 1])
            } else {
                None
            },
        }
    }

    /// The outcome that a transition demanding source state `requerido` owes
    /// at a given address: the error taxonomy of the inventory.
    pub open spec fn resultado_esperado(self, c: CategoriaZona, nombre: Seq<u8>, fila: int, asiento: int, requerido: SeatState) -> Resultado {
        match self.grid_de(c, nombre) {
            None => Resultado::NoEncontrado,
            Some(g) => if !en_rango(g, fila, asiento) {
                Resultado::FueraDeRango
            } else if g[fila - 1][asiento - 1] != requerido {
                Resultado::NoDisponible
            } else {
                Resultado::Exito
            },
        }
    }

    /// Well-formedness of the venue: zone names are unique, category tags are
    /// unique within each zone, and every seat matrix is rectangular.
    pub open spec fn inv(self) -> bool {
        &&& forall|i: int, j: int|
            0 <= i < j < self.zonas@.len() ==> #[trigger] self.zonas@[i].nombre@ != #[trigger] self.zonas@[j].nombre@
        &&& forall|zi: int, i: int, j: int|
            0 <= zi < self.zonas@.len() && 0 <= i < j < self.zonas@[zi].categorias@.len()
                ==> #[trigger] self.zonas@[zi].categorias@[i].categoria != #[trigger] self.zonas@[zi].categorias@[j].categoria
        &&& forall|zi: int, ci: int, fi: int|
            0 <= zi < self.zonas@.len() && 0 <= ci < self.zonas@[zi].categorias@.len()
                && 0 <= fi < self.zonas@[zi].categorias@[ci].asientos@.len()
                ==> #[trigger] self.zonas@[zi].categorias@[ci].asientos@[fi]@.len()
                    == self.zonas@[zi].categorias@[ci].asientos@[0]@.len()
    }
}

/// The two venues have the same shape: the same zones in the same order,
/// the same categories in each zone, and the same matrix dimensions; only
/// seat states may differ.
pub open spec fn misma_forma(a: Estadio, b: Estadio) -> bool {
    &&& a.zonas@.len() == b.zonas@.len()
    &&& forall|zi: int| 0 <= zi < a.zonas@.len() ==> #[trigger] b.zonas@[zi].nombre@ == a.zonas@[zi].nombre@
    &&& forall|zi: int|
        0 <= zi < a.zonas@.len() ==> #[trigger] b.zonas@[zi].categorias@.len() == a.zonas@[zi].categorias@.len()
    &&& forall|zi: int, ci: int|
        0 <= zi < a.zonas@.len() && 0 <= ci < a.zonas@[zi].categorias@.len()
            ==> #[trigger] b.zonas@[zi].categorias@[ci].categoria == a.zonas@[zi].categorias@[ci].categoria
    &&& forall|zi: int, ci: int|
        0 <= zi < a.zonas@.len() && 0 <= ci < a.zonas@[zi].categorias@.len()
            ==> #[trigger] b.zonas@[zi].categorias@[ci].asientos@.len() == a.zonas@[zi].categorias@[ci].asientos@.len()
    &&& forall|zi: int, ci: int, fi: int|
        0 <= zi < a.zonas@.len() && 0 <= ci < a.zonas@[zi].categorias@.len()
            && 0 <= fi < a.zonas@[zi].categorias@[ci].asientos@.len()
            ==> #[trigger] b.zonas@[zi].categorias@[ci].asientos@[fi]@.len()
                == a.zonas@[zi].categorias@[ci].asientos@[fi]@.len()
}

/// `misma_forma` composes.
pub proof fn lema_misma_forma_trans(a: Estadio, b: Estadio, c: Estadio)
    requires
        misma_forma(a, b),
        misma_forma(b, c),
    ensures
        misma_forma(a, c),
{
}

/// A well-formed venue keeps its well-formedness under any change that
/// preserves its shape.
pub proof fn lema_inv_por_forma(a: Estadio, b: Estadio)
    requires
        a.inv(),
        misma_forma(a, b),
    ensures
        b.inv(),
{
}

/// Where `busca_zona` finds an index, that zone bears the sought name.
pub proof fn lema_busca_zona_encontrada(zonas: Seq<Zone>, nombre: Seq<u8>, desde: int, i: int)
    requires
        0 <= desde <= zonas.len(),
        busca_zona(zonas, nombre, desde) == Some(i),
    ensures
        desde <= i < zonas.len(),
        zonas[i].nombre@ == nombre,
    decreases zonas.len() - desde,
{
    if desde < zonas.len() && zonas[desde].nombre@ != nombre {
        lema_busca_zona_encontrada(zonas, nombre, desde + 1, i);
    }
}

/// Where `busca_categoria` finds an index, that entry bears the sought tag.
pub proof fn lema_busca_categoria_encontrada(cats: Seq<CategoriaAsientos>, c: CategoriaZona, desde: int, i: int)
    requires
        0 <= desde <= cats.len(),
        busca_categoria(cats, c, desde) == Some(i),
    ensures
        desde <= i < cats.len(),
        cats[i].categoria == c,
    decreases cats.len() - desde,
{
    if desde < cats.len() && cats[desde].categoria != c {
        lema_busca_categoria_encontrada(cats, c, desde + 1, i);
    }
}

/// Zone search only reads zone names: two zone sequences whose names agree
/// pointwise are searched alike.
pub proof fn lema_busca_zona_igual(a: Seq<Zone>, b: Seq<Zone>, nombre: Seq<u8>, desde: int)
    requires
        0 <= desde <= a.len(),
        a.len() == b.len(),
        forall|i: int| 0 <= i < a.len() ==> #[trigger] a[i].nombre@ == b[i].nombre@,
    ensures
        busca_zona(a, nombre, desde) == busca_zona(b, nombre, desde),
    decreases a.len() - desde,
{
    if desde < a.len() && a[desde].nombre@ != nombre {
        lema_busca_zona_igual(a, b, nombre, desde + 1);
    }
}

/// Category search only reads category tags.
pub proof fn lema_busca_categoria_igual(a: Seq<CategoriaAsientos>, b: Seq<CategoriaAsientos>, c: CategoriaZona, desde: int)
    requires
        0 <= desde <= a.len(),
        a.len() == b.len(),
        forall|i: int| 0 <= i < a.len() ==> #[trigger] a[i].categoria == b[i].categoria,
    ensures
        busca_categoria(a, c, desde) == busca_categoria(b, c, desde),
    decreases a.len() - desde,
{
    if desde < a.len() && a[desde].categoria != c {
        lema_busca_categoria_igual(a, b, c, desde + 1);
    }
}

/// Finds the first zone with the given name, as `busca_zona` describes it.
pub fn buscar_zona(zonas: &Vec<Zone>, nombre: &Vec<u8>) -> (r: Option<usize>)
    ensures
        match r {
            Some(i) => busca_zona(zonas@, nombre@, 0) == Some(i as int),
            None => busca_zona(zonas@, nombre@, 0) is None,
        },
{
    let mut i: usize = 0;
    while i < zonas.len()
        invariant
            0 <= i <= zonas@.len(),
            busca_zona(zonas@, nombre@, 0) == busca_zona(zonas@, nombre@, i as int),
        decreases zonas@.len() - i,
    {
        if crate::bytes::iguales(&zonas[i].nombre, nombre) {
            return Some(i);
        }
        i += 1;
    }
    None
}

/// Finds the first entry of the given category, as `busca_categoria`
/// describes it.
pub fn buscar_categoria(cats: &Vec<CategoriaAsientos>, c: CategoriaZona) -> (r: Option<usize>)
    ensures
        match r {
            Some(i) => busca_categoria(cats@, c, 0) == Some(i as int),
            None => busca_categoria(cats@, c, 0) is None,
        },
{
    let mut i: usize = 0;
    while i < cats.len()
        invariant
            0 <= i <= cats@.len(),
            busca_categoria(cats@, c, 0) == busca_categoria(cats@, c, i as int),
        decreases cats@.len() - i,
    {
        if cats[i].categoria == c {
            return Some(i);
        }
        i += 1;
    }
    None
}

} // verus!
