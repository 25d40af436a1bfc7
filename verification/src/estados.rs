use vstd::prelude::*;

verus! {

/// Lifecycle state of one seat.
///
/// `Libre` is the only state a user may reserve from; `Reservado` marks a
/// seat held back at venue-setup time and is never user-transitionable;
/// `ReservadoPorUsuario` is a user's temporary hold; `Comprado` is terminal.
#[derive(Clone, Copy, PartialEq, Eq, Structural, Debug)]
pub enum SeatState {
    Libre,
    Reservado,
    ReservadoPorUsuario,
    Comprado,
}

/// One seat of the inventory; its identity is its position in a grid.
#[derive(Clone, Copy, PartialEq, Eq, Structural, Debug)]
pub struct Seat {
    pub estado: SeatState,
}

/// The closed set of seating categories known to client and server.
#[derive(Clone, Copy, PartialEq, Eq, Structural, Debug)]
pub enum CategoriaZona {
    VIP,
    Regular,
    Sol,
    Platea,
}

/// Outcome of one mutating or read operation on the inventory.
#[derive(Clone, Copy, PartialEq, Eq, Structural, Debug)]
pub enum Resultado {
    Exito,
    NoDisponible,
    FueraDeRango,
    NoEncontrado,
}

/// Which transition a parsed seat command asks for.
#[derive(Clone, Copy, PartialEq, Eq, Structural, Debug)]
pub enum Accion {
    Reservar,
    Comprar,
    Liberar,
}

/// The wire name of each category, as UTF-8 bytes:
/// "VIP", "Regular", "Sol" and "Platea".
pub open spec fn nombre_de_categoria(c: CategoriaZona) -> Seq<u8> {
    match c {
        CategoriaZona::VIP => seq![86u8, 73u8, 80u8],
        CategoriaZona::Regular => seq![82u8, 101u8, 103u8, 117u8, 108u8, 97u8, 114u8],
        CategoriaZona::Sol => seq![83u8, 111u8, 108u8],
        CategoriaZona::Platea => seq![80u8, 108u8, 97u8, 116u8, 101u8, 97u8],
    }
}

/// The category a wire name denotes, if any.
pub open spec fn categoria_de_nombre(n: Seq<u8>) -> Option<CategoriaZona> {
    if n == nombre_de_categoria(CategoriaZona::VIP) {
        Some(CategoriaZona::VIP)
    } else if n == nombre_de_categoria(CategoriaZona::Regular) {
        Some(CategoriaZona::Regular)
    } else if n == nombre_de_categoria(CategoriaZona::Sol) {
        Some(CategoriaZona::Sol)
    } else if n == nombre_de_categoria(CategoriaZona::Platea) {
        Some(CategoriaZona::Platea)
    } else {
        None
    }
}

impl CategoriaZona {
    /// The wire name of this category.
    pub fn nombre(&self) -> (r: Vec<u8>)
        ensures
            r@ == nombre_de_categoria(*self),
    {
        match self {
            CategoriaZona::VIP => vec![86u8, 73u8, 80u8],
            CategoriaZona::Regular => vec![82u8, 101u8, 103u8, 117u8, 108u8, 97u8, 114u8],
            CategoriaZona::Sol => vec![83u8, 111u8, 108u8],
            CategoriaZona::Platea => vec![80u8, 108u8, 97u8, 116u8, 101u8, 97u8],
        }
    }

    /// Looks a wire name up in the closed category set.
    pub fn desde_nombre(n: &Vec<u8>) -> (r: Option<CategoriaZona>)
        ensures
            r == categoria_de_nombre(n@),
    {
        if crate::bytes::iguales(n, &CategoriaZona::VIP.nombre()) {
            Some(CategoriaZona::VIP)
        } else if crate::bytes::iguales(n, &CategoriaZona::Regular.nombre()) {
            Some(CategoriaZona::Regular)
        } else if crate::bytes::iguales(n, &CategoriaZona::Sol.nombre()) {
            Some(CategoriaZona::Sol)
        } else if crate::bytes::iguales(n, &CategoriaZona::Platea.nombre()) {
            Some(CategoriaZona::Platea)
        } else {
            None
        }
    }
}

} // verus!
