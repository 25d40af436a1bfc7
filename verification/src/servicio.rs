use vstd::prelude::*;

use crate::comandos::{clasificacion_correcta, clasificar, Comando};
use crate::estados::{categoria_de_nombre, Accion, CategoriaZona, Resultado, SeatState};
use crate::inventario::rel_transicion;
use crate::modelo::Estadio;
use crate::resumen::{resumen_correcto, ZonaResumen};

verus! {

/// The typed reply a command earns; rendering it to a protocol line is the
/// connection handler's business.
pub enum Respuesta {
    Estructura(Vec<ZonaResumen>),
    Operacion { accion: Accion, resultado: Resultado },
    Disponibilidad(bool),
    ComandoIncorrecto,
    Difundir,
}

/// The seat state an action demands before it may fire.
pub open spec fn estado_requerido(a: Accion) -> SeatState {
    match a {
        Accion::Reservar => SeatState::Libre,
        Accion::Comprar => SeatState::ReservadoPorUsuario,
        Accion::Liberar => SeatState::ReservadoPorUsuario,
    }
}

/// The seat state an action leaves behind on success.
pub open spec fn estado_nuevo(a: Accion) -> SeatState {
    match a {
        Accion::Reservar => SeatState::ReservadoPorUsuario,
        Accion::Comprar => SeatState::Comprado,
        Accion::Liberar => SeatState::Libre,
    }
}

/// What the availability query answers: the category name resolves, the
/// address resolves, and the seat is `Libre`.  An unknown category or zone
/// reads as unavailable rather than as an error.
pub open spec fn disponible(e: Estadio, categoria: Seq<u8>, zona: Seq<u8>, fila: int, asiento: int) -> bool {
    match categoria_de_nombre(categoria) {
        None => false,
        Some(c) => e.estado_de(c, zona, fila, asiento) == Some(SeatState::Libre),
    }
}

/// The reply and venue change every command owes: queries and chat never
/// touch the venue; a seat operation follows `rel_transicion`, with an
/// unknown category name answered by `NoEncontrado` and no mutation.
pub open spec fn respuesta_correcta(e0: Estadio, e1: Estadio, cmd: Comando, r: Respuesta) -> bool {
    match cmd {
        Comando::Estructura => {
            &&& e1 == e0
            &&& match r {
                Respuesta::Estructura(d) => resumen_correcto(e0, d@),
                _ => false,
            }
        },
        Comando::Operar { accion, categoria, zona, fila, asiento } => match r {
            Respuesta::Operacion { accion: a2, resultado } => {
                &&& a2 == accion
                &&& match categoria_de_nombre(categoria@) {
                    None => e1 == e0 && resultado == Resultado::NoEncontrado,
                    Some(c) => rel_transicion(
                        e0,
                        e1,
                        c,
                        zona@,
                        fila as int,
                        asiento as int,
                        estado_requerido(accion),
                        estado_nuevo(accion),
                        resultado,
                    ),
                }
            },
            _ => false,
        },
        Comando::Consultar { categoria, zona, fila, asiento } => {
            &&& e1 == e0
            &&& r == Respuesta::Disponibilidad(
                disponible(e0, categoria@, zona@, fila as int, asiento as int),
            )
        },
        Comando::Malformado { es_consulta } => {
            &&& e1 == e0
            &&& r == if es_consulta {
                Respuesta::Disponibilidad(false)
            } else {
                Respuesta::ComandoIncorrecto
            }
        },
        Comando::Chat => e1 == e0 && r == Respuesta::Difundir,
    }
}

/// Executes one typed command against the venue.  This is the whole
/// command surface of the inventory: everything it may do to the venue and
/// answer is pinned by `respuesta_correcta`.
pub fn ejecutar(estadio: &mut Estadio, cmd: Comando) -> (r: Respuesta)
    requires
        old(estadio).inv(),
    ensures
        final(estadio).inv(),
        respuesta_correcta(*old(estadio), *final(estadio), cmd, r),
{
    match cmd {
        Comando::Estructura => Respuesta::Estructura(estadio.snapshot()),
        Comando::Operar { accion, categoria, zona, fila, asiento } => {
            let resultado = match CategoriaZona::desde_nombre(&categoria) {
                None => Resultado::NoEncontrado,
                Some(c) => match accion {
                    Accion::Reservar => estadio.reservar(c, &zona, fila, asiento),
                    Accion::Comprar => estadio.comprar(c, &zona, fila, asiento),
                    Accion::Liberar => estadio.liberar(c, &zona, fila, asiento),
                },
            };
            Respuesta::Operacion { accion, resultado }
        },
        Comando::Consultar { categoria, zona, fila, asiento } => {
            let b = match CategoriaZona::desde_nombre(&categoria) {
                None => false,
                Some(c) => estadio.check_asiento(c, &zona, fila, asiento),
            };
            Respuesta::Disponibilidad(b)
        },
        Comando::Malformado { es_consulta } => {
            if es_consulta {
                Respuesta::Disponibilidad(false)
            } else {
                Respuesta::ComandoIncorrecto
            }
        },
        Comando::Chat => Respuesta::Difundir,
    }
}

/// Routes one raw (already trimmed) line: classifies it, then executes the
/// command it denotes.  The reply and venue change are those `ejecutar`
/// owes for the one classification the line admits.
pub fn procesar_linea(estadio: &mut Estadio, linea: &Vec<u8>) -> (r: Respuesta)
    requires
        old(estadio).inv(),
    ensures
        final(estadio).inv(),
        exists|cmd: Comando|
            #[trigger] clasificacion_correcta(linea@, cmd) && respuesta_correcta(
                *old(estadio),
                *final(estadio),
                cmd,
                r,
            ),
{
    let cmd = clasificar(linea);
    let ghost cmd_g = cmd;
    let r = ejecutar(estadio, cmd);
    proof {
        assert(clasificacion_correcta(linea@, cmd_g) && respuesta_correcta(
            *old(estadio),
            *estadio,
            cmd_g,
            r,
        ));
    }
    r
}

} // verus!
