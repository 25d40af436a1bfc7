use estadio::barrido::liberar_asientos_reservados_por_usuario;
use estadio::estados::{Accion, CategoriaZona, Resultado, SeatState};
use estadio::modelo::Estadio;
use estadio::servicio::{ejecutar, procesar_linea, Respuesta};
use estadio::comandos::clasificar;

fn linea(s: &str) -> Vec<u8> {
    s.as_bytes().to_vec()
}

#[test]
fn reservar_y_comprar_por_linea() {
    // A free seat is reserved, then immediately purchased, both with
    // success replies; the seat ends Comprado.
    let mut e = Estadio::new();
    let r1 = procesar_linea(&mut e, &linea("RESERVAR_ASIENTO \"VIP\" \"A\" 2 2"));
    assert!(matches!(
        r1,
        Respuesta::Operacion { accion: Accion::Reservar, resultado: Resultado::Exito }
    ));
    let r2 = procesar_linea(&mut e, &linea("COMPRAR_ASIENTO \"VIP\" \"A\" 2 2"));
    assert!(matches!(
        r2,
        Respuesta::Operacion { accion: Accion::Comprar, resultado: Resultado::Exito }
    ));
    assert_eq!(e.zonas[0].categorias[0].asientos[1][1].estado, SeatState::Comprado);
}

#[test]
fn desconexion_libera_y_el_asiento_vuelve_a_estar_disponible() {
    // Client A reserves (2,2) and disconnects without purchasing; the
    // sweep frees the seat and client B's availability check reads true.
    let mut e = Estadio::new();
    let r1 = procesar_linea(&mut e, &linea("RESERVAR_ASIENTO \"VIP\" \"A\" 2 2"));
    assert!(matches!(
        r1,
        Respuesta::Operacion { accion: Accion::Reservar, resultado: Resultado::Exito }
    ));
    liberar_asientos_reservados_por_usuario(&mut e, "127.0.0.1:50001");
    let r2 = procesar_linea(&mut e, &linea("CHECK_ASIENTO \"VIP\" \"A\" 2 2"));
    assert!(matches!(r2, Respuesta::Disponibilidad(true)));
}

#[test]
fn check_de_zona_inexistente_responde_false() {
    // A query on a zone that does not exist answers a plain false line,
    // never an error.
    let mut e = Estadio::new();
    let r = procesar_linea(&mut e, &linea("CHECK_ASIENTO \"VIP\" \"Z\" 1 1"));
    assert!(matches!(r, Respuesta::Disponibilidad(false)));
}

#[test]
fn check_asiento_preestablecido_responde_false() {
    let mut e = Estadio::new();
    let r = procesar_linea(&mut e, &linea("CHECK_ASIENTO \"VIP\" \"A\" 1 1"));
    assert!(matches!(r, Respuesta::Disponibilidad(false)));
}

#[test]
fn check_categoria_desconocida_responde_false() {
    let mut e = Estadio::new();
    let r = procesar_linea(&mut e, &linea("CHECK_ASIENTO \"Oro\" \"A\" 2 2"));
    assert!(matches!(r, Respuesta::Disponibilidad(false)));
}

#[test]
fn check_malformado_responde_false() {
    let mut e = Estadio::new();
    let r = procesar_linea(&mut e, &linea("CHECK_ASIENTO \"VIP\" 1"));
    assert!(matches!(r, Respuesta::Disponibilidad(false)));
}

#[test]
fn check_fuera_de_rango_responde_false() {
    let mut e = Estadio::new();
    assert!(matches!(
        procesar_linea(&mut e, &linea("CHECK_ASIENTO \"VIP\" \"A\" 0 1")),
        Respuesta::Disponibilidad(false)
    ));
    assert!(matches!(
        procesar_linea(&mut e, &linea("CHECK_ASIENTO \"VIP\" \"A\" 1 6")),
        Respuesta::Disponibilidad(false)
    ));
}

#[test]
fn indices_maximos_son_validos() {
    // Regular grids are 7 rows of 5 seats; the last seat is addressable.
    let mut e = Estadio::new();
    assert!(matches!(
        procesar_linea(&mut e, &linea("RESERVAR_ASIENTO \"Regular\" \"C\" 7 5")),
        Respuesta::Operacion { accion: Accion::Reservar, resultado: Resultado::Exito }
    ));
    assert_eq!(e.zonas[2].categorias[1].asientos[6][4].estado, SeatState::ReservadoPorUsuario);
}

#[test]
fn operacion_sobre_categoria_desconocida_no_encontrada() {
    let mut e = Estadio::new();
    let r = procesar_linea(&mut e, &linea("RESERVAR_ASIENTO \"Oro\" \"A\" 2 2"));
    assert!(matches!(
        r,
        Respuesta::Operacion { accion: Accion::Reservar, resultado: Resultado::NoEncontrado }
    ));
    assert_eq!(e.zonas[0].categorias[0].asientos[1][1].estado, SeatState::Libre);
}

#[test]
fn operacion_fuera_de_rango_por_linea() {
    let mut e = Estadio::new();
    let r = procesar_linea(&mut e, &linea("RESERVAR_ASIENTO \"VIP\" \"A\" 0 1"));
    assert!(matches!(
        r,
        Respuesta::Operacion { accion: Accion::Reservar, resultado: Resultado::FueraDeRango }
    ));
    let r2 = procesar_linea(&mut e, &linea("COMPRAR_ASIENTO \"VIP\" \"A\" 4 1"));
    assert!(matches!(
        r2,
        Respuesta::Operacion { accion: Accion::Comprar, resultado: Resultado::FueraDeRango }
    ));
}

#[test]
fn liberar_por_linea() {
    let mut e = Estadio::new();
    assert!(matches!(
        procesar_linea(&mut e, &linea("RESERVAR_ASIENTO \"Platea\" \"D\" 6 5")),
        Respuesta::Operacion { accion: Accion::Reservar, resultado: Resultado::Exito }
    ));
    assert!(matches!(
        procesar_linea(&mut e, &linea("LIBERAR_ASIENTO \"Platea\" \"D\" 6 5")),
        Respuesta::Operacion { accion: Accion::Liberar, resultado: Resultado::Exito }
    ));
    assert!(e.check_asiento(CategoriaZona::Platea, &linea("D"), 6, 5));
}

#[test]
fn orden_malformada_responde_incorrecto_sin_mutar() {
    let mut e = Estadio::new();
    let r = procesar_linea(&mut e, &linea("RESERVAR_ASIENTO \"VIP\" \"A\" dos dos"));
    assert!(matches!(r, Respuesta::ComandoIncorrecto));
    assert!(e.check_asiento(CategoriaZona::VIP, &linea("A"), 2, 2));
}

#[test]
fn chat_se_difunde() {
    let mut e = Estadio::new();
    let r = procesar_linea(&mut e, &linea("hola desde el concierto"));
    assert!(matches!(r, Respuesta::Difundir));
}

#[test]
fn estructura_entrega_el_inventario_completo() {
    let mut e = Estadio::new();
    let r = procesar_linea(&mut e, &linea("GET_STADIUM_STRUCTURE"));
    match r {
        Respuesta::Estructura(d) => {
            assert_eq!(d.len(), 4);
            assert_eq!(d[0].nombre, linea("A"));
            assert_eq!(d[3].nombre, linea("D"));
            assert_eq!(d[0].categorias.len(), 4);
            assert_eq!(d[0].categorias[0].categoria, CategoriaZona::VIP);
            assert_eq!(d[0].categorias[0].estados.len(), 3);
            assert_eq!(d[0].categorias[0].estados[0].len(), 5);
            assert_eq!(d[0].categorias[0].estados[0][0], SeatState::Reservado);
            assert_eq!(d[0].categorias[0].estados[1][2], SeatState::Comprado);
            assert_eq!(d[0].categorias[0].estados[2][4], SeatState::Libre);
            assert_eq!(d[1].categorias[1].estados[2][3], SeatState::Reservado);
        },
        _ => panic!("la estructura no llega"),
    }
}

#[test]
fn el_resumen_refleja_las_mutaciones() {
    let mut e = Estadio::new();
    assert_eq!(e.reservar(CategoriaZona::VIP, &linea("A"), 2, 2), Resultado::Exito);
    let cmd = clasificar(&linea("GET_STADIUM_STRUCTURE"));
    match ejecutar(&mut e, cmd) {
        Respuesta::Estructura(d) => {
            assert_eq!(d[0].categorias[0].estados[1][1], SeatState::ReservadoPorUsuario);
        },
        _ => panic!("la estructura no llega"),
    }
}
