use estadio::comandos::{clasificar, Comando};
use estadio::estados::Accion;

fn linea(s: &str) -> Vec<u8> {
    s.as_bytes().to_vec()
}

#[test]
fn clasifica_estructura() {
    assert!(matches!(clasificar(&linea("GET_STADIUM_STRUCTURE")), Comando::Estructura));
}

#[test]
fn estructura_con_cola_es_chat() {
    assert!(matches!(clasificar(&linea("GET_STADIUM_STRUCTURE ya")), Comando::Chat));
}

#[test]
fn clasifica_reservar() {
    match clasificar(&linea("RESERVAR_ASIENTO \"VIP\" \"A\" 2 2")) {
        Comando::Operar { accion, categoria, zona, fila, asiento } => {
            assert_eq!(accion, Accion::Reservar);
            assert_eq!(categoria, linea("VIP"));
            assert_eq!(zona, linea("A"));
            assert_eq!(fila, 2);
            assert_eq!(asiento, 2);
        },
        _ => panic!("la orden de reserva no se reconoce"),
    }
}

#[test]
fn clasifica_comprar() {
    match clasificar(&linea("COMPRAR_ASIENTO \"Regular\" \"B\" 7 5")) {
        Comando::Operar { accion, categoria, zona, fila, asiento } => {
            assert_eq!(accion, Accion::Comprar);
            assert_eq!(categoria, linea("Regular"));
            assert_eq!(zona, linea("B"));
            assert_eq!(fila, 7);
            assert_eq!(asiento, 5);
        },
        _ => panic!("la orden de compra no se reconoce"),
    }
}

#[test]
fn clasifica_liberar() {
    match clasificar(&linea("LIBERAR_ASIENTO \"Sol\" \"C\" 1 3")) {
        Comando::Operar { accion, fila, asiento, .. } => {
            assert_eq!(accion, Accion::Liberar);
            assert_eq!(fila, 1);
            assert_eq!(asiento, 3);
        },
        _ => panic!("la orden de liberación no se reconoce"),
    }
}

#[test]
fn clasifica_check() {
    match clasificar(&linea("CHECK_ASIENTO \"VIP\" \"Z\" 1 1")) {
        Comando::Consultar { categoria, zona, fila, asiento } => {
            assert_eq!(categoria, linea("VIP"));
            assert_eq!(zona, linea("Z"));
            assert_eq!(fila, 1);
            assert_eq!(asiento, 1);
        },
        _ => panic!("la consulta no se reconoce"),
    }
}

#[test]
fn acepta_espacios_multiples_y_tabulador() {
    match clasificar(&linea("RESERVAR_ASIENTO   \"VIP\"\t\"A\"  10   4   ")) {
        Comando::Operar { accion, categoria, zona, fila, asiento } => {
            assert_eq!(accion, Accion::Reservar);
            assert_eq!(categoria, linea("VIP"));
            assert_eq!(zona, linea("A"));
            assert_eq!(fila, 10);
            assert_eq!(asiento, 4);
        },
        _ => panic!("los espacios repetidos deben aceptarse"),
    }
}

#[test]
fn comillas_sin_cerrar_es_malformado() {
    assert!(matches!(
        clasificar(&linea("RESERVAR_ASIENTO \"VIP \"A\" 2 2")),
        Comando::Malformado { es_consulta: false }
    ));
    assert!(matches!(
        clasificar(&linea("RESERVAR_ASIENTO \"VIP")),
        Comando::Malformado { es_consulta: false }
    ));
}

#[test]
fn nombre_vacio_es_malformado() {
    assert!(matches!(
        clasificar(&linea("RESERVAR_ASIENTO \"\" \"A\" 1 1")),
        Comando::Malformado { es_consulta: false }
    ));
}

#[test]
fn sin_comillas_es_malformado() {
    assert!(matches!(
        clasificar(&linea("COMPRAR_ASIENTO VIP A 1 1")),
        Comando::Malformado { es_consulta: false }
    ));
}

#[test]
fn numero_ausente_es_malformado() {
    assert!(matches!(
        clasificar(&linea("LIBERAR_ASIENTO \"VIP\" \"A\" 1")),
        Comando::Malformado { es_consulta: false }
    ));
    assert!(matches!(
        clasificar(&linea("LIBERAR_ASIENTO \"VIP\" \"A\" x 1")),
        Comando::Malformado { es_consulta: false }
    ));
}

#[test]
fn cola_tras_los_numeros_es_malformado() {
    assert!(matches!(
        clasificar(&linea("RESERVAR_ASIENTO \"VIP\" \"A\" 2 2x")),
        Comando::Malformado { es_consulta: false }
    ));
    assert!(matches!(
        clasificar(&linea("RESERVAR_ASIENTO \"VIP\" \"A\" 2 2 !")),
        Comando::Malformado { es_consulta: false }
    ));
}

#[test]
fn check_malformado_se_distingue() {
    assert!(matches!(
        clasificar(&linea("CHECK_ASIENTO \"VIP\" 1 1")),
        Comando::Malformado { es_consulta: true }
    ));
}

#[test]
fn numero_desbordado_vale_cero() {
    // A row number too large for usize reads as 0, which every grid
    // rejects as out of range.
    match clasificar(&linea("RESERVAR_ASIENTO \"VIP\" \"A\" 99999999999999999999999999 2")) {
        Comando::Operar { fila, asiento, .. } => {
            assert_eq!(fila, 0);
            assert_eq!(asiento, 2);
        },
        _ => panic!("un número demasiado grande sigue siendo una orden"),
    }
}

#[test]
fn ceros_a_la_izquierda_se_leen() {
    match clasificar(&linea("RESERVAR_ASIENTO \"VIP\" \"A\" 0002 011")) {
        Comando::Operar { fila, asiento, .. } => {
            assert_eq!(fila, 2);
            assert_eq!(asiento, 11);
        },
        _ => panic!("los ceros a la izquierda deben aceptarse"),
    }
}

#[test]
fn lineas_ajenas_son_chat() {
    assert!(matches!(clasificar(&linea("hola a todos")), Comando::Chat));
    assert!(matches!(clasificar(&linea("")), Comando::Chat));
    assert!(matches!(clasificar(&linea("RESERVAR")), Comando::Chat));
    assert!(matches!(clasificar(&linea("reservar_asiento \"VIP\" \"A\" 1 1")), Comando::Chat));
    assert!(matches!(clasificar(&linea("CHECK")), Comando::Chat));
}

#[test]
fn palabra_pegada_es_malformado() {
    // The keyword matches as a prefix but the grammar demands whitespace
    // right after it.
    assert!(matches!(
        clasificar(&linea("RESERVAR_ASIENTOS \"VIP\" \"A\" 1 1")),
        Comando::Malformado { es_consulta: false }
    ));
}

#[test]
fn zona_con_espacios_interiores() {
    match clasificar(&linea("CHECK_ASIENTO \"VIP\" \"Zona Norte\" 1 1")) {
        Comando::Consultar { zona, .. } => {
            assert_eq!(zona, linea("Zona Norte"));
        },
        _ => panic!("un nombre de zona con espacios es legal"),
    }
}
