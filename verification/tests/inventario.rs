use estadio::barrido::liberar_asientos_reservados_por_usuario;
use estadio::estados::{CategoriaZona, Resultado, SeatState};
use estadio::modelo::Estadio;

fn zona(s: &str) -> Vec<u8> {
    s.as_bytes().to_vec()
}

#[test]
fn semilla_tiene_cuatro_zonas() {
    let e = Estadio::new();
    assert_eq!(e.zonas.len(), 4);
    assert_eq!(e.zonas[0].nombre, zona("A"));
    assert_eq!(e.zonas[1].nombre, zona("B"));
    assert_eq!(e.zonas[2].nombre, zona("C"));
    assert_eq!(e.zonas[3].nombre, zona("D"));
    for z in &e.zonas {
        assert_eq!(z.categorias.len(), 4);
        assert_eq!(z.categorias[0].categoria, CategoriaZona::VIP);
        assert_eq!(z.categorias[0].asientos.len(), 3);
        assert_eq!(z.categorias[1].categoria, CategoriaZona::Regular);
        assert_eq!(z.categorias[1].asientos.len(), 7);
        assert_eq!(z.categorias[2].categoria, CategoriaZona::Sol);
        assert_eq!(z.categorias[2].asientos.len(), 5);
        assert_eq!(z.categorias[3].categoria, CategoriaZona::Platea);
        assert_eq!(z.categorias[3].asientos.len(), 6);
        for cat in &z.categorias {
            for fila in &cat.asientos {
                assert_eq!(fila.len(), 5);
            }
        }
    }
}

#[test]
fn semilla_estados_preestablecidos() {
    let e = Estadio::new();
    let vip = &e.zonas[0].categorias[0].asientos;
    assert_eq!(vip[0][0].estado, SeatState::Reservado);
    assert_eq!(vip[1][2].estado, SeatState::Comprado);
    assert_eq!(vip[0][1].estado, SeatState::Libre);
    let regular = &e.zonas[1].categorias[1].asientos;
    assert_eq!(regular[0][1].estado, SeatState::Libre);
    assert_eq!(regular[2][3].estado, SeatState::Reservado);
    let sol = &e.zonas[2].categorias[2].asientos;
    assert_eq!(sol[2][2].estado, SeatState::Comprado);
    assert_eq!(sol[4][4].estado, SeatState::Libre);
    let platea = &e.zonas[3].categorias[3].asientos;
    assert_eq!(platea[3][3].estado, SeatState::Libre);
    assert_eq!(platea[2][2].estado, SeatState::Reservado);
}

#[test]
fn reservar_asiento_administrativo_falla() {
    // Seat (1,1) of VIP "A" is pre-set to the administrative Reservado
    // state, which is not Libre, so a user reservation must fail.
    let mut e = Estadio::new();
    let r = e.reservar(CategoriaZona::VIP, &zona("A"), 1, 1);
    assert_eq!(r, Resultado::NoDisponible);
    assert_eq!(e.zonas[0].categorias[0].asientos[0][0].estado, SeatState::Reservado);
}

#[test]
fn reservar_libre_y_repetir() {
    let mut e = Estadio::new();
    assert!(e.check_asiento(CategoriaZona::VIP, &zona("A"), 2, 2));
    let r1 = e.reservar(CategoriaZona::VIP, &zona("A"), 2, 2);
    assert_eq!(r1, Resultado::Exito);
    assert_eq!(e.zonas[0].categorias[0].asientos[1][1].estado, SeatState::ReservadoPorUsuario);
    assert!(!e.check_asiento(CategoriaZona::VIP, &zona("A"), 2, 2));
    let r2 = e.reservar(CategoriaZona::VIP, &zona("A"), 2, 2);
    assert_eq!(r2, Resultado::NoDisponible);
    assert_eq!(e.zonas[0].categorias[0].asientos[1][1].estado, SeatState::ReservadoPorUsuario);
}

#[test]
fn comprar_requiere_reserva_previa() {
    let mut e = Estadio::new();
    let r = e.comprar(CategoriaZona::VIP, &zona("A"), 2, 2);
    assert_eq!(r, Resultado::NoDisponible);
    assert_eq!(e.reservar(CategoriaZona::VIP, &zona("A"), 2, 2), Resultado::Exito);
    assert_eq!(e.comprar(CategoriaZona::VIP, &zona("A"), 2, 2), Resultado::Exito);
    assert_eq!(e.zonas[0].categorias[0].asientos[1][1].estado, SeatState::Comprado);
}

#[test]
fn comprado_es_terminal() {
    let mut e = Estadio::new();
    assert_eq!(e.reservar(CategoriaZona::VIP, &zona("A"), 2, 2), Resultado::Exito);
    assert_eq!(e.comprar(CategoriaZona::VIP, &zona("A"), 2, 2), Resultado::Exito);
    assert_eq!(e.reservar(CategoriaZona::VIP, &zona("A"), 2, 2), Resultado::NoDisponible);
    assert_eq!(e.comprar(CategoriaZona::VIP, &zona("A"), 2, 2), Resultado::NoDisponible);
    assert_eq!(e.liberar(CategoriaZona::VIP, &zona("A"), 2, 2), Resultado::NoDisponible);
    assert_eq!(e.zonas[0].categorias[0].asientos[1][1].estado, SeatState::Comprado);
}

#[test]
fn compras_en_carrera_solo_una_gana() {
    // Two clients race to purchase the same held seat; the venue lock
    // serializes them, so exactly one purchase succeeds.
    let mut e = Estadio::new();
    assert_eq!(e.reservar(CategoriaZona::VIP, &zona("A"), 3, 4), Resultado::Exito);
    let primera = e.comprar(CategoriaZona::VIP, &zona("A"), 3, 4);
    let segunda = e.comprar(CategoriaZona::VIP, &zona("A"), 3, 4);
    assert_eq!(primera, Resultado::Exito);
    assert_eq!(segunda, Resultado::NoDisponible);
    assert_eq!(e.zonas[0].categorias[0].asientos[2][3].estado, SeatState::Comprado);
}

#[test]
fn liberar_devuelve_al_estado_libre() {
    let mut e = Estadio::new();
    assert_eq!(e.reservar(CategoriaZona::Sol, &zona("B"), 1, 1), Resultado::Exito);
    assert_eq!(e.liberar(CategoriaZona::Sol, &zona("B"), 1, 1), Resultado::Exito);
    assert!(e.check_asiento(CategoriaZona::Sol, &zona("B"), 1, 1));
    assert_eq!(e.zonas[1].categorias[2].asientos[0][0].estado, SeatState::Libre);
    assert_eq!(e.liberar(CategoriaZona::Sol, &zona("B"), 1, 1), Resultado::NoDisponible);
}

#[test]
fn fuera_de_rango_no_muta() {
    let mut e = Estadio::new();
    assert_eq!(e.reservar(CategoriaZona::VIP, &zona("A"), 0, 1), Resultado::FueraDeRango);
    assert_eq!(e.reservar(CategoriaZona::VIP, &zona("A"), 1, 0), Resultado::FueraDeRango);
    assert_eq!(e.reservar(CategoriaZona::VIP, &zona("A"), 4, 1), Resultado::FueraDeRango);
    assert_eq!(e.reservar(CategoriaZona::VIP, &zona("A"), 1, 6), Resultado::FueraDeRango);
    assert_eq!(e.comprar(CategoriaZona::Regular, &zona("C"), 8, 5), Resultado::FueraDeRango);
    for (zi, z) in e.zonas.iter().enumerate() {
        for (ci, cat) in z.categorias.iter().enumerate() {
            let patron = Estadio::new();
            let original = &patron.zonas[zi].categorias[ci].asientos;
            for (fi, fila) in cat.asientos.iter().enumerate() {
                for (ai, asiento) in fila.iter().enumerate() {
                    assert_eq!(asiento.estado, original[fi][ai].estado);
                }
            }
        }
    }
}

#[test]
fn zona_desconocida_no_encontrada() {
    let mut e = Estadio::new();
    assert_eq!(e.reservar(CategoriaZona::VIP, &zona("Z"), 1, 1), Resultado::NoEncontrado);
    assert_eq!(e.comprar(CategoriaZona::VIP, &zona("a"), 1, 1), Resultado::NoEncontrado);
    assert_eq!(e.liberar(CategoriaZona::Platea, &zona(""), 1, 1), Resultado::NoEncontrado);
    assert!(!e.check_asiento(CategoriaZona::VIP, &zona("Z"), 2, 2));
}

#[test]
fn barrido_libera_todas_las_reservas_de_usuario() {
    // Any disconnect sweeps every user-held seat store-wide: the inventory
    // records no holder, so even seats held by other clients are freed.
    let mut e = Estadio::new();
    assert_eq!(e.reservar(CategoriaZona::VIP, &zona("A"), 2, 2), Resultado::Exito);
    assert_eq!(e.reservar(CategoriaZona::Platea, &zona("D"), 1, 5), Resultado::Exito);
    assert_eq!(e.comprar(CategoriaZona::VIP, &zona("A"), 2, 2), Resultado::Exito);
    assert_eq!(e.reservar(CategoriaZona::Regular, &zona("B"), 4, 4), Resultado::Exito);
    liberar_asientos_reservados_por_usuario(&mut e, "127.0.0.1:50000");
    // The purchased seat stays purchased; both held seats return to Libre.
    assert_eq!(e.zonas[0].categorias[0].asientos[1][1].estado, SeatState::Comprado);
    assert!(e.check_asiento(CategoriaZona::Platea, &zona("D"), 1, 5));
    assert!(e.check_asiento(CategoriaZona::Regular, &zona("B"), 4, 4));
    // Administrative holds survive the sweep.
    assert_eq!(e.zonas[0].categorias[0].asientos[0][0].estado, SeatState::Reservado);
}

#[test]
fn crear_matriz_dimensiones_y_siembra() {
    let m = Estadio::crear_matriz_asientos(
        2,
        3,
        vec![(0usize, 0usize, SeatState::Reservado), (1usize, 2usize, SeatState::Comprado)],
    );
    assert_eq!(m.len(), 2);
    assert_eq!(m[0].len(), 3);
    assert_eq!(m[1].len(), 3);
    assert_eq!(m[0][0].estado, SeatState::Reservado);
    assert_eq!(m[1][2].estado, SeatState::Comprado);
    assert_eq!(m[0][1].estado, SeatState::Libre);
}

#[test]
fn crear_matriz_ultima_entrada_gana() {
    let m = Estadio::crear_matriz_asientos(
        1,
        1,
        vec![(0usize, 0usize, SeatState::Reservado), (0usize, 0usize, SeatState::Comprado)],
    );
    assert_eq!(m[0][0].estado, SeatState::Comprado);
}

#[test]
fn crear_matriz_ignora_entradas_fuera_de_rango() {
    let m = Estadio::crear_matriz_asientos(2, 2, vec![(5usize, 0usize, SeatState::Comprado)]);
    for fila in &m {
        for asiento in fila {
            assert_eq!(asiento.estado, SeatState::Libre);
        }
    }
}

#[test]
fn crear_categorias_orden_fijo() {
    let cats = Estadio::crear_categorias();
    assert_eq!(cats.len(), 4);
    assert_eq!(cats[0].categoria, CategoriaZona::VIP);
    assert_eq!(cats[1].categoria, CategoriaZona::Regular);
    assert_eq!(cats[2].categoria, CategoriaZona::Sol);
    assert_eq!(cats[3].categoria, CategoriaZona::Platea);
    assert_eq!(cats[0].asientos[0][0].estado, SeatState::Reservado);
    assert_eq!(cats[3].asientos[2][2].estado, SeatState::Reservado);
}

#[test]
fn categoria_desde_nombre() {
    assert_eq!(CategoriaZona::desde_nombre(&zona("VIP")), Some(CategoriaZona::VIP));
    assert_eq!(CategoriaZona::desde_nombre(&zona("Regular")), Some(CategoriaZona::Regular));
    assert_eq!(CategoriaZona::desde_nombre(&zona("Sol")), Some(CategoriaZona::Sol));
    assert_eq!(CategoriaZona::desde_nombre(&zona("Platea")), Some(CategoriaZona::Platea));
    assert_eq!(CategoriaZona::desde_nombre(&zona("vip")), None);
    assert_eq!(CategoriaZona::desde_nombre(&zona("")), None);
    assert_eq!(CategoriaZona::desde_nombre(&zona("Oro")), None);
}
