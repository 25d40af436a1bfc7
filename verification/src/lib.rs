pub mod barrido;
pub mod bytes;
pub mod comandos;
pub mod estados;
pub mod inventario;
pub mod leyes;
pub mod modelo;
pub mod resumen;
pub mod semilla;
pub mod servicio;
