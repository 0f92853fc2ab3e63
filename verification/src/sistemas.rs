//! Subsistemas que hacen avanzar la simulación.

pub mod colisiones;
pub mod depredacion;
pub mod diario;
pub mod inicializacion;
pub mod limpieza;
pub mod movimiento;
pub mod reloj;
pub mod reproduccion;

pub use colisiones::colision;
pub use depredacion::depredadores_comer;
pub use diario::{
    actualizar_presas_diarias, procesar_dietas_depredadores, procesar_enfermedad_presas,
    resetear_contadores_diarios,
};
pub use inicializacion::{inicializar_depredadores, inicializar_presas};
pub use reproduccion::reproduccion;
pub use movimiento::{depredadores_buscar_presas, mover_aleatoriamente, movimiento_presas};
