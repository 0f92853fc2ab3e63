//! Constantes, aritmética de punto fijo, azar y reportes.

pub mod azar;
pub mod configuraciones;
pub mod crecimiento;
pub mod estadisticas;
pub mod fijo;
pub mod geometria;
pub mod muestreo;
pub mod reportes;

pub use estadisticas::EstadisticasDiarias;
pub use reportes::{compilar_reporte_diario, resumir_especie, ResumenEspecie};
