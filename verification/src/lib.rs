//! Motor de simulación presa-depredador en aritmética de punto fijo.
//!
//! Todas las magnitudes continuas (posiciones, velocidades, tiempos, pesos,
//! reservas y probabilidades) se guardan como enteros en milésimas de su
//! unidad, de modo que cada regla del motor tiene un contrato exacto.

pub mod entidades;
pub mod simulacion;
pub mod sistemas;
pub mod utilidades;
