//! Especies y organismos de la simulación.

pub mod depredador;
pub mod especie;
pub mod organismo;
pub mod presa;

pub use depredador::Depredador;
pub use especie::{Especie, EstadoSalud, Sexo};
pub use organismo::Organismo;
pub use presa::Presa;
