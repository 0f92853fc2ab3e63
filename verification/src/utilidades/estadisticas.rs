//! El registro que resume un día de simulación.

use vstd::prelude::*;

verus! {

/// Resumen de un día: población por especie, sucesos del día y depredadores.
#[derive(Clone, Copy, Debug, PartialEq, Eq, Structural)]
pub struct EstadisticasDiarias {
    pub dia: u32,
    pub conteo_conejos: usize,
    pub conteo_ratones: usize,
    pub conteo_ardillas: usize,
    pub conteo_total: usize,
    pub muertes_por_predacion: u32,
    pub muertes_por_enfermedad: u32,
    pub nuevos_infectados: u32,
    pub recuperaciones: u32,
    pub reproducciones: u32,
    pub depredadores_enfermos: usize,
    pub depredadores_vivos: usize,
}

} // verus!
