//! El reloj de la simulación: acumula el tiempo de los cuadros y cuenta días.

use vstd::prelude::*;
use crate::utilidades::configuraciones::DURACION_DIA;

verus! {

/// Día en curso y tiempo acumulado desde que empezó, en milésimas de segundo.
#[derive(Clone, Copy, Debug, PartialEq, Eq, Structural)]
pub struct Reloj {
    pub dias: u32,
    pub tiempo_acumulado: u32,
}

impl Reloj {
    /// Un cuadro de duración `dt` completa el día en curso.
    pub open spec fn cruza(self, dt: u32) -> bool {
        self.tiempo_acumulado + dt >= DURACION_DIA
    }

    /// El reloj después de un cuadro de duración `dt`: si el tiempo
    /// acumulado alcanza la duración del día empieza un día nuevo con el
    /// acumulado a cero; si no, solo crece el acumulado.
    pub open spec fn tras(self, dt: u32) -> Reloj {
        if self.cruza(dt) {
            Reloj { dias: (self.dias + 1) as u32, tiempo_acumulado: 0 }
        } else {
            Reloj { dias: self.dias, tiempo_acumulado: (self.tiempo_acumulado + dt) as u32 }
        }
    }

    /// El reloj después de los primeros `k` cuadros de `cuadros`.
    pub open spec fn tras_cuadros(self, cuadros: Seq<u32>, k: int) -> Reloj
        decreases k,
    {
        if k <= 0 {
            self
        } else {
            self.tras_cuadros(cuadros, k - 1).tras(cuadros[k - 1])
        }
    }

    /// Cuántos de los primeros `k` cuadros completan un día.
    pub open spec fn cruces(self, cuadros: Seq<u32>, k: int) -> nat
        decreases k,
    {
        if k <= 0 {
            0
        } else {
            self.cruces(cuadros, k - 1) + if self.tras_cuadros(cuadros, k - 1).cruza(
                cuadros[k - 1],
            ) {
                1nat
            } else {
                0nat
            }
        }
    }

    /// Un reloj en el día cero y sin tiempo acumulado.
    pub fn new() -> (r: Reloj)
        ensures
            r == (Reloj { dias: 0, tiempo_acumulado: 0 }),
    {
        Reloj { dias: 0, tiempo_acumulado: 0 }
    }

    /// Avanza el reloj un cuadro de duración `dt` y dice si empezó un día nuevo.
    pub fn avanzar(&mut self, dt: u32) -> (nuevo_dia: bool)
        requires
            old(self).dias < u32::MAX,
        ensures
            nuevo_dia == old(self).cruza(dt),
            *final(self) == old(self).tras(dt),
    {
        if self.tiempo_acumulado as u64 + dt as u64 >= DURACION_DIA as u64 {
            self.dias += 1;
            self.tiempo_acumulado = 0;
            true
        } else {
            self.tiempo_acumulado += dt;
            false
        }
    }
}

/// El contador de días avanza exactamente uno por cada cuadro que completa
/// un día, cualesquiera que sean las duraciones de los cuadros.
pub proof fn lema_un_dia_por_cruce(reloj: Reloj, cuadros: Seq<u32>, k: int)
    requires
        0 <= k <= cuadros.len(),
        reloj.dias + k <= u32::MAX,
    ensures
        reloj.tras_cuadros(cuadros, k).dias == reloj.dias + reloj.cruces(cuadros, k),
        reloj.cruces(cuadros, k) <= k,
    decreases k,
{
    if k > 0 {
        lema_un_dia_por_cruce(reloj, cuadros, k - 1);
    }
}

/// El bloque diario no corre dos veces en la misma ventana de tiempo: tras
/// un cuadro que completa un día, el acumulado vuelve a cero y el cuadro
/// siguiente solo completa otro día si dura él solo un día entero.
pub proof fn lema_sin_dia_doble(reloj: Reloj, dt1: u32, dt2: u32)
    requires
        reloj.cruza(dt1),
    ensures
        reloj.tras(dt1).tiempo_acumulado == 0,
        reloj.tras(dt1).cruza(dt2) <==> dt2 >= DURACION_DIA,
{
}

/// Mientras el tiempo acumulado no alcanza la duración del día, el día no cambia.
pub proof fn lema_mismo_dia(reloj: Reloj, dt: u32)
    requires
        !reloj.cruza(dt),
    ensures
        reloj.tras(dt).dias == reloj.dias,
        reloj.tras(dt).tiempo_acumulado == reloj.tiempo_acumulado + dt,
{
}

} // verus!
