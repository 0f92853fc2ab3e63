//! Compilación del reporte diario y resumen de la población por especie.

use vstd::prelude::*;
use crate::entidades::depredador::{
    depredadores_vivos_hasta, estados_depredadores, Depredador, EstadoDepredador,
};
use crate::entidades::especie::{Especie, EstadoSalud};
use crate::entidades::organismo::Organismo;
use crate::entidades::presa::{estados, vivas, vivas_hasta, EstadoPresa, Presa};
use crate::utilidades::estadisticas::EstadisticasDiarias;

verus! {

/// El resumen del día `dia` para una población y unos contadores dados:
/// presas vivas por especie y en total, depredadores vivos y enfermos, y
/// los contadores de sucesos tal como se reciben.
pub open spec fn reporte_del_dia(
    presas: Seq<EstadoPresa>,
    depredadores: Seq<EstadoDepredador>,
    muertes_pred: u32,
    muertes_enf: u32,
    nuevos_infectados: u32,
    recuperaciones: u32,
    reproducciones: u32,
    dia: u32,
) -> EstadisticasDiarias {
    EstadisticasDiarias {
        dia,
        conteo_conejos: vivas(presas, Especie::Conejo) as usize,
        conteo_ratones: vivas(presas, Especie::Raton) as usize,
        conteo_ardillas: vivas(presas, Especie::Ardilla) as usize,
        conteo_total: (vivas(presas, Especie::Conejo) + vivas(presas, Especie::Raton) + vivas(
            presas,
            Especie::Ardilla,
        )) as usize,
        muertes_por_predacion: muertes_pred,
        muertes_por_enfermedad: muertes_enf,
        nuevos_infectados,
        recuperaciones,
        reproducciones,
        depredadores_enfermos: depredadores_vivos_hasta(
            depredadores,
            true,
            depredadores.len() as int,
        ) as usize,
        depredadores_vivos: depredadores_vivos_hasta(
            depredadores,
            false,
            depredadores.len() as int,
        ) as usize,
    }
}

/// Lo que resume a las presas de una especie: cuántas son y cuánto suman
/// sus edades, en días, y sus pesos, en milésimas.
#[derive(Clone, Copy, Debug, PartialEq, Eq, Structural)]
pub struct ResumenEspecie {
    pub cantidad: usize,
    pub suma_edades: u128,
    pub suma_pesos: u128,
}

/// Cuántas de las primeras `hasta` presas son de la especie dada.
pub open spec fn cantidad_hasta(presas: Seq<EstadoPresa>, especie: Especie, hasta: int) -> nat
    decreases hasta,
{
    if hasta <= 0 {
        0
    } else {
        cantidad_hasta(presas, especie, hasta - 1) + if presas[hasta - 1].especie == especie {
            1nat
        } else {
            0nat
        }
    }
}

/// Suma de las edades de las presas de la especie dada entre las primeras `hasta`.
pub open spec fn edades_hasta(presas: Seq<EstadoPresa>, especie: Especie, hasta: int) -> nat
    decreases hasta,
{
    if hasta <= 0 {
        0
    } else {
        edades_hasta(presas, especie, hasta - 1) + if presas[hasta - 1].especie == especie {
            presas[hasta - 1].edad as nat
        } else {
            0nat
        }
    }
}

/// Suma de los pesos de las presas de la especie dada entre las primeras `hasta`.
pub open spec fn pesos_hasta(presas: Seq<EstadoPresa>, especie: Especie, hasta: int) -> nat
    decreases hasta,
{
    if hasta <= 0 {
        0
    } else {
        pesos_hasta(presas, especie, hasta - 1) + if presas[hasta - 1].especie == especie {
            presas[hasta - 1].peso as nat
        } else {
            0nat
        }
    }
}

/// Resume a las presas de una especie tal como están en la población, vivas o no.
pub fn resumir_especie(presas: &[Presa], especie: Especie) -> (resumen: ResumenEspecie)
    ensures
        resumen.cantidad == cantidad_hasta(estados(presas@), especie, presas.len() as int),
        resumen.suma_edades == edades_hasta(estados(presas@), especie, presas.len() as int),
        resumen.suma_pesos == pesos_hasta(estados(presas@), especie, presas.len() as int),
{
    let ghost e = estados(presas@);
    let mut cantidad: usize = 0;
    let mut suma_edades: u128 = 0;
    let mut suma_pesos: u128 = 0;
    let mut i: usize = 0;
    while i < presas.len()
        invariant
            i <= presas.len(),
            e == estados(presas@),
            cantidad == cantidad_hasta(e, especie, i as int),
            suma_edades == edades_hasta(e, especie, i as int),
            suma_pesos == pesos_hasta(e, especie, i as int),
            cantidad <= i,
            suma_edades <= i * 0x1_0000_0000,
            suma_pesos <= i * 0x1_0000_0000,
        decreases presas.len() - i,
    {
        let p = presas[i];
        assert(i * 0x1_0000_0000 <= 0xffff_ffff_ffff_ffff * 0x1_0000_0000) by (nonlinear_arith)
            requires
                i <= 0xffff_ffff_ffff_ffff,
        ;
        if p.especie() == especie {
            cantidad += 1;
            suma_edades += p.edad() as u128;
            suma_pesos += p.peso() as u128;
        }
        i += 1;
    }
    ResumenEspecie { cantidad, suma_edades, suma_pesos }
}

/// Compila el reporte del día a partir del estado actual de presas y
/// depredadores y de los contadores del día.
pub fn compilar_reporte_diario(
    presas: &[Presa],
    depredadores: &[Depredador],
    muertes_pred: u32,
    muertes_enf: u32,
    nuevos_infectados: u32,
    recuperaciones: u32,
    reproducciones: u32,
    dia: u32,
) -> (reporte: EstadisticasDiarias)
    ensures
        reporte == reporte_del_dia(
            estados(presas@),
            estados_depredadores(depredadores@),
            muertes_pred,
            muertes_enf,
            nuevos_infectados,
            recuperaciones,
            reproducciones,
            dia,
        ),
        reporte.conteo_total == reporte.conteo_conejos + reporte.conteo_ratones
            + reporte.conteo_ardillas,
        reporte.conteo_total <= presas.len(),
        reporte.depredadores_enfermos <= reporte.depredadores_vivos <= depredadores.len(),
{
    let ghost e = estados(presas@);
    let ghost d = estados_depredadores(depredadores@);
    let mut conejos: usize = 0;
    let mut ratones: usize = 0;
    let mut ardillas: usize = 0;
    let mut i: usize = 0;
    while i < presas.len()
        invariant
            i <= presas.len(),
            e == estados(presas@),
            conejos == vivas_hasta(e, Especie::Conejo, i as int),
            ratones == vivas_hasta(e, Especie::Raton, i as int),
            ardillas == vivas_hasta(e, Especie::Ardilla, i as int),
            conejos + ratones + ardillas <= i,
        decreases presas.len() - i,
    {
        let p = presas[i];
        if p.esta_vivo() {
            match p.especie() {
                Especie::Conejo => {
                    conejos += 1;
                },
                Especie::Raton => {
                    ratones += 1;
                },
                Especie::Ardilla => {
                    ardillas += 1;
                },
            }
        }
        i += 1;
    }
    let mut enfermos: usize = 0;
    let mut vivos: usize = 0;
    let mut k: usize = 0;
    while k < depredadores.len()
        invariant
            k <= depredadores.len(),
            d == estados_depredadores(depredadores@),
            enfermos == depredadores_vivos_hasta(d, true, k as int),
            vivos == depredadores_vivos_hasta(d, false, k as int),
            enfermos <= vivos <= k,
        decreases depredadores.len() - k,
    {
        let dep = depredadores[k];
        if dep.esta_vivo() {
            vivos += 1;
            if dep.salud() == EstadoSalud::Enfermo {
                enfermos += 1;
            }
        }
        k += 1;
    }
    EstadisticasDiarias {
        dia,
        conteo_conejos: conejos,
        conteo_ratones: ratones,
        conteo_ardillas: ardillas,
        conteo_total: conejos + ratones + ardillas,
        muertes_por_predacion: muertes_pred,
        muertes_por_enfermedad: muertes_enf,
        nuevos_infectados,
        recuperaciones,
        reproducciones,
        depredadores_enfermos: enfermos,
        depredadores_vivos: vivos,
    }
}

} // verus!
