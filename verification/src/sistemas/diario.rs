//! El bloque diario: envejecimiento, enfermedad de las presas y dieta de los
//! depredadores.

use vstd::prelude::*;
use rand::rngs::ThreadRng;
use crate::entidades::depredador::{estados_depredadores, Depredador, EstadoDepredador};
use crate::entidades::presa::{estados, EstadoPresa, EventoSalud, Presa};
use crate::utilidades::azar::sortear;
use crate::utilidades::configuraciones::MILESIMAS;

verus! {

/// Cuántas de las primeras `hasta` presas viven el evento dado con sus tiradas.
pub open spec fn eventos_contados(
    presas: Seq<EstadoPresa>,
    tiradas: Seq<u32>,
    evento: EventoSalud,
    hasta: int,
) -> nat
    decreases hasta,
{
    if hasta <= 0 {
        0
    } else {
        eventos_contados(presas, tiradas, evento, hasta - 1) + if presas[hasta - 1].evento_salud(
            tiradas[hasta - 1],
        ) == evento {
            1nat
        } else {
            0nat
        }
    }
}

/// `despues` es `antes` tras un día de salud en que la presa `i` recibió la
/// tirada `tiradas[i]`.
pub open spec fn salud_procesada(
    antes: Seq<EstadoPresa>,
    despues: Seq<EstadoPresa>,
    tiradas: Seq<u32>,
) -> bool {
    &&& despues.len() == antes.len()
    &&& tiradas.len() == antes.len()
    &&& forall|i: int|
        0 <= i < antes.len() ==> #[trigger] despues[i] == antes[i].tras_enfermedad(tiradas[i])
}

/// La población con un día más de edad.
pub open spec fn envejecidas(presas: Seq<EstadoPresa>) -> Seq<EstadoPresa> {
    presas.map_values(|p: EstadoPresa| p.tras_envejecer())
}

/// Los depredadores tras su día de dieta en el día de simulación `dias`.
pub open spec fn alimentados(
    depredadores: Seq<EstadoDepredador>,
    dias: u32,
) -> Seq<EstadoDepredador> {
    depredadores.map_values(|d: EstadoDepredador| d.tras_dieta(dias))
}

/// Todas las tiradas son milésimas válidas.
pub open spec fn tiradas_validas(tiradas: Seq<u32>) -> bool {
    forall|i: int| 0 <= i < tiradas.len() ==> #[trigger] tiradas[i] < MILESIMAS
}

proof fn lema_eventos_acotados(
    presas: Seq<EstadoPresa>,
    tiradas: Seq<u32>,
    evento: EventoSalud,
    hasta: int,
)
    requires
        0 <= hasta,
    ensures
        eventos_contados(presas, tiradas, evento, hasta) <= hasta,
    decreases hasta,
{
    if hasta > 0 {
        lema_eventos_acotados(presas, tiradas, evento, hasta - 1);
    }
}

/// Pone a cero los contadores del día.
pub fn resetear_contadores_diarios(
    muertes_pred: &mut u32,
    muertes_enf: &mut u32,
    nuevos_infectados: &mut u32,
    recuperaciones: &mut u32,
)
    ensures
        *final(muertes_pred) == 0,
        *final(muertes_enf) == 0,
        *final(nuevos_infectados) == 0,
        *final(recuperaciones) == 0,
{
    *muertes_pred = 0;
    *muertes_enf = 0;
    *nuevos_infectados = 0;
    *recuperaciones = 0;
}

/// Envejece un día a cada presa: edad, peso y búsqueda de pareja.
pub fn actualizar_presas_diarias(presas: &mut Vec<Presa>)
    requires
        forall|i: int| 0 <= i < old(presas).len() ==> (#[trigger] old(presas)[i])@.edad < u32::MAX,
    ensures
        estados(final(presas)@) == envejecidas(estados(old(presas)@)),
{
    let n = presas.len();
    let mut i: usize = 0;
    while i < n
        invariant
            i <= n,
            n == presas.len(),
            n == old(presas).len(),
            forall|k: int|
                0 <= k < i ==> (#[trigger] presas[k])@ == old(presas)[k]@.tras_envejecer(),
            forall|k: int| i <= k < n ==> #[trigger] presas[k] == old(presas)[k],
            forall|k: int| 0 <= k < n ==> (#[trigger] old(presas)[k])@.edad < u32::MAX,
        decreases n - i,
    {
        presas[i].envejecer();
        i += 1;
    }
    assert(estados(presas@) =~= envejecidas(estados(old(presas)@)));
}

/// Día de salud de todas las presas con tiradas ya hechas: la presa `i` vive
/// su día con `tiradas[i]`, y cada contador sube en el número de presas que
/// vivieron su evento.
pub fn enfermedad_con_tiradas(
    presas: &mut Vec<Presa>,
    tiradas: &Vec<u32>,
    nuevos_infectados: &mut u32,
    recuperaciones: &mut u32,
    muertes: &mut u32,
)
    requires
        tiradas.len() == old(presas).len(),
        forall|i: int|
            0 <= i < old(presas).len() ==> (#[trigger] old(presas)[i])@.dias_enfermo < u32::MAX,
        *old(nuevos_infectados) + old(presas).len() <= u32::MAX,
        *old(recuperaciones) + old(presas).len() <= u32::MAX,
        *old(muertes) + old(presas).len() <= u32::MAX,
    ensures
        salud_procesada(estados(old(presas)@), estados(final(presas)@), tiradas@),
        *final(nuevos_infectados) == *old(nuevos_infectados) + eventos_contados(
            estados(old(presas)@),
            tiradas@,
            EventoSalud::Contagio,
            old(presas).len() as int,
        ),
        *final(recuperaciones) == *old(recuperaciones) + eventos_contados(
            estados(old(presas)@),
            tiradas@,
            EventoSalud::Recuperacion,
            old(presas).len() as int,
        ),
        *final(muertes) == *old(muertes) + eventos_contados(
            estados(old(presas)@),
            tiradas@,
            EventoSalud::Muerte,
            old(presas).len() as int,
        ),
{
    let n = presas.len();
    let mut i: usize = 0;
    while i < n
        invariant
            i <= n,
            n == presas.len(),
            n == old(presas).len(),
            n == tiradas.len(),
            forall|k: int|
                0 <= k < i ==> (#[trigger] presas[k])@ == old(presas)[k]@.tras_enfermedad(
                    tiradas[k],
                ),
            forall|k: int| i <= k < n ==> #[trigger] presas[k] == old(presas)[k],
            forall|k: int| 0 <= k < n ==> (#[trigger] old(presas)[k])@.dias_enfermo < u32::MAX,
            *old(nuevos_infectados) + n <= u32::MAX,
            *old(recuperaciones) + n <= u32::MAX,
            *old(muertes) + n <= u32::MAX,
            *nuevos_infectados == *old(nuevos_infectados) + eventos_contados(
                estados(old(presas)@),
                tiradas@,
                EventoSalud::Contagio,
                i as int,
            ),
            *recuperaciones == *old(recuperaciones) + eventos_contados(
                estados(old(presas)@),
                tiradas@,
                EventoSalud::Recuperacion,
                i as int,
            ),
            *muertes == *old(muertes) + eventos_contados(
                estados(old(presas)@),
                tiradas@,
                EventoSalud::Muerte,
                i as int,
            ),
        decreases n - i,
    {
        proof {
            lema_eventos_acotados(estados(old(presas)@), tiradas@, EventoSalud::Contagio, i as int);
            lema_eventos_acotados(
                estados(old(presas)@),
                tiradas@,
                EventoSalud::Recuperacion,
                i as int,
            );
            lema_eventos_acotados(estados(old(presas)@), tiradas@, EventoSalud::Muerte, i as int);
        }
        let evento = presas[i].pasar_dia_de_salud(tiradas[i]);
        match evento {
            EventoSalud::Contagio => {
                *nuevos_infectados += 1;
            },
            EventoSalud::Recuperacion => {
                *recuperaciones += 1;
            },
            EventoSalud::Muerte => {
                *muertes += 1;
            },
            EventoSalud::Ninguno => {},
        }
        i += 1;
    }
}

/// Día de salud de todas las presas: sortea una tirada en milésimas para
/// cada una y aplica `enfermedad_con_tiradas`.
pub fn procesar_enfermedad_presas(
    presas: &mut Vec<Presa>,
    rng: &mut ThreadRng,
    nuevos_infectados: &mut u32,
    recuperaciones: &mut u32,
    muertes: &mut u32,
)
    requires
        forall|i: int|
            0 <= i < old(presas).len() ==> (#[trigger] old(presas)[i])@.dias_enfermo < u32::MAX,
        *old(nuevos_infectados) + old(presas).len() <= u32::MAX,
        *old(recuperaciones) + old(presas).len() <= u32::MAX,
        *old(muertes) + old(presas).len() <= u32::MAX,
    ensures
        exists|tiradas: Seq<u32>|
            {
                &&& tiradas_validas(tiradas)
                &&& #[trigger] salud_procesada(
                    estados(old(presas)@),
                    estados(final(presas)@),
                    tiradas,
                )
                &&& *final(nuevos_infectados) == *old(nuevos_infectados) + eventos_contados(
                    estados(old(presas)@),
                    tiradas,
                    EventoSalud::Contagio,
                    old(presas).len() as int,
                )
                &&& *final(recuperaciones) == *old(recuperaciones) + eventos_contados(
                    estados(old(presas)@),
                    tiradas,
                    EventoSalud::Recuperacion,
                    old(presas).len() as int,
                )
                &&& *final(muertes) == *old(muertes) + eventos_contados(
                    estados(old(presas)@),
                    tiradas,
                    EventoSalud::Muerte,
                    old(presas).len() as int,
                )
            },
{
    let n = presas.len();
    let mut tiradas: Vec<u32> = Vec::new();
    let mut i: usize = 0;
    while i < n
        invariant
            i <= n,
            tiradas.len() == i,
            tiradas_validas(tiradas@),
        decreases n - i,
    {
        let tirada = sortear(rng, 0, MILESIMAS as i32);
        tiradas.push(tirada as u32);
        i += 1;
    }
    enfermedad_con_tiradas(presas, &tiradas, nuevos_infectados, recuperaciones, muertes);
}

/// Hace vivir un día a cada depredador: gasto de reservas y evaluación de su
/// salud. Los muertos no cambian.
pub fn procesar_dietas_depredadores(depredadores: &mut Vec<Depredador>, dias: u32)
    requires
        forall|i: int|
            0 <= i < old(depredadores).len() ==> (#[trigger] old(depredadores)[i])@.dias_enfermo
                < u32::MAX,
    ensures
        estados_depredadores(final(depredadores)@) == alimentados(
            estados_depredadores(old(depredadores)@),
            dias,
        ),
{
    let n = depredadores.len();
    let mut i: usize = 0;
    while i < n
        invariant
            i <= n,
            n == depredadores.len(),
            n == old(depredadores).len(),
            forall|k: int|
                0 <= k < i ==> (#[trigger] depredadores[k])@ == old(depredadores)[k]@.tras_dieta(
                    dias,
                ),
            forall|k: int| i <= k < n ==> #[trigger] depredadores[k] == old(depredadores)[k],
            forall|k: int|
                0 <= k < n ==> (#[trigger] old(depredadores)[k])@.dias_enfermo < u32::MAX,
        decreases n - i,
    {
        depredadores[i].pasar_dia(dias);
        i += 1;
    }
    assert(estados_depredadores(depredadores@) =~= alimentados(
        estados_depredadores(old(depredadores)@),
        dias,
    ));
}

} // verus!
