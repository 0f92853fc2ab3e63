//! La simulación completa: población, reloj, contadores del día y reportes,
//! y el cuadro que los hace avanzar.

use vstd::prelude::*;
use rand::rngs::ThreadRng;
use crate::entidades::depredador::{estados_depredadores, Depredador, EstadoDepredador};
use crate::entidades::especie::Especie;
use crate::entidades::presa::{
    estados, lema_vivas_no_crecen, vivas, EstadoPresa, EventoSalud, Presa,
};
use crate::entidades::organismo::paso_cuerpo;
use crate::sistemas::depredacion::{
    bocado, capturas, depredadores_comer, depredadores_tras_caza, lema_caza_solo_mata,
    presas_tras_caza, puede_comer,
};
use crate::sistemas::diario::{
    actualizar_presas_diarias, alimentados, envejecidas, eventos_contados,
    procesar_dietas_depredadores, procesar_enfermedad_presas, resetear_contadores_diarios,
    salud_procesada, tiradas_validas,
};
use crate::sistemas::limpieza::{lema_vivas_tras_limpieza, purgar_muertas, viva};
use crate::sistemas::movimiento::{
    avanzar_organismos, depredador_orientado, depredadores_avanzados,
    depredadores_buscar_presas, lema_movimiento_solo_cambia_velocidad, movimiento_presas,
    orientados, presas_avanzadas, presas_movidas,
};
use crate::sistemas::reloj::Reloj;
use crate::sistemas::reproduccion::{
    apareamientos, camadas_posibles, compatibles, lema_reproduccion_respeta_tope,
    lema_vivas_iguales, pasada_de_reproduccion, reproduccion, son_las_parejas,
    MAX_NACIMIENTOS_POR_PASADA,
};
use crate::utilidades::estadisticas::EstadisticasDiarias;
use crate::utilidades::reportes::{compilar_reporte_diario, reporte_del_dia};

verus! {

/// Los sucesos contados desde el último reporte.
#[derive(Clone, Copy, Debug, PartialEq, Eq, Structural)]
pub struct ContadoresDiarios {
    pub muertes_por_predacion: u32,
    pub muertes_por_enfermedad: u32,
    pub nuevos_infectados: u32,
    pub recuperaciones: u32,
    pub reproducciones: u32,
}

impl ContadoresDiarios {
    /// Contadores recién puestos a cero.
    pub open spec fn ceros() -> ContadoresDiarios {
        ContadoresDiarios {
            muertes_por_predacion: 0,
            muertes_por_enfermedad: 0,
            nuevos_infectados: 0,
            recuperaciones: 0,
            reproducciones: 0,
        }
    }
}

/// Lo que la simulación lleva de un cuadro al siguiente.
pub struct Simulacion {
    pub presas: Vec<Presa>,
    pub depredadores: Vec<Depredador>,
    pub reloj: Reloj,
    pub contadores: ContadoresDiarios,
    pub reportes: Vec<EstadisticasDiarias>,
}

/// El estado de la simulación, con los organismos vistos campo por campo.
pub struct EstadoSimulacion {
    pub presas: Seq<EstadoPresa>,
    pub depredadores: Seq<EstadoDepredador>,
    pub reloj: Reloj,
    pub contadores: ContadoresDiarios,
    pub reportes: Seq<EstadisticasDiarias>,
}

impl View for Simulacion {
    type V = EstadoSimulacion;

    open spec fn view(&self) -> EstadoSimulacion {
        EstadoSimulacion {
            presas: estados(self.presas@),
            depredadores: estados_depredadores(self.depredadores@),
            reloj: self.reloj,
            contadores: self.contadores,
            reportes: self.reportes@,
        }
    }
}

// ---------------------------------------------------------------------------
// Las etapas de un cuadro

/// `b` es `a` tras el bloque diario del día `a.reloj.dias`, con la tirada de
/// salud `tiradas[i]` para la presa `i`. Las presas envejecen y viven su día
/// de salud, los depredadores su día de dieta, se añade el reporte del día
/// con los sucesos contados desde el reporte anterior y los contadores
/// vuelven a cero.
pub open spec fn dia_vivido(a: EstadoSimulacion, b: EstadoSimulacion, tiradas: Seq<u32>) -> bool {
    let mayores = envejecidas(a.presas);
    let n = a.presas.len() as int;
    &&& tiradas_validas(tiradas)
    &&& salud_procesada(mayores, b.presas, tiradas)
    &&& b.depredadores == alimentados(a.depredadores, a.reloj.dias)
    &&& b.reportes == a.reportes.push(
        reporte_del_dia(
            b.presas,
            b.depredadores,
            a.contadores.muertes_por_predacion,
            (a.contadores.muertes_por_enfermedad + eventos_contados(
                mayores,
                tiradas,
                EventoSalud::Muerte,
                n,
            )) as u32,
            (a.contadores.nuevos_infectados + eventos_contados(
                mayores,
                tiradas,
                EventoSalud::Contagio,
                n,
            )) as u32,
            (a.contadores.recuperaciones + eventos_contados(
                mayores,
                tiradas,
                EventoSalud::Recuperacion,
                n,
            )) as u32,
            a.contadores.reproducciones,
            a.reloj.dias,
        ),
    )
    &&& b.contadores == ContadoresDiarios::ceros()
    &&& b.reloj == a.reloj
}

/// Primera etapa: el reloj avanza `dt` y, si con ello empieza un día, corre
/// el bloque diario; si no, nada más cambia.
pub open spec fn etapa_diaria(a: EstadoSimulacion, b: EstadoSimulacion, dt: u32) -> bool {
    let con_reloj = EstadoSimulacion { reloj: a.reloj.tras(dt), ..a };
    if a.reloj.cruza(dt) {
        exists|tiradas: Seq<u32>| #[trigger] dia_vivido(con_reloj, b, tiradas)
    } else {
        b == con_reloj
    }
}

/// Segunda etapa: las presas buscan pareja y los depredadores, presa.
pub open spec fn etapa_de_rumbo(a: EstadoSimulacion, b: EstadoSimulacion) -> bool {
    &&& presas_movidas(a.presas, b.presas)
    &&& b.depredadores == orientados(a.depredadores, b.presas)
    &&& b == (EstadoSimulacion { presas: b.presas, depredadores: b.depredadores, ..a })
}

/// Tercera etapa: cada organismo avanza un cuadro.
pub open spec fn etapa_de_avance(
    a: EstadoSimulacion,
    b: EstadoSimulacion,
    dt: u32,
    ancho: i32,
    alto: i32,
) -> bool {
    b == (EstadoSimulacion {
        presas: presas_avanzadas(a.presas, dt, ancho, alto),
        depredadores: depredadores_avanzados(a.depredadores, dt, ancho, alto),
        ..a
    })
}

/// Cuarta etapa: una pasada de reproducción.
pub open spec fn etapa_de_reproduccion(a: EstadoSimulacion, b: EstadoSimulacion) -> bool {
    &&& exists|parejas: Seq<(usize, usize)>, camadas: Seq<usize>|
        {
            &&& son_las_parejas(a.presas, parejas)
            &&& camadas_posibles(a.presas, parejas, camadas)
            &&& #[trigger] pasada_de_reproduccion(a.presas, b.presas, parejas, camadas)
            &&& b.contadores.reproducciones == a.contadores.reproducciones + apareamientos(
                a.presas,
                parejas,
                camadas,
                parejas.len() as int,
            )
        }
    &&& b == (EstadoSimulacion {
        presas: b.presas,
        contadores: ContadoresDiarios {
            reproducciones: b.contadores.reproducciones,
            ..a.contadores
        },
        ..a
    })
}

/// Quinta etapa: una pasada de depredación.
pub open spec fn etapa_de_depredacion(a: EstadoSimulacion, b: EstadoSimulacion) -> bool {
    b == (EstadoSimulacion {
        presas: presas_tras_caza(a.depredadores, a.presas, a.depredadores.len() as int),
        depredadores: depredadores_tras_caza(a.depredadores, a.presas),
        contadores: ContadoresDiarios {
            muertes_por_predacion: (a.contadores.muertes_por_predacion + capturas(
                a.depredadores,
                a.presas,
                a.depredadores.len() as int,
            )) as u32,
            ..a.contadores
        },
        ..a
    })
}

/// Sexta etapa: se retiran las presas muertas.
pub open spec fn etapa_de_limpieza(a: EstadoSimulacion, b: EstadoSimulacion) -> bool {
    b == (EstadoSimulacion { presas: a.presas.filter(viva()), ..a })
}

/// Las seis etapas de un cuadro, en orden, con sus estados intermedios.
pub open spec fn etapas(
    a: EstadoSimulacion,
    b: EstadoSimulacion,
    c: EstadoSimulacion,
    d: EstadoSimulacion,
    e: EstadoSimulacion,
    f: EstadoSimulacion,
    g: EstadoSimulacion,
    dt: u32,
    ancho: i32,
    alto: i32,
) -> bool {
    &&& etapa_diaria(a, b, dt)
    &&& etapa_de_rumbo(b, c)
    &&& etapa_de_avance(c, d, dt, ancho, alto)
    &&& etapa_de_reproduccion(d, e)
    &&& etapa_de_depredacion(e, f)
    &&& etapa_de_limpieza(f, g)
}

/// `despues` es `antes` tras un cuadro de duración `dt` en un lienzo de
/// `ancho` por `alto`.
pub open spec fn cuadro(
    antes: EstadoSimulacion,
    despues: EstadoSimulacion,
    dt: u32,
    ancho: i32,
    alto: i32,
) -> bool {
    exists|
        b: EstadoSimulacion,
        c: EstadoSimulacion,
        d: EstadoSimulacion,
        e: EstadoSimulacion,
        f: EstadoSimulacion,
    | #[trigger]
        etapas(antes, b, c, d, e, f, despues, dt, ancho, alto)
}

/// Ninguna edad ni contador de la población está al borde de su rango.
pub open spec fn con_margen(s: EstadoSimulacion) -> bool {
    &&& forall|i: int|
        0 <= i < s.presas.len() ==> (#[trigger] s.presas[i]).edad < u32::MAX
            && s.presas[i].dias_enfermo < u32::MAX
    &&& forall|k: int|
        0 <= k < s.depredadores.len() ==> (#[trigger] s.depredadores[k]).dias_enfermo < u32::MAX
    &&& s.contadores.muertes_por_enfermedad + s.presas.len() <= u32::MAX
    &&& s.contadores.nuevos_infectados + s.presas.len() <= u32::MAX
    &&& s.contadores.recuperaciones + s.presas.len() <= u32::MAX
    &&& s.contadores.muertes_por_predacion + s.depredadores.len() <= u32::MAX
    &&& s.contadores.reproducciones + MAX_NACIMIENTOS_POR_PASADA <= u32::MAX
}

/// La simulación puede avanzar un cuadro sin desbordar: ni el contador de
/// días ni ningún otro está al borde de su rango.
pub open spec fn avanzable(s: EstadoSimulacion) -> bool {
    s.reloj.dias < u32::MAX && con_margen(s)
}

/// Un organismo muerto no vuelve a moverse, a aparearse ni a cazar o ser
/// cazado, y su día de salud o de dieta lo deja como estaba.
pub proof fn lema_los_muertos_no_participan(
    presa: EstadoPresa,
    otra: EstadoPresa,
    depredador: EstadoDepredador,
    presas: Seq<EstadoPresa>,
    tirada: u32,
    dias: u32,
    dt: u32,
    ancho: i32,
    alto: i32,
)
    requires
        !presa.viva,
        !depredador.vivo,
    ensures
        paso_cuerpo(presa.cuerpo(), dt, ancho, alto) == presa.cuerpo(),
        paso_cuerpo(depredador.cuerpo(), dt, ancho, alto) == depredador.cuerpo(),
        !presa.dispuesta(),
        !compatibles(presa, otra) && !compatibles(otra, presa),
        !presa.cazable(),
        presa.tras_enfermedad(tirada) == presa,
        !puede_comer(depredador),
        bocado(depredador, presas) == presas.len(),
        depredador_orientado(depredador, presas) == depredador,
        depredador.tras_dieta(dias) == depredador,
{
}

/// Al terminar un cuadro toda presa de la población está viva.
pub proof fn lema_cuadro_sin_muertas(
    antes: EstadoSimulacion,
    despues: EstadoSimulacion,
    dt: u32,
    ancho: i32,
    alto: i32,
)
    requires
        cuadro(antes, despues, dt, ancho, alto),
    ensures
        forall|i: int| 0 <= i < despues.presas.len() ==> (#[trigger] despues.presas[i]).viva,
{
    let (b, c, d, e, f) = choose|
        b: EstadoSimulacion,
        c: EstadoSimulacion,
        d: EstadoSimulacion,
        e: EstadoSimulacion,
        f: EstadoSimulacion,
    | #[trigger]
        etapas(antes, b, c, d, e, f, despues, dt, ancho, alto);
    assert forall|i: int| 0 <= i < despues.presas.len() implies (
    #[trigger] despues.presas[i]).viva by {
        f.presas.lemma_filter_pred(viva(), i);
    }
}

/// El reloj de un cuadro avanza `dt`, y se añade un reporte exactamente
/// cuando con ello empieza un día.
pub proof fn lema_cuadro_y_reloj(
    antes: EstadoSimulacion,
    despues: EstadoSimulacion,
    dt: u32,
    ancho: i32,
    alto: i32,
)
    requires
        cuadro(antes, despues, dt, ancho, alto),
    ensures
        despues.reloj == antes.reloj.tras(dt),
        despues.reportes.len() == antes.reportes.len() + if antes.reloj.cruza(dt) {
            1nat
        } else {
            0nat
        },
        antes.reloj.cruza(dt) ==> despues.reportes.last().dia == despues.reloj.dias
            && despues.reportes.drop_last() == antes.reportes,
        !antes.reloj.cruza(dt) ==> despues.reportes == antes.reportes,
{
    let (b, c, d, e, f) = choose|
        b: EstadoSimulacion,
        c: EstadoSimulacion,
        d: EstadoSimulacion,
        e: EstadoSimulacion,
        f: EstadoSimulacion,
    | #[trigger]
        etapas(antes, b, c, d, e, f, despues, dt, ancho, alto);
    if antes.reloj.cruza(dt) {
        let con_reloj = EstadoSimulacion { reloj: antes.reloj.tras(dt), ..antes };
        let tiradas = choose|tiradas: Seq<u32>| #[trigger] dia_vivido(con_reloj, b, tiradas);
        assert(b.reportes.drop_last() =~= antes.reportes);
    }
}

/// Un cuadro entero respeta los topes de población: la especie que empieza
/// el cuadro dentro de su tope lo termina dentro de su tope.
pub proof fn lema_cuadro_respeta_tope(
    antes: EstadoSimulacion,
    despues: EstadoSimulacion,
    dt: u32,
    ancho: i32,
    alto: i32,
    especie: Especie,
)
    requires
        cuadro(antes, despues, dt, ancho, alto),
        vivas(antes.presas, especie) <= especie.tope(),
    ensures
        vivas(despues.presas, especie) <= especie.tope(),
{
    let (b, c, d, e, f) = choose|
        b: EstadoSimulacion,
        c: EstadoSimulacion,
        d: EstadoSimulacion,
        e: EstadoSimulacion,
        f: EstadoSimulacion,
    | #[trigger]
        etapas(antes, b, c, d, e, f, despues, dt, ancho, alto);
    lema_dia_sin_nacimientos(antes, b, dt, especie);
    assert(vivas(c.presas, especie) == vivas(b.presas, especie)) by {
        lema_movimiento_solo_cambia_velocidad(b.presas, c.presas);
        lema_vivas_iguales(c.presas, b.presas, especie, b.presas.len() as int);
    }
    assert(vivas(d.presas, especie) == vivas(c.presas, especie)) by {
        lema_vivas_iguales(d.presas, c.presas, especie, c.presas.len() as int);
    }
    assert(vivas(e.presas, especie) <= especie.tope()) by {
        let (parejas, camadas) = choose|parejas: Seq<(usize, usize)>, camadas: Seq<usize>|
            {
                &&& son_las_parejas(d.presas, parejas)
                &&& camadas_posibles(d.presas, parejas, camadas)
                &&& #[trigger] pasada_de_reproduccion(d.presas, e.presas, parejas, camadas)
                &&& e.contadores.reproducciones == d.contadores.reproducciones + apareamientos(
                    d.presas,
                    parejas,
                    camadas,
                    parejas.len() as int,
                )
            };
        lema_reproduccion_respeta_tope(d.presas, e.presas, parejas, camadas, especie);
    }
    assert(vivas(f.presas, especie) <= vivas(e.presas, especie)) by {
        lema_caza_solo_mata(e.depredadores, e.presas, e.depredadores.len() as int);
        lema_vivas_no_crecen(e.presas, f.presas, especie, e.presas.len() as int);
    }
    lema_vivas_tras_limpieza(f.presas, especie);
}

/// La primera etapa de un cuadro no aumenta la población viva de ninguna especie.
proof fn lema_dia_sin_nacimientos(
    a: EstadoSimulacion,
    b: EstadoSimulacion,
    dt: u32,
    especie: Especie,
)
    requires
        etapa_diaria(a, b, dt),
    ensures
        vivas(b.presas, especie) <= vivas(a.presas, especie),
{
    if a.reloj.cruza(dt) {
        let con_reloj = EstadoSimulacion { reloj: a.reloj.tras(dt), ..a };
        let tiradas = choose|tiradas: Seq<u32>| #[trigger] dia_vivido(con_reloj, b, tiradas);
        let mayores = envejecidas(a.presas);
        assert forall|i: int| 0 <= i < a.presas.len() implies (#[trigger] b.presas[i]).especie
            == a.presas[i].especie && (b.presas[i].viva ==> a.presas[i].viva) by {
            assert(mayores[i] == a.presas[i].tras_envejecer());
            assert(b.presas[i] == mayores[i].tras_enfermedad(tiradas[i]));
        }
        lema_vivas_no_crecen(a.presas, b.presas, especie, a.presas.len() as int);
    }
}

// ---------------------------------------------------------------------------
// Cálculo

impl Simulacion {
    /// Una simulación en el día cero con la población dada, sin sucesos
    /// contados ni reportes.
    pub fn new(presas: Vec<Presa>, depredadores: Vec<Depredador>) -> (s: Simulacion)
        ensures
            s.presas == presas,
            s.depredadores == depredadores,
            s.reloj == (Reloj { dias: 0, tiempo_acumulado: 0 }),
            s.contadores == ContadoresDiarios::ceros(),
            s.reportes@ == Seq::<EstadisticasDiarias>::empty(),
    {
        Simulacion {
            presas,
            depredadores,
            reloj: Reloj::new(),
            contadores: ContadoresDiarios {
                muertes_por_predacion: 0,
                muertes_por_enfermedad: 0,
                nuevos_infectados: 0,
                recuperaciones: 0,
                reproducciones: 0,
            },
            reportes: Vec::new(),
        }
    }

    /// Dice si la simulación puede avanzar un cuadro sin desbordar.
    pub fn puede_avanzar(&self) -> (si: bool)
        ensures
            si == avanzable(self@),
    {
        if self.reloj.dias == u32::MAX {
            return false;
        }
        let n = self.presas.len();
        let m = self.depredadores.len();
        if n > u32::MAX as usize || m > u32::MAX as usize {
            return false;
        }
        let c = self.contadores;
        if c.muertes_por_enfermedad > u32::MAX - n as u32 || c.nuevos_infectados > u32::MAX
            - n as u32 || c.recuperaciones > u32::MAX - n as u32 || c.muertes_por_predacion
            > u32::MAX - m as u32 || c.reproducciones > u32::MAX - MAX_NACIMIENTOS_POR_PASADA {
            return false;
        }
        let mut i: usize = 0;
        while i < n
            invariant
                i <= n,
                n == self.presas.len(),
                forall|k: int|
                    0 <= k < i ==> (#[trigger] self@.presas[k]).edad < u32::MAX
                        && self@.presas[k].dias_enfermo < u32::MAX,
            decreases n - i,
        {
            let p = self.presas[i];
            if p.edad() == u32::MAX || p.dias_enfermo() == u32::MAX {
                assert(self@.presas[i as int] == p@);
                return false;
            }
            i += 1;
        }
        let mut k: usize = 0;
        while k < m
            invariant
                k <= m,
                m == self.depredadores.len(),
                forall|j: int|
                    0 <= j < k ==> (#[trigger] self@.depredadores[j]).dias_enfermo < u32::MAX,
            decreases m - k,
        {
            let d = self.depredadores[k];
            if d.dias_enfermo() == u32::MAX {
                assert(self@.depredadores[k as int] == d@);
                return false;
            }
            k += 1;
        }
        true
    }

    /// El bloque diario del día en curso: envejecimiento y salud de las
    /// presas, dieta de los depredadores, reporte del día y contadores a cero.
    pub fn bloque_diario(&mut self, rng: &mut ThreadRng)
        requires
            con_margen(old(self)@),
        ensures
            exists|tiradas: Seq<u32>| #[trigger] dia_vivido(old(self)@, final(self)@, tiradas),
    {
        let ghost a = self@;
        let ghost mayores = envejecidas(a.presas);
        assert forall|i: int| 0 <= i < self.presas.len() implies (#[trigger] self.presas[i])@.edad
            < u32::MAX by {
            assert(a.presas[i] == self.presas[i]@);
        }
        actualizar_presas_diarias(&mut self.presas);
        assert(estados(self.presas@).len() == mayores.len());
        assert forall|i: int| 0 <= i < self.presas.len() implies (
        #[trigger] self.presas[i])@.dias_enfermo < u32::MAX by {
            assert(estados(self.presas@)[i] == self.presas[i]@);
            assert(mayores[i] == a.presas[i].tras_envejecer());
        }
        procesar_enfermedad_presas(
            &mut self.presas,
            rng,
            &mut self.contadores.nuevos_infectados,
            &mut self.contadores.recuperaciones,
            &mut self.contadores.muertes_por_enfermedad,
        );
        let ghost tiradas = choose|tiradas: Seq<u32>|
            {
                &&& tiradas_validas(tiradas)
                &&& #[trigger] salud_procesada(mayores, estados(self.presas@), tiradas)
                &&& self.contadores.nuevos_infectados == a.contadores.nuevos_infectados
                    + eventos_contados(
                    mayores,
                    tiradas,
                    EventoSalud::Contagio,
                    mayores.len() as int,
                )
                &&& self.contadores.recuperaciones == a.contadores.recuperaciones
                    + eventos_contados(
                    mayores,
                    tiradas,
                    EventoSalud::Recuperacion,
                    mayores.len() as int,
                )
                &&& self.contadores.muertes_por_enfermedad == a.contadores.muertes_por_enfermedad
                    + eventos_contados(mayores, tiradas, EventoSalud::Muerte, mayores.len() as int)
            };
        assert forall|k: int| 0 <= k < self.depredadores.len() implies (
        #[trigger] self.depredadores[k])@.dias_enfermo < u32::MAX by {
            assert(a.depredadores[k] == self.depredadores[k]@);
        }
        procesar_dietas_depredadores(&mut self.depredadores, self.reloj.dias);
        let reporte = compilar_reporte_diario(
            self.presas.as_slice(),
            self.depredadores.as_slice(),
            self.contadores.muertes_por_predacion,
            self.contadores.muertes_por_enfermedad,
            self.contadores.nuevos_infectados,
            self.contadores.recuperaciones,
            self.contadores.reproducciones,
            self.reloj.dias,
        );
        self.reportes.push(reporte);
        resetear_contadores_diarios(
            &mut self.contadores.muertes_por_predacion,
            &mut self.contadores.muertes_por_enfermedad,
            &mut self.contadores.nuevos_infectados,
            &mut self.contadores.recuperaciones,
        );
        self.contadores.reproducciones = 0;
        assert(dia_vivido(a, self@, tiradas));
    }

    /// Un cuadro de simulación de duración `dt` en un lienzo de `ancho` por
    /// `alto`: bloque diario si empieza un día, rumbos, avance,
    /// reproducción, depredación y retirada de las presas muertas.
    pub fn paso(&mut self, dt: u32, ancho: i32, alto: i32, rng: &mut ThreadRng)
        requires
            avanzable(old(self)@),
        ensures
            cuadro(old(self)@, final(self)@, dt, ancho, alto),
    {
        let ghost a = self@;
        let nuevo_dia = self.reloj.avanzar(dt);
        if nuevo_dia {
            self.bloque_diario(rng);
        }
        let ghost b = self@;
        assert(etapa_diaria(a, b, dt));
        movimiento_presas(&mut self.presas, rng);
        depredadores_buscar_presas(&mut self.depredadores, self.presas.as_slice());
        let ghost c = self@;
        assert(etapa_de_rumbo(b, c));
        avanzar_organismos(&mut self.presas, &mut self.depredadores, dt, ancho, alto);
        let ghost d = self@;
        assert(etapa_de_avance(c, d, dt, ancho, alto));
        let ghost presas_d = self.presas@;
        let especies = [Especie::Conejo, Especie::Raton, Especie::Ardilla];
        reproduccion(&mut self.presas, especies.as_slice(), &mut self.contadores.reproducciones);
        let ghost e = self@;
        assert(d.presas == estados(presas_d));
        assert(e.contadores == (ContadoresDiarios {
            reproducciones: e.contadores.reproducciones,
            ..d.contadores
        }));
        assert(etapa_de_reproduccion(d, e));
        assert(e.depredadores.len() == a.depredadores.len());
        depredadores_comer(
            &mut self.depredadores,
            &mut self.presas,
            &mut self.contadores.muertes_por_predacion,
        );
        let ghost f = self@;
        assert(etapa_de_depredacion(e, f));
        purgar_muertas(&mut self.presas);
        let ghost g = self@;
        assert(etapa_de_limpieza(f, g));
        assert(etapas(a, b, c, d, e, f, g, dt, ancho, alto));
    }
}

} // verus!
