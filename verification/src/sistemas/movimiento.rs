//! Movimiento dirigido: las presas buscan pareja y los depredadores, presa.

use vstd::prelude::*;
use rand::rngs::ThreadRng;
use crate::entidades::depredador::{estados_depredadores, Depredador, EstadoDepredador};
use crate::entidades::organismo::{paso_cuerpo, Organismo};
use crate::entidades::presa::{estados, EstadoPresa, Presa};
use crate::utilidades::azar::sortear;
use crate::utilidades::configuraciones::{
    RADIO_PRESA, RUIDO_MOVIMIENTO, VEL_MAX_DEPREDADOR, VEL_MAX_PRESA,
};
use crate::utilidades::fijo::{saturar, suma_saturada};
use crate::utilidades::geometria::{con_rapidez, distancia2, distancia_cuadrada};

verus! {

// ---------------------------------------------------------------------------
// Presas en busca de pareja

/// La presa `j` puede ser pareja de la presa `i`: es otra presa dispuesta,
/// de la misma especie y del sexo opuesto.
pub open spec fn candidata(presas: Seq<EstadoPresa>, i: int, j: int) -> bool {
    &&& 0 <= j < presas.len()
    &&& j != i
    &&& presas[j].dispuesta()
    &&& presas[j].especie == presas[i].especie
    &&& presas[j].sexo != presas[i].sexo
}

/// Cuadrado de la distancia entre las presas `i` y `j`.
pub open spec fn separacion(presas: Seq<EstadoPresa>, i: int, j: int) -> nat {
    distancia2(presas[i].x as int, presas[i].y as int, presas[j].x as int, presas[j].y as int)
}

/// La presa `j` es la candidata más cercana a la presa `i`, y la primera en
/// el orden de la población entre las que empatan.
pub open spec fn es_pareja_mas_cercana(presas: Seq<EstadoPresa>, i: int, j: int) -> bool {
    &&& candidata(presas, i, j)
    &&& forall|k: int| #[trigger]
        candidata(presas, i, k) ==> separacion(presas, i, j) <= separacion(presas, i, k)
    &&& forall|k: int| #[trigger]
        candidata(presas, i, k) && k < j ==> separacion(presas, i, j) < separacion(presas, i, k)
}

/// La pareja hacia la que se dirige la presa `i`, si hay alguna candidata.
pub open spec fn pareja_de(presas: Seq<EstadoPresa>, i: int) -> Option<int> {
    if exists|j: int| es_pareja_mas_cercana(presas, i, j) {
        Some(choose|j: int| es_pareja_mas_cercana(presas, i, j))
    } else {
        None
    }
}

/// Coordenada `base` desplazada en `delta`, sin salir del rango representable.
pub open spec fn desplazada(base: i32, delta: i32) -> i32 {
    saturar(base + delta) as i32
}

/// El desplazamiento `(dx, dy)` cae en el cuadrado semiabierto de lado `2 * radio`.
pub open spec fn en_cuadrado(dx: i32, dy: i32, radio: i32) -> bool {
    -radio <= dx < radio && -radio <= dy < radio
}

/// `despues` es la presa `p` después de apuntar al destino `(tx, ty)`: solo
/// cambia su velocidad, que apunta al destino con la rapidez máxima de las
/// presas, salvo redondeo; si ya está en el destino no cambia.
pub open spec fn presa_encaminada(p: EstadoPresa, despues: EstadoPresa, tx: i32, ty: i32) -> bool {
    &&& despues == p.apuntando_a(tx, ty)
    &&& tx != p.x || ty != p.y ==> con_rapidez(
        despues.vx as int,
        despues.vy as int,
        VEL_MAX_PRESA as int,
    )
}

/// `despues` es la presa `p` después de vagar con el ruido `(rx, ry)`: solo
/// cambia su velocidad, que no supera la rapidez máxima de las presas.
pub open spec fn presa_errante(p: EstadoPresa, despues: EstadoPresa, rx: i32, ry: i32) -> bool {
    &&& despues == p.con_ruido(rx, ry)
    &&& despues.vx * despues.vx + despues.vy * despues.vy <= VEL_MAX_PRESA * VEL_MAX_PRESA
}

/// `despues` es la presa `i` tras la pasada de movimiento. Una presa que no
/// está dispuesta no cambia. Una dispuesta con pareja apunta, a rapidez
/// máxima, a un punto cercano a ella; sin pareja, suma ruido a su velocidad.
pub open spec fn presa_movida(antes: Seq<EstadoPresa>, i: int, despues: EstadoPresa) -> bool {
    if !antes[i].dispuesta() {
        despues == antes[i]
    } else {
        match pareja_de(antes, i) {
            Some(j) => exists|dx: i32, dy: i32| #[trigger]
                en_cuadrado(dx, dy, RADIO_PRESA) && presa_encaminada(
                    antes[i],
                    despues,
                    desplazada(antes[j].x, dx),
                    desplazada(antes[j].y, dy),
                ),
            None => exists|rx: i32, ry: i32| #[trigger]
                en_cuadrado(rx, ry, RUIDO_MOVIMIENTO) && presa_errante(antes[i], despues, rx, ry),
        }
    }
}

/// `despues` es la población `antes` tras la pasada de movimiento.
pub open spec fn presas_movidas(antes: Seq<EstadoPresa>, despues: Seq<EstadoPresa>) -> bool {
    &&& despues.len() == antes.len()
    &&& forall|i: int| 0 <= i < antes.len() ==> presa_movida(antes, i, #[trigger] despues[i])
}

/// La pasada de movimiento solo cambia velocidades.
pub proof fn lema_movimiento_solo_cambia_velocidad(
    antes: Seq<EstadoPresa>,
    despues: Seq<EstadoPresa>,
)
    requires
        presas_movidas(antes, despues),
    ensures
        mismas_salvo_velocidad(antes, despues),
{
    assert forall|k: int| 0 <= k < antes.len() implies #[trigger] despues[k] == (EstadoPresa {
        vx: despues[k].vx,
        vy: despues[k].vy,
        ..antes[k]
    }) by {
        assert(presa_movida(antes, k, despues[k]));
        if antes[k].dispuesta() {
            match pareja_de(antes, k) {
                Some(j) => {
                    let (dx, dy) = choose|dx: i32, dy: i32| #[trigger]
                        en_cuadrado(dx, dy, RADIO_PRESA) && presa_encaminada(
                            antes[k],
                            despues[k],
                            desplazada(antes[j].x, dx),
                            desplazada(antes[j].y, dy),
                        );
                },
                None => {
                    let (rx, ry) = choose|rx: i32, ry: i32| #[trigger]
                        en_cuadrado(rx, ry, RUIDO_MOVIMIENTO) && presa_errante(
                            antes[k],
                            despues[k],
                            rx,
                            ry,
                        );
                },
            }
        }
    }
}

/// `b` es `a` salvo, quizá, por las velocidades.
pub open spec fn mismas_salvo_velocidad(a: Seq<EstadoPresa>, b: Seq<EstadoPresa>) -> bool {
    &&& a.len() == b.len()
    &&& forall|k: int|
        0 <= k < a.len() ==> #[trigger] b[k] == (EstadoPresa { vx: b[k].vx, vy: b[k].vy, ..a[k] })
}

/// La candidata más cercana es única.
pub proof fn lema_pareja_unica(presas: Seq<EstadoPresa>, i: int, j1: int, j2: int)
    requires
        es_pareja_mas_cercana(presas, i, j1),
        es_pareja_mas_cercana(presas, i, j2),
    ensures
        j1 == j2,
{
}

/// Quien cumple la definición es la pareja elegida.
pub proof fn lema_pareja_de(presas: Seq<EstadoPresa>, i: int, j: int)
    requires
        es_pareja_mas_cercana(presas, i, j),
    ensures
        pareja_de(presas, i) == Some(j),
{
    let elegida = choose|k: int| es_pareja_mas_cercana(presas, i, k);
    lema_pareja_unica(presas, i, j, elegida);
}

/// La elección de pareja no depende de las velocidades.
proof fn lema_pareja_ignora_velocidad(a: Seq<EstadoPresa>, b: Seq<EstadoPresa>, i: int)
    requires
        mismas_salvo_velocidad(a, b),
        0 <= i < a.len(),
    ensures
        pareja_de(a, i) == pareja_de(b, i),
{
    assert forall|j: int| es_pareja_mas_cercana(a, i, j) == es_pareja_mas_cercana(b, i, j) by {
        assert forall|k: int| candidata(a, i, k) == candidata(b, i, k) by {}
        assert forall|k: int| candidata(a, i, k) implies separacion(a, i, k) == separacion(
            b,
            i,
            k,
        ) by {}
        if candidata(a, i, j) {
            assert(separacion(a, i, j) == separacion(b, i, j));
        }
    }
    if exists|j: int| es_pareja_mas_cercana(a, i, j) {
        let j = choose|j: int| es_pareja_mas_cercana(a, i, j);
        lema_pareja_de(b, i, j);
    }
}

/// Busca la candidata más cercana a la presa `i`.
pub fn buscar_pareja(presas: &Vec<Presa>, i: usize) -> (pareja: Option<usize>)
    requires
        i < presas.len(),
    ensures
        match pareja {
            Some(j) => j < presas.len() && es_pareja_mas_cercana(
                estados(presas@),
                i as int,
                j as int,
            ) && pareja_de(estados(presas@), i as int) == Some(j as int),
            None => pareja_de(estados(presas@), i as int).is_none() && forall|k: int|
                !candidata(estados(presas@), i as int, k),
        },
{
    let n = presas.len();
    let p = presas[i];
    let ghost e = estados(presas@);
    let mut pareja: Option<usize> = None;
    let mut dist_min: u128 = 0;
    let mut j: usize = 0;
    while j < n
        invariant
            j <= n,
            n == presas.len(),
            i < n,
            e == estados(presas@),
            p == presas[i as int],
            match pareja {
                Some(b) => {
                    &&& b < j
                    &&& candidata(e, i as int, b as int)
                    &&& dist_min == separacion(e, i as int, b as int)
                    &&& forall|k: int| #[trigger]
                        candidata(e, i as int, k) && k < j ==> dist_min <= separacion(
                            e,
                            i as int,
                            k,
                        )
                    &&& forall|k: int| #[trigger]
                        candidata(e, i as int, k) && k < b ==> dist_min < separacion(
                            e,
                            i as int,
                            k,
                        )
                },
                None => forall|k: int| #[trigger] candidata(e, i as int, k) ==> k >= j,
            },
        decreases n - j,
    {
        let q = presas[j];
        if j != i && q.esta_vivo() && q.modo_reproduccion() && q.cooldown() == 0 && q.especie()
            == p.especie() && q.sexo() != p.sexo() {
            assert(candidata(e, i as int, j as int));
            let dist = distancia_cuadrada(p.x(), p.y(), q.x(), q.y());
            if pareja.is_none() || dist < dist_min {
                dist_min = dist;
                pareja = Some(j);
            }
        } else {
            assert(!candidata(e, i as int, j as int));
        }
        j += 1;
    }
    proof {
        match pareja {
            Some(b) => {
                lema_pareja_de(e, i as int, b as int);
            },
            None => {
                assert forall|k: int| !candidata(e, i as int, k) by {}
            },
        }
    }
    pareja
}

/// Suma a la velocidad de la presa un ruido sorteado en
/// `[-RUIDO_MOVIMIENTO, RUIDO_MOVIMIENTO)` y la recorta a la rapidez máxima.
pub fn mover_aleatoriamente(p: &mut Presa, rng: &mut ThreadRng)
    ensures
        exists|rx: i32, ry: i32| #[trigger]
            en_cuadrado(rx, ry, RUIDO_MOVIMIENTO) && presa_errante(old(p)@, final(p)@, rx, ry),
{
    let rx = sortear(rng, -RUIDO_MOVIMIENTO, RUIDO_MOVIMIENTO);
    let ry = sortear(rng, -RUIDO_MOVIMIENTO, RUIDO_MOVIMIENTO);
    p.mover_con_ruido(rx, ry);
    assert(en_cuadrado(rx, ry, RUIDO_MOVIMIENTO));
}

/// Pasada de movimiento de las presas. Cada presa dispuesta apunta hacia su
/// candidata más cercana, a un punto sorteado a menos de `RADIO_PRESA` de
/// ella en cada eje, o vaga con ruido si no tiene candidata.
pub fn movimiento_presas(presas: &mut Vec<Presa>, rng: &mut ThreadRng)
    ensures
        presas_movidas(estados(old(presas)@), estados(final(presas)@)),
{
    let n = presas.len();
    let ghost e0 = estados(presas@);
    let mut i: usize = 0;
    while i < n
        invariant
            i <= n,
            n == presas.len(),
            n == old(presas).len(),
            e0 == estados(old(presas)@),
            mismas_salvo_velocidad(e0, estados(presas@)),
            forall|k: int| 0 <= k < i ==> presa_movida(e0, k, (#[trigger] presas[k])@),
            forall|k: int| i <= k < n ==> #[trigger] presas[k] == old(presas)[k],
        decreases n - i,
    {
        let p = presas[i];
        let ghost antes = estados(presas@);
        proof {
            lema_pareja_ignora_velocidad(e0, antes, i as int);
            assert(antes[i as int] == e0[i as int]);
        }
        if p.esta_vivo() && p.modo_reproduccion() && p.cooldown() == 0 {
            match buscar_pareja(presas, i) {
                Some(j) => {
                    let pareja = presas[j];
                    let dx = sortear(rng, -RADIO_PRESA, RADIO_PRESA);
                    let dy = sortear(rng, -RADIO_PRESA, RADIO_PRESA);
                    let tx = suma_saturada(pareja.x(), dx);
                    let ty = suma_saturada(pareja.y(), dy);
                    presas[i].mover_hacia(tx, ty);
                    proof {
                        assert(en_cuadrado(dx, dy, RADIO_PRESA));
                        assert(tx == desplazada(e0[j as int].x, dx));
                        assert(ty == desplazada(e0[j as int].y, dy));
                    }
                },
                None => {
                    mover_aleatoriamente(&mut presas[i], rng);
                },
            }
        }
        assert(mismas_salvo_velocidad(e0, estados(presas@))) by {
            assert forall|k: int| 0 <= k < n implies #[trigger] estados(presas@)[k] == (
            EstadoPresa {
                vx: estados(presas@)[k].vx,
                vy: estados(presas@)[k].vy,
                ..e0[k]
            }) by {
                if k != i {
                    assert(antes[k] == presas[k]@);
                }
            }
        }
        i += 1;
    }
}

// ---------------------------------------------------------------------------
// Avance de un cuadro

/// La población de presas tras avanzar un cuadro cada una.
pub open spec fn presas_avanzadas(presas: Seq<EstadoPresa>, dt: u32, ancho: i32, alto: i32) -> Seq<
    EstadoPresa,
> {
    presas.map_values(|p: EstadoPresa| p.con_cuerpo(paso_cuerpo(p.cuerpo(), dt, ancho, alto)))
}

/// Los depredadores tras avanzar un cuadro cada uno.
pub open spec fn depredadores_avanzados(
    depredadores: Seq<EstadoDepredador>,
    dt: u32,
    ancho: i32,
    alto: i32,
) -> Seq<EstadoDepredador> {
    depredadores.map_values(
        |d: EstadoDepredador| d.con_cuerpo(paso_cuerpo(d.cuerpo(), dt, ancho, alto)),
    )
}

/// Avanza un cuadro de duración `dt` a cada presa y a cada depredador.
pub fn avanzar_organismos(
    presas: &mut Vec<Presa>,
    depredadores: &mut Vec<Depredador>,
    dt: u32,
    ancho: i32,
    alto: i32,
)
    ensures
        estados(final(presas)@) == presas_avanzadas(estados(old(presas)@), dt, ancho, alto),
        estados_depredadores(final(depredadores)@) == depredadores_avanzados(
            estados_depredadores(old(depredadores)@),
            dt,
            ancho,
            alto,
        ),
{
    let n = presas.len();
    let mut i: usize = 0;
    while i < n
        invariant
            i <= n,
            n == presas.len(),
            n == old(presas).len(),
            forall|k: int|
                0 <= k < i ==> (#[trigger] presas[k])@ == old(presas)[k]@.con_cuerpo(
                    paso_cuerpo(old(presas)[k]@.cuerpo(), dt, ancho, alto),
                ),
            forall|k: int| i <= k < n ==> #[trigger] presas[k] == old(presas)[k],
        decreases n - i,
    {
        presas[i].actualizar(dt, ancho, alto);
        i += 1;
    }
    let m = depredadores.len();
    let mut k: usize = 0;
    while k < m
        invariant
            k <= m,
            m == depredadores.len(),
            m == old(depredadores).len(),
            forall|j: int|
                0 <= j < k ==> (#[trigger] depredadores[j])@ == old(depredadores)[j]@.con_cuerpo(
                    paso_cuerpo(old(depredadores)[j]@.cuerpo(), dt, ancho, alto),
                ),
            forall|j: int| k <= j < m ==> #[trigger] depredadores[j] == old(depredadores)[j],
        decreases m - k,
    {
        depredadores[k].actualizar(dt, ancho, alto);
        k += 1;
    }
    assert(estados(presas@) =~= presas_avanzadas(estados(old(presas)@), dt, ancho, alto));
    assert(estados_depredadores(depredadores@) =~= depredadores_avanzados(
        estados_depredadores(old(depredadores)@),
        dt,
        ancho,
        alto,
    ));
}

// ---------------------------------------------------------------------------
// Depredadores en busca de presa

/// La presa `j` es mejor objetivo que la `k` para un depredador en `(x, y)`:
/// pesa más o, a igual peso, está estrictamente más cerca.
pub open spec fn mejor_objetivo(presas: Seq<EstadoPresa>, x: i32, y: i32, j: int, k: int) -> bool {
    presas[j].peso > presas[k].peso || (presas[j].peso == presas[k].peso && distancia2(
        x as int,
        y as int,
        presas[j].x as int,
        presas[j].y as int,
    ) < distancia2(x as int, y as int, presas[k].x as int, presas[k].y as int))
}

/// La presa `k` es un objetivo posible: existe y es cazable.
pub open spec fn objetivo_posible(presas: Seq<EstadoPresa>, k: int) -> bool {
    0 <= k < presas.len() && presas[k].cazable()
}

/// La presa `j` es el objetivo de un depredador en `(x, y)`: cazable, sin
/// otra mejor, y la primera en el orden de la población entre las que empatan.
pub open spec fn es_presa_preferida(presas: Seq<EstadoPresa>, x: i32, y: i32, j: int) -> bool {
    &&& objetivo_posible(presas, j)
    &&& forall|k: int| #[trigger]
        objetivo_posible(presas, k) ==> !mejor_objetivo(presas, x, y, k, j)
    &&& forall|k: int| #[trigger]
        objetivo_posible(presas, k) && k < j ==> mejor_objetivo(presas, x, y, j, k)
}

/// El objetivo de un depredador en `(x, y)`, si hay alguna presa cazable.
pub open spec fn presa_preferida(presas: Seq<EstadoPresa>, x: i32, y: i32) -> Option<int> {
    if exists|j: int| es_presa_preferida(presas, x, y, j) {
        Some(choose|j: int| es_presa_preferida(presas, x, y, j))
    } else {
        None
    }
}

/// El depredador tras la pasada de movimiento: si vive y hay objetivo,
/// apunta hacia él; si no, conserva su velocidad.
pub open spec fn depredador_orientado(
    d: EstadoDepredador,
    presas: Seq<EstadoPresa>,
) -> EstadoDepredador {
    if !d.vivo {
        d
    } else {
        match presa_preferida(presas, d.x, d.y) {
            Some(j) => d.apuntando_a(presas[j].x, presas[j].y),
            None => d,
        }
    }
}

/// El depredador `despues` lleva la rapidez máxima de los depredadores,
/// salvo redondeo, si `antes` vivía y tenía un objetivo fuera de su propia
/// posición.
pub open spec fn depredador_a_rapidez(
    antes: EstadoDepredador,
    despues: EstadoDepredador,
    presas: Seq<EstadoPresa>,
) -> bool {
    match presa_preferida(presas, antes.x, antes.y) {
        Some(j) => antes.vivo && (presas[j].x != antes.x || presas[j].y != antes.y) ==> con_rapidez(
            despues.vx as int,
            despues.vy as int,
            VEL_MAX_DEPREDADOR as int,
        ),
        None => true,
    }
}

/// Los depredadores tras la pasada de movimiento.
pub open spec fn orientados(depredadores: Seq<EstadoDepredador>, presas: Seq<EstadoPresa>) -> Seq<
    EstadoDepredador,
> {
    depredadores.map_values(|d: EstadoDepredador| depredador_orientado(d, presas))
}

/// El objetivo preferido es único.
pub proof fn lema_preferida_unica(presas: Seq<EstadoPresa>, x: i32, y: i32, j1: int, j2: int)
    requires
        es_presa_preferida(presas, x, y, j1),
        es_presa_preferida(presas, x, y, j2),
    ensures
        j1 == j2,
{
}

/// Quien cumple la definición es el objetivo elegido.
pub proof fn lema_presa_preferida(presas: Seq<EstadoPresa>, x: i32, y: i32, j: int)
    requires
        es_presa_preferida(presas, x, y, j),
    ensures
        presa_preferida(presas, x, y) == Some(j),
{
    let elegida = choose|k: int| es_presa_preferida(presas, x, y, k);
    lema_preferida_unica(presas, x, y, j, elegida);
}

/// Busca el objetivo de un depredador situado en `(x, y)`.
pub fn buscar_presa(presas: &[Presa], x: i32, y: i32) -> (objetivo: Option<usize>)
    ensures
        match objetivo {
            Some(j) => j < presas.len() && es_presa_preferida(estados(presas@), x, y, j as int)
                && presa_preferida(estados(presas@), x, y) == Some(j as int),
            None => presa_preferida(estados(presas@), x, y).is_none() && forall|k: int|
                !objetivo_posible(estados(presas@), k),
        },
{
    let n = presas.len();
    let ghost e = estados(presas@);
    let mut objetivo: Option<usize> = None;
    let mut peso_max: u32 = 0;
    let mut dist_min: u128 = 0;
    let mut j: usize = 0;
    while j < n
        invariant
            j <= n,
            n == presas.len(),
            e == estados(presas@),
            match objetivo {
                Some(b) => {
                    &&& b < j
                    &&& objetivo_posible(e, b as int)
                    &&& peso_max == e[b as int].peso
                    &&& dist_min == distancia2(
                        x as int,
                        y as int,
                        e[b as int].x as int,
                        e[b as int].y as int,
                    )
                    &&& forall|k: int| #[trigger]
                        objetivo_posible(e, k) && k < j ==> !mejor_objetivo(e, x, y, k, b as int)
                    &&& forall|k: int| #[trigger]
                        objetivo_posible(e, k) && k < b ==> mejor_objetivo(e, x, y, b as int, k)
                },
                None => forall|k: int| #[trigger] objetivo_posible(e, k) ==> k >= j,
            },
        decreases n - j,
    {
        let q = presas[j];
        if q.esta_vivo() && q.edad() >= q.especie().edad_sacrificio() {
            assert(objetivo_posible(e, j as int));
            let dist = distancia_cuadrada(x, y, q.x(), q.y());
            let peso = q.peso_actual();
            if objetivo.is_none() || peso > peso_max || (peso == peso_max && dist < dist_min) {
                peso_max = peso;
                dist_min = dist;
                objetivo = Some(j);
            }
        } else {
            assert(!objetivo_posible(e, j as int));
        }
        j += 1;
    }
    proof {
        match objetivo {
            Some(b) => {
                lema_presa_preferida(e, x, y, b as int);
            },
            None => {
                assert forall|k: int| !objetivo_posible(e, k) by {}
            },
        }
    }
    objetivo
}

/// Pasada de movimiento de los depredadores: cada depredador vivo apunta
/// hacia la presa cazable más pesada y, a igual peso, la más cercana.
pub fn depredadores_buscar_presas(depredadores: &mut Vec<Depredador>, presas: &[Presa])
    ensures
        estados_depredadores(final(depredadores)@) == orientados(
            estados_depredadores(old(depredadores)@),
            estados(presas@),
        ),
        forall|k: int|
            0 <= k < old(depredadores).len() ==> depredador_a_rapidez(
                old(depredadores)[k]@,
                (#[trigger] final(depredadores)[k])@,
                estados(presas@),
            ),
{
    let n = depredadores.len();
    let mut k: usize = 0;
    while k < n
        invariant
            k <= n,
            n == depredadores.len(),
            n == old(depredadores).len(),
            forall|j: int|
                0 <= j < k ==> (#[trigger] depredadores[j])@ == depredador_orientado(
                    old(depredadores)[j]@,
                    estados(presas@),
                ),
            forall|j: int| k <= j < n ==> #[trigger] depredadores[j] == old(depredadores)[j],
            forall|j: int|
                0 <= j < k ==> depredador_a_rapidez(
                    old(depredadores)[j]@,
                    (#[trigger] depredadores[j])@,
                    estados(presas@),
                ),
        decreases n - k,
    {
        let d = depredadores[k];
        if d.esta_vivo() {
            match buscar_presa(presas, d.x(), d.y()) {
                Some(j) => {
                    let obj = presas[j];
                    depredadores[k].mover_hacia(obj.x(), obj.y());
                },
                None => {},
            }
        }
        k += 1;
    }
    assert(estados_depredadores(depredadores@) =~= orientados(
        estados_depredadores(old(depredadores)@),
        estados(presas@),
    ));
}

} // verus!
