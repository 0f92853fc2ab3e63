//! Reproducción: emparejamiento, camadas y tope de población.

use vstd::prelude::*;
use rand::rngs::ThreadRng;
use crate::entidades::especie::Especie;
use crate::entidades::presa::{estados, vivas, vivas_hasta, EstadoPresa, Presa};
use crate::sistemas::colisiones::{colision, se_tocan};
use crate::sistemas::movimiento::{desplazada, en_cuadrado};
use crate::utilidades::azar::sortear;
use crate::utilidades::configuraciones::{
    ESPERA_REPRODUCCION, RADIO_APARICION_CRIA, VEL_MAX_PRESA,
};
use crate::utilidades::fijo::suma_saturada;

verus! {

/// Cota del número de crías, y por tanto de apareamientos con crías, que
/// una pasada puede dar: la suma de los topes de población.
pub const MAX_NACIMIENTOS_POR_PASADA: u32 = 95;

// ---------------------------------------------------------------------------
// Parejas

/// Dos presas pueden reproducirse entre sí: vivas, de la misma especie, sin
/// espera pendiente, en edad fértil, de sexos opuestos y tocándose.
pub open spec fn compatibles(a: EstadoPresa, b: EstadoPresa) -> bool {
    &&& a.viva && b.viva
    &&& a.especie == b.especie
    &&& a.cooldown == 0 && b.cooldown == 0
    &&& a.edad >= a.especie.edad_fertil()
    &&& b.edad >= b.especie.edad_fertil()
    &&& a.sexo != b.sexo
    &&& se_tocan(a.cuerpo(), b.cuerpo())
}

/// Las presas `i` y `j`, con `i` antes que `j`, forman una pareja reproductora.
pub open spec fn pareja_valida(presas: Seq<EstadoPresa>, i: int, j: int) -> bool {
    0 <= i < j < presas.len() && compatibles(presas[i], presas[j])
}

/// Orden de recorrido de las parejas: por primer índice y luego por segundo.
pub open spec fn antes_que(a: (usize, usize), b: (usize, usize)) -> bool {
    a.0 < b.0 || (a.0 == b.0 && a.1 < b.1)
}

/// `parejas` son exactamente las parejas reproductoras de la población, en
/// orden de recorrido.
pub open spec fn son_las_parejas(presas: Seq<EstadoPresa>, parejas: Seq<(usize, usize)>) -> bool {
    &&& forall|k: int|
        0 <= k < parejas.len() ==> pareja_valida(
            presas,
            (#[trigger] parejas[k]).0 as int,
            parejas[k].1 as int,
        )
    &&& forall|k1: int, k2: int|
        0 <= k1 < k2 < parejas.len() ==> antes_que(#[trigger] parejas[k1], #[trigger] parejas[k2])
    &&& forall|i: int, j: int| #[trigger]
        pareja_valida(presas, i, j) ==> parejas.contains((i as usize, j as usize))
}

/// Todos los índices de las parejas caen dentro de una población de `n` presas.
pub open spec fn parejas_en_rango(parejas: Seq<(usize, usize)>, n: nat) -> bool {
    forall|k: int| 0 <= k < parejas.len() ==> (#[trigger] parejas[k]).0 < n && parejas[k].1 < n
}

/// La presa `i` figura en alguna de las primeras `hasta` parejas.
pub open spec fn es_progenitor(parejas: Seq<(usize, usize)>, i: int, hasta: int) -> bool
    decreases hasta,
{
    hasta > 0 && (es_progenitor(parejas, i, hasta - 1) || parejas[hasta - 1].0 == i
        || parejas[hasta - 1].1 == i)
}

// ---------------------------------------------------------------------------
// Camadas y tope de población

/// Lugares libres bajo el tope para una población dada.
pub open spec fn cupo(tope: nat, poblacion: nat) -> nat {
    if tope > poblacion {
        (tope - poblacion) as nat
    } else {
        0
    }
}

/// Especie de la pareja `k`.
pub open spec fn especie_de(
    presas: Seq<EstadoPresa>,
    parejas: Seq<(usize, usize)>,
    k: int,
) -> Especie {
    presas[parejas[k].0 as int].especie
}

/// Crías de la especie dada que nacen de las primeras `k` parejas. Cada
/// pareja tiene las crías de su camada sorteada que caben bajo el tope,
/// contando como población las presas vivas y las crías ya nacidas en la pasada.
pub open spec fn nacidas(
    presas: Seq<EstadoPresa>,
    parejas: Seq<(usize, usize)>,
    camadas: Seq<usize>,
    especie: Especie,
    k: int,
) -> nat
    decreases k,
{
    if k <= 0 {
        0
    } else {
        let previas = nacidas(presas, parejas, camadas, especie, k - 1);
        if especie_de(presas, parejas, k - 1) == especie {
            let libres = cupo(especie.tope() as nat, vivas(presas, especie) + previas);
            previas + if camadas[k - 1] <= libres {
                camadas[k - 1] as nat
            } else {
                libres
            }
        } else {
            previas
        }
    }
}

/// Crías que nacen de la pareja `k`.
pub open spec fn crias_de(
    presas: Seq<EstadoPresa>,
    parejas: Seq<(usize, usize)>,
    camadas: Seq<usize>,
    k: int,
) -> nat {
    let especie = especie_de(presas, parejas, k);
    (nacidas(presas, parejas, camadas, especie, k + 1) - nacidas(
        presas,
        parejas,
        camadas,
        especie,
        k,
    )) as nat
}

/// Crías que nacen, en total, de las primeras `k` parejas.
pub open spec fn nacidas_en_total(
    presas: Seq<EstadoPresa>,
    parejas: Seq<(usize, usize)>,
    camadas: Seq<usize>,
    k: int,
) -> nat
    decreases k,
{
    if k <= 0 {
        0
    } else {
        nacidas_en_total(presas, parejas, camadas, k - 1) + crias_de(
            presas,
            parejas,
            camadas,
            k - 1,
        )
    }
}

/// Cuántas de las primeras `k` parejas tienen al menos una cría.
pub open spec fn apareamientos(
    presas: Seq<EstadoPresa>,
    parejas: Seq<(usize, usize)>,
    camadas: Seq<usize>,
    k: int,
) -> nat
    decreases k,
{
    if k <= 0 {
        0
    } else {
        apareamientos(presas, parejas, camadas, k - 1) + if crias_de(
            presas,
            parejas,
            camadas,
            k - 1,
        ) > 0 {
            1nat
        } else {
            0nat
        }
    }
}

/// `cria` es una cría de `madre`: recién nacida, de su especie, a menos de
/// `RADIO_APARICION_CRIA` de ella en cada eje y con velocidad dentro de los
/// límites.
pub open spec fn es_cria_de(cria: EstadoPresa, madre: EstadoPresa) -> bool {
    &&& -VEL_MAX_PRESA <= cria.vx < VEL_MAX_PRESA
    &&& -VEL_MAX_PRESA <= cria.vy < VEL_MAX_PRESA
    &&& exists|dx: i32, dy: i32| #[trigger]
        en_cuadrado(dx, dy, RADIO_APARICION_CRIA) && cria == EstadoPresa::recien_nacida(
            desplazada(madre.x, dx),
            desplazada(madre.y, dy),
            madre.especie,
            cria.sexo,
            cria.vx,
            cria.vy,
        )
}

/// `nuevas` son las crías de las primeras `k` parejas, en orden: las de cada
/// pareja juntas y junto a la primera presa de la pareja.
pub open spec fn crias_en_orden(
    presas: Seq<EstadoPresa>,
    parejas: Seq<(usize, usize)>,
    camadas: Seq<usize>,
    nuevas: Seq<EstadoPresa>,
    k: int,
) -> bool {
    forall|q: int, m: int|
        0 <= q < k && nacidas_en_total(presas, parejas, camadas, q) <= m < nacidas_en_total(
            presas,
            parejas,
            camadas,
            q + 1,
        ) && m < nuevas.len() ==> es_cria_de(
            #[trigger] nuevas[m],
            presas[(#[trigger] parejas[q]).0 as int],
        )
}

/// `despues` es la población `antes` tras una pasada de reproducción con
/// las parejas y camadas dadas: las presas de antes siguen en su lugar, las
/// que forman pareja con la espera de reproducción puesta, y las crías se
/// añaden al final en orden.
pub open spec fn pasada_de_reproduccion(
    antes: Seq<EstadoPresa>,
    despues: Seq<EstadoPresa>,
    parejas: Seq<(usize, usize)>,
    camadas: Seq<usize>,
) -> bool {
    let n = antes.len() as int;
    let total = nacidas_en_total(antes, parejas, camadas, parejas.len() as int);
    &&& despues.len() == n + total
    &&& forall|i: int|
        0 <= i < n ==> #[trigger] despues[i] == if es_progenitor(parejas, i, parejas.len() as int) {
            EstadoPresa { cooldown: ESPERA_REPRODUCCION, ..antes[i] }
        } else {
            antes[i]
        }
    &&& crias_en_orden(
        antes,
        parejas,
        camadas,
        despues.subrange(n, despues.len() as int),
        parejas.len() as int,
    )
    &&& vivas(despues, Especie::Conejo) == vivas(antes, Especie::Conejo) + nacidas(
        antes,
        parejas,
        camadas,
        Especie::Conejo,
        parejas.len() as int,
    )
    &&& vivas(despues, Especie::Raton) == vivas(antes, Especie::Raton) + nacidas(
        antes,
        parejas,
        camadas,
        Especie::Raton,
        parejas.len() as int,
    )
    &&& vivas(despues, Especie::Ardilla) == vivas(antes, Especie::Ardilla) + nacidas(
        antes,
        parejas,
        camadas,
        Especie::Ardilla,
        parejas.len() as int,
    )
}

/// Cada camada es un tamaño posible para la especie de su pareja.
pub open spec fn camadas_posibles(
    presas: Seq<EstadoPresa>,
    parejas: Seq<(usize, usize)>,
    camadas: Seq<usize>,
) -> bool {
    &&& camadas.len() == parejas.len()
    &&& forall|k: int|
        0 <= k < camadas.len() ==> #[trigger] camadas[k] < especie_de(
            presas,
            parejas,
            k,
        ).camadas().len()
}

// ---------------------------------------------------------------------------
// Leyes

/// Las crías nacidas de una especie nunca pasan de los lugares que la
/// especie tenía libres al empezar la pasada.
pub proof fn lema_nacidas_bajo_cupo(
    presas: Seq<EstadoPresa>,
    parejas: Seq<(usize, usize)>,
    camadas: Seq<usize>,
    especie: Especie,
    k: int,
)
    ensures
        nacidas(presas, parejas, camadas, especie, k) <= cupo(
            especie.tope() as nat,
            vivas(presas, especie),
        ),
        k > 0 ==> nacidas(presas, parejas, camadas, especie, k - 1) <= nacidas(
            presas,
            parejas,
            camadas,
            especie,
            k,
        ),
    decreases k,
{
    if k > 0 {
        lema_nacidas_bajo_cupo(presas, parejas, camadas, especie, k - 1);
    }
}

/// El total de crías es la suma de las crías de cada especie.
pub proof fn lema_total_por_especie(
    presas: Seq<EstadoPresa>,
    parejas: Seq<(usize, usize)>,
    camadas: Seq<usize>,
    k: int,
)
    ensures
        nacidas_en_total(presas, parejas, camadas, k) == nacidas(
            presas,
            parejas,
            camadas,
            Especie::Conejo,
            k,
        ) + nacidas(presas, parejas, camadas, Especie::Raton, k) + nacidas(
            presas,
            parejas,
            camadas,
            Especie::Ardilla,
            k,
        ),
        nacidas_en_total(presas, parejas, camadas, k) <= MAX_NACIMIENTOS_POR_PASADA,
        apareamientos(presas, parejas, camadas, k) <= nacidas_en_total(presas, parejas, camadas, k),
        k > 0 ==> nacidas_en_total(presas, parejas, camadas, k - 1) <= nacidas_en_total(
            presas,
            parejas,
            camadas,
            k,
        ),
    decreases k,
{
    lema_nacidas_bajo_cupo(presas, parejas, camadas, Especie::Conejo, k);
    lema_nacidas_bajo_cupo(presas, parejas, camadas, Especie::Raton, k);
    lema_nacidas_bajo_cupo(presas, parejas, camadas, Especie::Ardilla, k);
    if k > 0 {
        lema_total_por_especie(presas, parejas, camadas, k - 1);
        lema_nacidas_bajo_cupo(presas, parejas, camadas, especie_de(presas, parejas, k - 1), k);
    }
}

/// Tras una pasada de reproducción ninguna especie que estaba dentro de su
/// tope lo supera; una que ya lo superaba no crece.
pub proof fn lema_reproduccion_respeta_tope(
    antes: Seq<EstadoPresa>,
    despues: Seq<EstadoPresa>,
    parejas: Seq<(usize, usize)>,
    camadas: Seq<usize>,
    especie: Especie,
)
    requires
        pasada_de_reproduccion(antes, despues, parejas, camadas),
    ensures
        vivas(antes, especie) <= especie.tope() ==> vivas(despues, especie) <= especie.tope(),
        vivas(antes, especie) > especie.tope() ==> vivas(despues, especie) == vivas(antes, especie),
{
    lema_nacidas_bajo_cupo(antes, parejas, camadas, especie, parejas.len() as int);
}

/// La cuenta de vivas solo mira si cada presa vive y de qué especie es.
pub proof fn lema_vivas_iguales(
    a: Seq<EstadoPresa>,
    b: Seq<EstadoPresa>,
    especie: Especie,
    hasta: int,
)
    requires
        forall|i: int|
            0 <= i < hasta ==> (#[trigger] a[i]).viva == b[i].viva && a[i].especie == b[i].especie,
    ensures
        vivas_hasta(a, especie, hasta) == vivas_hasta(b, especie, hasta),
    decreases hasta,
{
    if hasta > 0 {
        lema_vivas_iguales(a, b, especie, hasta - 1);
    }
}

/// Las vivas de una población seguida de otra son la suma de las de cada una.
proof fn lema_vivas_concatenadas(
    completa: Seq<EstadoPresa>,
    cola: Seq<EstadoPresa>,
    n: int,
    especie: Especie,
    t: int,
)
    requires
        0 <= n,
        0 <= t <= cola.len(),
        completa.len() == n + cola.len(),
        forall|m: int| 0 <= m < cola.len() ==> #[trigger] completa[n + m] == cola[m],
    ensures
        vivas_hasta(completa, especie, n + t) == vivas_hasta(completa, especie, n) + vivas_hasta(
            cola,
            especie,
            t,
        ),
    decreases t,
{
    if t > 0 {
        lema_vivas_concatenadas(completa, cola, n, especie, t - 1);
        assert(completa[n + (t - 1)] == cola[t - 1]);
    }
}

// ---------------------------------------------------------------------------
// Cálculo

/// Dice si dos presas pueden reproducirse entre sí.
pub fn es_pareja(a: &Presa, b: &Presa) -> (si: bool)
    ensures
        si == compatibles(a@, b@),
{
    a.esta_vivo() && b.esta_vivo() && a.especie() == b.especie() && a.cooldown() == 0
        && b.cooldown() == 0 && a.edad() >= a.especie().edad_reproduccion() && b.edad()
        >= b.especie().edad_reproduccion() && a.sexo() != b.sexo() && colision(a, b)
}

/// Cuenta las presas vivas de la especie dada.
pub fn poblacion_viva(presas: &Vec<Presa>, especie: Especie) -> (n: usize)
    ensures
        n == vivas(estados(presas@), especie),
        n <= presas.len(),
{
    let mut n: usize = 0;
    let mut i: usize = 0;
    while i < presas.len()
        invariant
            i <= presas.len(),
            n == vivas_hasta(estados(presas@), especie, i as int),
            n <= i,
        decreases presas.len() - i,
    {
        let p = presas[i];
        if p.esta_vivo() && p.especie() == especie {
            n += 1;
        }
        i += 1;
    }
    n
}

/// Recorre todos los pares de presas y devuelve las parejas reproductoras,
/// en orden de recorrido.
pub fn parejas_reproductoras(presas: &Vec<Presa>) -> (parejas: Vec<(usize, usize)>)
    ensures
        son_las_parejas(estados(presas@), parejas@),
        parejas_en_rango(parejas@, presas.len() as nat),
{
    let n = presas.len();
    let ghost e = estados(presas@);
    let mut parejas: Vec<(usize, usize)> = Vec::new();
    let mut i: usize = 0;
    while i < n
        invariant
            i <= n,
            n == presas.len(),
            e == estados(presas@),
            parejas_en_rango(parejas@, n as nat),
            forall|k: int|
                0 <= k < parejas.len() ==> pareja_valida(
                    e,
                    (#[trigger] parejas[k]).0 as int,
                    parejas[k].1 as int,
                ) && parejas[k].0 < i,
            forall|k1: int, k2: int|
                0 <= k1 < k2 < parejas.len() ==> antes_que(
                    #[trigger] parejas[k1],
                    #[trigger] parejas[k2],
                ),
            forall|a: int, b: int| #[trigger]
                pareja_valida(e, a, b) && a < i ==> parejas@.contains((a as usize, b as usize)),
        decreases n - i,
    {
        let mut j: usize = i + 1;
        while j < n
            invariant
                i < n,
                i + 1 <= j <= n,
                n == presas.len(),
                e == estados(presas@),
                parejas_en_rango(parejas@, n as nat),
                forall|k: int|
                    0 <= k < parejas.len() ==> pareja_valida(
                        e,
                        (#[trigger] parejas[k]).0 as int,
                        parejas[k].1 as int,
                    ) && antes_que(parejas[k], (i, j)),
                forall|k1: int, k2: int|
                    0 <= k1 < k2 < parejas.len() ==> antes_que(
                        #[trigger] parejas[k1],
                        #[trigger] parejas[k2],
                    ),
                forall|a: int, b: int| #[trigger]
                    pareja_valida(e, a, b) && (a < i || (a == i && b < j)) ==> parejas@.contains(
                        (a as usize, b as usize),
                    ),
            decreases n - j,
        {
            let ghost previas = parejas@;
            if es_pareja(&presas[i], &presas[j]) {
                parejas.push((i, j));
                proof {
                    assert(parejas@[previas.len() as int] == (i, j));
                    assert forall|a: int, b: int| #[trigger]
                        pareja_valida(e, a, b) && (a < i || (a == i && b < j + 1))
                        implies parejas@.contains((a as usize, b as usize)) by {
                        if a == i && b == j {
                            assert(parejas@[previas.len() as int] == (a as usize, b as usize));
                        } else {
                            assert(previas.contains((a as usize, b as usize)));
                            let idx = choose|idx: int|
                                0 <= idx < previas.len() && previas[idx] == (
                                    a as usize,
                                    b as usize,
                                );
                            assert(parejas@[idx] == (a as usize, b as usize));
                        }
                    }
                }
            }
            j += 1;
        }
        i += 1;
    }
    parejas
}

/// Las crías `nuevas` cuadran, especie por especie, con las que nacen de
/// las primeras `k` parejas.
pub open spec fn crias_contadas(
    presas: Seq<EstadoPresa>,
    parejas: Seq<(usize, usize)>,
    camadas: Seq<usize>,
    nuevas: Seq<EstadoPresa>,
    k: int,
) -> bool {
    &&& nuevas.len() == nacidas_en_total(presas, parejas, camadas, k)
    &&& vivas(nuevas, Especie::Conejo) == nacidas(presas, parejas, camadas, Especie::Conejo, k)
    &&& vivas(nuevas, Especie::Raton) == nacidas(presas, parejas, camadas, Especie::Raton, k)
    &&& vivas(nuevas, Especie::Ardilla) == nacidas(presas, parejas, camadas, Especie::Ardilla, k)
}

/// Una cría vive y es de la especie de su madre.
proof fn lema_cria_viva(cria: EstadoPresa, madre: EstadoPresa)
    requires
        es_cria_de(cria, madre),
    ensures
        cria.viva,
        cria.especie == madre.especie,
{
    let (dx, dy) = choose|dx: i32, dy: i32| #[trigger]
        en_cuadrado(dx, dy, RADIO_APARICION_CRIA) && cria == EstadoPresa::recien_nacida(
            desplazada(madre.x, dx),
            desplazada(madre.y, dy),
            madre.especie,
            cria.sexo,
            cria.vx,
            cria.vy,
        );
}

/// Añadir al final una camada de crías de una madre suma su número a las
/// vivas de la especie de la madre y deja igual las demás.
proof fn lema_vivas_tras_camada(
    base: Seq<EstadoPresa>,
    nuevas: Seq<EstadoPresa>,
    madre: EstadoPresa,
    especie: Especie,
    hasta: int,
)
    requires
        base.len() <= hasta <= nuevas.len(),
        forall|t: int| 0 <= t < base.len() ==> #[trigger] nuevas[t] == base[t],
        forall|t: int| base.len() <= t < nuevas.len() ==> es_cria_de(#[trigger] nuevas[t], madre),
    ensures
        vivas_hasta(nuevas, especie, hasta) == vivas(base, especie) + if especie == madre.especie {
            hasta - base.len()
        } else {
            0
        },
    decreases hasta,
{
    if hasta == base.len() {
        lema_vivas_iguales(nuevas, base, especie, hasta);
    } else {
        lema_vivas_tras_camada(base, nuevas, madre, especie, hasta - 1);
        lema_cria_viva(nuevas[hasta - 1], madre);
    }
}

/// Lo que la pareja `k` suma a las nacidas de cada especie.
proof fn lema_nacidas_paso(
    presas: Seq<EstadoPresa>,
    parejas: Seq<(usize, usize)>,
    camadas: Seq<usize>,
    especie: Especie,
    k: int,
)
    requires
        0 <= k,
    ensures
        nacidas(presas, parejas, camadas, especie, k + 1) == nacidas(
            presas,
            parejas,
            camadas,
            especie,
            k,
        ) + if especie_de(presas, parejas, k) == especie {
            crias_de(presas, parejas, camadas, k)
        } else {
            0
        },
{
    lema_nacidas_bajo_cupo(presas, parejas, camadas, especie, k + 1);
}

/// Con la camada de la pareja `k` añadida, las crías cuadran en número con
/// las de las primeras `k + 1` parejas.
proof fn lema_paso_contado(
    presas: Seq<EstadoPresa>,
    parejas: Seq<(usize, usize)>,
    camadas: Seq<usize>,
    base: Seq<EstadoPresa>,
    nuevas: Seq<EstadoPresa>,
    k: int,
)
    requires
        0 <= k < parejas.len(),
        crias_contadas(presas, parejas, camadas, base, k),
        nuevas.len() == base.len() + crias_de(presas, parejas, camadas, k),
        forall|t: int| 0 <= t < base.len() ==> #[trigger] nuevas[t] == base[t],
        forall|t: int|
            base.len() <= t < nuevas.len() ==> es_cria_de(
                #[trigger] nuevas[t],
                presas[parejas[k].0 as int],
            ),
    ensures
        crias_contadas(presas, parejas, camadas, nuevas, k + 1),
{
    let madre = presas[parejas[k].0 as int];
    lema_vivas_tras_camada(base, nuevas, madre, Especie::Conejo, nuevas.len() as int);
    lema_vivas_tras_camada(base, nuevas, madre, Especie::Raton, nuevas.len() as int);
    lema_vivas_tras_camada(base, nuevas, madre, Especie::Ardilla, nuevas.len() as int);
    lema_nacidas_paso(presas, parejas, camadas, Especie::Conejo, k);
    lema_nacidas_paso(presas, parejas, camadas, Especie::Raton, k);
    lema_nacidas_paso(presas, parejas, camadas, Especie::Ardilla, k);
    assert(nacidas_en_total(presas, parejas, camadas, k + 1) == nacidas_en_total(
        presas,
        parejas,
        camadas,
        k,
    ) + crias_de(presas, parejas, camadas, k));
}

/// Con la camada de la pareja `k` añadida, las crías siguen en orden.
proof fn lema_paso_en_orden(
    presas: Seq<EstadoPresa>,
    parejas: Seq<(usize, usize)>,
    camadas: Seq<usize>,
    base: Seq<EstadoPresa>,
    nuevas: Seq<EstadoPresa>,
    k: int,
)
    requires
        0 <= k < parejas.len(),
        base.len() == nacidas_en_total(presas, parejas, camadas, k),
        crias_en_orden(presas, parejas, camadas, base, k),
        forall|t: int| 0 <= t < base.len() ==> #[trigger] nuevas[t] == base[t],
        forall|t: int|
            base.len() <= t < nuevas.len() ==> es_cria_de(
                #[trigger] nuevas[t],
                presas[parejas[k].0 as int],
            ),
    ensures
        crias_en_orden(presas, parejas, camadas, nuevas, k + 1),
{
    assert forall|q: int, m: int|
        0 <= q < k + 1 && nacidas_en_total(presas, parejas, camadas, q) <= m < nacidas_en_total(
            presas,
            parejas,
            camadas,
            q + 1,
        ) && m < nuevas.len() implies es_cria_de(
        #[trigger] nuevas[m],
        presas[(#[trigger] parejas[q]).0 as int],
    ) by {
        if q < k {
            lema_total_monotono(presas, parejas, camadas, q + 1, k);
            assert(nuevas[m] == base[m]);
            assert(es_cria_de(base[m], presas[parejas[q].0 as int]));
        } else {
            assert(m >= base.len());
        }
    }
}

/// Crea junto a `madre` tantas crías de su especie como `cantidad` y las
/// añade al final de `nuevas`.
fn nacer_crias(madre: &Presa, cantidad: usize, nuevas: &mut Vec<Presa>, rng: &mut ThreadRng)
    ensures
        final(nuevas).len() == old(nuevas).len() + cantidad,
        forall|t: int| 0 <= t < old(nuevas).len() ==> #[trigger] final(nuevas)[t] == old(nuevas)[t],
        forall|t: int|
            old(nuevas).len() <= t < final(nuevas).len() ==> es_cria_de(
                (#[trigger] final(nuevas)[t])@,
                madre@,
            ),
{
    let especie = madre.especie();
    let mut m: usize = 0;
    while m < cantidad
        invariant
            m <= cantidad,
            especie == madre@.especie,
            nuevas.len() == old(nuevas).len() + m,
            forall|t: int| 0 <= t < old(nuevas).len() ==> #[trigger] nuevas[t] == old(nuevas)[t],
            forall|t: int|
                old(nuevas).len() <= t < nuevas.len() ==> es_cria_de(
                    (#[trigger] nuevas[t])@,
                    madre@,
                ),
        decreases cantidad - m,
    {
        let dx = sortear(rng, -RADIO_APARICION_CRIA, RADIO_APARICION_CRIA);
        let dy = sortear(rng, -RADIO_APARICION_CRIA, RADIO_APARICION_CRIA);
        let cria = Presa::crear_cria(
            suma_saturada(madre.x(), dx),
            suma_saturada(madre.y(), dy),
            especie,
            rng,
        );
        proof {
            assert(en_cuadrado(dx, dy, RADIO_APARICION_CRIA));
            assert(es_cria_de(cria@, madre@));
        }
        nuevas.push(cria);
        m += 1;
    }
}

/// Crea las crías de todas las parejas, en orden, sin tocar la población.
fn criar(
    presas: &Vec<Presa>,
    parejas: &Vec<(usize, usize)>,
    camadas: &Vec<usize>,
    reproducciones_diarias: &mut u32,
    rng: &mut ThreadRng,
) -> (nuevas: Vec<Presa>)
    requires
        camadas.len() == parejas.len(),
        parejas_en_rango(parejas@, presas.len() as nat),
        *old(reproducciones_diarias) + MAX_NACIMIENTOS_POR_PASADA <= u32::MAX,
    ensures
        crias_contadas(
            estados(presas@),
            parejas@,
            camadas@,
            estados(nuevas@),
            parejas.len() as int,
        ),
        crias_en_orden(
            estados(presas@),
            parejas@,
            camadas@,
            estados(nuevas@),
            parejas.len() as int,
        ),
        *final(reproducciones_diarias) == *old(reproducciones_diarias) + apareamientos(
            estados(presas@),
            parejas@,
            camadas@,
            parejas.len() as int,
        ),
{
    let total_parejas = parejas.len();
    let ghost e0 = estados(presas@);
    let ghost ps = parejas@;
    let ghost cs = camadas@;
    let mut nuevas: Vec<Presa> = Vec::new();
    let mut k: usize = 0;
    while k < total_parejas
        invariant
            k <= total_parejas,
            total_parejas == parejas.len(),
            camadas.len() == parejas.len(),
            ps == parejas@,
            cs == camadas@,
            e0 == estados(presas@),
            parejas_en_rango(ps, presas.len() as nat),
            crias_contadas(e0, ps, cs, estados(nuevas@), k as int),
            crias_en_orden(e0, ps, cs, estados(nuevas@), k as int),
            *old(reproducciones_diarias) + MAX_NACIMIENTOS_POR_PASADA <= u32::MAX,
            *reproducciones_diarias == *old(reproducciones_diarias) + apareamientos(
                e0,
                ps,
                cs,
                k as int,
            ),
        decreases total_parejas - k,
    {
        let i = parejas[k].0;
        let madre = presas[i];
        let especie = madre.especie();
        let vivos = poblacion_viva(presas, especie);
        let pendientes = poblacion_viva(&nuevas, especie);
        let espacio = especie.poblacion_maxima().saturating_sub(vivos.saturating_add(pendientes));
        let n_crias = camadas[k];
        let n_a_crear = if n_crias <= espacio {
            n_crias
        } else {
            espacio
        };
        let ghost base = estados(nuevas@);
        proof {
            assert(especie == especie_de(e0, ps, k as int));
            assert(pendientes == nacidas(e0, ps, cs, especie, k as int));
            assert(n_a_crear == crias_de(e0, ps, cs, k as int));
            lema_total_por_especie(e0, ps, cs, k as int + 1);
        }
        nacer_crias(&madre, n_a_crear, &mut nuevas, rng);
        proof {
            lema_paso_contado(e0, ps, cs, base, estados(nuevas@), k as int);
            lema_paso_en_orden(e0, ps, cs, base, estados(nuevas@), k as int);
        }
        if n_a_crear > 0 {
            *reproducciones_diarias += 1;
        }
        k += 1;
    }
    nuevas
}

/// Añade las crías al final de la población.
fn agregar_crias(presas: &mut Vec<Presa>, nuevas: &Vec<Presa>)
    ensures
        final(presas).len() == old(presas).len() + nuevas.len(),
        forall|i: int| 0 <= i < old(presas).len() ==> #[trigger] final(presas)[i] == old(presas)[i],
        forall|m: int|
            0 <= m < nuevas.len() ==> #[trigger] final(presas)[old(presas).len() + m] == nuevas[m],
{
    let total = nuevas.len();
    let mut t: usize = 0;
    while t < total
        invariant
            t <= total,
            total == nuevas.len(),
            presas.len() == old(presas).len() + t,
            forall|i: int| 0 <= i < old(presas).len() ==> #[trigger] presas[i] == old(presas)[i],
            forall|m: int| 0 <= m < t ==> #[trigger] presas[old(presas).len() + m] == nuevas[m],
        decreases total - t,
    {
        presas.push(nuevas[t]);
        t += 1;
    }
}

/// Pone la espera de reproducción a toda presa que forma pareja.
fn aplicar_esperas(presas: &mut Vec<Presa>, parejas: &Vec<(usize, usize)>)
    requires
        parejas_en_rango(parejas@, old(presas).len() as nat),
    ensures
        final(presas).len() == old(presas).len(),
        forall|i: int|
            0 <= i < old(presas).len() ==> (#[trigger] final(presas)[i])@ == if es_progenitor(
                parejas@,
                i,
                parejas.len() as int,
            ) {
                EstadoPresa { cooldown: ESPERA_REPRODUCCION, ..old(presas)[i]@ }
            } else {
                old(presas)[i]@
            },
        forall|i: int|
            0 <= i < old(presas).len() && !es_progenitor(parejas@, i, parejas.len() as int)
                ==> #[trigger] final(presas)[i] == old(presas)[i],
{
    let n = presas.len();
    let mut k: usize = 0;
    while k < parejas.len()
        invariant
            k <= parejas.len(),
            n == presas.len(),
            n == old(presas).len(),
            parejas_en_rango(parejas@, n as nat),
            forall|i: int|
                0 <= i < n ==> (#[trigger] presas[i])@ == if es_progenitor(parejas@, i, k as int) {
                    EstadoPresa { cooldown: ESPERA_REPRODUCCION, ..old(presas)[i]@ }
                } else {
                    old(presas)[i]@
                },
            forall|i: int|
                0 <= i < n && !es_progenitor(parejas@, i, k as int) ==> #[trigger] presas[i] == old(
                    presas,
                )[i],
        decreases parejas.len() - k,
    {
        let (i, j) = parejas[k];
        presas[i].set_cooldown(ESPERA_REPRODUCCION);
        presas[j].set_cooldown(ESPERA_REPRODUCCION);
        k += 1;
    }
}

/// Una población con esperas cambiadas y crías añadidas al final es el
/// resultado de la pasada.
proof fn lema_pasada(
    antes: Seq<EstadoPresa>,
    despues: Seq<EstadoPresa>,
    parejas: Seq<(usize, usize)>,
    camadas: Seq<usize>,
    crias: Seq<EstadoPresa>,
)
    requires
        crias_contadas(antes, parejas, camadas, crias, parejas.len() as int),
        crias_en_orden(antes, parejas, camadas, crias, parejas.len() as int),
        despues.len() == antes.len() + crias.len(),
        forall|i: int|
            0 <= i < antes.len() ==> #[trigger] despues[i] == if es_progenitor(
                parejas,
                i,
                parejas.len() as int,
            ) {
                EstadoPresa { cooldown: ESPERA_REPRODUCCION, ..antes[i] }
            } else {
                antes[i]
            },
        forall|m: int| 0 <= m < crias.len() ==> #[trigger] despues[antes.len() + m] == crias[m],
    ensures
        pasada_de_reproduccion(antes, despues, parejas, camadas),
{
    let n = antes.len() as int;
    assert(despues.subrange(n, despues.len() as int) =~= crias) by {
        assert forall|m: int| 0 <= m < crias.len() implies despues.subrange(
            n,
            despues.len() as int,
        )[m] == crias[m] by {
            assert(despues[n + m] == crias[m]);
        }
    }
    assert forall|especie: Especie| true implies #[trigger] vivas(despues, especie) == vivas(
        antes,
        especie,
    ) + vivas(crias, especie) by {
        lema_vivas_iguales(despues, antes, especie, n);
        lema_vivas_concatenadas(despues, crias, n, especie, crias.len() as int);
    }
    assert(vivas(despues, Especie::Conejo) == vivas(antes, Especie::Conejo) + vivas(
        crias,
        Especie::Conejo,
    ));
    assert(vivas(despues, Especie::Raton) == vivas(antes, Especie::Raton) + vivas(
        crias,
        Especie::Raton,
    ));
    assert(vivas(despues, Especie::Ardilla) == vivas(antes, Especie::Ardilla) + vivas(
        crias,
        Especie::Ardilla,
    ));
}

/// Pasada de reproducción con las parejas y los tamaños de camada ya
/// decididos. De cada pareja nacen las crías de su camada que caben bajo el
/// tope de la especie, junto a la primera presa de la pareja y con rasgos
/// sorteados; un apareamiento cuenta si da al menos una cría. Las crías se
/// añaden a la población al final, y entonces toda presa que forma pareja
/// queda con la espera de reproducción.
pub fn reproducir_camadas(
    presas: &mut Vec<Presa>,
    parejas: &Vec<(usize, usize)>,
    camadas: &Vec<usize>,
    reproducciones_diarias: &mut u32,
    rng: &mut ThreadRng,
)
    requires
        camadas.len() == parejas.len(),
        parejas_en_rango(parejas@, old(presas).len() as nat),
        *old(reproducciones_diarias) + MAX_NACIMIENTOS_POR_PASADA <= u32::MAX,
    ensures
        pasada_de_reproduccion(estados(old(presas)@), estados(final(presas)@), parejas@, camadas@),
        *final(reproducciones_diarias) == *old(reproducciones_diarias) + apareamientos(
            estados(old(presas)@),
            parejas@,
            camadas@,
            parejas.len() as int,
        ),
{
    let nuevas = criar(presas, parejas, camadas, reproducciones_diarias, rng);
    aplicar_esperas(presas, parejas);
    agregar_crias(presas, &nuevas);
    proof {
        lema_pasada(
            estados(old(presas)@),
            estados(presas@),
            parejas@,
            camadas@,
            estados(nuevas@),
        );
    }
}

/// El total de crías no decrece con el número de parejas consideradas.
proof fn lema_total_monotono(
    presas: Seq<EstadoPresa>,
    parejas: Seq<(usize, usize)>,
    camadas: Seq<usize>,
    k1: int,
    k2: int,
)
    requires
        k1 <= k2,
    ensures
        nacidas_en_total(presas, parejas, camadas, k1) <= nacidas_en_total(
            presas,
            parejas,
            camadas,
            k2,
        ),
    decreases k2 - k1,
{
    if k1 < k2 {
        lema_total_monotono(presas, parejas, camadas, k1, k2 - 1);
        lema_total_por_especie(presas, parejas, camadas, k2);
    }
}

/// Pasada de reproducción. Busca las parejas reproductoras, sortea para
/// cada una un tamaño de camada según su especie y aplica
/// `reproducir_camadas`. La lista de especies no influye en el resultado.
pub fn reproduccion(
    presas: &mut Vec<Presa>,
    _especies: &[Especie],
    reproducciones_diarias: &mut u32,
)
    requires
        *old(reproducciones_diarias) + MAX_NACIMIENTOS_POR_PASADA <= u32::MAX,
    ensures
        exists|parejas: Seq<(usize, usize)>, camadas: Seq<usize>|
            {
                &&& son_las_parejas(estados(old(presas)@), parejas)
                &&& camadas_posibles(estados(old(presas)@), parejas, camadas)
                &&& #[trigger] pasada_de_reproduccion(
                    estados(old(presas)@),
                    estados(final(presas)@),
                    parejas,
                    camadas,
                )
                &&& *final(reproducciones_diarias) == *old(reproducciones_diarias) + apareamientos(
                    estados(old(presas)@),
                    parejas,
                    camadas,
                    parejas.len() as int,
                )
            },
        forall|especie: Especie|
            vivas(estados(old(presas)@), especie) <= especie.tope() ==> #[trigger] vivas(
                estados(final(presas)@),
                especie,
            ) <= especie.tope(),
{
    let mut rng = rand::thread_rng();
    let parejas = parejas_reproductoras(presas);
    let ghost e0 = estados(presas@);
    let mut camadas: Vec<usize> = Vec::new();
    let mut k: usize = 0;
    while k < parejas.len()
        invariant
            k <= parejas.len(),
            camadas.len() == k,
            presas == old(presas),
            e0 == estados(presas@),
            parejas_en_rango(parejas@, presas.len() as nat),
            forall|q: int|
                0 <= q < k ==> #[trigger] camadas[q] < especie_de(e0, parejas@, q).camadas().len(),
        decreases parejas.len() - k,
    {
        let (i, _j) = parejas[k];
        let especie = presas[i].especie();
        let n_crias = Presa::num_crias(especie, &mut rng);
        camadas.push(n_crias);
        k += 1;
    }
    reproducir_camadas(presas, &parejas, &camadas, reproducciones_diarias, &mut rng);
    proof {
        assert(camadas_posibles(e0, parejas@, camadas@));
        assert forall|especie: Especie|
            vivas(e0, especie) <= especie.tope() implies #[trigger] vivas(
            estados(presas@),
            especie,
        ) <= especie.tope() by {
            lema_reproduccion_respeta_tope(e0, estados(presas@), parejas@, camadas@, especie);
        }
    }
}

} // verus!
