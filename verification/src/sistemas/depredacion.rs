//! Depredación: cada depredador sin espera come a lo sumo una presa por pasada.

use vstd::prelude::*;
use crate::entidades::depredador::{estados_depredadores, Depredador, EstadoDepredador};
use crate::entidades::organismo::Organismo;
use crate::entidades::presa::{estados, EstadoPresa, Presa};
use crate::sistemas::colisiones::{colision, se_tocan};
use crate::utilidades::configuraciones::TIEMPO_ESPERA_COMIDA;

verus! {

/// Reserva tras sumar un peso, sin pasar del máximo representable.
pub open spec fn reserva_aumentada(reserva: u64, peso: u32) -> u64 {
    if reserva + peso > u64::MAX {
        u64::MAX
    } else {
        (reserva + peso) as u64
    }
}

/// El depredador puede comer: está vivo y no tiene espera pendiente.
pub open spec fn puede_comer(d: EstadoDepredador) -> bool {
    d.vivo && d.cooldown == 0
}

/// Índice de la primera presa, de `desde` en adelante, que es cazable y toca
/// al depredador; el largo de la población si no hay ninguna.
pub open spec fn primera_al_alcance(
    d: EstadoDepredador,
    presas: Seq<EstadoPresa>,
    desde: int,
) -> int
    decreases presas.len() - desde,
{
    if desde >= presas.len() {
        presas.len() as int
    } else if presas[desde].cazable() && se_tocan(d.cuerpo(), presas[desde].cuerpo()) {
        desde
    } else {
        primera_al_alcance(d, presas, desde + 1)
    }
}

/// Índice de la presa que el depredador come en esta pasada, o el largo de
/// la población si no come.
pub open spec fn bocado(d: EstadoDepredador, presas: Seq<EstadoPresa>) -> int {
    if puede_comer(d) {
        primera_al_alcance(d, presas, 0)
    } else {
        presas.len() as int
    }
}

/// El depredador después de su turno: si comió, suma a su reserva el peso
/// de la presa y queda en espera.
pub open spec fn depredador_tras_bocado(
    d: EstadoDepredador,
    presas: Seq<EstadoPresa>,
) -> EstadoDepredador {
    let i = bocado(d, presas);
    if i < presas.len() {
        EstadoDepredador {
            reserva: reserva_aumentada(d.reserva, presas[i].peso),
            cooldown: TIEMPO_ESPERA_COMIDA,
            ..d
        }
    } else {
        d
    }
}

/// Las presas después del turno del depredador: la comida queda muerta.
pub open spec fn presas_tras_bocado(
    d: EstadoDepredador,
    presas: Seq<EstadoPresa>,
) -> Seq<EstadoPresa> {
    let i = bocado(d, presas);
    if i < presas.len() {
        presas.update(i, EstadoPresa { viva: false, ..presas[i] })
    } else {
        presas
    }
}

/// Las presas después de los turnos de los primeros `k` depredadores.
pub open spec fn presas_tras_caza(
    depredadores: Seq<EstadoDepredador>,
    presas: Seq<EstadoPresa>,
    k: int,
) -> Seq<EstadoPresa>
    decreases k,
{
    if k <= 0 {
        presas
    } else {
        presas_tras_bocado(depredadores[k - 1], presas_tras_caza(depredadores, presas, k - 1))
    }
}

/// Cuántos de los primeros `k` depredadores comen en la pasada.
pub open spec fn capturas(
    depredadores: Seq<EstadoDepredador>,
    presas: Seq<EstadoPresa>,
    k: int,
) -> nat
    decreases k,
{
    if k <= 0 {
        0
    } else {
        let antes = presas_tras_caza(depredadores, presas, k - 1);
        capturas(depredadores, presas, k - 1) + if bocado(depredadores[k - 1], antes)
            < antes.len() {
            1nat
        } else {
            0nat
        }
    }
}

/// Los depredadores después de la pasada: cada uno tras su turno, frente a
/// las presas que dejaron los anteriores.
pub open spec fn depredadores_tras_caza(
    depredadores: Seq<EstadoDepredador>,
    presas: Seq<EstadoPresa>,
) -> Seq<EstadoDepredador> {
    Seq::new(
        depredadores.len(),
        |k: int| depredador_tras_bocado(depredadores[k], presas_tras_caza(depredadores, presas, k)),
    )
}

proof fn lema_primera_al_alcance(d: EstadoDepredador, presas: Seq<EstadoPresa>, desde: int)
    requires
        0 <= desde,
    ensures
        desde <= primera_al_alcance(d, presas, desde) || primera_al_alcance(d, presas, desde)
            == presas.len(),
        primera_al_alcance(d, presas, desde) <= presas.len(),
    decreases presas.len() - desde,
{
    if desde < presas.len() && !(presas[desde].cazable() && se_tocan(
        d.cuerpo(),
        presas[desde].cuerpo(),
    )) {
        lema_primera_al_alcance(d, presas, desde + 1);
    }
}

proof fn lema_caza_conserva_largo(
    depredadores: Seq<EstadoDepredador>,
    presas: Seq<EstadoPresa>,
    k: int,
)
    ensures
        presas_tras_caza(depredadores, presas, k).len() == presas.len(),
        capturas(depredadores, presas, k) <= if k <= 0 {
            0
        } else {
            k
        },
    decreases k,
{
    if k > 0 {
        lema_caza_conserva_largo(depredadores, presas, k - 1);
        lema_primera_al_alcance(
            depredadores[k - 1],
            presas_tras_caza(depredadores, presas, k - 1),
            0,
        );
    }
}

/// La depredación no cambia más que la vida de las presas comidas: cada
/// presa sigue en su lugar y solo puede pasar de viva a muerta.
pub proof fn lema_caza_solo_mata(
    depredadores: Seq<EstadoDepredador>,
    presas: Seq<EstadoPresa>,
    k: int,
)
    ensures
        presas_tras_caza(depredadores, presas, k).len() == presas.len(),
        forall|i: int|
            0 <= i < presas.len() ==> #[trigger] presas_tras_caza(depredadores, presas, k)[i] == (
            EstadoPresa { viva: presas_tras_caza(depredadores, presas, k)[i].viva, ..presas[i] })
                && (presas_tras_caza(depredadores, presas, k)[i].viva ==> presas[i].viva),
    decreases k,
{
    if k > 0 {
        lema_caza_solo_mata(depredadores, presas, k - 1);
        lema_primera_al_alcance(
            depredadores[k - 1],
            presas_tras_caza(depredadores, presas, k - 1),
            0,
        );
    }
}

/// Turno de un depredador: si puede comer, come la primera presa cazable
/// que lo toca. Devuelve el índice de la presa comida.
pub fn comer(d: &mut Depredador, presas: &mut Vec<Presa>) -> (comida: Option<usize>)
    ensures
        final(presas).len() == old(presas).len(),
        final(d)@ == depredador_tras_bocado(old(d)@, estados(old(presas)@)),
        estados(final(presas)@) == presas_tras_bocado(old(d)@, estados(old(presas)@)),
        match comida {
            Some(i) => i == bocado(old(d)@, estados(old(presas)@)) && i < old(presas).len(),
            None => bocado(old(d)@, estados(old(presas)@)) == old(presas).len(),
        },
        forall|k: int|
            0 <= k < old(presas).len() && k != bocado(old(d)@, estados(old(presas)@))
                ==> #[trigger] final(presas)[k] == old(presas)[k],
{
    if !(d.esta_vivo() && d.cooldown() == 0) {
        assert(estados(presas@) =~= presas_tras_bocado(d@, estados(presas@)));
        return None;
    }
    let n = presas.len();
    let mut i: usize = 0;
    while i < n
        invariant
            i <= n,
            n == presas.len(),
            presas == old(presas),
            d == old(d),
            puede_comer(d@),
            primera_al_alcance(d@, estados(presas@), 0) == primera_al_alcance(
                d@,
                estados(presas@),
                i as int,
            ),
        decreases n - i,
    {
        let p = presas[i];
        if p.esta_vivo() && p.edad() >= p.especie().edad_sacrificio() && colision(d, &p) {
            d.set_reserva(d.reserva().saturating_add(p.peso_actual() as u64));
            presas[i].matar();
            d.set_cooldown(TIEMPO_ESPERA_COMIDA);
            assert(estados(presas@) =~= presas_tras_bocado(old(d)@, estados(old(presas)@)));
            return Some(i);
        }
        i += 1;
    }
    assert(estados(presas@) =~= presas_tras_bocado(d@, estados(presas@)));
    None
}

/// Pasada de depredación: los depredadores comen por turno, en orden, y
/// cada presa comida cuenta como una muerte por depredación.
pub fn depredadores_comer(
    depredadores: &mut Vec<Depredador>,
    presas: &mut Vec<Presa>,
    muertes_pred: &mut u32,
)
    requires
        *old(muertes_pred) + old(depredadores).len() <= u32::MAX,
    ensures
        final(depredadores).len() == old(depredadores).len(),
        final(presas).len() == old(presas).len(),
        estados(final(presas)@) == presas_tras_caza(
            estados_depredadores(old(depredadores)@),
            estados(old(presas)@),
            old(depredadores).len() as int,
        ),
        estados_depredadores(final(depredadores)@) == depredadores_tras_caza(
            estados_depredadores(old(depredadores)@),
            estados(old(presas)@),
        ),
        *final(muertes_pred) == *old(muertes_pred) + capturas(
            estados_depredadores(old(depredadores)@),
            estados(old(presas)@),
            old(depredadores).len() as int,
        ),
{
    let n = depredadores.len();
    let ghost deps0 = estados_depredadores(depredadores@);
    let ghost presas0 = estados(presas@);
    let mut k: usize = 0;
    while k < n
        invariant
            k <= n,
            n == depredadores.len(),
            n == old(depredadores).len(),
            presas.len() == old(presas).len(),
            deps0 == estados_depredadores(old(depredadores)@),
            presas0 == estados(old(presas)@),
            estados(presas@) == presas_tras_caza(deps0, presas0, k as int),
            forall|j: int|
                0 <= j < k ==> (#[trigger] depredadores[j])@ == depredador_tras_bocado(
                    deps0[j],
                    presas_tras_caza(deps0, presas0, j),
                ),
            forall|j: int| k <= j < n ==> #[trigger] depredadores[j] == old(depredadores)[j],
            *old(muertes_pred) + n <= u32::MAX,
            *muertes_pred == *old(muertes_pred) + capturas(deps0, presas0, k as int),
        decreases n - k,
    {
        proof {
            lema_caza_conserva_largo(deps0, presas0, k as int);
        }
        let comida = comer(&mut depredadores[k], presas);
        if comida.is_some() {
            *muertes_pred += 1;
        }
        k += 1;
    }
    assert(estados_depredadores(depredadores@) =~= depredadores_tras_caza(deps0, presas0));
}

} // verus!
