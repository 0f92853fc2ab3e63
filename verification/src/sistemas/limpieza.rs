//! Retirada de las presas muertas al final de cada cuadro.

use vstd::prelude::*;
use crate::entidades::especie::Especie;
use crate::entidades::presa::{estados, vivas, EstadoPresa, Presa};
use crate::sistemas::reproduccion::lema_vivas_iguales;

verus! {

/// El predicado "la presa vive".
pub open spec fn vive() -> spec_fn(Presa) -> bool {
    |p: Presa| p@.viva
}

/// El predicado "el estado es de una presa viva".
pub open spec fn viva() -> spec_fn(EstadoPresa) -> bool {
    |p: EstadoPresa| p.viva
}

/// Filtrar las presas vivas y mirar sus estados da lo mismo que filtrar los
/// estados de presas vivas.
pub proof fn lema_estados_de_vivas(presas: Seq<Presa>)
    ensures
        estados(presas.filter(vive())) == estados(presas).filter(viva()),
    decreases presas.len(),
{
    if presas.len() == 0 {
        assert(presas.filter(vive()) =~= Seq::<Presa>::empty()) by {
            presas.lemma_filter_len(vive());
        }
        assert(estados(presas).filter(viva()) =~= Seq::<EstadoPresa>::empty()) by {
            estados(presas).lemma_filter_len(viva());
        }
        assert(estados(presas.filter(vive())) =~= Seq::<EstadoPresa>::empty());
    } else {
        let resto = presas.drop_last();
        let ultima = presas.last();
        lema_estados_de_vivas(resto);
        assert(presas =~= resto.push(ultima));
        resto.lemma_filter_push(ultima, vive());
        assert(estados(presas) =~= estados(resto).push(ultima@));
        estados(resto).lemma_filter_push(ultima@, viva());
        if ultima@.viva {
            assert(estados(resto.filter(vive()).push(ultima)) =~= estados(
                resto.filter(vive()),
            ).push(ultima@));
        }
    }
}

/// Retirar las muertas no cambia la población viva de ninguna especie.
pub proof fn lema_vivas_tras_limpieza(presas: Seq<EstadoPresa>, especie: Especie)
    ensures
        vivas(presas.filter(viva()), especie) == vivas(presas, especie),
    decreases presas.len(),
{
    if presas.len() == 0 {
        presas.lemma_filter_len(viva());
    } else {
        let resto = presas.drop_last();
        let ultima = presas.last();
        lema_vivas_tras_limpieza(resto, especie);
        assert(presas =~= resto.push(ultima));
        resto.lemma_filter_push(ultima, viva());
        lema_vivas_iguales(presas, resto, especie, resto.len() as int);
        if ultima.viva {
            let filtradas = resto.filter(viva());
            lema_vivas_iguales(
                filtradas.push(ultima),
                filtradas,
                especie,
                filtradas.len() as int,
            );
        }
    }
}

/// Retira de la población las presas muertas; las vivas conservan su orden.
pub fn purgar_muertas(presas: &mut Vec<Presa>)
    ensures
        final(presas)@ == old(presas)@.filter(vive()),
        estados(final(presas)@) == estados(old(presas)@).filter(viva()),
{
    let n = presas.len();
    let mut vivas: Vec<Presa> = Vec::new();
    let mut i: usize = 0;
    assert(presas@.take(0).filter(vive()) =~= Seq::<Presa>::empty());
    while i < n
        invariant
            i <= n,
            n == presas.len(),
            presas == old(presas),
            vivas@ == presas@.take(i as int).filter(vive()),
        decreases n - i,
    {
        let p = presas[i];
        proof {
            assert(presas@.take(i as int + 1) =~= presas@.take(i as int).push(p));
            presas@.take(i as int).lemma_filter_push(p, vive());
        }
        if p.esta_vivo() {
            vivas.push(p);
        }
        i += 1;
    }
    proof {
        assert(presas@.take(n as int) =~= presas@);
        lema_estados_de_vivas(presas@);
    }
    *presas = vivas;
}

} // verus!
