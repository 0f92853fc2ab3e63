//! Población inicial con posiciones, especies y rasgos sorteados.

use vstd::prelude::*;
use rand::rngs::ThreadRng;
use crate::entidades::depredador::{Depredador, EstadoDepredador};
use crate::entidades::especie::Especie;
use crate::entidades::presa::{EstadoPresa, Presa};
use crate::utilidades::azar::sortear;
use crate::utilidades::configuraciones::{VEL_MAX_DEPREDADOR, VEL_MAX_PRESA};

verus! {

/// `p` es una presa recién nacida dentro de un lienzo de `ancho` por `alto`,
/// de una de las especies dadas y con velocidad dentro de sus límites.
pub open spec fn presa_inicial(
    p: EstadoPresa,
    especies: Seq<Especie>,
    ancho: i32,
    alto: i32,
) -> bool {
    &&& p == EstadoPresa::recien_nacida(p.x, p.y, p.especie, p.sexo, p.vx, p.vy)
    &&& especies.contains(p.especie)
    &&& 0 <= p.x < ancho
    &&& 0 <= p.y < alto
    &&& -VEL_MAX_PRESA <= p.vx < VEL_MAX_PRESA
    &&& -VEL_MAX_PRESA <= p.vy < VEL_MAX_PRESA
}

/// `d` es un depredador recién creado dentro de un lienzo de `ancho` por
/// `alto` y con velocidad dentro de sus límites.
pub open spec fn depredador_inicial(d: EstadoDepredador, ancho: i32, alto: i32) -> bool {
    &&& d == EstadoDepredador::inicial(d.x, d.y, d.vx, d.vy)
    &&& 0 <= d.x < ancho
    &&& 0 <= d.y < alto
    &&& -VEL_MAX_DEPREDADOR <= d.vx < VEL_MAX_DEPREDADOR
    &&& -VEL_MAX_DEPREDADOR <= d.vy < VEL_MAX_DEPREDADOR
}

/// Crea `cantidad` presas, cada una de una especie sorteada entre las dadas
/// y en una posición sorteada dentro del lienzo.
pub fn inicializar_presas(
    especies: &[Especie],
    cantidad: usize,
    ancho: i32,
    alto: i32,
    rng: &mut ThreadRng,
) -> (presas: Vec<Presa>)
    requires
        cantidad > 0 ==> especies.len() > 0 && ancho > 0 && alto > 0,
    ensures
        presas.len() == cantidad,
        forall|i: int|
            0 <= i < cantidad ==> presa_inicial((#[trigger] presas[i])@, especies@, ancho, alto),
{
    let mut presas: Vec<Presa> = Vec::new();
    let tope: i32 = if especies.len() > i32::MAX as usize {
        i32::MAX
    } else {
        especies.len() as i32
    };
    let mut i: usize = 0;
    while i < cantidad
        invariant
            i <= cantidad,
            presas.len() == i,
            cantidad > 0 ==> especies.len() > 0 && ancho > 0 && alto > 0,
            tope <= especies.len(),
            especies.len() > 0 ==> tope > 0,
            forall|k: int|
                0 <= k < i ==> presa_inicial((#[trigger] presas[k])@, especies@, ancho, alto),
        decreases cantidad - i,
    {
        let elegida = sortear(rng, 0, tope);
        let especie = especies[elegida as usize];
        let x = sortear(rng, 0, ancho);
        let y = sortear(rng, 0, alto);
        let p = Presa::sorteada(x, y, especie, rng);
        assert(especies@[elegida as int] == especie);
        presas.push(p);
        i += 1;
    }
    presas
}

/// Crea `cantidad` depredadores en posiciones sorteadas dentro del lienzo.
pub fn inicializar_depredadores(
    cantidad: usize,
    ancho: i32,
    alto: i32,
    rng: &mut ThreadRng,
) -> (depredadores: Vec<Depredador>)
    requires
        cantidad > 0 ==> ancho > 0 && alto > 0,
    ensures
        depredadores.len() == cantidad,
        forall|i: int|
            0 <= i < cantidad ==> depredador_inicial((#[trigger] depredadores[i])@, ancho, alto),
{
    let mut depredadores: Vec<Depredador> = Vec::new();
    let mut i: usize = 0;
    while i < cantidad
        invariant
            i <= cantidad,
            depredadores.len() == i,
            cantidad > 0 ==> ancho > 0 && alto > 0,
            forall|k: int|
                0 <= k < i ==> depredador_inicial((#[trigger] depredadores[k])@, ancho, alto),
        decreases cantidad - i,
    {
        let x = sortear(rng, 0, ancho);
        let y = sortear(rng, 0, alto);
        let d = Depredador::sorteado(x, y, rng);
        depredadores.push(d);
        i += 1;
    }
    depredadores
}

} // verus!
