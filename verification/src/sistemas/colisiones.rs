//! Prueba de proximidad entre dos organismos.

use vstd::prelude::*;
use crate::entidades::organismo::{Cuerpo, Organismo};
use crate::utilidades::geometria::{distancia2, distancia_cuadrada};

verus! {

/// Dos cuerpos se tocan cuando la distancia entre sus centros es menor que
/// la suma de sus radios.
pub open spec fn se_tocan(a: Cuerpo, b: Cuerpo) -> bool {
    let alcance = a.r + b.r;
    alcance > 0 && distancia2(a.x as int, a.y as int, b.x as int, b.y as int) < alcance * alcance
}

/// Dice si dos organismos se tocan.
pub fn colision<A: Organismo, B: Organismo>(a: &A, b: &B) -> (toca: bool)
    ensures
        toca == se_tocan(a.cuerpo(), b.cuerpo()),
{
    let alcance: i64 = a.r() as i64 + b.r() as i64;
    if alcance <= 0 {
        return false;
    }
    let d2 = distancia_cuadrada(a.x(), a.y(), b.x(), b.y());
    let alcance: u128 = alcance as u128;
    assert(alcance * alcance <= 0xffff_ffff * 0xffff_ffff) by (nonlinear_arith)
        requires
            alcance <= 0xffff_ffff,
    ;
    d2 < alcance * alcance
}

} // verus!
