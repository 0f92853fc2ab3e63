//! Muestreo categórico: de una tirada uniforme a una categoría.

use vstd::prelude::*;

verus! {

/// Probabilidad acumulada de las primeras `k` categorías.
pub open spec fn acumulada(probs: Seq<u32>, k: int) -> int
    decreases k,
{
    if k <= 0 {
        0
    } else {
        acumulada(probs, k - 1) + probs[k - 1]
    }
}

/// Primera categoría, de `desde` en adelante, cuya probabilidad acumulada
/// supera a la tirada; la última categoría si ninguna la supera.
pub open spec fn categoria_desde(probs: Seq<u32>, tirada: int, desde: int) -> int
    decreases probs.len() - desde,
{
    if desde >= probs.len() - 1 {
        probs.len() - 1
    } else if tirada < acumulada(probs, desde + 1) {
        desde
    } else {
        categoria_desde(probs, tirada, desde + 1)
    }
}

/// Categoría que corresponde a la tirada: la primera cuya probabilidad
/// acumulada la supera. La última categoría absorbe lo que falte para llegar
/// a uno, de modo que toda tirada tiene categoría.
pub open spec fn categoria(probs: Seq<u32>, tirada: int) -> int {
    categoria_desde(probs, tirada, 0)
}

/// La probabilidad acumulada cabe holgadamente en 128 bits.
proof fn lema_acumulada_acotada(probs: Seq<u32>, k: int)
    requires
        0 <= k <= probs.len(),
    ensures
        0 <= acumulada(probs, k) <= k * 0x1_0000_0000,
    decreases k,
{
    if k > 0 {
        lema_acumulada_acotada(probs, k - 1);
    }
}

/// La categoría elegida es un índice válido, la tirada queda bajo su
/// probabilidad acumulada salvo que sea la última, y ninguna categoría
/// anterior alcanzaba a la tirada.
pub proof fn lema_categoria(probs: Seq<u32>, tirada: int, desde: int)
    requires
        probs.len() > 0,
        0 <= desde < probs.len(),
    ensures
        desde <= categoria_desde(probs, tirada, desde) < probs.len(),
        categoria_desde(probs, tirada, desde) < probs.len() - 1 ==> tirada < acumulada(
            probs,
            categoria_desde(probs, tirada, desde) + 1,
        ),
        forall|k: int|
            desde <= k < categoria_desde(probs, tirada, desde) ==> tirada >= #[trigger] acumulada(
                probs,
                k + 1,
            ),
    decreases probs.len() - desde,
{
    if desde < probs.len() - 1 && tirada >= acumulada(probs, desde + 1) {
        lema_categoria(probs, tirada, desde + 1);
    }
}

/// Elige la categoría de la tirada recorriendo las probabilidades acumuladas.
pub fn elegir_categoria(probs: &[u32], tirada: u32) -> (k: usize)
    requires
        probs.len() > 0,
    ensures
        k == categoria(probs@, tirada as int),
        k < probs.len(),
{
    let n = probs.len();
    let mut acumulado: u128 = 0;
    let mut k: usize = 0;
    proof {
        lema_categoria(probs@, tirada as int, 0);
    }
    while k < n - 1
        invariant
            n == probs.len(),
            n > 0,
            k <= n - 1,
            acumulado == acumulada(probs@, k as int),
            categoria(probs@, tirada as int) == categoria_desde(probs@, tirada as int, k as int),
        decreases n - k,
    {
        proof {
            lema_acumulada_acotada(probs@, k as int);
            assert(k * 0x1_0000_0000 <= 0xffff_ffff_ffff_ffff * 0x1_0000_0000) by (nonlinear_arith)
                requires
                    k <= 0xffff_ffff_ffff_ffff,
            ;
        }
        acumulado = acumulado + probs[k] as u128;
        if (tirada as u128) < acumulado {
            return k;
        }
        k += 1;
    }
    k
}

} // verus!
