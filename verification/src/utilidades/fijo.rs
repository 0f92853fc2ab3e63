//! Aritmética entera de apoyo: saturación y raíz cuadrada.

use vstd::prelude::*;

verus! {

/// El entero más cercano a `v` que cabe en un `i32`.
pub open spec fn saturar(v: int) -> int {
    if v < i32::MIN {
        i32::MIN as int
    } else if v > i32::MAX {
        i32::MAX as int
    } else {
        v
    }
}

/// Suma que se queda en el extremo del rango en lugar de desbordar.
pub fn suma_saturada(a: i32, b: i32) -> (r: i32)
    ensures
        r == saturar(a + b),
{
    let s: i64 = a as i64 + b as i64;
    if s < i32::MIN as i64 {
        i32::MIN
    } else if s > i32::MAX as i64 {
        i32::MAX
    } else {
        s as i32
    }
}

/// Cambio de signo que se queda en el extremo del rango en lugar de desbordar.
pub fn opuesto_saturado(a: i32) -> (r: i32)
    ensures
        r == saturar(-a),
{
    if a == i32::MIN {
        i32::MAX
    } else {
        -a
    }
}

/// `r` es la parte entera de la raíz cuadrada de `n`.
pub open spec fn es_raiz_entera(r: nat, n: nat) -> bool {
    r * r <= n < (r + 1) * (r + 1)
}

/// La parte entera de la raíz cuadrada de `n`.
pub open spec fn raiz_entera(n: nat) -> nat {
    choose|r: nat| es_raiz_entera(r, n)
}

/// Un cuadrado mayor tiene una base mayor.
pub proof fn lema_cuadrado_creciente(a: nat, b: nat)
    requires
        a * a < b * b,
    ensures
        a < b,
{
    assert(a >= b ==> a * a >= b * b) by (nonlinear_arith);
}

/// La raíz entera es única: quien cumple la definición es `raiz_entera(n)`.
pub proof fn lema_raiz_unica(r: nat, n: nat)
    requires
        es_raiz_entera(r, n),
    ensures
        raiz_entera(n) == r,
{
    let s = raiz_entera(n);
    assert(es_raiz_entera(s, n));
    lema_cuadrado_creciente(r, s + 1);
    lema_cuadrado_creciente(s, r + 1);
}

/// Calcula la parte entera de la raíz cuadrada por bisección.
pub fn raiz_cuadrada(n: u128) -> (r: u64)
    ensures
        r == raiz_entera(n as nat),
        es_raiz_entera(r as nat, n as nat),
{
    let mut bajo: u128 = 0;
    let mut alto: u128 = 0x1_0000_0000_0000_0000;
    assert(alto * alto > n) by (nonlinear_arith)
        requires
            alto == 0x1_0000_0000_0000_0000u128,
            n <= u128::MAX,
    ;
    while alto - bajo > 1
        invariant
            bajo < alto <= 0x1_0000_0000_0000_0000,
            bajo * bajo <= n < alto * alto,
        decreases alto - bajo,
    {
        let medio: u128 = bajo + (alto - bajo) / 2;
        assert(medio * medio <= 0xffff_ffff_ffff_ffff * 0xffff_ffff_ffff_ffff) by (nonlinear_arith)
            requires
                medio <= 0xffff_ffff_ffff_ffff,
        ;
        if medio * medio <= n {
            bajo = medio;
        } else {
            alto = medio;
        }
    }
    proof {
        assert(alto == bajo + 1);
        lema_raiz_unica(bajo as nat, n as nat);
    }
    bajo as u64
}

/// La raíz cuadrada de `n` redondeada hacia arriba.
pub open spec fn raiz_techo(n: nat) -> nat {
    let r = raiz_entera(n);
    if r * r == n {
        r
    } else {
        r + 1
    }
}

/// La raíz redondeada hacia arriba es el menor entero cuyo cuadrado alcanza a `n`.
pub proof fn lema_raiz_techo(n: nat)
    ensures
        n <= raiz_techo(n) * raiz_techo(n),
        n > 0 ==> raiz_techo(n) >= 1 && (raiz_techo(n) - 1) * (raiz_techo(n) - 1) < n,
{
    let r = raiz_entera(n);
    lema_raiz_existe(n);
    assert(es_raiz_entera(r, n));
    if r * r != n {
        assert((r + 1 - 1) * (r + 1 - 1) == r * r) by (nonlinear_arith);
    } else if n > 0 {
        assert(r >= 1) by (nonlinear_arith)
            requires
                r * r == n,
                n > 0,
        ;
        assert((r - 1) * (r - 1) < r * r) by (nonlinear_arith)
            requires
                r >= 1,
        ;
    }
}

/// Cada natural tiene raíz entera.
pub proof fn lema_raiz_existe(n: nat)
    ensures
        es_raiz_entera(raiz_entera(n), n),
    decreases n,
{
    if n == 0 {
        assert(es_raiz_entera(0, 0)) by (nonlinear_arith);
    } else {
        lema_raiz_existe((n - 1) as nat);
        let r = raiz_entera((n - 1) as nat);
        if n < (r + 1) * (r + 1) {
            assert(es_raiz_entera(r, n));
        } else {
            assert((r + 1) * (r + 1) <= n < (r + 2) * (r + 2)) by (nonlinear_arith)
                requires
                    r * r <= n - 1 < (r + 1) * (r + 1),
                    n >= (r + 1) * (r + 1),
            ;
            assert(es_raiz_entera(r + 1, n));
        }
    }
}

/// Calcula la raíz cuadrada redondeada hacia arriba.
pub fn raiz_cuadrada_techo(n: u128) -> (r: u128)
    ensures
        r == raiz_techo(n as nat),
        r <= 0x1_0000_0000_0000_0000,
{
    let r = raiz_cuadrada(n) as u128;
    assert(r * r <= 0xffff_ffff_ffff_ffff * 0xffff_ffff_ffff_ffff) by (nonlinear_arith)
        requires
            r <= 0xffff_ffff_ffff_ffff,
    ;
    if r * r == n {
        r
    } else {
        r + 1
    }
}

} // verus!
