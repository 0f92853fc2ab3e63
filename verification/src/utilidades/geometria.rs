//! Geometría entera del plano: distancias exactas y rumbos de rapidez fija.
//!
//! Para llevar un vector a una rapidez dada se divide por su norma. La norma
//! se toma con seis decimales más que las coordenadas y redondeada hacia
//! arriba: así la rapidez resultante nunca pasa de la pedida y solo le falta
//! lo que se pierde al redondear cada componente a milésimas.

use vstd::prelude::*;
use crate::utilidades::fijo::{
    lema_cuadrado_creciente, lema_raiz_techo, raiz_cuadrada_techo, raiz_techo,
};

verus! {

/// Decimales de más con que se toma la norma: unidades de norma por milésima.
pub const FINURA: u64 = 1_000_000;

/// Valor absoluto.
pub open spec fn magnitud(v: int) -> nat {
    if v < 0 {
        (-v) as nat
    } else {
        v as nat
    }
}

/// Cociente que redondea hacia cero, con divisor positivo.
pub open spec fn cociente_hacia_cero(a: int, b: int) -> int {
    if a >= 0 {
        a / b
    } else {
        -((-a) / b)
    }
}

/// Cuadrado de la distancia euclídea entre dos puntos.
pub open spec fn distancia2(ax: int, ay: int, bx: int, by: int) -> nat {
    ((bx - ax) * (bx - ax) + (by - ay) * (by - ay)) as nat
}

/// Norma del vector `(dx, dy)` en unidades de `1 / FINURA` de milésima,
/// redondeada hacia arriba.
pub open spec fn norma_fina(dx: int, dy: int) -> nat {
    raiz_techo(((dx * dx + dy * dy) * (FINURA * FINURA)) as nat)
}

/// El vector `(dx, dy)`, que no es nulo, llevado a la rapidez `rapidez`:
/// cada componente es `d * rapidez / norma`, redondeada hacia cero.
pub open spec fn a_rapidez(dx: int, dy: int, rapidez: int) -> (int, int) {
    let norma = norma_fina(dx, dy) as int;
    (
        cociente_hacia_cero(dx * rapidez * FINURA, norma),
        cociente_hacia_cero(dy * rapidez * FINURA, norma),
    )
}

/// La velocidad `(vx, vy)` tiene la rapidez `rapidez` salvo redondeo: no la
/// supera, y con una milésima más en cada componente la alcanzaría, con un
/// margen relativo de `1 / FINURA`.
pub open spec fn con_rapidez(vx: int, vy: int, rapidez: int) -> bool {
    &&& vx * vx + vy * vy <= rapidez * rapidez
    &&& ((magnitud(vx) + 1) * (magnitud(vx) + 1) + (magnitud(vy) + 1) * (magnitud(vy) + 1)) * (
    FINURA * FINURA) > (FINURA - 1) * (FINURA - 1) * (rapidez * rapidez)
}

/// Velocidad que apunta del origen `(x, y)` al destino `(tx, ty)` con la
/// rapidez `rapidez`, salvo redondeo; si origen y destino coinciden se
/// conserva `(vx, vy)`.
pub open spec fn rumbo_hacia(x: int, y: int, vx: int, vy: int, tx: int, ty: int, rapidez: int) -> (
    int,
    int,
) {
    if tx == x && ty == y {
        (vx, vy)
    } else {
        a_rapidez(tx - x, ty - y, rapidez)
    }
}

/// Velocidad `(vx, vy)` recortada a la rapidez `maxima` sin cambiar de dirección.
pub open spec fn velocidad_limitada(vx: int, vy: int, maxima: int) -> (int, int) {
    if vx * vx + vy * vy > maxima * maxima {
        a_rapidez(vx, vy, maxima)
    } else {
        (vx, vy)
    }
}

// ---------------------------------------------------------------------------
// Cotas

/// El cuadrado de una diferencia de coordenadas cabe en 64 bits y pico.
proof fn lema_cuadrado_acotado(d: int)
    requires
        -0xffff_ffff <= d <= 0xffff_ffff,
    ensures
        0 <= d * d <= 0xffff_ffff * 0xffff_ffff,
{
    assert(0 <= d * d <= 0xffff_ffff * 0xffff_ffff) by (nonlinear_arith)
        requires
            -0xffff_ffff <= d <= 0xffff_ffff,
    ;
}

/// La norma de un vector no nulo no es menor que ninguna de sus componentes
/// ni que una milésima.
pub proof fn lema_norma_acotada(dx: int, dy: int)
    requires
        dx != 0 || dy != 0,
    ensures
        magnitud(dx) * FINURA <= norma_fina(dx, dy),
        magnitud(dy) * FINURA <= norma_fina(dx, dy),
        FINURA <= norma_fina(dx, dy),
{
    let k = FINURA as nat;
    let n = ((dx * dx + dy * dy) * (FINURA * FINURA)) as nat;
    let r = raiz_techo(n);
    let mx = magnitud(dx);
    let my = magnitud(dy);
    assert(mx * mx == dx * dx && my * my == dy * dy) by (nonlinear_arith)
        requires
            mx == magnitud(dx),
            my == magnitud(dy),
    ;
    assert(mx * mx + my * my >= 1) by (nonlinear_arith)
        requires
            mx >= 1 || my >= 1,
    ;
    assert(n == (mx * mx + my * my) * (k * k));
    lema_raiz_techo(n);
    assert((mx * k) * (mx * k) <= n && (my * k) * (my * k) <= n && k * k <= n)
        by (nonlinear_arith)
        requires
            n == (mx * mx + my * my) * (k * k),
            mx * mx + my * my >= 1,
    ;
    assert(r * r < (r + 1) * (r + 1)) by (nonlinear_arith);
    lema_cuadrado_creciente(mx * k, r + 1);
    lema_cuadrado_creciente(my * k, r + 1);
    lema_cuadrado_creciente(k, r + 1);
}

/// Dos cocientes por una norma que no es menor que el vector dan un vector
/// que no supera la rapidez.
proof fn lema_no_supera(a: nat, b: nat, s: nat, r: nat, n: nat)
    requires
        r >= 1,
        n <= r * r,
        a * a + b * b == n * (s * s),
    ensures
        (a / r) * (a / r) + (b / r) * (b / r) <= s * s,
{
    let p = a / r;
    let q = b / r;
    assert(p * r <= a && q * r <= b) by (nonlinear_arith)
        requires
            p == a / r,
            q == b / r,
            r >= 1,
    ;
    assert((p * r) * (p * r) <= a * a && (q * r) * (q * r) <= b * b) by (nonlinear_arith)
        requires
            p * r <= a,
            q * r <= b,
    ;
    assert((p * p + q * q) * (r * r) == (p * r) * (p * r) + (q * r) * (q * r))
        by (nonlinear_arith);
    assert(n * (s * s) <= (r * r) * (s * s)) by (nonlinear_arith)
        requires
            n <= r * r,
    ;
    assert(p * p + q * q <= s * s) by (nonlinear_arith)
        requires
            (p * p + q * q) * (r * r) <= (s * s) * (r * r),
            r >= 1,
    ;
}

/// Con una unidad más en cada cociente el vector alcanzaría la rapidez, con
/// un margen relativo de uno entre la norma.
proof fn lema_casi_alcanza(a: nat, b: nat, s: nat, r: nat, n: nat, k: nat)
    requires
        k >= 1,
        r >= k,
        (r - 1) * (r - 1) < n,
        a * a + b * b == n * (s * s),
    ensures
        ((a / r + 1) * (a / r + 1) + (b / r + 1) * (b / r + 1)) * (k * k) > (k - 1) * (k - 1) * (
        s * s),
{
    let p = a / r + 1;
    let q = b / r + 1;
    let x = p * p + q * q;
    assert(p * r > a && q * r > b) by (nonlinear_arith)
        requires
            p == a / r + 1,
            q == b / r + 1,
            r >= 1,
    ;
    assert((p * r) * (p * r) > a * a && (q * r) * (q * r) > b * b) by (nonlinear_arith)
        requires
            p * r > a,
            q * r > b,
    ;
    assert(x * (r * r) == (p * r) * (p * r) + (q * r) * (q * r)) by (nonlinear_arith)
        requires
            x == p * p + q * q,
    ;
    // x * r² > n * s² >= (r - 1)² * s²
    assert(n * (s * s) >= (r - 1) * (r - 1) * (s * s)) by (nonlinear_arith)
        requires
            (r - 1) * (r - 1) < n,
    ;
    assert(x * (r * r) > (r - 1) * (r - 1) * (s * s));
    // (r - 1) * k >= (k - 1) * r porque r >= k
    let u = (r - 1) * k;
    let w = (k - 1) * r;
    assert(u >= w && w >= 0) by (nonlinear_arith)
        requires
            u == (r - 1) * k,
            w == (k - 1) * r,
            r >= k,
            k >= 1,
    ;
    assert(u * u >= w * w) by (nonlinear_arith)
        requires
            u >= w,
            w >= 0,
    ;
    assert(u * u == (r - 1) * (r - 1) * (k * k) && w * w == (k - 1) * (k - 1) * (r * r))
        by (nonlinear_arith)
        requires
            u == (r - 1) * k,
            w == (k - 1) * r,
    ;
    let z = (r - 1) * (r - 1) * (s * s);
    assert(x * (r * r) * (k * k) > z * (k * k)) by (nonlinear_arith)
        requires
            x * (r * r) > z,
            k >= 1,
    ;
    assert(z * (k * k) == (u * u) * (s * s)) by (nonlinear_arith)
        requires
            z == (r - 1) * (r - 1) * (s * s),
            u * u == (r - 1) * (r - 1) * (k * k),
    ;
    assert((u * u) * (s * s) >= (w * w) * (s * s)) by (nonlinear_arith)
        requires
            u * u >= w * w,
    ;
    assert((w * w) * (s * s) == ((k - 1) * (k - 1) * (s * s)) * (r * r)) by (nonlinear_arith)
        requires
            w * w == (k - 1) * (k - 1) * (r * r),
    ;
    let y = (k - 1) * (k - 1) * (s * s);
    assert(x * (r * r) * (k * k) == (x * (k * k)) * (r * r)) by (nonlinear_arith);
    assert(x * (k * k) > y) by (nonlinear_arith)
        requires
            (x * (k * k)) * (r * r) > y * (r * r),
            r >= 1,
    ;
}

/// Un vector no nulo llevado a una rapidez tiene esa rapidez, salvo redondeo.
pub proof fn lema_a_rapidez(dx: int, dy: int, rapidez: int)
    requires
        dx != 0 || dy != 0,
        0 <= rapidez,
    ensures
        con_rapidez(a_rapidez(dx, dy, rapidez).0, a_rapidez(dx, dy, rapidez).1, rapidez),
        -rapidez <= a_rapidez(dx, dy, rapidez).0 <= rapidez,
        -rapidez <= a_rapidez(dx, dy, rapidez).1 <= rapidez,
{
    let mx = magnitud(dx);
    let my = magnitud(dy);
    let s = rapidez as nat;
    let k = FINURA as nat;
    let n = ((dx * dx + dy * dy) * (FINURA * FINURA)) as nat;
    let r = norma_fina(dx, dy);
    let a = mx * s * k;
    let b = my * s * k;
    lema_norma_acotada(dx, dy);
    lema_raiz_techo(n);
    assert(mx * mx == dx * dx && my * my == dy * dy) by (nonlinear_arith)
        requires
            mx == magnitud(dx),
            my == magnitud(dy),
    ;
    assert(n > 0) by (nonlinear_arith)
        requires
            n == (mx * mx + my * my) * (k * k),
            mx >= 1 || my >= 1,
            k >= 1,
    ;
    assert(a * a + b * b == n * (s * s)) by (nonlinear_arith)
        requires
            a == mx * s * k,
            b == my * s * k,
            n == (mx * mx + my * my) * (k * k),
    ;
    lema_no_supera(a, b, s, r, n);
    lema_casi_alcanza(a, b, s, r, n, k);
    let vx = a_rapidez(dx, dy, rapidez).0;
    let vy = a_rapidez(dx, dy, rapidez).1;
    assert(magnitud(vx) == a / r) by {
        lema_cociente(dx, rapidez, r as int);
    }
    assert(magnitud(vy) == b / r) by {
        lema_cociente(dy, rapidez, r as int);
    }
    let px = magnitud(vx);
    let py = magnitud(vy);
    assert(px * px == vx * vx && py * py == vy * vy) by (nonlinear_arith)
        requires
            px == magnitud(vx),
            py == magnitud(vy),
    ;
    assert(px <= s && py <= s) by (nonlinear_arith)
        requires
            px * px + py * py <= s * s,
    ;
}

/// El rumbo hacia un destino distinto del origen tiene la rapidez pedida,
/// salvo redondeo, por cerca que esté el destino.
pub proof fn lema_rumbo_a_rapidez(
    x: int,
    y: int,
    vx: int,
    vy: int,
    tx: int,
    ty: int,
    rapidez: int,
)
    requires
        tx != x || ty != y,
        0 <= rapidez,
    ensures
        con_rapidez(
            rumbo_hacia(x, y, vx, vy, tx, ty, rapidez).0,
            rumbo_hacia(x, y, vx, vy, tx, ty, rapidez).1,
            rapidez,
        ),
{
    lema_a_rapidez(tx - x, ty - y, rapidez);
}

/// Una velocidad recortada nunca supera la rapidez máxima; si hubo que
/// recortarla, tiene esa rapidez salvo redondeo.
pub proof fn lema_velocidad_limitada(vx: int, vy: int, maxima: int)
    requires
        0 <= maxima,
    ensures
        velocidad_limitada(vx, vy, maxima).0 * velocidad_limitada(vx, vy, maxima).0
            + velocidad_limitada(vx, vy, maxima).1 * velocidad_limitada(vx, vy, maxima).1 <= maxima
            * maxima,
        vx * vx + vy * vy > maxima * maxima ==> con_rapidez(
            velocidad_limitada(vx, vy, maxima).0,
            velocidad_limitada(vx, vy, maxima).1,
            maxima,
        ),
{
    if vx * vx + vy * vy > maxima * maxima {
        assert(vx != 0 || vy != 0) by (nonlinear_arith)
            requires
                vx * vx + vy * vy > maxima * maxima,
                maxima * maxima >= 0,
        ;
        lema_a_rapidez(vx, vy, maxima);
    }
}

/// La magnitud del cociente hacia cero es el cociente de las magnitudes.
proof fn lema_cociente(d: int, rapidez: int, r: int)
    requires
        0 <= rapidez,
        r >= 1,
    ensures
        magnitud(cociente_hacia_cero(d * rapidez * FINURA, r)) == (magnitud(d) * (rapidez as nat)
            * (FINURA as nat)) / (r as nat),
{
    let m = magnitud(d);
    let t = d * rapidez * FINURA;
    if d >= 0 {
        assert(t == m * rapidez * FINURA && t >= 0) by (nonlinear_arith)
            requires
                t == d * rapidez * FINURA,
                m == d,
                d >= 0,
                rapidez >= 0,
        ;
        assert(t / r >= 0) by (nonlinear_arith)
            requires
                t >= 0,
                r >= 1,
        ;
    } else {
        assert(-t == m * rapidez * FINURA && t <= 0) by (nonlinear_arith)
            requires
                t == d * rapidez * FINURA,
                m == -d,
                d < 0,
                rapidez >= 0,
        ;
        assert((-t) / r >= 0) by (nonlinear_arith)
            requires
                -t >= 0,
                r >= 1,
        ;
        if t == 0 {
            assert(0int / r == 0) by (nonlinear_arith)
                requires
                    r >= 1,
            ;
        }
    }
}

// ---------------------------------------------------------------------------
// Cálculo

/// Calcula el cuadrado de la distancia entre dos puntos, sin pérdida.
pub fn distancia_cuadrada(ax: i32, ay: i32, bx: i32, by: i32) -> (d2: u128)
    ensures
        d2 == distancia2(ax as int, ay as int, bx as int, by as int),
        d2 <= 2 * (0xffff_ffff * 0xffff_ffff),
{
    let dx: i128 = bx as i128 - ax as i128;
    let dy: i128 = by as i128 - ay as i128;
    proof {
        lema_cuadrado_acotado(dx as int);
        lema_cuadrado_acotado(dy as int);
    }
    (dx * dx + dy * dy) as u128
}

/// Escala una componente `d` a `d * rapidez / norma`, redondeando hacia cero.
fn componente(d: i64, rapidez: i32, norma: u128) -> (r: i32)
    requires
        0 <= rapidez,
        0 < norma,
        magnitud(d as int) * FINURA <= norma,
        -0xffff_ffff <= d <= 0xffff_ffff,
    ensures
        r == cociente_hacia_cero(d * rapidez * FINURA, norma as int),
{
    let m: u128 = if d < 0 {
        (-d) as u128
    } else {
        d as u128
    };
    let v: u128 = rapidez as u128;
    let k: u128 = FINURA as u128;
    assert(m * v <= 0xffff_ffff * 0x7fff_ffff) by (nonlinear_arith)
        requires
            m <= 0xffff_ffff,
            v <= 0x7fff_ffff,
    ;
    let q: u128 = (m * v * k) / norma;
    proof {
        assert(m * v * k <= norma * v) by (nonlinear_arith)
            requires
                m * k <= norma,
                0 <= v,
        ;
        assert((norma * v) / (norma as int) == v) by (nonlinear_arith)
            requires
                norma > 0,
        ;
        vstd::arithmetic::div_mod::lemma_div_is_ordered(
            (m * v * k) as int,
            (norma * v) as int,
            norma as int,
        );
        assert(q <= v);
        if d < 0 {
            assert(-(d * rapidez * FINURA) == m * v * k) by (nonlinear_arith)
                requires
                    m == -d,
                    v == rapidez,
                    k == FINURA,
            ;
            assert(d * rapidez * FINURA <= 0) by (nonlinear_arith)
                requires
                    d < 0,
                    rapidez >= 0,
            ;
            if d * rapidez * FINURA == 0 {
                assert(m * v * k == 0);
                assert(q == 0);
            }
        } else {
            assert(d * rapidez * FINURA == m * v * k) by (nonlinear_arith)
                requires
                    m == d,
                    v == rapidez,
                    k == FINURA,
            ;
        }
    }
    if d < 0 {
        -(q as i32)
    } else {
        q as i32
    }
}

/// Lleva el vector no nulo `(dx, dy)` a la rapidez `rapidez`.
fn llevar_a_rapidez(dx: i64, dy: i64, rapidez: i32) -> (v: (i32, i32))
    requires
        dx != 0 || dy != 0,
        0 <= rapidez,
        -0xffff_ffff <= dx <= 0xffff_ffff,
        -0xffff_ffff <= dy <= 0xffff_ffff,
    ensures
        (v.0 as int, v.1 as int) == a_rapidez(dx as int, dy as int, rapidez as int),
        con_rapidez(v.0 as int, v.1 as int, rapidez as int),
{
    proof {
        lema_cuadrado_acotado(dx as int);
        lema_cuadrado_acotado(dy as int);
        lema_norma_acotada(dx as int, dy as int);
        lema_a_rapidez(dx as int, dy as int, rapidez as int);
    }
    let d2: u128 = (dx as i128 * dx as i128 + dy as i128 * dy as i128) as u128;
    let k: u128 = FINURA as u128;
    assert(d2 * (k * k) <= 2 * (0xffff_ffff * 0xffff_ffff) * 1_000_000_000_000)
        by (nonlinear_arith)
        requires
            d2 <= 2 * (0xffff_ffff * 0xffff_ffff),
            k == 1_000_000,
    ;
    let norma = raiz_cuadrada_techo(d2 * (k * k));
    (componente(dx, rapidez, norma), componente(dy, rapidez, norma))
}

/// Calcula la velocidad de rapidez `rapidez` que lleva de `(x, y)` hacia
/// `(tx, ty)`. Si el destino no es la propia posición, la velocidad tiene
/// esa rapidez salvo redondeo.
pub fn rumbo(x: i32, y: i32, vx: i32, vy: i32, tx: i32, ty: i32, rapidez: i32) -> (v: (i32, i32))
    requires
        0 <= rapidez,
    ensures
        (v.0 as int, v.1 as int) == rumbo_hacia(
            x as int,
            y as int,
            vx as int,
            vy as int,
            tx as int,
            ty as int,
            rapidez as int,
        ),
        tx != x || ty != y ==> con_rapidez(v.0 as int, v.1 as int, rapidez as int),
{
    if tx == x && ty == y {
        (vx, vy)
    } else {
        llevar_a_rapidez(tx as i64 - x as i64, ty as i64 - y as i64, rapidez)
    }
}

/// Recorta la velocidad `(vx, vy)` a la rapidez `maxima`: la deja como está
/// si no la supera y, si la supera, la lleva a esa rapidez.
pub fn limitar_velocidad(vx: i32, vy: i32, maxima: i32) -> (v: (i32, i32))
    requires
        0 <= maxima,
    ensures
        (v.0 as int, v.1 as int) == velocidad_limitada(vx as int, vy as int, maxima as int),
        v.0 * v.0 + v.1 * v.1 <= maxima * maxima,
        vx * vx + vy * vy > maxima * maxima ==> con_rapidez(v.0 as int, v.1 as int, maxima as int),
{
    proof {
        lema_cuadrado_acotado(vx as int);
        lema_cuadrado_acotado(vy as int);
        lema_cuadrado_acotado(maxima as int);
    }
    let v2: i128 = vx as i128 * vx as i128 + vy as i128 * vy as i128;
    let m: i128 = maxima as i128;
    if v2 > m * m {
        assert(vx != 0 || vy != 0) by (nonlinear_arith)
            requires
                vx * vx + vy * vy > 0,
        ;
        llevar_a_rapidez(vx as i64, vy as i64, maxima)
    } else {
        (vx, vy)
    }
}

} // verus!
