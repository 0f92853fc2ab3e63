//! Curva de crecimiento de Gompertz en punto fijo.
//!
//! El peso a una edad es `a * exp(-b * exp(-c * edad))`. Las exponenciales
//! se calculan con enteros a escala `ESCALA`. Para `v` entre cero y uno,
//! `exp(-v)` es el recíproco de la serie de `exp(v)`; para `v` mayor, el
//! producto de una potencia de `exp(-1)` por la exponencial de la parte
//! fraccionaria. `exp(-c * edad)` es una potencia del decaimiento diario
//! `exp(-c)`. Cada redondeo va en el sentido que mantiene el peso creciente
//! con la edad y por debajo de la asíntota.

use vstd::prelude::*;
use vstd::arithmetic::div_mod::{
    lemma_div_is_ordered, lemma_div_is_ordered_by_denominator, lemma_fundamental_div_mod,
};
use vstd::arithmetic::mul::lemma_mul_upper_bound;

verus! {

/// Unidades internas por entero: nueve decimales.
pub const ESCALA: u64 = 1_000_000_000;

/// Unidades internas por milésima.
pub const ESCALA_POR_MILESIMA: u64 = 1_000_000;

/// Grado al que se corta la serie de la exponencial.
pub const TERMINOS: u64 = 12;

/// Cociente redondeado hacia arriba, con divisor positivo.
pub open spec fn cociente_techo(a: nat, d: nat) -> nat {
    ((a + d - 1) / (d as int)) as nat
}

/// `base` elevada a `n`, a escala `ESCALA`, redondeando hacia arriba en cada paso.
pub open spec fn potencia(base: nat, n: nat) -> nat
    decreases n,
{
    if n == 0 {
        ESCALA as nat
    } else {
        cociente_techo(potencia(base, (n - 1) as nat) * base, ESCALA as nat)
    }
}

/// Término `k` de la serie de `exp(v)`: `v^k / k!`, a escala `ESCALA`.
pub open spec fn termino(v: nat, k: nat) -> nat
    decreases k,
{
    if k == 0 {
        ESCALA as nat
    } else {
        (termino(v, (k - 1) as nat) * v) / (k * (ESCALA as nat))
    }
}

/// Suma de los términos `0` a `n` de la serie de `exp(v)`.
pub open spec fn serie(v: nat, n: nat) -> nat
    decreases n,
{
    if n == 0 {
        termino(v, 0)
    } else {
        serie(v, (n - 1) as nat) + termino(v, n)
    }
}

/// `exp(-v)` para `v` entre cero y uno, ambos a escala `ESCALA`.
pub open spec fn exp_fraccion(v: nat) -> nat {
    ((ESCALA as nat) * (ESCALA as nat)) / serie(v, TERMINOS as nat)
}

/// `exp(-1)` a escala `ESCALA`.
pub open spec fn exp_menos_uno() -> nat {
    exp_fraccion(ESCALA as nat)
}

/// `exp(-v)` para cualquier `v` no negativo, ambos a escala `ESCALA`: la
/// potencia de `exp(-1)` que toca a la parte entera de `v` por la
/// exponencial de su parte fraccionaria.
pub open spec fn exp_menos(v: nat) -> nat {
    cociente_techo(
        potencia(exp_menos_uno(), v / (ESCALA as nat)) * exp_fraccion(v % (ESCALA as nat)),
        ESCALA as nat,
    )
}

/// Decaimiento diario `exp(-c)`, con `c` en milésimas y el resultado a escala `ESCALA`.
pub open spec fn decaimiento(c: nat) -> nat {
    exp_menos(c * (ESCALA_POR_MILESIMA as nat))
}

/// Exponente interior de la curva, `b * exp(-c * edad)`, a escala `ESCALA`.
pub open spec fn exponente(b: nat, c: nat, edad: nat) -> nat {
    cociente_techo(b * potencia(decaimiento(c), edad), 1000)
}

/// Peso de Gompertz a la edad dada, en las unidades de la asíntota `a`;
/// `b` y `c` van en milésimas.
pub open spec fn peso_gompertz(a: nat, b: nat, c: nat, edad: nat) -> nat {
    (a * exp_menos(exponente(b, c, edad))) / (ESCALA as nat)
}

// ---------------------------------------------------------------------------
// Cocientes

proof fn lema_techo_monotono(a1: nat, a2: nat, d: nat)
    requires
        a1 <= a2,
        d > 0,
    ensures
        cociente_techo(a1, d) <= cociente_techo(a2, d),
{
    lemma_div_is_ordered(a1 + d - 1, a2 + d - 1, d as int);
}

proof fn lema_techo_acotado(a: nat, cota: nat, d: nat)
    requires
        a <= cota * d,
        d > 0,
    ensures
        cociente_techo(a, d) <= cota,
        a >= 1 ==> cociente_techo(a, d) >= 1,
{
    assert((a + d - 1) / (d as int) <= cota) by (nonlinear_arith)
        requires
            a <= cota * d,
            d > 0,
    ;
    assert(a >= 1 ==> (a + d - 1) / (d as int) >= 1) by (nonlinear_arith)
        requires
            d > 0,
    ;
}

proof fn lema_producto_monotono(a1: nat, a2: nat, b1: nat, b2: nat)
    requires
        a1 <= a2,
        b1 <= b2,
    ensures
        a1 * b1 <= a2 * b2,
{
    lemma_mul_upper_bound(a1 as int, a2 as int, b1 as int, b2 as int);
}

// ---------------------------------------------------------------------------
// Potencias

/// Una potencia de una base entre cero y uno queda entre cero y uno, y no
/// llega a cero si la base no es cero.
pub proof fn lema_potencia_acotada(base: nat, n: nat)
    requires
        base <= ESCALA,
    ensures
        potencia(base, n) <= ESCALA,
        base >= 1 ==> potencia(base, n) >= 1,
    decreases n,
{
    if n > 0 {
        lema_potencia_acotada(base, (n - 1) as nat);
        let u = potencia(base, (n - 1) as nat);
        lema_producto_monotono(u, ESCALA as nat, base, ESCALA as nat);
        if base >= 1 {
            lema_producto_monotono(1, u, 1, base);
        }
        lema_techo_acotado(u * base, ESCALA as nat, ESCALA as nat);
    }
}

/// Multiplicar por una base que no pasa de uno no aumenta el valor.
proof fn lema_potencia_paso(base: nat, n: nat)
    requires
        1 <= base <= ESCALA,
    ensures
        potencia(base, n + 1) <= potencia(base, n),
{
    let u = potencia(base, n);
    lema_producto_monotono(u, u, base, ESCALA as nat);
    lema_techo_acotado(u * base, u, ESCALA as nat);
}

/// La potencia no crece con el exponente.
pub proof fn lema_potencia_decreciente(base: nat, n1: nat, n2: nat)
    requires
        1 <= base <= ESCALA,
        n1 <= n2,
    ensures
        potencia(base, n2) <= potencia(base, n1),
    decreases n2 - n1,
{
    if n1 < n2 {
        lema_potencia_decreciente(base, n1, (n2 - 1) as nat);
        lema_potencia_paso(base, (n2 - 1) as nat);
    }
}

/// Cuando un paso más no cambia el valor, ningún paso posterior lo cambia.
proof fn lema_potencia_estancada(base: nat, n: nat, m: nat)
    requires
        potencia(base, n + 1) == potencia(base, n),
        n <= m,
    ensures
        potencia(base, m) == potencia(base, n),
    decreases m - n,
{
    if n < m {
        lema_potencia_estancada(base, n, (m - 1) as nat);
        if m - 1 > n {
            lema_potencia_estancada(base, n, (m - 2) as nat);
        }
    }
}

// ---------------------------------------------------------------------------
// Serie de la exponencial

proof fn lema_termino_acotado(v: nat, k: nat)
    requires
        v <= ESCALA,
    ensures
        termino(v, k) <= ESCALA,
    decreases k,
{
    if k > 0 {
        lema_termino_acotado(v, (k - 1) as nat);
        let t = termino(v, (k - 1) as nat);
        lema_producto_monotono(t, ESCALA as nat, v, ESCALA as nat);
        assert((t * v) / (k * (ESCALA as nat)) <= ESCALA) by (nonlinear_arith)
            requires
                t * v <= ESCALA * ESCALA,
                k >= 1,
        ;
    }
}

proof fn lema_termino_monotono(v1: nat, v2: nat, k: nat)
    requires
        v1 <= v2,
    ensures
        termino(v1, k) <= termino(v2, k),
    decreases k,
{
    if k > 0 {
        lema_termino_monotono(v1, v2, (k - 1) as nat);
        lema_producto_monotono(termino(v1, (k - 1) as nat), termino(v2, (k - 1) as nat), v1, v2);
        assert(k * ESCALA > 0) by (nonlinear_arith)
            requires
                k > 0,
        ;
        lemma_div_is_ordered(
            (termino(v1, (k - 1) as nat) * v1) as int,
            (termino(v2, (k - 1) as nat) * v2) as int,
            (k * ESCALA) as int,
        );
    }
}

proof fn lema_serie_monotona(v1: nat, v2: nat, n: nat)
    requires
        v1 <= v2,
    ensures
        serie(v1, n) <= serie(v2, n),
    decreases n,
{
    lema_termino_monotono(v1, v2, n);
    if n > 0 {
        lema_serie_monotona(v1, v2, (n - 1) as nat);
    }
}

proof fn lema_serie_acotada(v: nat, n: nat)
    requires
        v <= ESCALA,
    ensures
        ESCALA <= serie(v, n) <= (n + 1) * ESCALA,
        n >= 1 ==> serie(v, n) >= ESCALA + v,
    decreases n,
{
    lema_termino_acotado(v, n);
    if n > 0 {
        lema_serie_acotada(v, (n - 1) as nat);
        assert((n + 1) * ESCALA == n * ESCALA + ESCALA) by (nonlinear_arith);
        if n == 1 {
            assert(termino(v, 0) == ESCALA);
            assert(serie(v, 0) == ESCALA);
            assert(((ESCALA as nat) * v) / (1 * (ESCALA as nat)) == v) by (nonlinear_arith);
            assert(termino(v, 1) == v);
        }
    }
}

/// Para `v` entre cero y uno, `exp(-v)` queda entre cero y uno, sin llegar
/// a cero, y bajo uno si `v` es positivo.
proof fn lema_exp_fraccion_acotada(v: nat)
    requires
        v <= ESCALA,
    ensures
        1 <= exp_fraccion(v) <= ESCALA,
        v >= 1 ==> exp_fraccion(v) < ESCALA,
{
    lema_serie_acotada(v, TERMINOS as nat);
    let s = serie(v, TERMINOS as nat);
    assert((ESCALA * ESCALA) / (s as int) <= ESCALA) by (nonlinear_arith)
        requires
            s >= ESCALA,
    ;
    assert((ESCALA * ESCALA) / (s as int) >= 1) by (nonlinear_arith)
        requires
            ESCALA <= s <= 13 * ESCALA,
    ;
    assert(s >= ESCALA + 1 ==> (ESCALA * ESCALA) / (s as int) < ESCALA) by (nonlinear_arith)
        requires
            s >= ESCALA,
    ;
}

/// Para `v` entre cero y uno, `exp(-v)` no crece con `v`.
proof fn lema_exp_fraccion_decreciente(v1: nat, v2: nat)
    requires
        v1 <= v2 <= ESCALA,
    ensures
        exp_fraccion(v2) <= exp_fraccion(v1),
{
    lema_serie_monotona(v1, v2, TERMINOS as nat);
    lema_serie_acotada(v1, TERMINOS as nat);
    lemma_div_is_ordered_by_denominator(
        (ESCALA * ESCALA) as int,
        serie(v1, TERMINOS as nat) as int,
        serie(v2, TERMINOS as nat) as int,
    );
}

/// Multiplicar por uno no cambia el valor.
proof fn lema_techo_por_uno(x: nat)
    ensures
        cociente_techo((ESCALA as nat) * x, ESCALA as nat) == x,
        cociente_techo(x * (ESCALA as nat), ESCALA as nat) == x,
{
    assert((ESCALA * x + ESCALA - 1) / (ESCALA as int) == x) by (nonlinear_arith);
    assert(x * (ESCALA as nat) == (ESCALA as nat) * x) by (nonlinear_arith);
}

/// Los dos factores de `exp(-v)`: una potencia de `exp(-1)` y la
/// exponencial de una fracción, ambos positivos y no mayores que uno.
proof fn lema_factores(v: nat)
    ensures
        1 <= exp_menos_uno() < ESCALA,
        1 <= potencia(exp_menos_uno(), v / (ESCALA as nat)) <= ESCALA,
        v % (ESCALA as nat) < ESCALA,
        1 <= exp_fraccion(v % (ESCALA as nat)) <= ESCALA,
        exp_menos_uno() <= exp_fraccion(v % (ESCALA as nat)),
        v == (ESCALA as nat) * (v / (ESCALA as nat)) + v % (ESCALA as nat),
{
    lema_exp_fraccion_acotada(ESCALA as nat);
    lema_potencia_acotada(exp_menos_uno(), v / (ESCALA as nat));
    lema_exp_fraccion_acotada(v % (ESCALA as nat));
    lema_exp_fraccion_decreciente(v % (ESCALA as nat), ESCALA as nat);
    lemma_fundamental_div_mod(v as int, ESCALA as int);
}

/// `exp(-v)` queda entre cero y uno, sin llegar a cero, y bajo uno si `v` es positivo.
pub proof fn lema_exp_menos_acotada(v: nat)
    ensures
        1 <= exp_menos(v) <= ESCALA,
        v >= 1 ==> exp_menos(v) < ESCALA,
{
    let k = v / (ESCALA as nat);
    let f = v % (ESCALA as nat);
    let p = potencia(exp_menos_uno(), k);
    let e = exp_fraccion(f);
    lema_factores(v);
    lema_producto_monotono(p, ESCALA as nat, e, ESCALA as nat);
    lema_producto_monotono(1, p, 1, e);
    lema_techo_acotado(p * e, ESCALA as nat, ESCALA as nat);
    if v >= 1 {
        if k == 0 {
            assert(f == v);
            lema_exp_fraccion_acotada(f);
            lema_techo_por_uno(e);
        } else {
            lema_potencia_decreciente(exp_menos_uno(), 1, k);
            assert(potencia(exp_menos_uno(), 0) == ESCALA);
            lema_techo_por_uno(exp_menos_uno());
            assert(potencia(exp_menos_uno(), 1) == exp_menos_uno());
            lema_producto_monotono(p, p, e, ESCALA as nat);
            lema_techo_acotado(p * e, p, ESCALA as nat);
        }
    }
}

/// `exp(-v)` no crece con `v`.
pub proof fn lema_exp_menos_decreciente(v1: nat, v2: nat)
    requires
        v1 <= v2,
    ensures
        exp_menos(v2) <= exp_menos(v1),
{
    let k1 = v1 / (ESCALA as nat);
    let k2 = v2 / (ESCALA as nat);
    let f1 = v1 % (ESCALA as nat);
    let f2 = v2 % (ESCALA as nat);
    let base = exp_menos_uno();
    let pot1 = potencia(base, k1);
    let pot2 = potencia(base, k2);
    lema_factores(v1);
    lema_factores(v2);
    lemma_div_is_ordered(v1 as int, v2 as int, ESCALA as int);
    if k1 == k2 {
        lema_exp_fraccion_decreciente(f1, f2);
        lema_producto_monotono(pot2, pot1, exp_fraccion(f2), exp_fraccion(f1));
        lema_techo_monotono(pot2 * exp_fraccion(f2), pot1 * exp_fraccion(f1), ESCALA as nat);
    } else {
        // exp(-v1) >= base^(k1 + 1) >= base^k2 >= exp(-v2)
        lema_producto_monotono(pot1, pot1, base, exp_fraccion(f1));
        lema_techo_monotono(pot1 * base, pot1 * exp_fraccion(f1), ESCALA as nat);
        assert(potencia(base, k1 + 1) == cociente_techo(pot1 * base, ESCALA as nat));
        lema_potencia_decreciente(base, k1 + 1, k2);
        lema_producto_monotono(pot2, pot2, exp_fraccion(f2), ESCALA as nat);
        lema_techo_acotado(pot2 * exp_fraccion(f2), pot2, ESCALA as nat);
    }
}

/// El decaimiento diario es una base válida: positivo y no mayor que uno.
pub proof fn lema_decaimiento_acotado(c: nat)
    ensures
        1 <= decaimiento(c) <= ESCALA,
{
    lema_exp_menos_acotada(c * (ESCALA_POR_MILESIMA as nat));
}

/// El exponente interior no crece con la edad, y es positivo si `b` lo es.
pub proof fn lema_exponente(b: nat, c: nat, edad1: nat, edad2: nat)
    requires
        edad1 <= edad2,
    ensures
        exponente(b, c, edad2) <= exponente(b, c, edad1),
        exponente(b, c, edad1) <= b * (ESCALA_POR_MILESIMA as nat),
        b >= 1 ==> exponente(b, c, edad2) >= 1,
{
    let q = decaimiento(c);
    lema_decaimiento_acotado(c);
    lema_potencia_acotada(q, edad1);
    lema_potencia_acotada(q, edad2);
    lema_potencia_decreciente(q, edad1, edad2);
    let u1 = potencia(q, edad1);
    let u2 = potencia(q, edad2);
    lema_producto_monotono(b, b, u2, u1);
    lema_techo_monotono(b * u2, b * u1, 1000);
    lema_producto_monotono(b, b, u1, ESCALA as nat);
    assert(b * (ESCALA as nat) == (b * (ESCALA_POR_MILESIMA as nat)) * 1000) by (nonlinear_arith);
    lema_techo_acotado(b * u1, b * (ESCALA_POR_MILESIMA as nat), 1000);
    if b >= 1 {
        lema_producto_monotono(1, b, 1, u2);
        lema_producto_monotono(b, b, u2, ESCALA as nat);
        lema_techo_acotado(b * u2, b * (ESCALA_POR_MILESIMA as nat), 1000);
    }
}

/// El peso de Gompertz no decrece con la edad.
pub proof fn lema_gompertz_monotono(a: nat, b: nat, c: nat, edad1: nat, edad2: nat)
    requires
        edad1 <= edad2,
    ensures
        peso_gompertz(a, b, c, edad1) <= peso_gompertz(a, b, c, edad2),
{
    lema_exponente(b, c, edad1, edad2);
    let v1 = exponente(b, c, edad1);
    let v2 = exponente(b, c, edad2);
    lema_exp_menos_decreciente(v2, v1);
    lema_producto_monotono(a, a, exp_menos(v1), exp_menos(v2));
    lemma_div_is_ordered(
        (a * exp_menos(v1)) as int,
        (a * exp_menos(v2)) as int,
        ESCALA as int,
    );
}

/// El peso de Gompertz queda por debajo de la asíntota a toda edad, y nunca
/// por encima de ella.
pub proof fn lema_gompertz_bajo_asintota(a: nat, b: nat, c: nat, edad: nat)
    ensures
        peso_gompertz(a, b, c, edad) <= a,
        a >= 1 && b >= 1 ==> peso_gompertz(a, b, c, edad) < a,
{
    lema_exponente(b, c, edad, edad);
    let v = exponente(b, c, edad);
    lema_exp_menos_acotada(v);
    let e = exp_menos(v);
    assert((a * e) / (ESCALA as nat) <= a) by (nonlinear_arith)
        requires
            e <= ESCALA,
    ;
    assert(a >= 1 && e < ESCALA ==> (a * e) / (ESCALA as nat) < a) by (nonlinear_arith);
}

// ---------------------------------------------------------------------------
// Cálculo

/// Calcula `cociente_techo(a * b, ESCALA)` para factores que no pasan de uno.
fn producto_techo(a: u64, b: u64) -> (r: u64)
    requires
        a <= ESCALA,
        b <= ESCALA,
    ensures
        r == cociente_techo(a as nat * b as nat, ESCALA as nat),
{
    proof {
        lema_producto_monotono(a as nat, ESCALA as nat, b as nat, ESCALA as nat);
    }
    (a * b + (ESCALA - 1)) / ESCALA
}

/// Calcula `potencia(base, n)` para una base que no pasa de uno; se detiene
/// en cuanto el valor se estanca.
pub fn elevar(base: u64, n: u64) -> (r: u64)
    requires
        base <= ESCALA,
    ensures
        r == potencia(base as nat, n as nat),
        r <= ESCALA,
        base >= 1 ==> r >= 1,
{
    let mut u: u64 = ESCALA;
    let mut i: u64 = 0;
    proof {
        lema_potencia_acotada(base as nat, n as nat);
    }
    while i < n
        invariant
            i <= n,
            base <= ESCALA,
            u == potencia(base as nat, i as nat),
            u <= ESCALA,
            potencia(base as nat, n as nat) <= ESCALA,
            base >= 1 ==> potencia(base as nat, n as nat) >= 1,
        decreases n - i,
    {
        let siguiente = producto_techo(u, base);
        proof {
            lema_potencia_acotada(base as nat, (i + 1) as nat);
        }
        if siguiente == u {
            proof {
                lema_potencia_estancada(base as nat, i as nat, n as nat);
            }
            return u;
        }
        u = siguiente;
        i += 1;
    }
    u
}

/// Calcula `exp_fraccion(v)` sumando la serie.
fn exponencial_de_fraccion(v: u64) -> (r: u64)
    requires
        v <= ESCALA,
    ensures
        r == exp_fraccion(v as nat),
        1 <= r <= ESCALA,
{
    let mut t: u64 = ESCALA;
    let mut suma: u64 = ESCALA;
    let mut k: u64 = 1;
    while k <= TERMINOS
        invariant
            1 <= k <= TERMINOS + 1,
            v <= ESCALA,
            t == termino(v as nat, (k - 1) as nat),
            suma == serie(v as nat, (k - 1) as nat),
            t <= ESCALA,
            suma <= k * ESCALA,
        decreases TERMINOS + 1 - k,
    {
        proof {
            lema_producto_monotono(t as nat, ESCALA as nat, v as nat, ESCALA as nat);
            lema_termino_acotado(v as nat, k as nat);
            lema_serie_acotada(v as nat, k as nat);
        }
        t = (t * v) / (k * ESCALA);
        suma = suma + t;
        k += 1;
    }
    proof {
        lema_serie_acotada(v as nat, TERMINOS as nat);
        lema_exp_fraccion_acotada(v as nat);
    }
    (ESCALA * ESCALA) / suma
}

/// Calcula `exp_menos(v)`, para cualquier `v`.
pub fn exponencial_negativa(v: u64) -> (r: u64)
    ensures
        r == exp_menos(v as nat),
        1 <= r <= ESCALA,
{
    proof {
        lema_factores(v as nat);
        lema_exp_menos_acotada(v as nat);
    }
    let uno = exponencial_de_fraccion(ESCALA);
    let entera = elevar(uno, v / ESCALA);
    let fraccion = exponencial_de_fraccion(v % ESCALA);
    producto_techo(entera, fraccion)
}

/// Calcula `peso_gompertz(a, b, c, edad)`.
pub fn curva_gompertz(a: u32, b: u32, c: u32, edad: u32) -> (peso: u32)
    ensures
        peso == peso_gompertz(a as nat, b as nat, c as nat, edad as nat),
        peso <= a,
        a >= 1 && b >= 1 ==> peso < a,
{
    proof {
        lema_decaimiento_acotado(c as nat);
        lema_exponente(b as nat, c as nat, edad as nat, edad as nat);
        lema_gompertz_bajo_asintota(a as nat, b as nat, c as nat, edad as nat);
    }
    let diario = exponencial_negativa(c as u64 * ESCALA_POR_MILESIMA);
    let u = elevar(diario, edad as u64);
    proof {
        lema_producto_monotono(b as nat, b as nat, u as nat, ESCALA as nat);
        assert(b * ESCALA <= 0xffff_ffff * 1_000_000_000) by (nonlinear_arith)
            requires
                b <= 0xffff_ffff,
                ESCALA == 1_000_000_000,
        ;
    }
    let v = (b as u64 * u + 999) / 1000;
    let e = exponencial_negativa(v);
    proof {
        lema_producto_monotono(a as nat, a as nat, e as nat, ESCALA as nat);
    }
    ((a as u64 * e) / ESCALA) as u32
}

} // verus!
