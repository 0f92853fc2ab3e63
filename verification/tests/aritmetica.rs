use presa_depredador::utilidades::fijo::{
    opuesto_saturado, raiz_cuadrada, raiz_cuadrada_techo, suma_saturada,
};
use presa_depredador::utilidades::geometria::{distancia_cuadrada, limitar_velocidad, rumbo};

#[test]
fn raiz_de_cuadrados_perfectos() {
    assert_eq!(raiz_cuadrada(0), 0);
    assert_eq!(raiz_cuadrada(1), 1);
    assert_eq!(raiz_cuadrada(25), 5);
    assert_eq!(raiz_cuadrada(1_000_000_000_000), 1_000_000);
}

#[test]
fn raiz_redondea_hacia_abajo() {
    assert_eq!(raiz_cuadrada(2), 1);
    assert_eq!(raiz_cuadrada(3), 1);
    assert_eq!(raiz_cuadrada(24), 4);
    assert_eq!(raiz_cuadrada(26), 5);
    assert_eq!(raiz_cuadrada(99), 9);
}

#[test]
fn raiz_del_mayor_valor() {
    assert_eq!(raiz_cuadrada(u128::MAX), u64::MAX);
    let r = u64::MAX as u128;
    assert_eq!(raiz_cuadrada(r * r), u64::MAX);
    assert_eq!(raiz_cuadrada(r * r - 1), u64::MAX - 1);
}

#[test]
fn raiz_cumple_su_definicion() {
    for n in 0u128..5_000 {
        let r = raiz_cuadrada(n) as u128;
        assert!(r * r <= n && n < (r + 1) * (r + 1));
    }
}

#[test]
fn suma_saturada_dentro_del_rango() {
    assert_eq!(suma_saturada(1_000, 500), 1_500);
    assert_eq!(suma_saturada(-1_000, 500), -500);
}

#[test]
fn suma_saturada_en_los_extremos() {
    assert_eq!(suma_saturada(i32::MAX, 1), i32::MAX);
    assert_eq!(suma_saturada(i32::MIN, -1), i32::MIN);
    assert_eq!(suma_saturada(i32::MAX, i32::MIN), -1);
}

#[test]
fn opuesto_saturado_en_los_extremos() {
    assert_eq!(opuesto_saturado(7), -7);
    assert_eq!(opuesto_saturado(0), 0);
    assert_eq!(opuesto_saturado(i32::MAX), -i32::MAX);
    assert_eq!(opuesto_saturado(i32::MIN), i32::MAX);
}

#[test]
fn distancia_cuadrada_exacta() {
    assert_eq!(distancia_cuadrada(0, 0, 3, 4), 25);
    assert_eq!(distancia_cuadrada(3, 4, 0, 0), 25);
    assert_eq!(distancia_cuadrada(-2, -2, -2, -2), 0);
}

#[test]
fn distancia_cuadrada_entre_extremos() {
    let lado = (i32::MAX as i128 - i32::MIN as i128) as u128;
    assert_eq!(distancia_cuadrada(i32::MIN, i32::MIN, i32::MAX, i32::MAX), 2 * lado * lado);
}

#[test]
fn rumbo_por_los_ejes() {
    assert_eq!(rumbo(0, 0, 9, 9, 10_000, 0, 1_500), (1_500, 0));
    assert_eq!(rumbo(0, 0, 9, 9, 0, -10_000, 1_500), (0, -1_500));
}

#[test]
fn rumbo_en_diagonal_redondea_hacia_cero() {
    // Distancia 5000: componentes 3/5 y 4/5 de la rapidez.
    assert_eq!(rumbo(0, 0, 0, 0, 3_000, 4_000, 2_000), (1_200, 1_600));
    assert_eq!(rumbo(0, 0, 0, 0, -3_000, -4_000, 2_000), (-1_200, -1_600));
    // Distancia entera 1414 para (1000, 1000): 1000 * 1500 / 1414 = 1060.
    assert_eq!(rumbo(0, 0, 0, 0, 1_000, 1_000, 1_500), (1_060, 1_060));
    assert_eq!(rumbo(0, 0, 0, 0, -1_000, 1_000, 1_500), (-1_060, 1_060));
}

#[test]
fn rumbo_sin_distancia_conserva_la_velocidad() {
    assert_eq!(rumbo(5, 5, 70, -80, 5, 5, 1_500), (70, -80));
}

#[test]
fn rumbo_no_supera_la_rapidez() {
    let (vx, vy) = rumbo(i32::MIN, i32::MIN, 0, 0, i32::MAX, i32::MAX, 2_000);
    assert!(vx > 0 && vx <= 2_000);
    assert!(vy > 0 && vy <= 2_000);
}

#[test]
fn limitar_velocidad_deja_las_lentas() {
    assert_eq!(limitar_velocidad(900, 1_200, 1_500), (900, 1_200));
    assert_eq!(limitar_velocidad(0, 0, 1_500), (0, 0));
    assert_eq!(limitar_velocidad(-1_500, 0, 1_500), (-1_500, 0));
}

#[test]
fn limitar_velocidad_recorta_las_rapidas() {
    // Rapidez 5000 recortada a 1500: 3000 * 1500 / 5000 y 4000 * 1500 / 5000.
    assert_eq!(limitar_velocidad(3_000, 4_000, 1_500), (900, 1_200));
    assert_eq!(limitar_velocidad(-3_000, 4_000, 1_500), (-900, 1_200));
    assert_eq!(limitar_velocidad(1_501, 0, 1_500), (1_500, 0));
}

#[test]
fn raiz_hacia_arriba() {
    assert_eq!(raiz_cuadrada_techo(0), 0);
    assert_eq!(raiz_cuadrada_techo(1), 1);
    assert_eq!(raiz_cuadrada_techo(2), 2);
    assert_eq!(raiz_cuadrada_techo(24), 5);
    assert_eq!(raiz_cuadrada_techo(25), 5);
    assert_eq!(raiz_cuadrada_techo(26), 6);
    assert_eq!(raiz_cuadrada_techo(2_000_000_000_000), 1_414_214);
    assert_eq!(raiz_cuadrada_techo(u128::MAX), 1u128 << 64);
    for n in 1u128..5_000 {
        let r = raiz_cuadrada_techo(n);
        assert!((r - 1) * (r - 1) < n && n <= r * r);
    }
}

#[test]
fn rumbo_hacia_un_destino_a_una_milesima() {
    assert_eq!(rumbo(0, 0, 9, 9, 1, 1, 1_500), (1_060, 1_060));
    assert_eq!(rumbo(0, 0, 9, 9, 1, 1, 2_000), (1_414, 1_414));
    assert_eq!(rumbo(0, 0, 9, 9, 1, 0, 1_500), (1_500, 0));
    assert_eq!(rumbo(0, 0, 9, 9, 0, -1, 2_000), (0, -2_000));
    assert_eq!(rumbo(5, 5, 9, 9, 4, 7, 1_500), (-670, 1_341));
}

#[test]
fn rumbo_tiene_la_rapidez_pedida_a_toda_distancia() {
    let destinos = [1i32, 2, 3, 7, 10, 99, 1_000, 1_414, 65_537, 1_000_003, i32::MAX];
    for rapidez in [0i32, 1, 2, 1_500, 2_000, 46_341, i32::MAX] {
        for tx in destinos {
            for ty in destinos {
                for (sx, sy) in [(1i32, 1i32), (-1, 1), (1, -1), (-1, -1), (0, 1), (1, 0)] {
                    let (vx, vy) = rumbo(0, 0, 0, 0, sx * tx, sy * ty, rapidez);
                    let s = rapidez as i128;
                    let v2 = (vx as i128).pow(2) + (vy as i128).pow(2);
                    assert!(v2 <= s * s, "destino ({}, {})", sx * tx, sy * ty);
                    let casi = (vx.abs() as i128 + 1).pow(2) + (vy.abs() as i128 + 1).pow(2);
                    assert!(
                        casi * 1_000_000_000_000 > 999_999 * 999_999 * s * s,
                        "destino ({}, {})",
                        sx * tx,
                        sy * ty
                    );
                    assert_eq!(vx.signum(), (sx * tx).signum() * (vx != 0) as i32);
                    assert_eq!(vy.signum(), (sy * ty).signum() * (vy != 0) as i32);
                }
            }
        }
    }
}

#[test]
fn limitar_velocidad_nunca_supera_la_maxima() {
    assert_eq!(limitar_velocidad(1_500, 77, 1_500), (1_498, 76));
    assert_eq!(limitar_velocidad(1_500, 1, 1_500), (1_499, 0));
    for vx in [-3_000i32, -1_501, -1_500, -1_061, -77, -1, 0, 1, 77, 1_060, 1_061, 1_500, 1_501] {
        for vy in [-2_000i32, -1_500, -1_061, -1, 0, 1, 76, 77, 1_060, 1_061, 1_499, 40_000] {
            let (wx, wy) = limitar_velocidad(vx, vy, 1_500);
            let w2 = (wx as i64).pow(2) + (wy as i64).pow(2);
            assert!(w2 <= 1_500 * 1_500, "({}, {})", vx, vy);
            if (vx as i64).pow(2) + (vy as i64).pow(2) <= 1_500 * 1_500 {
                assert_eq!((wx, wy), (vx, vy));
            } else {
                let casi = (wx.abs() as i64 + 1).pow(2) + (wy.abs() as i64 + 1).pow(2);
                assert!(casi > 1_499 * 1_499, "({}, {})", vx, vy);
            }
        }
    }
    let (wx, wy) = limitar_velocidad(i32::MIN, i32::MAX, i32::MAX);
    assert!((wx as i128).pow(2) + (wy as i128).pow(2) <= (i32::MAX as i128).pow(2));
    assert!(wx < -1_500_000_000 && wy > 1_500_000_000);
}
