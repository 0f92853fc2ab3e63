use presa_depredador::entidades::{Depredador, Especie, Organismo, Presa, Sexo};
use presa_depredador::sistemas::movimiento::{avanzar_organismos, buscar_pareja, buscar_presa};
use presa_depredador::sistemas::{
    depredadores_buscar_presas, mover_aleatoriamente, movimiento_presas,
};

fn dispuesta(x: i32, y: i32, especie: Especie, sexo: Sexo) -> Presa {
    let mut p = Presa::con_rasgos(x, y, especie, sexo, 100, 100);
    p.set_modo_reproduccion(true);
    p.set_cooldown(0);
    p
}

fn cazable(x: i32, y: i32, peso: u32) -> Presa {
    let mut p = Presa::con_rasgos(x, y, Especie::Raton, Sexo::Macho, 0, 0);
    p.set_edad(3);
    p.set_peso(peso);
    p
}

#[test]
fn la_pareja_es_la_candidata_mas_cercana() {
    let presas = vec![
        dispuesta(0, 0, Especie::Conejo, Sexo::Macho),
        dispuesta(50_000, 0, Especie::Conejo, Sexo::Hembra),
        dispuesta(0, 30_000, Especie::Conejo, Sexo::Hembra),
        dispuesta(40_000, 40_000, Especie::Conejo, Sexo::Hembra),
    ];
    assert_eq!(buscar_pareja(&presas, 0), Some(2));
    assert_eq!(buscar_pareja(&presas, 1), Some(0));
    assert_eq!(buscar_pareja(&presas, 3), Some(0));
}

#[test]
fn entre_candidatas_a_igual_distancia_gana_la_primera() {
    let presas = vec![
        dispuesta(0, 10_000, Especie::Raton, Sexo::Hembra),
        dispuesta(0, 0, Especie::Raton, Sexo::Macho),
        dispuesta(10_000, 0, Especie::Raton, Sexo::Hembra),
        dispuesta(-10_000, 0, Especie::Raton, Sexo::Hembra),
    ];
    assert_eq!(buscar_pareja(&presas, 1), Some(0));
}

#[test]
fn no_son_candidatas_las_que_no_cumplen() {
    let mut muerta = dispuesta(1, 0, Especie::Conejo, Sexo::Hembra);
    muerta.matar();
    let mut en_espera = dispuesta(2, 0, Especie::Conejo, Sexo::Hembra);
    en_espera.set_cooldown(1);
    let mut inmadura = dispuesta(3, 0, Especie::Conejo, Sexo::Hembra);
    inmadura.set_modo_reproduccion(false);
    let presas = vec![
        dispuesta(0, 0, Especie::Conejo, Sexo::Macho),
        muerta,
        en_espera,
        inmadura,
        dispuesta(4, 0, Especie::Conejo, Sexo::Macho),
        dispuesta(5, 0, Especie::Raton, Sexo::Hembra),
    ];
    assert_eq!(buscar_pareja(&presas, 0), None);
    let sola = vec![dispuesta(0, 0, Especie::Conejo, Sexo::Macho)];
    assert_eq!(buscar_pareja(&sola, 0), None);
}

#[test]
fn la_presa_dispuesta_apunta_cerca_de_su_pareja() {
    let mut rng = rand::thread_rng();
    for _ in 0..100 {
        let mut presas = vec![
            dispuesta(0, 0, Especie::Conejo, Sexo::Macho),
            dispuesta(300_000, 400_000, Especie::Conejo, Sexo::Hembra),
        ];
        movimiento_presas(&mut presas, &mut rng);
        assert_eq!(presas.len(), 2);
        let (vx, vy) = (presas[0].vx(), presas[0].vy());
        // El destino queda a menos de 8 del centro de la pareja en cada eje:
        // la velocidad es casi (900, 1200) y su rapidez, la máxima.
        assert!(vx >= 870 && vx <= 930, "vx = {}", vx);
        assert!(vy >= 1_175 && vy <= 1_225, "vy = {}", vy);
        let rapidez2 = (vx as i64) * (vx as i64) + (vy as i64) * (vy as i64);
        assert!(rapidez2 <= 1_500 * 1_500);
        assert!(rapidez2 >= 1_497 * 1_497);
        assert_eq!((presas[0].x(), presas[0].y()), (0, 0));
        assert_eq!((presas[1].x(), presas[1].y()), (300_000, 400_000));
    }
}

#[test]
fn la_presa_sin_pareja_vaga_con_ruido_pequeno() {
    let mut rng = rand::thread_rng();
    for _ in 0..100 {
        let mut presas = vec![dispuesta(0, 0, Especie::Conejo, Sexo::Macho)];
        movimiento_presas(&mut presas, &mut rng);
        assert!(presas[0].vx() >= 50 && presas[0].vx() < 150);
        assert!(presas[0].vy() >= 50 && presas[0].vy() < 150);
    }
}

#[test]
fn las_presas_no_dispuestas_no_cambian_de_rumbo() {
    let mut rng = rand::thread_rng();
    let mut inmadura = Presa::con_rasgos(0, 0, Especie::Conejo, Sexo::Macho, 7, 8);
    inmadura.set_cooldown(0);
    let mut en_espera = dispuesta(10, 10, Especie::Conejo, Sexo::Macho);
    en_espera.set_cooldown(1);
    en_espera.set_vx(9);
    let mut muerta = dispuesta(20, 20, Especie::Conejo, Sexo::Macho);
    muerta.matar();
    let mut presas =
        vec![inmadura, en_espera, muerta, dispuesta(30, 30, Especie::Conejo, Sexo::Hembra)];
    movimiento_presas(&mut presas, &mut rng);
    assert_eq!((presas[0].vx(), presas[0].vy()), (7, 8));
    assert_eq!((presas[1].vx(), presas[1].vy()), (9, 100));
    assert_eq!((presas[2].vx(), presas[2].vy()), (100, 100));
}

#[test]
fn mover_aleatoriamente_suma_ruido_y_recorta() {
    let mut rng = rand::thread_rng();
    let mut distintas = Vec::new();
    for _ in 0..200 {
        let mut p = Presa::con_rasgos(0, 0, Especie::Conejo, Sexo::Macho, 1_000, -1_000);
        mover_aleatoriamente(&mut p, &mut rng);
        assert!(p.vx() >= 950 && p.vx() < 1_050);
        assert!(p.vy() >= -1_050 && p.vy() < -950);
        if !distintas.contains(&p.vx()) {
            distintas.push(p.vx());
        }
        let mut rapida = Presa::con_rasgos(0, 0, Especie::Conejo, Sexo::Macho, 30_000, 40_000);
        mover_aleatoriamente(&mut rapida, &mut rng);
        let r2 = (rapida.vx() as i64).pow(2) + (rapida.vy() as i64).pow(2);
        assert!(r2 <= 1_500 * 1_500);
        assert!(r2 >= 1_497 * 1_497);
    }
    assert!(distintas.len() > 5);
}

#[test]
fn el_objetivo_es_la_presa_cazable_mas_pesada() {
    let presas = vec![cazable(10, 0, 3_000), cazable(90_000, 0, 3_900), cazable(20, 0, 3_500)];
    assert_eq!(buscar_presa(&presas, 0, 0), Some(1));
}

#[test]
fn a_igual_peso_el_objetivo_es_la_mas_cercana() {
    let presas = vec![cazable(500, 0, 3_000), cazable(0, 400, 3_000), cazable(0, -600, 3_000)];
    assert_eq!(buscar_presa(&presas, 0, 0), Some(1));
    assert_eq!(buscar_presa(&presas, 0, -500), Some(2));
}

#[test]
fn a_igual_peso_y_distancia_el_objetivo_es_la_primera() {
    let presas = vec![cazable(0, 700, 3_000), cazable(700, 0, 3_000), cazable(-700, 0, 3_000)];
    assert_eq!(buscar_presa(&presas, 0, 0), Some(0));
}

#[test]
fn solo_son_objetivo_las_presas_vivas_en_edad_de_caza() {
    let mut joven = cazable(0, 0, 9_000);
    joven.set_edad(2);
    let mut muerta = cazable(0, 0, 9_000);
    muerta.matar();
    let presas = vec![joven, muerta, cazable(5_000, 5_000, 1)];
    assert_eq!(buscar_presa(&presas, 0, 0), Some(2));
    assert_eq!(buscar_presa(&presas[..2], 0, 0), None);
    assert_eq!(buscar_presa(&[], 0, 0), None);
}

#[test]
fn los_depredadores_apuntan_a_su_objetivo() {
    let presas = vec![cazable(30_000, 40_000, 100), cazable(-30_000, -40_000, 200)];
    let mut muerto = Depredador::con_velocidad(0, 0, 11, 12);
    Organismo::matar(&mut muerto);
    let mut depredadores =
        vec![
            Depredador::con_velocidad(0, 0, 1, 1),
            muerto,
            Depredador::con_velocidad(-30_000, 0, 0, 0),
        ];
    depredadores_buscar_presas(&mut depredadores, &presas);
    assert_eq!(depredadores.len(), 3);
    assert_eq!((depredadores[0].vx(), depredadores[0].vy()), (-1_200, -1_600));
    assert_eq!((depredadores[1].vx(), depredadores[1].vy()), (11, 12));
    assert_eq!((depredadores[2].vx(), depredadores[2].vy()), (0, -2_000));
    assert_eq!((depredadores[0].x(), depredadores[0].y()), (0, 0));
}

#[test]
fn sin_presa_cazable_el_depredador_conserva_su_rumbo() {
    let mut joven = cazable(1_000, 1_000, 500);
    joven.set_edad(0);
    let mut depredadores = vec![Depredador::con_velocidad(0, 0, 123, -456)];
    depredadores_buscar_presas(&mut depredadores, &[joven]);
    assert_eq!((depredadores[0].vx(), depredadores[0].vy()), (123, -456));
    depredadores_buscar_presas(&mut depredadores, &[]);
    assert_eq!((depredadores[0].vx(), depredadores[0].vy()), (123, -456));
}

#[test]
fn el_depredador_sobre_su_objetivo_conserva_su_rumbo() {
    let mut depredadores = vec![Depredador::con_velocidad(7, 7, 123, -456)];
    depredadores_buscar_presas(&mut depredadores, &[cazable(7, 7, 500)]);
    assert_eq!((depredadores[0].vx(), depredadores[0].vy()), (123, -456));
}

#[test]
fn avanzar_organismos_mueve_a_todos() {
    let mut presas = vec![
        Presa::con_rasgos(0, 0, Especie::Conejo, Sexo::Macho, 10, 20),
        Presa::con_rasgos(100, 100, Especie::Raton, Sexo::Hembra, -200, 5),
    ];
    let mut depredadores = vec![Depredador::con_velocidad(50, 50, 1, 1)];
    depredadores[0].set_cooldown(40);
    avanzar_organismos(&mut presas, &mut depredadores, 16, 800_000, 600_000);
    assert_eq!((presas[0].x(), presas[0].y()), (10, 20));
    assert_eq!(presas[0].cooldown(), 984);
    assert_eq!((presas[1].x(), presas[1].y()), (-100, 105));
    assert_eq!((presas[1].vx(), presas[1].vy()), (200, 5));
    assert_eq!((depredadores[0].x(), depredadores[0].y()), (51, 51));
    assert_eq!(depredadores[0].cooldown(), 24);
}

#[test]
fn la_presa_apunta_a_rapidez_maxima_aunque_la_pareja_este_encima() {
    let mut rng = rand::thread_rng();
    for _ in 0..500 {
        let mut presas = vec![
            dispuesta(0, 0, Especie::Conejo, Sexo::Macho),
            dispuesta(1, 1, Especie::Conejo, Sexo::Hembra),
        ];
        movimiento_presas(&mut presas, &mut rng);
        for p in &presas {
            let r2 = (p.vx() as i64).pow(2) + (p.vy() as i64).pow(2);
            assert!(r2 <= 1_500 * 1_500);
            // Solo conserva su velocidad anterior si el destino sorteado
            // es su propia posición.
            if (p.vx(), p.vy()) != (100, 100) {
                let casi = (p.vx().abs() as i64 + 1).pow(2) + (p.vy().abs() as i64 + 1).pow(2);
                assert!(casi > 1_499 * 1_499);
            }
        }
    }
}

#[test]
fn el_depredador_apunta_a_rapidez_maxima_a_una_presa_a_una_milesima() {
    let mut depredadores = vec![Depredador::con_velocidad(0, 0, 3, 3)];
    depredadores_buscar_presas(&mut depredadores, &[cazable(1, 1, 500)]);
    assert_eq!((depredadores[0].vx(), depredadores[0].vy()), (1_414, 1_414));
    depredadores_buscar_presas(
        &mut depredadores,
        &[cazable(10_000, 0, 3_000), cazable(0, 10_000, 5_000)],
    );
    assert_eq!((depredadores[0].vx(), depredadores[0].vy()), (0, 2_000));
}
