use presa_depredador::entidades::presa::{sexo_sorteado, EventoSalud};
use presa_depredador::entidades::{Especie, EstadoSalud, Organismo, Presa, Sexo};
use presa_depredador::utilidades::configuraciones::{
    PROB_CRIAS_ARDILLA, PROB_CRIAS_CONEJO, PROB_CRIAS_RATON,
};

fn coneja() -> Presa {
    Presa::con_rasgos(100_000, 200_000, Especie::Conejo, Sexo::Hembra, 300, -400)
}

#[test]
fn presa_recien_nacida() {
    let p = coneja();
    assert_eq!(p.x(), 100_000);
    assert_eq!(p.y(), 200_000);
    assert_eq!(p.vx(), 300);
    assert_eq!(p.vy(), -400);
    assert_eq!(Organismo::r(&p), 8_000);
    assert!(p.esta_vivo());
    assert_eq!(p.especie(), Especie::Conejo);
    assert_eq!(p.sexo(), Sexo::Hembra);
    assert_eq!(p.cooldown(), 1_000);
    assert_eq!(p.edad(), 0);
    assert_eq!(p.peso(), 0);
    assert_eq!(p.peso_actual(), 0);
    assert!(!p.modo_reproduccion());
    assert_eq!(p.salud(), EstadoSalud::Sano);
    assert_eq!(p.dias_enfermo(), 0);
}

#[test]
fn escritura_de_cada_campo() {
    let mut p = coneja();
    p.set_edad(12);
    p.set_peso(9_999);
    p.set_modo_reproduccion(true);
    p.set_vx(-7);
    p.set_vy(8);
    p.set_salud(EstadoSalud::Enfermo);
    p.set_dias_enfermo(3);
    p.set_cooldown(250);
    assert_eq!(p.edad(), 12);
    assert_eq!(p.peso(), 9_999);
    assert!(p.modo_reproduccion());
    assert_eq!(p.vx(), -7);
    assert_eq!(p.vy(), 8);
    assert_eq!(p.salud(), EstadoSalud::Enfermo);
    assert_eq!(p.dias_enfermo(), 3);
    assert_eq!(p.cooldown(), 250);
    assert_eq!(p.x(), 100_000);
    assert_eq!(p.sexo(), Sexo::Hembra);
    assert!(p.esta_vivo());
}

#[test]
fn dias_enfermo_sube_y_vuelve_a_cero() {
    let mut p = coneja();
    p.incrementar_dias_enfermo();
    p.incrementar_dias_enfermo();
    assert_eq!(p.dias_enfermo(), 2);
    p.reset_dias_enfermo();
    assert_eq!(p.dias_enfermo(), 0);
}

#[test]
fn matar_solo_cambia_la_vida() {
    let mut p = coneja();
    p.set_edad(4);
    p.matar();
    assert!(!p.esta_vivo());
    assert_eq!(p.edad(), 4);
    assert_eq!(p.x(), 100_000);
    assert_eq!(p.cooldown(), 1_000);
}

#[test]
fn sexo_segun_la_tirada() {
    assert_eq!(sexo_sorteado(Especie::Conejo, 0), Sexo::Macho);
    assert_eq!(sexo_sorteado(Especie::Conejo, 549), Sexo::Macho);
    assert_eq!(sexo_sorteado(Especie::Conejo, 550), Sexo::Hembra);
    assert_eq!(sexo_sorteado(Especie::Raton, 499), Sexo::Macho);
    assert_eq!(sexo_sorteado(Especie::Raton, 500), Sexo::Hembra);
    assert_eq!(sexo_sorteado(Especie::Ardilla, 449), Sexo::Macho);
    assert_eq!(sexo_sorteado(Especie::Ardilla, 450), Sexo::Hembra);
    assert_eq!(sexo_sorteado(Especie::Ardilla, 999), Sexo::Hembra);
}

#[test]
fn envejecer_suma_un_dia_y_recalcula_el_peso() {
    let mut p = coneja();
    p.envejecer();
    assert_eq!(p.edad(), 1);
    assert_eq!(p.peso(), 9_986);
    assert_eq!(p.peso(), Especie::Conejo.peso_a_la_edad(1));
    p.envejecer();
    assert_eq!(p.edad(), 2);
    assert_eq!(p.peso(), Especie::Conejo.peso_a_la_edad(2));
    assert_eq!(p.x(), 100_000);
    assert_eq!(p.cooldown(), 1_000);
}

#[test]
fn busca_pareja_desde_la_edad_fertil_y_para_siempre() {
    let mut p = coneja();
    for _ in 0..9 {
        p.envejecer();
    }
    assert_eq!(p.edad(), 9);
    assert!(!p.modo_reproduccion());
    p.envejecer();
    assert_eq!(p.edad(), 10);
    assert!(p.modo_reproduccion());
    for _ in 0..20 {
        p.envejecer();
        assert!(p.modo_reproduccion());
    }
    assert_eq!(p.edad(), 30);
}

#[test]
fn la_busqueda_de_pareja_no_se_apaga_al_envejecer() {
    let mut p = coneja();
    p.set_modo_reproduccion(true);
    p.envejecer();
    assert_eq!(p.edad(), 1);
    assert!(p.modo_reproduccion());
}

#[test]
fn presa_sana_se_contagia_bajo_el_umbral() {
    let mut p = coneja();
    p.set_dias_enfermo(3);
    assert_eq!(p.pasar_dia_de_salud(19), EventoSalud::Contagio);
    assert_eq!(p.salud(), EstadoSalud::Enfermo);
    assert_eq!(p.dias_enfermo(), 0);
    assert!(p.esta_vivo());
}

#[test]
fn presa_sana_sigue_sana_sobre_el_umbral() {
    let mut p = coneja();
    assert_eq!(p.pasar_dia_de_salud(20), EventoSalud::Ninguno);
    assert_eq!(p.salud(), EstadoSalud::Sano);
    assert_eq!(p.dias_enfermo(), 0);
    assert_eq!(p.pasar_dia_de_salud(999), EventoSalud::Ninguno);
    assert_eq!(p.salud(), EstadoSalud::Sano);
}

#[test]
fn presa_enferma_se_recupera_bajo_el_umbral() {
    let mut p = coneja();
    p.set_salud(EstadoSalud::Enfermo);
    p.set_dias_enfermo(4);
    assert_eq!(p.pasar_dia_de_salud(299), EventoSalud::Recuperacion);
    assert_eq!(p.salud(), EstadoSalud::Sano);
    assert_eq!(p.dias_enfermo(), 0);
    assert!(p.esta_vivo());
}

#[test]
fn presa_enferma_suma_un_dia_por_dia() {
    let mut p = coneja();
    p.set_salud(EstadoSalud::Enfermo);
    for dia in 1u32..5 {
        assert_eq!(p.pasar_dia_de_salud(300), EventoSalud::Ninguno);
        assert_eq!(p.dias_enfermo(), dia);
        assert_eq!(p.salud(), EstadoSalud::Enfermo);
        assert!(p.esta_vivo());
    }
}

#[test]
fn presa_enferma_muere_al_quinto_dia() {
    let mut p = coneja();
    p.set_salud(EstadoSalud::Enfermo);
    for _ in 0..4 {
        assert_eq!(p.pasar_dia_de_salud(999), EventoSalud::Ninguno);
    }
    assert_eq!(p.pasar_dia_de_salud(999), EventoSalud::Muerte);
    assert!(!p.esta_vivo());
    assert_eq!(p.dias_enfermo(), 5);
    assert_eq!(p.salud(), EstadoSalud::Enfermo);
}

#[test]
fn contagio_y_recuperacion_no_ocurren_el_mismo_dia() {
    // Una tirada bajo ambos umbrales solo contagia a la sana.
    let mut sana = coneja();
    assert_eq!(sana.pasar_dia_de_salud(0), EventoSalud::Contagio);
    assert_eq!(sana.salud(), EstadoSalud::Enfermo);
    // Y solo recupera a la enferma.
    let mut enferma = coneja();
    enferma.set_salud(EstadoSalud::Enfermo);
    assert_eq!(enferma.pasar_dia_de_salud(0), EventoSalud::Recuperacion);
    assert_eq!(enferma.salud(), EstadoSalud::Sano);
}

#[test]
fn presa_muerta_no_vive_dias_de_salud() {
    let mut p = coneja();
    p.set_salud(EstadoSalud::Enfermo);
    p.set_dias_enfermo(2);
    p.matar();
    assert_eq!(p.pasar_dia_de_salud(0), EventoSalud::Ninguno);
    assert_eq!(p.salud(), EstadoSalud::Enfermo);
    assert_eq!(p.dias_enfermo(), 2);
}

#[test]
fn mover_hacia_apunta_a_rapidez_maxima() {
    let mut p = Presa::con_rasgos(0, 0, Especie::Raton, Sexo::Macho, 1, 1);
    p.mover_hacia(3_000, 4_000);
    assert_eq!((p.vx(), p.vy()), (900, 1_200));
    p.mover_hacia(0, -50_000);
    assert_eq!((p.vx(), p.vy()), (0, -1_500));
    assert_eq!((p.x(), p.y()), (0, 0));
}

#[test]
fn mover_hacia_su_propia_posicion_no_cambia_la_velocidad() {
    let mut p = Presa::con_rasgos(5, 6, Especie::Raton, Sexo::Macho, 11, -12);
    p.mover_hacia(5, 6);
    assert_eq!((p.vx(), p.vy()), (11, -12));
}

#[test]
fn mover_con_ruido_suma_y_recorta() {
    let mut p = Presa::con_rasgos(0, 0, Especie::Raton, Sexo::Macho, 100, 200);
    p.mover_con_ruido(-50, 49);
    assert_eq!((p.vx(), p.vy()), (50, 249));
    let mut q = Presa::con_rasgos(0, 0, Especie::Raton, Sexo::Macho, 2_950, 4_050);
    q.mover_con_ruido(50, -50);
    assert_eq!((q.vx(), q.vy()), (900, 1_200));
}

#[test]
fn presa_nueva_tiene_rasgos_sorteados_en_rango() {
    for _ in 0..200 {
        let p = Presa::new(1_000, 2_000, Especie::Ardilla);
        assert_eq!((p.x(), p.y()), (1_000, 2_000));
        assert_eq!(p.especie(), Especie::Ardilla);
        assert!(p.vx() >= -1_500 && p.vx() < 1_500);
        assert!(p.vy() >= -1_500 && p.vy() < 1_500);
        assert_eq!(p.edad(), 0);
        assert_eq!(p.peso(), 0);
        assert_eq!(p.cooldown(), 1_000);
        assert!(p.esta_vivo());
        assert!(!p.modo_reproduccion());
        assert_eq!(p.salud(), EstadoSalud::Sano);
    }
}

#[test]
fn el_sorteo_no_devuelve_siempre_lo_mismo() {
    let mut velocidades = Vec::new();
    let mut machos = 0;
    let mut hembras = 0;
    for _ in 0..400 {
        let p = Presa::new(0, 0, Especie::Raton);
        if !velocidades.contains(&p.vx()) {
            velocidades.push(p.vx());
        }
        match p.sexo() {
            Sexo::Macho => machos += 1,
            Sexo::Hembra => hembras += 1,
        }
    }
    assert!(velocidades.len() > 10);
    assert!(machos > 0);
    assert!(hembras > 0);
}

#[test]
fn sorteada_usa_el_generador_dado() {
    let mut rng = rand::thread_rng();
    let p = Presa::sorteada(-5, 7, Especie::Conejo, &mut rng);
    assert_eq!((p.x(), p.y()), (-5, 7));
    assert_eq!(p.especie(), Especie::Conejo);
    assert!(p.vx() >= -1_500 && p.vx() < 1_500);
    assert!(p.vy() >= -1_500 && p.vy() < 1_500);
}

#[test]
fn num_crias_cae_en_la_distribucion_de_la_especie() {
    let mut rng = rand::thread_rng();
    let mut vistos = [false; 7];
    for _ in 0..2_000 {
        let conejo = Presa::num_crias(Especie::Conejo, &mut rng);
        assert!(conejo < PROB_CRIAS_CONEJO.len());
        vistos[conejo] = true;
        assert!(Presa::num_crias(Especie::Raton, &mut rng) < PROB_CRIAS_RATON.len());
        assert!(Presa::num_crias(Especie::Ardilla, &mut rng) < PROB_CRIAS_ARDILLA.len());
    }
    assert!(vistos[1] && vistos[2] && vistos[3]);
}

#[test]
fn crear_cria_nace_en_el_lugar_dado() {
    let mut rng = rand::thread_rng();
    let c = Presa::crear_cria(40_000, 50_000, Especie::Raton, &mut rng);
    assert_eq!((c.x(), c.y()), (40_000, 50_000));
    assert_eq!(c.especie(), Especie::Raton);
    assert_eq!(c.edad(), 0);
    assert_eq!(c.peso(), 0);
    assert_eq!(c.cooldown(), 1_000);
    assert!(c.esta_vivo());
    assert!(!c.modo_reproduccion());
    assert_eq!(c.dias_enfermo(), 0);
    assert!(c.vx() >= -1_500 && c.vx() < 1_500);
}

#[test]
fn mover_hacia_un_destino_a_una_milesima() {
    let mut p = Presa::con_rasgos(0, 0, Especie::Raton, Sexo::Macho, 1, 1);
    p.mover_hacia(1, 1);
    assert_eq!((p.vx(), p.vy()), (1_060, 1_060));
    p.mover_hacia(0, 1);
    assert_eq!((p.vx(), p.vy()), (0, 1_500));
    p.mover_hacia(-3, -4);
    assert_eq!((p.vx(), p.vy()), (-900, -1_200));
}

#[test]
fn mover_con_ruido_no_supera_la_rapidez_maxima() {
    let mut p = Presa::con_rasgos(0, 0, Especie::Raton, Sexo::Macho, 1_500, 27);
    p.mover_con_ruido(0, 50);
    assert_eq!((p.vx(), p.vy()), (1_498, 76));
    for vy in 0..200 {
        let mut q = Presa::con_rasgos(0, 0, Especie::Raton, Sexo::Macho, 1_480, vy);
        q.mover_con_ruido(49, 49);
        let r2 = (q.vx() as i64).pow(2) + (q.vy() as i64).pow(2);
        assert!(r2 <= 1_500 * 1_500, "vy = {}", vy);
    }
}
