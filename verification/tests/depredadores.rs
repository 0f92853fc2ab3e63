use presa_depredador::entidades::{Depredador, EstadoSalud, Organismo};

fn con_reserva(reserva: u64) -> Depredador {
    let mut d = Depredador::con_velocidad(10_000, 20_000, 300, -400);
    d.set_reserva(reserva);
    d
}

#[test]
fn depredador_recien_creado() {
    let d = Depredador::con_velocidad(10_000, 20_000, 300, -400);
    assert_eq!((d.x(), d.y()), (10_000, 20_000));
    assert_eq!((d.vx(), d.vy()), (300, -400));
    assert_eq!(d.r(), 12_000);
    assert!(d.esta_vivo());
    assert_eq!(d.reserva(), 0);
    assert_eq!(d.cooldown(), 0);
    assert_eq!(d.salud(), EstadoSalud::Sano);
    assert_eq!(d.dias_enfermo(), 0);
}

#[test]
fn depredador_nuevo_tiene_velocidad_sorteada_en_rango() {
    let mut distintas = Vec::new();
    for _ in 0..200 {
        let d = Depredador::new(1, 2);
        assert_eq!((d.x(), d.y()), (1, 2));
        assert!(d.vx() >= -2_000 && d.vx() < 2_000);
        assert!(d.vy() >= -2_000 && d.vy() < 2_000);
        assert_eq!(d.reserva(), 0);
        assert!(d.esta_vivo());
        if !distintas.contains(&d.vx()) {
            distintas.push(d.vx());
        }
    }
    assert!(distintas.len() > 10);
}

#[test]
fn escritura_de_cada_campo_del_depredador() {
    let mut d = con_reserva(77);
    d.set_salud(EstadoSalud::Enfermo);
    d.set_cooldown(500);
    d.set_dias_enfermo(4);
    assert_eq!(d.reserva(), 77);
    assert_eq!(d.salud(), EstadoSalud::Enfermo);
    assert_eq!(d.cooldown(), 500);
    assert_eq!(d.dias_enfermo(), 4);
    d.incrementar_dias_enfermo();
    assert_eq!(d.dias_enfermo(), 5);
    d.reset_dias_enfermo();
    assert_eq!(d.dias_enfermo(), 0);
    d.matar();
    assert!(!d.esta_vivo());
    assert_eq!(d.reserva(), 77);
}

#[test]
fn mover_hacia_del_depredador() {
    let mut d = Depredador::con_velocidad(0, 0, 5, 5);
    d.mover_hacia(-3_000, 4_000);
    assert_eq!((d.vx(), d.vy()), (-1_200, 1_600));
    d.mover_hacia(0, 0);
    assert_eq!((d.vx(), d.vy()), (-1_200, 1_600));
}

#[test]
fn el_gasto_diario_se_descuenta() {
    let mut d = con_reserva(40_000);
    d.pasar_dia(20);
    assert_eq!(d.reserva(), 37_500);
}

#[test]
fn la_reserva_no_baja_de_cero() {
    let mut d = con_reserva(2_499);
    d.pasar_dia(1);
    assert_eq!(d.reserva(), 0);
    d.pasar_dia(2);
    assert_eq!(d.reserva(), 0);
    let mut justo = con_reserva(2_500);
    justo.pasar_dia(1);
    assert_eq!(justo.reserva(), 0);
}

#[test]
fn en_los_dias_de_inmunidad_siempre_queda_sano() {
    for dia in 0u32..=7 {
        let mut d = con_reserva(0);
        d.set_salud(EstadoSalud::Enfermo);
        d.set_dias_enfermo(6);
        d.pasar_dia(dia);
        assert_eq!(d.salud(), EstadoSalud::Sano);
        assert_eq!(d.dias_enfermo(), 0);
        assert!(d.esta_vivo());
    }
}

#[test]
fn reserva_optima_cura_y_borra_la_cuenta() {
    let mut d = con_reserva(32_500);
    d.set_salud(EstadoSalud::Enfermo);
    d.set_dias_enfermo(5);
    d.pasar_dia(8);
    assert_eq!(d.reserva(), 30_000);
    assert_eq!(d.salud(), EstadoSalud::Sano);
    assert_eq!(d.dias_enfermo(), 0);
}

#[test]
fn reserva_minima_tambien_cura_de_inmediato() {
    let mut d = con_reserva(32_499);
    d.set_salud(EstadoSalud::Enfermo);
    d.set_dias_enfermo(5);
    d.pasar_dia(8);
    assert_eq!(d.reserva(), 29_999);
    assert_eq!(d.salud(), EstadoSalud::Sano);
    assert_eq!(d.dias_enfermo(), 0);
    let mut justo = con_reserva(14_500);
    justo.set_salud(EstadoSalud::Enfermo);
    justo.pasar_dia(8);
    assert_eq!(justo.reserva(), 12_000);
    assert_eq!(justo.salud(), EstadoSalud::Sano);
}

#[test]
fn reserva_deficiente_enferma_tras_dos_dias() {
    let mut d = con_reserva(14_499);
    d.pasar_dia(8);
    assert_eq!(d.reserva(), 11_999);
    assert_eq!(d.dias_enfermo(), 1);
    assert_eq!(d.salud(), EstadoSalud::Sano);
    d.pasar_dia(9);
    assert_eq!(d.dias_enfermo(), 2);
    assert_eq!(d.salud(), EstadoSalud::Sano);
    d.pasar_dia(10);
    assert_eq!(d.dias_enfermo(), 3);
    assert_eq!(d.salud(), EstadoSalud::Enfermo);
    assert!(d.esta_vivo());
}

#[test]
fn reserva_deficiente_no_cura_a_un_enfermo() {
    let mut d = con_reserva(8_000);
    d.set_salud(EstadoSalud::Enfermo);
    d.pasar_dia(8);
    assert_eq!(d.reserva(), 5_500);
    assert_eq!(d.salud(), EstadoSalud::Enfermo);
    assert_eq!(d.dias_enfermo(), 1);
}

#[test]
fn reserva_deficiente_mata_al_septimo_dia() {
    let mut d = con_reserva(1_000_000);
    d.set_dias_enfermo(5);
    d.set_reserva(8_000);
    d.pasar_dia(50);
    assert_eq!(d.dias_enfermo(), 6);
    assert!(d.esta_vivo());
    d.set_reserva(8_000);
    d.pasar_dia(51);
    assert_eq!(d.dias_enfermo(), 7);
    assert!(!d.esta_vivo());
}

#[test]
fn bajo_el_umbral_deficiente_enferma_en_el_acto() {
    let mut d = con_reserva(5_499);
    d.pasar_dia(8);
    assert_eq!(d.reserva(), 2_999);
    assert_eq!(d.salud(), EstadoSalud::Enfermo);
    assert_eq!(d.dias_enfermo(), 1);
    assert!(d.esta_vivo());
    let mut limite = con_reserva(5_500);
    limite.pasar_dia(8);
    assert_eq!(limite.reserva(), 3_000);
    assert_eq!(limite.salud(), EstadoSalud::Sano);
    assert_eq!(limite.dias_enfermo(), 1);
}

#[test]
fn hambre_sostenida_mata_a_mas_tardar_al_septimo_dia() {
    let mut d = con_reserva(1_000);
    let mut dia = 8u32;
    for vividos in 1u32..=7 {
        d.set_reserva(1_000);
        d.pasar_dia(dia);
        dia += 1;
        assert_eq!(d.salud(), EstadoSalud::Enfermo);
        assert_eq!(d.dias_enfermo(), vividos);
        assert_eq!(d.esta_vivo(), vividos < 7);
    }
    assert!(!d.esta_vivo());
}

#[test]
fn depredador_muerto_no_cambia() {
    let mut d = con_reserva(10_000);
    d.set_dias_enfermo(3);
    d.matar();
    d.pasar_dia(30);
    assert_eq!(d.reserva(), 10_000);
    assert_eq!(d.dias_enfermo(), 3);
    assert_eq!(d.salud(), EstadoSalud::Sano);
    assert!(!d.esta_vivo());
}

#[test]
fn mover_hacia_una_presa_a_una_milesima() {
    let mut d = Depredador::con_velocidad(0, 0, 5, 5);
    d.mover_hacia(1, 1);
    assert_eq!((d.vx(), d.vy()), (1_414, 1_414));
    d.mover_hacia(-1, 0);
    assert_eq!((d.vx(), d.vy()), (-2_000, 0));
}
