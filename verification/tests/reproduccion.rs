use presa_depredador::entidades::{Especie, EstadoSalud, Presa, Sexo};
use presa_depredador::sistemas::reproduccion;
use presa_depredador::sistemas::reproduccion::{
    es_pareja, parejas_reproductoras, poblacion_viva, reproducir_camadas,
};

fn adulta(x: i32, y: i32, especie: Especie, sexo: Sexo) -> Presa {
    let mut p = Presa::con_rasgos(x, y, especie, sexo, 0, 0);
    p.set_edad(especie.edad_reproduccion());
    p.set_cooldown(0);
    p
}

fn pareja_de_conejos() -> Vec<Presa> {
    vec![
        adulta(100_000, 100_000, Especie::Conejo, Sexo::Macho),
        adulta(100_000, 100_000, Especie::Conejo, Sexo::Hembra),
    ]
}

fn relleno(presas: &mut Vec<Presa>, especie: Especie, cantidad: usize) {
    for i in 0..cantidad {
        presas.push(Presa::con_rasgos(
            500_000 + 100_000 * i as i32,
            500_000,
            especie,
            Sexo::Macho,
            0,
            0,
        ));
    }
}

#[test]
fn pareja_que_cumple_todas_las_condiciones() {
    let presas = pareja_de_conejos();
    assert!(es_pareja(&presas[0], &presas[1]));
    assert!(es_pareja(&presas[1], &presas[0]));
}

#[test]
fn cada_condicion_de_pareja_es_necesaria() {
    let base = pareja_de_conejos();
    let mut muerta = base[1];
    muerta.matar();
    assert!(!es_pareja(&base[0], &muerta));
    let otra_especie = adulta(100_000, 100_000, Especie::Raton, Sexo::Hembra);
    assert!(!es_pareja(&base[0], &otra_especie));
    let mut en_espera = base[1];
    en_espera.set_cooldown(1);
    assert!(!es_pareja(&base[0], &en_espera));
    assert!(!es_pareja(&en_espera, &base[0]));
    let mut joven = base[1];
    joven.set_edad(9);
    assert!(!es_pareja(&base[0], &joven));
    assert!(!es_pareja(&joven, &base[0]));
    let mismo_sexo = adulta(100_000, 100_000, Especie::Conejo, Sexo::Macho);
    assert!(!es_pareja(&base[0], &mismo_sexo));
    let lejos = adulta(116_000, 100_000, Especie::Conejo, Sexo::Hembra);
    assert!(!es_pareja(&base[0], &lejos));
    let cerca = adulta(115_999, 100_000, Especie::Conejo, Sexo::Hembra);
    assert!(es_pareja(&base[0], &cerca));
}

#[test]
fn la_edad_fertil_cuenta_aunque_no_busque_pareja() {
    let presas = pareja_de_conejos();
    assert!(!presas[0].modo_reproduccion());
    assert!(es_pareja(&presas[0], &presas[1]));
}

#[test]
fn parejas_en_orden_de_recorrido() {
    let presas = vec![
        adulta(0, 0, Especie::Conejo, Sexo::Macho),
        adulta(0, 0, Especie::Raton, Sexo::Macho),
        adulta(0, 0, Especie::Conejo, Sexo::Hembra),
        adulta(0, 0, Especie::Conejo, Sexo::Hembra),
        adulta(0, 0, Especie::Raton, Sexo::Hembra),
        adulta(0, 0, Especie::Conejo, Sexo::Macho),
    ];
    assert_eq!(parejas_reproductoras(&presas), vec![(0, 2), (0, 3), (1, 4), (2, 5), (3, 5)]);
}

#[test]
fn sin_parejas_no_hay_lista() {
    assert_eq!(parejas_reproductoras(&Vec::new()), vec![]);
    let sola = vec![adulta(0, 0, Especie::Conejo, Sexo::Macho)];
    assert_eq!(parejas_reproductoras(&sola), vec![]);
    let lejos = vec![
        adulta(0, 0, Especie::Conejo, Sexo::Macho),
        adulta(500_000, 0, Especie::Conejo, Sexo::Hembra),
    ];
    assert_eq!(parejas_reproductoras(&lejos), vec![]);
}

#[test]
fn poblacion_viva_por_especie() {
    let mut presas = pareja_de_conejos();
    relleno(&mut presas, Especie::Raton, 3);
    presas[3].matar();
    assert_eq!(poblacion_viva(&presas, Especie::Conejo), 2);
    assert_eq!(poblacion_viva(&presas, Especie::Raton), 2);
    assert_eq!(poblacion_viva(&presas, Especie::Ardilla), 0);
}

#[test]
fn una_camada_de_una_cria() {
    let mut rng = rand::thread_rng();
    let mut presas = pareja_de_conejos();
    let parejas = parejas_reproductoras(&presas);
    assert_eq!(parejas, vec![(0, 1)]);
    let mut reproducciones = 0u32;
    reproducir_camadas(&mut presas, &parejas, &vec![1], &mut reproducciones, &mut rng);
    assert_eq!(presas.len(), 3);
    assert_eq!(presas[0].cooldown(), 2_000);
    assert_eq!(presas[1].cooldown(), 2_000);
    assert_eq!(reproducciones, 1);
    let cria = presas[2];
    assert_eq!(cria.especie(), Especie::Conejo);
    assert_eq!(cria.edad(), 0);
    assert_eq!(cria.peso(), 0);
    assert_eq!(cria.cooldown(), 1_000);
    assert!(cria.esta_vivo());
    assert!(!cria.modo_reproduccion());
    assert_eq!(cria.salud(), EstadoSalud::Sano);
    assert_eq!(cria.dias_enfermo(), 0);
    assert!(cria.x() >= 96_000 && cria.x() < 104_000);
    assert!(cria.y() >= 96_000 && cria.y() < 104_000);
    assert!(cria.vx() >= -1_500 && cria.vx() < 1_500);
    assert!(cria.vy() >= -1_500 && cria.vy() < 1_500);
    assert_eq!(presas[0].edad(), 10);
    assert_eq!(presas[0].x(), 100_000);
}

#[test]
fn una_camada_vacia_deja_la_espera_y_no_cuenta() {
    let mut rng = rand::thread_rng();
    let mut presas = pareja_de_conejos();
    let parejas = parejas_reproductoras(&presas);
    let mut reproducciones = 3u32;
    reproducir_camadas(&mut presas, &parejas, &vec![0], &mut reproducciones, &mut rng);
    assert_eq!(presas.len(), 2);
    assert_eq!(presas[0].cooldown(), 2_000);
    assert_eq!(presas[1].cooldown(), 2_000);
    assert_eq!(reproducciones, 3);
}

#[test]
fn las_crias_nacen_junto_a_la_primera_de_la_pareja() {
    let mut rng = rand::thread_rng();
    for _ in 0..50 {
        let mut presas = vec![
            adulta(100_000, 200_000, Especie::Raton, Sexo::Hembra),
            adulta(110_000, 190_000, Especie::Raton, Sexo::Macho),
        ];
        let parejas = parejas_reproductoras(&presas);
        let mut reproducciones = 0u32;
        reproducir_camadas(&mut presas, &parejas, &vec![4], &mut reproducciones, &mut rng);
        assert_eq!(presas.len(), 6);
        assert_eq!(reproducciones, 1);
        for cria in &presas[2..] {
            assert!(cria.x() >= 96_000 && cria.x() < 104_000);
            assert!(cria.y() >= 196_000 && cria.y() < 204_000);
            assert_eq!(cria.especie(), Especie::Raton);
        }
    }
}

#[test]
fn el_tope_recorta_la_camada() {
    let mut rng = rand::thread_rng();
    let mut presas = pareja_de_conejos();
    relleno(&mut presas, Especie::Conejo, 26);
    assert_eq!(poblacion_viva(&presas, Especie::Conejo), 28);
    let parejas = parejas_reproductoras(&presas);
    assert_eq!(parejas, vec![(0, 1)]);
    let mut reproducciones = 0u32;
    reproducir_camadas(&mut presas, &parejas, &vec![6], &mut reproducciones, &mut rng);
    assert_eq!(presas.len(), 30);
    assert_eq!(poblacion_viva(&presas, Especie::Conejo), 30);
    assert_eq!(reproducciones, 1);
}

#[test]
fn en_el_tope_no_nace_nadie_pero_queda_la_espera() {
    let mut rng = rand::thread_rng();
    let mut presas = pareja_de_conejos();
    relleno(&mut presas, Especie::Conejo, 28);
    let parejas = parejas_reproductoras(&presas);
    let mut reproducciones = 0u32;
    reproducir_camadas(&mut presas, &parejas, &vec![3], &mut reproducciones, &mut rng);
    assert_eq!(presas.len(), 30);
    assert_eq!(reproducciones, 0);
    assert_eq!(presas[0].cooldown(), 2_000);
    assert_eq!(presas[1].cooldown(), 2_000);
    assert_eq!(presas[2].cooldown(), 1_000);
}

#[test]
fn sobre_el_tope_la_poblacion_no_crece() {
    let mut rng = rand::thread_rng();
    let mut presas = pareja_de_conejos();
    relleno(&mut presas, Especie::Conejo, 40);
    let parejas = parejas_reproductoras(&presas);
    let mut reproducciones = 0u32;
    reproducir_camadas(&mut presas, &parejas, &vec![5], &mut reproducciones, &mut rng);
    assert_eq!(presas.len(), 42);
    assert_eq!(reproducciones, 0);
}

#[test]
fn las_muertas_no_ocupan_lugar_bajo_el_tope() {
    let mut rng = rand::thread_rng();
    let mut presas = pareja_de_conejos();
    relleno(&mut presas, Especie::Conejo, 28);
    for p in presas[2..12].iter_mut() {
        p.matar();
    }
    let parejas = parejas_reproductoras(&presas);
    let mut reproducciones = 0u32;
    reproducir_camadas(&mut presas, &parejas, &vec![6], &mut reproducciones, &mut rng);
    assert_eq!(presas.len(), 36);
    assert_eq!(poblacion_viva(&presas, Especie::Conejo), 26);
}

#[test]
fn las_crias_de_una_pareja_cuentan_para_la_siguiente() {
    let mut rng = rand::thread_rng();
    // Un macho y dos hembras en el mismo punto: dos parejas, (0, 1) y (0, 2).
    let mut presas = vec![
        adulta(0, 0, Especie::Ardilla, Sexo::Macho),
        adulta(0, 0, Especie::Ardilla, Sexo::Hembra),
        adulta(0, 0, Especie::Ardilla, Sexo::Hembra),
    ];
    relleno(&mut presas, Especie::Ardilla, 20);
    let parejas = parejas_reproductoras(&presas);
    assert_eq!(parejas, vec![(0, 1), (0, 2)]);
    let mut reproducciones = 0u32;
    // 23 vivas y tope 25: la primera pareja tiene sus 2 crías y la segunda, ninguna.
    reproducir_camadas(&mut presas, &parejas, &vec![2, 3], &mut reproducciones, &mut rng);
    assert_eq!(presas.len(), 25);
    assert_eq!(poblacion_viva(&presas, Especie::Ardilla), 25);
    assert_eq!(reproducciones, 1);
    assert_eq!(presas[0].cooldown(), 2_000);
    assert_eq!(presas[1].cooldown(), 2_000);
    assert_eq!(presas[2].cooldown(), 2_000);
    assert_eq!(presas[3].cooldown(), 1_000);
}

#[test]
fn cada_especie_tiene_su_tope() {
    let mut rng = rand::thread_rng();
    let mut presas = vec![
        adulta(0, 0, Especie::Conejo, Sexo::Macho),
        adulta(0, 0, Especie::Conejo, Sexo::Hembra),
        adulta(900_000, 0, Especie::Raton, Sexo::Macho),
        adulta(900_000, 0, Especie::Raton, Sexo::Hembra),
    ];
    relleno(&mut presas, Especie::Conejo, 27);
    let parejas = parejas_reproductoras(&presas);
    assert_eq!(parejas, vec![(0, 1), (2, 3)]);
    let mut reproducciones = 0u32;
    reproducir_camadas(&mut presas, &parejas, &vec![4, 4], &mut reproducciones, &mut rng);
    assert_eq!(poblacion_viva(&presas, Especie::Conejo), 30);
    assert_eq!(poblacion_viva(&presas, Especie::Raton), 6);
    assert_eq!(reproducciones, 2);
    // Las crías van al final en orden de pareja.
    assert_eq!(presas[31].especie(), Especie::Conejo);
    assert_eq!(presas[32].especie(), Especie::Raton);
    assert_eq!(presas.len(), 36);
}

#[test]
fn reproduccion_sorteada_respeta_tope_y_esperas() {
    for _ in 0..100 {
        let mut presas = pareja_de_conejos();
        relleno(&mut presas, Especie::Conejo, 25);
        let mut reproducciones = 0u32;
        reproduccion(
            &mut presas,
            &[Especie::Conejo, Especie::Raton, Especie::Ardilla],
            &mut reproducciones,
        );
        let nacidas = presas.len() - 27;
        assert!(nacidas <= 3);
        assert!(poblacion_viva(&presas, Especie::Conejo) <= 30);
        assert_eq!(reproducciones, if nacidas > 0 { 1 } else { 0 });
        assert_eq!(presas[0].cooldown(), 2_000);
        assert_eq!(presas[1].cooldown(), 2_000);
        for p in &presas[2..27] {
            assert_eq!(p.cooldown(), 1_000);
        }
        for cria in &presas[27..] {
            assert_eq!(cria.edad(), 0);
            assert_eq!(cria.especie(), Especie::Conejo);
            assert!(cria.x() >= 96_000 && cria.x() < 104_000);
        }
    }
}

#[test]
fn reproduccion_sorteada_da_camadas_de_varios_tamanos() {
    let mut tamanos = Vec::new();
    for _ in 0..300 {
        let mut presas = pareja_de_conejos();
        let mut reproducciones = 0u32;
        reproduccion(&mut presas, &[], &mut reproducciones);
        let nacidas = presas.len() - 2;
        assert!(nacidas <= 6);
        if !tamanos.contains(&nacidas) {
            tamanos.push(nacidas);
        }
    }
    assert!(tamanos.len() >= 3);
}

#[test]
fn reproduccion_sin_parejas_no_cambia_nada() {
    let mut presas = vec![
        adulta(0, 0, Especie::Conejo, Sexo::Macho),
        adulta(500_000, 0, Especie::Conejo, Sexo::Hembra),
    ];
    let mut reproducciones = 9u32;
    reproduccion(&mut presas, &[Especie::Conejo], &mut reproducciones);
    assert_eq!(presas.len(), 2);
    assert_eq!(reproducciones, 9);
    assert_eq!(presas[0].cooldown(), 0);
    assert_eq!(presas[1].cooldown(), 0);
}

#[test]
fn las_crias_no_se_reproducen_en_la_misma_pasada() {
    for _ in 0..50 {
        let mut presas = pareja_de_conejos();
        let mut reproducciones = 0u32;
        reproduccion(&mut presas, &[], &mut reproducciones);
        assert!(reproducciones <= 1);
        // En la pasada siguiente nadie puede: progenitores y crías están en espera.
        let antes = presas.len();
        reproduccion(&mut presas, &[], &mut reproducciones);
        assert_eq!(presas.len(), antes);
        assert!(reproducciones <= 1);
    }
}
