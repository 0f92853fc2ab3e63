//! Parámetros de la simulación. Las magnitudes continuas están en milésimas:
//! `1_000` es un píxel, un segundo, una unidad de peso o probabilidad uno.

use vstd::prelude::*;

verus! {

/// Cuántas milésimas hacen una unidad.
pub const MILESIMAS: u32 = 1_000;

// Día
pub const DURACION_DIA: u32 = 1_000;

// Presas
pub const MAX_DIAS_SIN_RECUPERAR_PRESA: u32 = 5;

pub const RADIO_PRESA: i32 = 8_000;
pub const VEL_MAX_PRESA: i32 = 1_500;

pub const PROB_ENFERMAR_DIARIA_PRESA: u32 = 20;
pub const PROB_RECUPERACION_DIARIA_PRESA: u32 = 300;

pub const EDAD_MINIMA_SACRIFICIO_CONEJO: u32 = 6;
pub const EDAD_MINIMA_SACRIFICIO_RATON: u32 = 3;
pub const EDAD_MINIMA_SACRIFICIO_ARDILLA: u32 = 5;

pub const EDAD_MINIMA_REPRODUCCION_CONEJO: u32 = 10;
pub const EDAD_MINIMA_REPRODUCCION_RATON: u32 = 6;
pub const EDAD_MINIMA_REPRODUCCION_ARDILLA: u32 = 8;

pub const POBLACION_MAXIMA_CONEJO: usize = 30;
pub const POBLACION_MAXIMA_RATON: usize = 40;
pub const POBLACION_MAXIMA_ARDILLA: usize = 25;

/// Probabilidad de cada tamaño de camada, de cero crías en adelante.
pub const PROB_CRIAS_CONEJO: [u32; 7] = [20, 150, 400, 250, 100, 60, 20];
pub const PROB_CRIAS_RATON: [u32; 5] = [100, 300, 400, 150, 50];
pub const PROB_CRIAS_ARDILLA: [u32; 4] = [200, 500, 200, 100];

pub const RADIO_APARICION_CRIA: i32 = 4_000;
pub const RUIDO_MOVIMIENTO: i32 = 50;

/// Espera de una cría recién nacida antes de poder reproducirse.
pub const ESPERA_CRIA: u32 = 1_000;
/// Espera de los progenitores después de un apareamiento.
pub const ESPERA_REPRODUCCION: u32 = 2_000;

// Curva de Gompertz: asíntota, desplazamiento y tasa diaria de cada especie.
pub const GOMPERTZ_A_CONEJO: u32 = 10_000;
pub const GOMPERTZ_B_CONEJO: u32 = 200;
pub const GOMPERTZ_C_CONEJO: u32 = 5_000;
pub const GOMPERTZ_A_RATON: u32 = 4_000;
pub const GOMPERTZ_B_RATON: u32 = 250;
pub const GOMPERTZ_C_RATON: u32 = 4_000;
pub const GOMPERTZ_A_ARDILLA: u32 = 7_000;
pub const GOMPERTZ_B_ARDILLA: u32 = 180;
pub const GOMPERTZ_C_ARDILLA: u32 = 6_000;

// Depredadores
pub const CONSUMO_DIARIO_DEPREDADOR: u64 = 2_500;
pub const UMBRAL_OPTIMO_DEPREDADOR: u64 = 30_000;
pub const UMBRAL_MINIMO_DEPREDADOR: u64 = 12_000;
pub const UMBRAL_DEFICIENTE_DEPREDADOR: u64 = 3_000;
pub const MAX_DIAS_SIN_RECUPERAR_DEPREDADOR: u32 = 7;
pub const DIAS_INMUNIDAD: u32 = 7;
pub const TIEMPO_ESPERA_COMIDA: u32 = 1_000;
pub const RADIO_DEPREDADOR: i32 = 12_000;
pub const VEL_MAX_DEPREDADOR: i32 = 2_000;

// Probabilidades de que una cría sea macho
pub const PROB_MACHO_CONEJO: u32 = 550;
pub const PROB_MACHO_RATON: u32 = 500;
pub const PROB_MACHO_ARDILLA: u32 = 450;

} // verus!
