//! La única puerta al generador de números aleatorios.
//!
//! Lo que aquí se declara no está demostrado: se cree de la biblioteca `rand`.

use vstd::prelude::*;
use rand::Rng;
use rand::rngs::ThreadRng;

verus! {

/// El generador local del hilo, `rand::rngs::ThreadRng`: un valor opaco que
/// solo se pasa de mano en mano.
#[verifier::external_type_specification]
#[verifier::external_body]
pub struct ExThreadRng(rand::rngs::ThreadRng);

/// `rand::thread_rng` entrega el generador del hilo. Nada se afirma del
/// generador recibido. La primera llamada de un hilo lo siembra desde el
/// sistema operativo y aborta si este no puede dar entropía; ninguna
/// precondición puede excluirlo.
pub assume_specification[ rand::thread_rng ]() -> (rng: ThreadRng)
;

/// Sortea un entero con `Rng::gen_range(desde..hasta)`. Se afirma solo que el
/// resultado cae en el intervalo semiabierto pedido; nada sobre su
/// distribución. `gen_range` aborta con un intervalo vacío, que la
/// precondición excluye. El generador del hilo se vuelve a sembrar cada
/// cierto número de sorteos y aborta si entonces el sistema operativo no
/// puede dar entropía: eso no depende de los argumentos y ninguna
/// precondición puede excluirlo.
#[verifier::external_body]
pub(crate) fn sortear(rng: &mut ThreadRng, desde: i32, hasta: i32) -> (r: i32)
    requires
        desde < hasta,
    ensures
        desde <= r < hasta,
{
    rng.gen_range(desde..hasta)
}

} // verus!
