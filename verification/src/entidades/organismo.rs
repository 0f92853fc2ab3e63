//! Lo que presas y depredadores tienen en común: un cuerpo que se mueve.

use vstd::prelude::*;
use crate::utilidades::fijo::{opuesto_saturado, saturar, suma_saturada};

verus! {

/// El cuerpo de un organismo: un círculo con velocidad y un tiempo de espera.
pub struct Cuerpo {
    pub x: i32,
    pub y: i32,
    pub vx: i32,
    pub vy: i32,
    pub r: i32,
    pub vivo: bool,
    pub cooldown: u32,
}

/// Velocidad tras el rebote: se invierte cuando la posición salió de `[0, limite]`.
pub open spec fn rebote(pos: int, vel: int, limite: int) -> int {
    if pos < 0 || pos > limite {
        saturar(-vel)
    } else {
        vel
    }
}

/// Espera que queda después de que pase `dt`, nunca bajo cero.
pub open spec fn espera_restante(cooldown: u32, dt: u32) -> u32 {
    if cooldown >= dt {
        (cooldown - dt) as u32
    } else {
        0
    }
}

/// Un cuadro de movimiento. Un cuerpo vivo suma su velocidad a su posición,
/// rebota en los bordes del lienzo sin que la posición se recorte al lienzo,
/// y descuenta `dt` de su espera. La posición solo se detiene en los
/// extremos del rango representable. Un cuerpo muerto no cambia.
pub open spec fn paso_cuerpo(c: Cuerpo, dt: u32, ancho: i32, alto: i32) -> Cuerpo {
    if c.vivo {
        let x = saturar(c.x + c.vx);
        let y = saturar(c.y + c.vy);
        Cuerpo {
            x: x as i32,
            y: y as i32,
            vx: rebote(x, c.vx as int, ancho as int) as i32,
            vy: rebote(y, c.vy as int, alto as int) as i32,
            cooldown: espera_restante(c.cooldown, dt),
            ..c
        }
    } else {
        c
    }
}

/// Avanza una coordenada y devuelve la posición y la velocidad nuevas.
pub fn avanzar_eje(pos: i32, vel: i32, limite: i32) -> (r: (i32, i32))
    ensures
        r.0 == saturar(pos + vel),
        r.1 == rebote(saturar(pos + vel), vel as int, limite as int),
{
    let p = suma_saturada(pos, vel);
    if p < 0 || p > limite {
        (p, opuesto_saturado(vel))
    } else {
        (p, vel)
    }
}

/// Capacidades comunes a los organismos de la simulación.
pub trait Organismo {
    /// El cuerpo del organismo.
    spec fn cuerpo(&self) -> Cuerpo;

    /// Avanza un cuadro de duración `dt` en un lienzo de `ancho` por `alto`.
    fn actualizar(&mut self, dt: u32, ancho: i32, alto: i32)
        ensures
            final(self).cuerpo() == paso_cuerpo(old(self).cuerpo(), dt, ancho, alto),
    ;

    fn x(&self) -> (v: i32)
        ensures
            v == self.cuerpo().x,
    ;

    fn y(&self) -> (v: i32)
        ensures
            v == self.cuerpo().y,
    ;

    fn r(&self) -> (v: i32)
        ensures
            v == self.cuerpo().r,
    ;

    fn esta_vivo(&self) -> (b: bool)
        ensures
            b == self.cuerpo().vivo,
    ;

    /// Marca al organismo como muerto; nada más cambia.
    fn matar(&mut self)
        ensures
            final(self).cuerpo() == (Cuerpo { vivo: false, ..old(self).cuerpo() }),
    ;
}

} // verus!
