//! El depredador: un cuerpo con reservas de energía y un estado de salud.

use vstd::prelude::*;
use rand::rngs::ThreadRng;
use crate::entidades::especie::EstadoSalud;
use crate::entidades::organismo::{avanzar_eje, paso_cuerpo, Cuerpo, Organismo};
use crate::utilidades::azar::sortear;
use crate::utilidades::configuraciones::{
    CONSUMO_DIARIO_DEPREDADOR, DIAS_INMUNIDAD, MAX_DIAS_SIN_RECUPERAR_DEPREDADOR,
    RADIO_DEPREDADOR, UMBRAL_DEFICIENTE_DEPREDADOR, UMBRAL_MINIMO_DEPREDADOR,
    UMBRAL_OPTIMO_DEPREDADOR, VEL_MAX_DEPREDADOR,
};
use crate::utilidades::geometria::{con_rapidez, rumbo, rumbo_hacia};

verus! {

/// El estado completo de un depredador, campo por campo.
pub struct EstadoDepredador {
    pub x: i32,
    pub y: i32,
    pub vx: i32,
    pub vy: i32,
    pub r: i32,
    pub vivo: bool,
    pub reserva: u64,
    pub cooldown: u32,
    pub salud: EstadoSalud,
    pub dias_enfermo: u32,
}

impl EstadoDepredador {
    pub open spec fn cuerpo(self) -> Cuerpo {
        Cuerpo {
            x: self.x,
            y: self.y,
            vx: self.vx,
            vy: self.vy,
            r: self.r,
            vivo: self.vivo,
            cooldown: self.cooldown,
        }
    }

    pub open spec fn con_cuerpo(self, c: Cuerpo) -> EstadoDepredador {
        EstadoDepredador {
            x: c.x,
            y: c.y,
            vx: c.vx,
            vy: c.vy,
            r: c.r,
            vivo: c.vivo,
            cooldown: c.cooldown,
            ..self
        }
    }

    /// Un depredador recién creado en `(x, y)` con velocidad `(vx, vy)`.
    pub open spec fn inicial(x: i32, y: i32, vx: i32, vy: i32) -> EstadoDepredador {
        EstadoDepredador {
            x,
            y,
            vx,
            vy,
            r: RADIO_DEPREDADOR,
            vivo: true,
            reserva: 0,
            cooldown: 0,
            salud: EstadoSalud::Sano,
            dias_enfermo: 0,
        }
    }

    /// El mismo depredador con la velocidad apuntando a `(tx, ty)` a rapidez máxima.
    pub open spec fn apuntando_a(self, tx: i32, ty: i32) -> EstadoDepredador {
        let v = rumbo_hacia(
            self.x as int,
            self.y as int,
            self.vx as int,
            self.vy as int,
            tx as int,
            ty as int,
            VEL_MAX_DEPREDADOR as int,
        );
        EstadoDepredador { vx: v.0 as i32, vy: v.1 as i32, ..self }
    }

    /// Reserva que queda tras el gasto metabólico de un día, nunca bajo cero.
    pub open spec fn reserva_tras_consumo(self) -> u64 {
        if self.reserva >= CONSUMO_DIARIO_DEPREDADOR {
            (self.reserva - CONSUMO_DIARIO_DEPREDADOR) as u64
        } else {
            0
        }
    }

    /// El día de un depredador: gasto metabólico y evaluación de su salud
    /// según la reserva restante. `dias` es el día de simulación en curso.
    pub open spec fn tras_dieta(self, dias: u32) -> EstadoDepredador {
        let reserva = self.reserva_tras_consumo();
        let contados = (self.dias_enfermo + 1) as u32;
        if !self.vivo {
            self
        } else if dias <= DIAS_INMUNIDAD {
            EstadoDepredador { reserva, salud: EstadoSalud::Sano, dias_enfermo: 0, ..self }
        } else if reserva >= UMBRAL_OPTIMO_DEPREDADOR {
            EstadoDepredador { reserva, salud: EstadoSalud::Sano, dias_enfermo: 0, ..self }
        } else if reserva >= UMBRAL_MINIMO_DEPREDADOR {
            EstadoDepredador { reserva, salud: EstadoSalud::Sano, dias_enfermo: 0, ..self }
        } else if reserva >= UMBRAL_DEFICIENTE_DEPREDADOR {
            EstadoDepredador {
                reserva,
                salud: if contados > 2 {
                    EstadoSalud::Enfermo
                } else {
                    self.salud
                },
                dias_enfermo: contados,
                vivo: contados < MAX_DIAS_SIN_RECUPERAR_DEPREDADOR,
                ..self
            }
        } else {
            EstadoDepredador {
                reserva,
                salud: EstadoSalud::Enfermo,
                dias_enfermo: contados,
                vivo: contados < MAX_DIAS_SIN_RECUPERAR_DEPREDADOR,
                ..self
            }
        }
    }
}

/// Tras el día de un depredador su reserva nunca es negativa: el gasto
/// diario se descuenta solo hasta llegar a cero.
pub proof fn lema_reserva_no_negativa(d: EstadoDepredador, dias: u32)
    ensures
        d.tras_dieta(dias).reserva >= 0,
        d.tras_dieta(dias).reserva <= d.reserva,
        d.vivo && d.reserva >= CONSUMO_DIARIO_DEPREDADOR ==> d.tras_dieta(dias).reserva
            == d.reserva - CONSUMO_DIARIO_DEPREDADOR,
        d.vivo && d.reserva < CONSUMO_DIARIO_DEPREDADOR ==> d.tras_dieta(dias).reserva == 0,
{
}

#[derive(Clone, Copy, Debug)]
pub struct Depredador {
    x: i32,
    y: i32,
    vx: i32,
    vy: i32,
    r: i32,
    vivo: bool,
    reserva: u64,
    cooldown: u32,
    salud: EstadoSalud,
    dias_enfermo: u32,
}

impl View for Depredador {
    type V = EstadoDepredador;

    closed spec fn view(&self) -> EstadoDepredador {
        EstadoDepredador {
            x: self.x,
            y: self.y,
            vx: self.vx,
            vy: self.vy,
            r: self.r,
            vivo: self.vivo,
            reserva: self.reserva,
            cooldown: self.cooldown,
            salud: self.salud,
            dias_enfermo: self.dias_enfermo,
        }
    }
}

/// Los estados de un grupo de depredadores, en su orden.
pub open spec fn estados_depredadores(depredadores: Seq<Depredador>) -> Seq<EstadoDepredador> {
    depredadores.map_values(|d: Depredador| d@)
}

/// Cuántos de los primeros `hasta` depredadores están vivos; con
/// `solo_enfermos`, cuántos están vivos y enfermos.
pub open spec fn depredadores_vivos_hasta(
    depredadores: Seq<EstadoDepredador>,
    solo_enfermos: bool,
    hasta: int,
) -> nat
    decreases hasta,
{
    if hasta <= 0 {
        0
    } else {
        depredadores_vivos_hasta(depredadores, solo_enfermos, hasta - 1) + if depredadores[hasta
            - 1].vivo && (!solo_enfermos || depredadores[hasta - 1].salud == EstadoSalud::Enfermo) {
            1nat
        } else {
            0nat
        }
    }
}

impl Depredador {
    /// Crea un depredador en `(x, y)` con la velocidad dada.
    pub fn con_velocidad(x: i32, y: i32, vx: i32, vy: i32) -> (d: Depredador)
        ensures
            d@ == EstadoDepredador::inicial(x, y, vx, vy),
    {
        Depredador {
            x,
            y,
            vx,
            vy,
            r: RADIO_DEPREDADOR,
            vivo: true,
            reserva: 0,
            cooldown: 0,
            salud: EstadoSalud::Sano,
            dias_enfermo: 0,
        }
    }

    /// Crea un depredador en `(x, y)` con velocidad sorteada, cada componente
    /// en `[-VEL_MAX_DEPREDADOR, VEL_MAX_DEPREDADOR)`.
    pub fn sorteado(x: i32, y: i32, rng: &mut ThreadRng) -> (d: Depredador)
        ensures
            d@ == EstadoDepredador::inicial(x, y, d@.vx, d@.vy),
            -VEL_MAX_DEPREDADOR <= d@.vx < VEL_MAX_DEPREDADOR,
            -VEL_MAX_DEPREDADOR <= d@.vy < VEL_MAX_DEPREDADOR,
    {
        let vx = sortear(rng, -VEL_MAX_DEPREDADOR, VEL_MAX_DEPREDADOR);
        let vy = sortear(rng, -VEL_MAX_DEPREDADOR, VEL_MAX_DEPREDADOR);
        Depredador::con_velocidad(x, y, vx, vy)
    }

    /// Crea un depredador en `(x, y)` con velocidad sorteada por el
    /// generador del hilo.
    pub fn new(x: i32, y: i32) -> (d: Depredador)
        ensures
            d@ == EstadoDepredador::inicial(x, y, d@.vx, d@.vy),
            -VEL_MAX_DEPREDADOR <= d@.vx < VEL_MAX_DEPREDADOR,
            -VEL_MAX_DEPREDADOR <= d@.vy < VEL_MAX_DEPREDADOR,
    {
        let mut rng = rand::thread_rng();
        Depredador::sorteado(x, y, &mut rng)
    }

    /// Apunta la velocidad hacia `(tx, ty)` con la rapidez máxima, salvo
    /// redondeo; si ya está en el destino conserva la velocidad.
    pub fn mover_hacia(&mut self, tx: i32, ty: i32)
        ensures
            final(self)@ == old(self)@.apuntando_a(tx, ty),
            tx != old(self)@.x || ty != old(self)@.y ==> con_rapidez(
                final(self)@.vx as int,
                final(self)@.vy as int,
                VEL_MAX_DEPREDADOR as int,
            ),
    {
        let v = rumbo(self.x, self.y, self.vx, self.vy, tx, ty, VEL_MAX_DEPREDADOR);
        self.vx = v.0;
        self.vy = v.1;
    }

    // Lectura
    pub fn reserva(&self) -> (v: u64)
        ensures
            v == self@.reserva,
    {
        self.reserva
    }

    pub fn salud(&self) -> (v: EstadoSalud)
        ensures
            v == self@.salud,
    {
        self.salud
    }

    pub fn cooldown(&self) -> (v: u32)
        ensures
            v == self@.cooldown,
    {
        self.cooldown
    }

    pub fn dias_enfermo(&self) -> (v: u32)
        ensures
            v == self@.dias_enfermo,
    {
        self.dias_enfermo
    }

    pub fn vx(&self) -> (v: i32)
        ensures
            v == self@.vx,
    {
        self.vx
    }

    pub fn vy(&self) -> (v: i32)
        ensures
            v == self@.vy,
    {
        self.vy
    }

    // Escritura
    pub fn set_reserva(&mut self, r: u64)
        ensures
            final(self)@ == (EstadoDepredador { reserva: r, ..old(self)@ }),
    {
        self.reserva = r;
    }

    pub fn set_salud(&mut self, s: EstadoSalud)
        ensures
            final(self)@ == (EstadoDepredador { salud: s, ..old(self)@ }),
    {
        self.salud = s;
    }

    pub fn set_cooldown(&mut self, c: u32)
        ensures
            final(self)@ == (EstadoDepredador { cooldown: c, ..old(self)@ }),
    {
        self.cooldown = c;
    }

    pub fn set_dias_enfermo(&mut self, d: u32)
        ensures
            final(self)@ == (EstadoDepredador { dias_enfermo: d, ..old(self)@ }),
    {
        self.dias_enfermo = d;
    }

    pub fn incrementar_dias_enfermo(&mut self)
        requires
            old(self)@.dias_enfermo < u32::MAX,
        ensures
            final(self)@ == (EstadoDepredador {
                dias_enfermo: (old(self)@.dias_enfermo + 1) as u32,
                ..old(self)@
            }),
    {
        self.dias_enfermo += 1;
    }

    pub fn reset_dias_enfermo(&mut self)
        ensures
            final(self)@ == (EstadoDepredador { dias_enfermo: 0, ..old(self)@ }),
    {
        self.dias_enfermo = 0;
    }

    /// Vive un día: gasta reservas y reevalúa su salud.
    pub fn pasar_dia(&mut self, dias: u32)
        requires
            old(self)@.dias_enfermo < u32::MAX,
        ensures
            final(self)@ == old(self)@.tras_dieta(dias),
    {
        if !self.vivo {
            return ;
        }
        if self.reserva >= CONSUMO_DIARIO_DEPREDADOR {
            self.reserva = self.reserva - CONSUMO_DIARIO_DEPREDADOR;
        } else {
            self.reserva = 0;
        }

        if dias <= DIAS_INMUNIDAD {
            self.salud = EstadoSalud::Sano;
            self.dias_enfermo = 0;
            return ;
        }
        if self.reserva >= UMBRAL_OPTIMO_DEPREDADOR {
            if self.salud == EstadoSalud::Enfermo {
                self.salud = EstadoSalud::Sano;
                self.dias_enfermo = 0;
            } else {
                self.dias_enfermo = 0;
            }
        } else if self.reserva >= UMBRAL_MINIMO_DEPREDADOR {
            self.dias_enfermo = 0;
            self.salud = EstadoSalud::Sano;
        } else if self.reserva >= UMBRAL_DEFICIENTE_DEPREDADOR {
            self.dias_enfermo += 1;
            if self.dias_enfermo > 2 {
                self.salud = EstadoSalud::Enfermo;
            }
            if self.dias_enfermo >= MAX_DIAS_SIN_RECUPERAR_DEPREDADOR {
                self.vivo = false;
            }
        } else {
            self.salud = EstadoSalud::Enfermo;
            self.dias_enfermo += 1;
            if self.dias_enfermo >= MAX_DIAS_SIN_RECUPERAR_DEPREDADOR {
                self.vivo = false;
            }
        }
    }
}

impl Organismo for Depredador {
    open spec fn cuerpo(&self) -> Cuerpo {
        self@.cuerpo()
    }

    fn actualizar(&mut self, dt: u32, ancho: i32, alto: i32)
        ensures
            final(self)@ == old(self)@.con_cuerpo(
                paso_cuerpo(old(self)@.cuerpo(), dt, ancho, alto),
            ),
    {
        if self.vivo {
            let (x, vx) = avanzar_eje(self.x, self.vx, ancho);
            let (y, vy) = avanzar_eje(self.y, self.vy, alto);
            self.x = x;
            self.y = y;
            self.vx = vx;
            self.vy = vy;
            self.cooldown = self.cooldown.saturating_sub(dt);
        }
    }

    fn x(&self) -> (v: i32) {
        self.x
    }

    fn y(&self) -> (v: i32) {
        self.y
    }

    fn r(&self) -> (v: i32) {
        self.r
    }

    fn esta_vivo(&self) -> (b: bool) {
        self.vivo
    }

    fn matar(&mut self)
        ensures
            final(self)@ == (EstadoDepredador { vivo: false, ..old(self)@ }),
    {
        self.vivo = false;
    }
}

} // verus!
