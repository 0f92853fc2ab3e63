//! La presa: un cuerpo con especie, sexo, edad, peso y estado de salud.

use vstd::prelude::*;
use rand::rngs::ThreadRng;
use crate::entidades::especie::{Especie, EstadoSalud, Sexo};
use crate::entidades::organismo::{avanzar_eje, paso_cuerpo, Cuerpo, Organismo};
use crate::utilidades::azar::sortear;
use crate::utilidades::configuraciones::{
    ESPERA_CRIA, MAX_DIAS_SIN_RECUPERAR_PRESA, MILESIMAS, PROB_CRIAS_ARDILLA, PROB_CRIAS_CONEJO,
    PROB_CRIAS_RATON, PROB_ENFERMAR_DIARIA_PRESA, PROB_RECUPERACION_DIARIA_PRESA, RADIO_PRESA,
    VEL_MAX_PRESA,
};
use crate::utilidades::fijo::{saturar, suma_saturada};
use crate::utilidades::geometria::{
    con_rapidez, limitar_velocidad, rumbo, rumbo_hacia, velocidad_limitada,
};
use crate::utilidades::muestreo::{categoria, elegir_categoria};

verus! {

/// Lo que le ocurre a la salud de una presa en un día.
#[derive(Clone, Copy, PartialEq, Eq, Debug, Structural)]
pub enum EventoSalud {
    Ninguno,
    Contagio,
    Recuperacion,
    Muerte,
}

/// El estado completo de una presa, campo por campo.
pub struct EstadoPresa {
    pub x: i32,
    pub y: i32,
    pub vx: i32,
    pub vy: i32,
    pub r: i32,
    pub viva: bool,
    pub especie: Especie,
    pub sexo: Sexo,
    pub cooldown: u32,
    pub edad: u32,
    pub peso: u32,
    pub modo_reproduccion: bool,
    pub salud: EstadoSalud,
    pub dias_enfermo: u32,
}

/// Sexo que corresponde a una tirada en milésimas: macho si queda bajo la
/// probabilidad de macho de la especie.
pub open spec fn sexo_de_tirada(especie: Especie, tirada: u32) -> Sexo {
    if tirada < especie.prob_macho() {
        Sexo::Macho
    } else {
        Sexo::Hembra
    }
}

impl EstadoPresa {
    pub open spec fn cuerpo(self) -> Cuerpo {
        Cuerpo {
            x: self.x,
            y: self.y,
            vx: self.vx,
            vy: self.vy,
            r: self.r,
            vivo: self.viva,
            cooldown: self.cooldown,
        }
    }

    pub open spec fn con_cuerpo(self, c: Cuerpo) -> EstadoPresa {
        EstadoPresa {
            x: c.x,
            y: c.y,
            vx: c.vx,
            vy: c.vy,
            r: c.r,
            viva: c.vivo,
            cooldown: c.cooldown,
            ..self
        }
    }

    /// Una presa recién nacida: edad y peso cero, sana, aún sin buscar
    /// pareja y con la espera de una cría.
    pub open spec fn recien_nacida(
        x: i32,
        y: i32,
        especie: Especie,
        sexo: Sexo,
        vx: i32,
        vy: i32,
    ) -> EstadoPresa {
        EstadoPresa {
            x,
            y,
            vx,
            vy,
            r: RADIO_PRESA,
            viva: true,
            especie,
            sexo,
            cooldown: ESPERA_CRIA,
            edad: 0,
            peso: 0,
            modo_reproduccion: false,
            salud: EstadoSalud::Sano,
            dias_enfermo: 0,
        }
    }

    /// Está viva y ya puede ser cazada.
    pub open spec fn cazable(self) -> bool {
        self.viva && self.edad >= self.especie.edad_caza()
    }

    /// Está viva, busca pareja y no tiene espera pendiente.
    pub open spec fn dispuesta(self) -> bool {
        self.viva && self.modo_reproduccion && self.cooldown == 0
    }

    /// La misma presa con la velocidad apuntando a `(tx, ty)` a rapidez máxima.
    pub open spec fn apuntando_a(self, tx: i32, ty: i32) -> EstadoPresa {
        let v = rumbo_hacia(
            self.x as int,
            self.y as int,
            self.vx as int,
            self.vy as int,
            tx as int,
            ty as int,
            VEL_MAX_PRESA as int,
        );
        EstadoPresa { vx: v.0 as i32, vy: v.1 as i32, ..self }
    }

    /// La misma presa tras sumar el ruido `(rx, ry)` a su velocidad y
    /// recortarla a la rapidez máxima.
    pub open spec fn con_ruido(self, rx: i32, ry: i32) -> EstadoPresa {
        let v = velocidad_limitada(
            saturar(self.vx + rx),
            saturar(self.vy + ry),
            VEL_MAX_PRESA as int,
        );
        EstadoPresa { vx: v.0 as i32, vy: v.1 as i32, ..self }
    }

    /// Un día más de edad: el peso sigue la curva de la especie y, alcanzada
    /// la edad fértil, empieza a buscar pareja para siempre.
    pub open spec fn tras_envejecer(self) -> EstadoPresa {
        let edad = (self.edad + 1) as u32;
        EstadoPresa {
            edad,
            peso: self.especie.peso_esperado(edad as nat) as u32,
            modo_reproduccion: self.modo_reproduccion || edad >= self.especie.edad_fertil(),
            ..self
        }
    }

    /// Lo que le ocurre a la salud en un día, dada una tirada en milésimas.
    /// Una presa sana enferma si la tirada queda bajo la probabilidad de
    /// contagio. Una enferma sana si queda bajo la de recuperación; si no,
    /// suma un día enferma y muere al llegar al máximo.
    pub open spec fn evento_salud(self, tirada: u32) -> EventoSalud {
        if !self.viva {
            EventoSalud::Ninguno
        } else if self.salud == EstadoSalud::Sano {
            if tirada < PROB_ENFERMAR_DIARIA_PRESA {
                EventoSalud::Contagio
            } else {
                EventoSalud::Ninguno
            }
        } else if tirada < PROB_RECUPERACION_DIARIA_PRESA {
            EventoSalud::Recuperacion
        } else if self.dias_enfermo + 1 >= MAX_DIAS_SIN_RECUPERAR_PRESA {
            EventoSalud::Muerte
        } else {
            EventoSalud::Ninguno
        }
    }

    /// El estado después del día de salud que describe `evento_salud`.
    pub open spec fn tras_enfermedad(self, tirada: u32) -> EstadoPresa {
        match self.evento_salud(tirada) {
            EventoSalud::Contagio => EstadoPresa {
                salud: EstadoSalud::Enfermo,
                dias_enfermo: 0,
                ..self
            },
            EventoSalud::Recuperacion => EstadoPresa {
                salud: EstadoSalud::Sano,
                dias_enfermo: 0,
                ..self
            },
            EventoSalud::Muerte => EstadoPresa {
                dias_enfermo: (self.dias_enfermo + 1) as u32,
                viva: false,
                ..self
            },
            EventoSalud::Ninguno => if self.viva && self.salud == EstadoSalud::Enfermo {
                EstadoPresa { dias_enfermo: (self.dias_enfermo + 1) as u32, ..self }
            } else {
                self
            },
        }
    }
}

#[derive(Clone, Copy, Debug)]
pub struct Presa {
    x: i32,
    y: i32,
    vx: i32,
    vy: i32,
    r: i32,
    viva: bool,
    especie: Especie,
    sexo: Sexo,
    cooldown: u32,
    edad: u32,
    peso: u32,
    modo_reproduccion: bool,
    salud: EstadoSalud,
    dias_enfermo: u32,
}

impl View for Presa {
    type V = EstadoPresa;

    closed spec fn view(&self) -> EstadoPresa {
        EstadoPresa {
            x: self.x,
            y: self.y,
            vx: self.vx,
            vy: self.vy,
            r: self.r,
            viva: self.viva,
            especie: self.especie,
            sexo: self.sexo,
            cooldown: self.cooldown,
            edad: self.edad,
            peso: self.peso,
            modo_reproduccion: self.modo_reproduccion,
            salud: self.salud,
            dias_enfermo: self.dias_enfermo,
        }
    }
}

/// Los estados de una población de presas, en su orden.
pub open spec fn estados(presas: Seq<Presa>) -> Seq<EstadoPresa> {
    presas.map_values(|p: Presa| p@)
}

/// Cuántas de las primeras `hasta` presas están vivas y son de la especie dada.
pub open spec fn vivas_hasta(presas: Seq<EstadoPresa>, especie: Especie, hasta: int) -> nat
    decreases hasta,
{
    if hasta <= 0 {
        0
    } else {
        vivas_hasta(presas, especie, hasta - 1) + if presas[hasta - 1].viva && presas[hasta
            - 1].especie == especie {
            1nat
        } else {
            0nat
        }
    }
}

/// Población viva de la especie dada.
pub open spec fn vivas(presas: Seq<EstadoPresa>, especie: Especie) -> nat {
    vivas_hasta(presas, especie, presas.len() as int)
}

/// Si ninguna presa cambia de especie ni revive, la población viva de una
/// especie no crece.
pub proof fn lema_vivas_no_crecen(
    antes: Seq<EstadoPresa>,
    despues: Seq<EstadoPresa>,
    especie: Especie,
    hasta: int,
)
    requires
        forall|i: int|
            0 <= i < hasta ==> (#[trigger] despues[i]).especie == antes[i].especie && (
            despues[i].viva ==> antes[i].viva),
    ensures
        vivas_hasta(despues, especie, hasta) <= vivas_hasta(antes, especie, hasta),
    decreases hasta,
{
    if hasta > 0 {
        lema_vivas_no_crecen(antes, despues, especie, hasta - 1);
    }
}

/// El contador de días enferma vuelve a cero en cada cambio de salud, sea
/// contagio o recuperación, y sube exactamente uno por cada día que la presa
/// viva sigue enferma.
pub proof fn lema_contador_de_enfermedad(p: EstadoPresa, tirada: u32)
    requires
        p.dias_enfermo < u32::MAX,
    ensures
        p.evento_salud(tirada) == EventoSalud::Recuperacion ==> p.tras_enfermedad(tirada).salud
            == EstadoSalud::Sano && p.tras_enfermedad(tirada).dias_enfermo == 0,
        p.evento_salud(tirada) == EventoSalud::Contagio ==> p.tras_enfermedad(tirada).salud
            == EstadoSalud::Enfermo && p.tras_enfermedad(tirada).dias_enfermo == 0,
        p.viva && p.salud == EstadoSalud::Enfermo && p.evento_salud(tirada)
            != EventoSalud::Recuperacion ==> p.tras_enfermedad(tirada).dias_enfermo
            == p.dias_enfermo + 1 && p.tras_enfermedad(tirada).salud == EstadoSalud::Enfermo,
        p.viva && p.salud == EstadoSalud::Sano && p.evento_salud(tirada) != EventoSalud::Contagio
            ==> p.tras_enfermedad(tirada) == p,
        !p.viva ==> p.tras_enfermedad(tirada) == p,
{
}

/// Decide el sexo que corresponde a una tirada en milésimas.
pub fn sexo_sorteado(especie: Especie, tirada: u32) -> (s: Sexo)
    ensures
        s == sexo_de_tirada(especie, tirada),
{
    if tirada < especie.probabilidad_macho() {
        Sexo::Macho
    } else {
        Sexo::Hembra
    }
}

impl Presa {
    /// Crea una presa recién nacida con los rasgos dados.
    pub fn con_rasgos(x: i32, y: i32, especie: Especie, sexo: Sexo, vx: i32, vy: i32) -> (p: Presa)
        ensures
            p@ == EstadoPresa::recien_nacida(x, y, especie, sexo, vx, vy),
    {
        Presa {
            x,
            y,
            vx,
            vy,
            r: RADIO_PRESA,
            viva: true,
            especie,
            sexo,
            cooldown: ESPERA_CRIA,
            edad: 0,
            peso: 0,
            modo_reproduccion: false,
            salud: EstadoSalud::Sano,
            dias_enfermo: 0,
        }
    }

    /// Crea una presa recién nacida sorteando sus rasgos con `rng`: el sexo
    /// según la probabilidad de macho de la especie y cada componente de la
    /// velocidad en `[-VEL_MAX_PRESA, VEL_MAX_PRESA)`.
    pub fn sorteada(x: i32, y: i32, especie: Especie, rng: &mut ThreadRng) -> (p: Presa)
        ensures
            p@ == EstadoPresa::recien_nacida(x, y, especie, p@.sexo, p@.vx, p@.vy),
            -VEL_MAX_PRESA <= p@.vx < VEL_MAX_PRESA,
            -VEL_MAX_PRESA <= p@.vy < VEL_MAX_PRESA,
    {
        let tirada = sortear(rng, 0, MILESIMAS as i32);
        let sexo = sexo_sorteado(especie, tirada as u32);
        let vx = sortear(rng, -VEL_MAX_PRESA, VEL_MAX_PRESA);
        let vy = sortear(rng, -VEL_MAX_PRESA, VEL_MAX_PRESA);
        Presa::con_rasgos(x, y, especie, sexo, vx, vy)
    }

    /// Crea una presa recién nacida en `(x, y)` con rasgos sorteados por el
    /// generador del hilo.
    pub fn new(x: i32, y: i32, especie: Especie) -> (p: Presa)
        ensures
            p@ == EstadoPresa::recien_nacida(x, y, especie, p@.sexo, p@.vx, p@.vy),
            -VEL_MAX_PRESA <= p@.vx < VEL_MAX_PRESA,
            -VEL_MAX_PRESA <= p@.vy < VEL_MAX_PRESA,
    {
        let mut rng = rand::thread_rng();
        Presa::sorteada(x, y, especie, &mut rng)
    }

    pub fn peso_actual(&self) -> (v: u32)
        ensures
            v == self@.peso,
    {
        self.peso
    }

    /// Apunta la velocidad hacia `(tx, ty)` con la rapidez máxima, salvo
    /// redondeo; si ya está en el destino conserva la velocidad.
    pub fn mover_hacia(&mut self, tx: i32, ty: i32)
        ensures
            final(self)@ == old(self)@.apuntando_a(tx, ty),
            tx != old(self)@.x || ty != old(self)@.y ==> con_rapidez(
                final(self)@.vx as int,
                final(self)@.vy as int,
                VEL_MAX_PRESA as int,
            ),
    {
        let v = rumbo(self.x, self.y, self.vx, self.vy, tx, ty, VEL_MAX_PRESA);
        self.vx = v.0;
        self.vy = v.1;
    }

    /// Suma el ruido `(rx, ry)` a la velocidad y la recorta a la rapidez
    /// máxima, que el resultado nunca supera.
    pub fn mover_con_ruido(&mut self, rx: i32, ry: i32)
        ensures
            final(self)@ == old(self)@.con_ruido(rx, ry),
            final(self)@.vx * final(self)@.vx + final(self)@.vy * final(self)@.vy <= VEL_MAX_PRESA
                * VEL_MAX_PRESA,
    {
        let vx = suma_saturada(self.vx, rx);
        let vy = suma_saturada(self.vy, ry);
        let v = limitar_velocidad(vx, vy, VEL_MAX_PRESA);
        self.vx = v.0;
        self.vy = v.1;
    }

    // Lectura
    pub fn edad(&self) -> (v: u32)
        ensures
            v == self@.edad,
    {
        self.edad
    }

    pub fn peso(&self) -> (v: u32)
        ensures
            v == self@.peso,
    {
        self.peso
    }

    pub fn sexo(&self) -> (v: Sexo)
        ensures
            v == self@.sexo,
    {
        self.sexo
    }

    pub fn salud(&self) -> (v: EstadoSalud)
        ensures
            v == self@.salud,
    {
        self.salud
    }

    pub fn especie(&self) -> (v: Especie)
        ensures
            v == self@.especie,
    {
        self.especie
    }

    pub fn modo_reproduccion(&self) -> (v: bool)
        ensures
            v == self@.modo_reproduccion,
    {
        self.modo_reproduccion
    }

    pub fn x(&self) -> (v: i32)
        ensures
            v == self@.x,
    {
        self.x
    }

    pub fn y(&self) -> (v: i32)
        ensures
            v == self@.y,
    {
        self.y
    }

    pub fn vx(&self) -> (v: i32)
        ensures
            v == self@.vx,
    {
        self.vx
    }

    pub fn vy(&self) -> (v: i32)
        ensures
            v == self@.vy,
    {
        self.vy
    }

    pub fn dias_enfermo(&self) -> (v: u32)
        ensures
            v == self@.dias_enfermo,
    {
        self.dias_enfermo
    }

    pub fn cooldown(&self) -> (v: u32)
        ensures
            v == self@.cooldown,
    {
        self.cooldown
    }

    // Escritura
    pub fn set_edad(&mut self, edad: u32)
        ensures
            final(self)@ == (EstadoPresa { edad, ..old(self)@ }),
    {
        self.edad = edad;
    }

    pub fn set_peso(&mut self, peso: u32)
        ensures
            final(self)@ == (EstadoPresa { peso, ..old(self)@ }),
    {
        self.peso = peso;
    }

    pub fn set_modo_reproduccion(&mut self, modo: bool)
        ensures
            final(self)@ == (EstadoPresa { modo_reproduccion: modo, ..old(self)@ }),
    {
        self.modo_reproduccion = modo;
    }

    pub fn set_vx(&mut self, vx: i32)
        ensures
            final(self)@ == (EstadoPresa { vx, ..old(self)@ }),
    {
        self.vx = vx;
    }

    pub fn set_vy(&mut self, vy: i32)
        ensures
            final(self)@ == (EstadoPresa { vy, ..old(self)@ }),
    {
        self.vy = vy;
    }

    pub fn set_salud(&mut self, estado: EstadoSalud)
        ensures
            final(self)@ == (EstadoPresa { salud: estado, ..old(self)@ }),
    {
        self.salud = estado;
    }

    pub fn set_dias_enfermo(&mut self, d: u32)
        ensures
            final(self)@ == (EstadoPresa { dias_enfermo: d, ..old(self)@ }),
    {
        self.dias_enfermo = d;
    }

    pub fn set_cooldown(&mut self, valor: u32)
        ensures
            final(self)@ == (EstadoPresa { cooldown: valor, ..old(self)@ }),
    {
        self.cooldown = valor;
    }

    /// Marca a la presa como muerta; nada más cambia.
    pub fn matar(&mut self)
        ensures
            final(self)@ == (EstadoPresa { viva: false, ..old(self)@ }),
    {
        self.viva = false;
    }

    pub fn esta_vivo(&self) -> (v: bool)
        ensures
            v == self@.viva,
    {
        self.viva
    }

    pub fn incrementar_dias_enfermo(&mut self)
        requires
            old(self)@.dias_enfermo < u32::MAX,
        ensures
            final(self)@ == (EstadoPresa {
                dias_enfermo: (old(self)@.dias_enfermo + 1) as u32,
                ..old(self)@
            }),
    {
        self.dias_enfermo += 1;
    }

    pub fn reset_dias_enfermo(&mut self)
        ensures
            final(self)@ == (EstadoPresa { dias_enfermo: 0, ..old(self)@ }),
    {
        self.dias_enfermo = 0;
    }

    /// Cumple un día más de edad.
    pub fn envejecer(&mut self)
        requires
            old(self)@.edad < u32::MAX,
        ensures
            final(self)@ == old(self)@.tras_envejecer(),
    {
        self.edad += 1;
        self.peso = self.especie.peso_a_la_edad(self.edad);
        if self.edad >= self.especie.edad_reproduccion() {
            self.modo_reproduccion = true;
        }
    }

    /// Vive un día de salud con la tirada dada, en milésimas, y dice qué ocurrió.
    pub fn pasar_dia_de_salud(&mut self, tirada: u32) -> (evento: EventoSalud)
        requires
            old(self)@.dias_enfermo < u32::MAX,
        ensures
            evento == old(self)@.evento_salud(tirada),
            final(self)@ == old(self)@.tras_enfermedad(tirada),
    {
        if !self.viva {
            return EventoSalud::Ninguno;
        }
        match self.salud {
            EstadoSalud::Sano => {
                if tirada < PROB_ENFERMAR_DIARIA_PRESA {
                    self.salud = EstadoSalud::Enfermo;
                    self.dias_enfermo = 0;
                    EventoSalud::Contagio
                } else {
                    EventoSalud::Ninguno
                }
            },
            EstadoSalud::Enfermo => {
                if tirada < PROB_RECUPERACION_DIARIA_PRESA {
                    self.salud = EstadoSalud::Sano;
                    self.dias_enfermo = 0;
                    EventoSalud::Recuperacion
                } else {
                    self.dias_enfermo += 1;
                    if self.dias_enfermo >= MAX_DIAS_SIN_RECUPERAR_PRESA {
                        self.viva = false;
                        EventoSalud::Muerte
                    } else {
                        EventoSalud::Ninguno
                    }
                }
            },
        }
    }

    /// Sortea el tamaño de una camada de la especie. El resultado es la
    /// categoría de alguna tirada en milésimas sobre la distribución de
    /// camadas de la especie.
    pub fn num_crias(especie: Especie, rng: &mut ThreadRng) -> (n: usize)
        ensures
            n < especie.camadas().len(),
            exists|tirada: int|
                0 <= tirada < MILESIMAS && n == categoria(especie.camadas(), tirada),
    {
        let tirada = sortear(rng, 0, MILESIMAS as i32);
        let n = match especie {
            Especie::Conejo => elegir_categoria(PROB_CRIAS_CONEJO.as_slice(), tirada as u32),
            Especie::Raton => elegir_categoria(PROB_CRIAS_RATON.as_slice(), tirada as u32),
            Especie::Ardilla => elegir_categoria(PROB_CRIAS_ARDILLA.as_slice(), tirada as u32),
        };
        assert(n == categoria(especie.camadas(), tirada as int));
        n
    }

    /// Crea una cría de la especie en `(x, y)`, con sexo y velocidad sorteados.
    pub fn crear_cria(x: i32, y: i32, especie: Especie, rng: &mut ThreadRng) -> (p: Presa)
        ensures
            p@ == EstadoPresa::recien_nacida(x, y, especie, p@.sexo, p@.vx, p@.vy),
            -VEL_MAX_PRESA <= p@.vx < VEL_MAX_PRESA,
            -VEL_MAX_PRESA <= p@.vy < VEL_MAX_PRESA,
    {
        Presa::sorteada(x, y, especie, rng)
    }
}

impl Organismo for Presa {
    open spec fn cuerpo(&self) -> Cuerpo {
        self@.cuerpo()
    }

    fn actualizar(&mut self, dt: u32, ancho: i32, alto: i32)
        ensures
            final(self)@ == old(self)@.con_cuerpo(
                paso_cuerpo(old(self)@.cuerpo(), dt, ancho, alto),
            ),
    {
        if self.viva {
            let (x, vx) = avanzar_eje(self.x, self.vx, ancho);
            let (y, vy) = avanzar_eje(self.y, self.vy, alto);
            self.x = x;
            self.y = y;
            self.vx = vx;
            self.vy = vy;
            self.cooldown = self.cooldown.saturating_sub(dt);
        }
    }

    fn x(&self) -> (v: i32) {
        self.x
    }

    fn y(&self) -> (v: i32) {
        self.y
    }

    fn r(&self) -> (v: i32) {
        self.r
    }

    fn esta_vivo(&self) -> (b: bool) {
        self.viva
    }

    fn matar(&mut self)
        ensures
            final(self)@ == (EstadoPresa { viva: false, ..old(self)@ }),
    {
        self.viva = false;
    }
}

} // verus!
