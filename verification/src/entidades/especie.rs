//! Catálogo de especies y estados discretos de un organismo.

use vstd::prelude::*;
use crate::utilidades::crecimiento::{
    curva_gompertz, lema_gompertz_bajo_asintota, lema_gompertz_monotono, peso_gompertz,
};
use crate::utilidades::configuraciones::{
    EDAD_MINIMA_REPRODUCCION_ARDILLA, EDAD_MINIMA_REPRODUCCION_CONEJO,
    EDAD_MINIMA_REPRODUCCION_RATON, EDAD_MINIMA_SACRIFICIO_ARDILLA, EDAD_MINIMA_SACRIFICIO_CONEJO,
    EDAD_MINIMA_SACRIFICIO_RATON, GOMPERTZ_A_ARDILLA, GOMPERTZ_A_CONEJO, GOMPERTZ_A_RATON,
    GOMPERTZ_B_ARDILLA, GOMPERTZ_B_CONEJO, GOMPERTZ_B_RATON, GOMPERTZ_C_ARDILLA,
    GOMPERTZ_C_CONEJO, GOMPERTZ_C_RATON, POBLACION_MAXIMA_ARDILLA, POBLACION_MAXIMA_CONEJO,
    POBLACION_MAXIMA_RATON, PROB_CRIAS_ARDILLA, PROB_CRIAS_CONEJO, PROB_CRIAS_RATON,
    PROB_MACHO_ARDILLA, PROB_MACHO_CONEJO, PROB_MACHO_RATON,
};

verus! {

#[derive(Clone, Copy, PartialEq, Eq, Debug, Structural)]
pub enum Sexo {
    Macho,
    Hembra,
}

impl Sexo {
    pub open spec fn texto(self) -> Seq<char> {
        match self {
            Sexo::Macho => "Macho"@,
            Sexo::Hembra => "Hembra"@,
        }
    }

    pub fn nombre(&self) -> (s: &'static str)
        ensures
            s@ == self.texto(),
    {
        match self {
            Sexo::Macho => "Macho",
            Sexo::Hembra => "Hembra",
        }
    }
}

#[derive(Clone, Copy, PartialEq, Eq, Debug, Structural)]
pub enum EstadoSalud {
    Sano,
    Enfermo,
}

impl EstadoSalud {
    pub open spec fn texto(self) -> Seq<char> {
        match self {
            EstadoSalud::Sano => "Sano"@,
            EstadoSalud::Enfermo => "Enfermo"@,
        }
    }

    pub fn nombre(&self) -> (s: &'static str)
        ensures
            s@ == self.texto(),
    {
        match self {
            EstadoSalud::Sano => "Sano",
            EstadoSalud::Enfermo => "Enfermo",
        }
    }
}

#[derive(Clone, Copy, PartialEq, Eq, Debug, Structural)]
pub enum Especie {
    Conejo,
    Raton,
    Ardilla,
}

impl Especie {
    pub open spec fn texto(self) -> Seq<char> {
        match self {
            Especie::Conejo => "Conejo"@,
            Especie::Raton => "Ratón"@,
            Especie::Ardilla => "Ardilla"@,
        }
    }

    /// Asíntota, desplazamiento y tasa diaria de la curva de crecimiento.
    pub open spec fn parametros(self) -> (u32, u32, u32) {
        match self {
            Especie::Conejo => (GOMPERTZ_A_CONEJO, GOMPERTZ_B_CONEJO, GOMPERTZ_C_CONEJO),
            Especie::Raton => (GOMPERTZ_A_RATON, GOMPERTZ_B_RATON, GOMPERTZ_C_RATON),
            Especie::Ardilla => (GOMPERTZ_A_ARDILLA, GOMPERTZ_B_ARDILLA, GOMPERTZ_C_ARDILLA),
        }
    }

    /// Probabilidad de que un individuo nazca macho.
    pub open spec fn prob_macho(self) -> u32 {
        match self {
            Especie::Conejo => PROB_MACHO_CONEJO,
            Especie::Raton => PROB_MACHO_RATON,
            Especie::Ardilla => PROB_MACHO_ARDILLA,
        }
    }

    /// Tope de población que la reproducción respeta.
    pub open spec fn tope(self) -> usize {
        match self {
            Especie::Conejo => POBLACION_MAXIMA_CONEJO,
            Especie::Raton => POBLACION_MAXIMA_RATON,
            Especie::Ardilla => POBLACION_MAXIMA_ARDILLA,
        }
    }

    /// Edad desde la cual un depredador puede cazar al individuo.
    pub open spec fn edad_caza(self) -> u32 {
        match self {
            Especie::Conejo => EDAD_MINIMA_SACRIFICIO_CONEJO,
            Especie::Raton => EDAD_MINIMA_SACRIFICIO_RATON,
            Especie::Ardilla => EDAD_MINIMA_SACRIFICIO_ARDILLA,
        }
    }

    /// Edad desde la cual el individuo busca pareja.
    pub open spec fn edad_fertil(self) -> u32 {
        match self {
            Especie::Conejo => EDAD_MINIMA_REPRODUCCION_CONEJO,
            Especie::Raton => EDAD_MINIMA_REPRODUCCION_RATON,
            Especie::Ardilla => EDAD_MINIMA_REPRODUCCION_ARDILLA,
        }
    }

    /// Probabilidad de cada tamaño de camada, de cero crías en adelante.
    pub open spec fn camadas(self) -> Seq<u32> {
        match self {
            Especie::Conejo => PROB_CRIAS_CONEJO@,
            Especie::Raton => PROB_CRIAS_RATON@,
            Especie::Ardilla => PROB_CRIAS_ARDILLA@,
        }
    }

    /// Peso que la curva de crecimiento de la especie da a la edad indicada.
    pub open spec fn peso_esperado(self, edad: nat) -> nat {
        peso_gompertz(
            self.parametros().0 as nat,
            self.parametros().1 as nat,
            self.parametros().2 as nat,
            edad,
        )
    }

    pub fn nombre(&self) -> (s: &'static str)
        ensures
            s@ == self.texto(),
    {
        match self {
            Especie::Conejo => "Conejo",
            Especie::Raton => "Ratón",
            Especie::Ardilla => "Ardilla",
        }
    }

    pub fn gompertz_params(&self) -> (p: (u32, u32, u32))
        ensures
            p == self.parametros(),
    {
        match self {
            Especie::Conejo => (GOMPERTZ_A_CONEJO, GOMPERTZ_B_CONEJO, GOMPERTZ_C_CONEJO),
            Especie::Raton => (GOMPERTZ_A_RATON, GOMPERTZ_B_RATON, GOMPERTZ_C_RATON),
            Especie::Ardilla => (GOMPERTZ_A_ARDILLA, GOMPERTZ_B_ARDILLA, GOMPERTZ_C_ARDILLA),
        }
    }

    pub fn probabilidad_macho(&self) -> (p: u32)
        ensures
            p == self.prob_macho(),
    {
        match self {
            Especie::Conejo => PROB_MACHO_CONEJO,
            Especie::Raton => PROB_MACHO_RATON,
            Especie::Ardilla => PROB_MACHO_ARDILLA,
        }
    }

    pub fn poblacion_maxima(&self) -> (n: usize)
        ensures
            n == self.tope(),
    {
        match self {
            Especie::Conejo => POBLACION_MAXIMA_CONEJO,
            Especie::Raton => POBLACION_MAXIMA_RATON,
            Especie::Ardilla => POBLACION_MAXIMA_ARDILLA,
        }
    }

    pub fn edad_sacrificio(&self) -> (e: u32)
        ensures
            e == self.edad_caza(),
    {
        match self {
            Especie::Conejo => EDAD_MINIMA_SACRIFICIO_CONEJO,
            Especie::Raton => EDAD_MINIMA_SACRIFICIO_RATON,
            Especie::Ardilla => EDAD_MINIMA_SACRIFICIO_ARDILLA,
        }
    }

    /// Calcula el peso que corresponde a la edad indicada.
    pub fn peso_a_la_edad(&self, edad: u32) -> (peso: u32)
        ensures
            peso == self.peso_esperado(edad as nat),
            peso < self.parametros().0,
    {
        let (a, b, c) = self.gompertz_params();
        curva_gompertz(a, b, c, edad)
    }

    pub fn edad_reproduccion(&self) -> (e: u32)
        ensures
            e == self.edad_fertil(),
    {
        match self {
            Especie::Conejo => EDAD_MINIMA_REPRODUCCION_CONEJO,
            Especie::Raton => EDAD_MINIMA_REPRODUCCION_RATON,
            Especie::Ardilla => EDAD_MINIMA_REPRODUCCION_ARDILLA,
        }
    }
}

/// Crecimiento monótono: dentro de una especie, a más edad no corresponde
/// menos peso.
pub proof fn lema_crecimiento_monotono(especie: Especie, edad1: nat, edad2: nat)
    requires
        edad1 <= edad2,
    ensures
        especie.peso_esperado(edad1) <= especie.peso_esperado(edad2),
{
    let (a, b, c) = especie.parametros();
    lema_gompertz_monotono(a as nat, b as nat, c as nat, edad1, edad2);
}

/// A ninguna edad el peso alcanza el peso máximo de la especie.
pub proof fn lema_peso_bajo_maximo(especie: Especie, edad: nat)
    ensures
        especie.peso_esperado(edad) < especie.parametros().0,
{
    let (a, b, c) = especie.parametros();
    lema_gompertz_bajo_asintota(a as nat, b as nat, c as nat, edad);
}

} // verus!
