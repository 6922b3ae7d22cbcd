//! The forecast model and the mail message.

use vstd::prelude::*;

verus! {

/// A whole forecast document.
#[derive(Debug, PartialEq, Eq)]
pub struct Root {
    pub id: Option<String>,
    /// The document's version number, as written in the document.
    pub version: Option<String>,
    pub origen: Origen,
    pub elaborado: String,
    pub nombre: String,
    pub provincia: String,
    pub prediccion: Prediccion,
}

/// Who produced the document, and under which terms.
#[derive(Debug, PartialEq, Eq)]
pub struct Origen {
    pub productor: String,
    pub web: String,
    pub enlace: String,
    pub language: String,
    pub copyright: String,
    pub nota_legal: String,
}

/// The forecast days, in document order.
#[derive(Debug, PartialEq, Eq)]
pub struct Prediccion {
    pub dia: Vec<Dia>,
}

/// One forecast day.
#[derive(Debug, PartialEq, Eq)]
pub struct Dia {
    pub fecha: Option<String>,
    pub prob_precipitacion: Vec<ProbPrecipitacion>,
    pub cota_nieve_prov: Vec<CotaNieveProv>,
    pub estado_cielo: Vec<EstadoCielo>,
    pub viento: Vec<Viento>,
    pub racha_max: Vec<RachaMax>,
    pub temperatura: Temperatura,
    pub sens_termica: SensTermica,
    pub humedad_relativa: HumedadRelativa,
    pub uv_max: Option<String>,
}

/// Probability of precipitation over a period, in percent.
#[derive(Debug, PartialEq, Eq)]
pub struct ProbPrecipitacion {
    pub periodo: Option<String>,
    pub value: Option<String>,
}

/// Snow level over a period, in metres.
#[derive(Debug, PartialEq, Eq)]
pub struct CotaNieveProv {
    pub periodo: Option<String>,
    pub value: Option<String>,
}

/// Sky condition over a period: a code and its description.
#[derive(Debug, PartialEq, Eq)]
pub struct EstadoCielo {
    pub periodo: Option<String>,
    pub descripcion: Option<String>,
    pub value: Option<String>,
}

/// Wind over a period; an empty string stands for an absent value.
#[derive(Debug, PartialEq, Eq)]
pub struct Viento {
    pub periodo: Option<String>,
    pub direccion: String,
    pub velocidad: String,
}

/// Maximum wind gust over a period, in km/h.
#[derive(Debug, PartialEq, Eq)]
pub struct RachaMax {
    pub periodo: Option<String>,
    pub value: Option<String>,
}

/// Temperature of the day, in degrees Celsius.
#[derive(Debug, PartialEq, Eq)]
pub struct Temperatura {
    pub maxima: i8,
    pub minima: i8,
    pub dato: Vec<Dato>,
}

/// Thermal sensation of the day, in degrees Celsius.
#[derive(Debug, PartialEq, Eq)]
pub struct SensTermica {
    pub maxima: i8,
    pub minima: i8,
    pub dato: Vec<Dato>,
}

/// Relative humidity of the day, in percent.
#[derive(Debug, PartialEq, Eq)]
pub struct HumedadRelativa {
    pub maxima: i8,
    pub minima: i8,
    pub dato: Vec<Dato>,
}

/// One hourly reading of a point series.
#[derive(Debug, PartialEq, Eq)]
pub struct Dato {
    pub hora: Option<i8>,
    pub value: Option<String>,
}

/// The body of a dispatch request.
#[derive(Debug, PartialEq, Eq)]
pub struct MailRequest {
    pub mail: Mail,
}

/// A mail message whose text is base64-encoded.
#[derive(Debug, PartialEq, Eq)]
pub struct Mail {
    pub from: String,
    pub to: Vec<String>,
    pub subject: String,
    pub text: String,
    pub encoding: String,
}

} // verus!
