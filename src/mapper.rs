//! Mapping a document, as read with its values still in text form, into the
//! typed forecast model.

use vstd::prelude::*;
use crate::model::{
    CotaNieveProv, Dato, Dia, EstadoCielo, HumedadRelativa, Origen, Prediccion, ProbPrecipitacion,
    RachaMax, Root, SensTermica, Temperatura, Viento,
};
use crate::number::{integer_of, parse_small_int, small_int_of};

verus! {

/// Why a document does not map into the model.
#[derive(Debug, Clone, Copy, PartialEq, Eq, Structural)]
pub enum MappingError {
    /// A required element is absent.
    MissingField,
    /// A numeric field is not an integer in -128..127.
    InvalidNumber,
}

/// An hourly reading as written in the document.
#[derive(Debug, PartialEq, Eq)]
pub struct RawDato {
    pub hora: Option<String>,
    pub value: Option<String>,
}

/// A point series as written in the document.
#[derive(Debug, PartialEq, Eq)]
pub struct RawSeries {
    pub maxima: Option<String>,
    pub minima: Option<String>,
    pub dato: Vec<RawDato>,
}

/// A wind entry as written in the document.
#[derive(Debug, PartialEq, Eq)]
pub struct RawViento {
    pub periodo: Option<String>,
    pub direccion: Option<String>,
    pub velocidad: Option<String>,
}

/// A forecast day as written in the document.
#[derive(Debug, PartialEq, Eq)]
pub struct RawDia {
    pub fecha: Option<String>,
    pub prob_precipitacion: Vec<ProbPrecipitacion>,
    pub cota_nieve_prov: Vec<CotaNieveProv>,
    pub estado_cielo: Vec<EstadoCielo>,
    pub viento: Vec<RawViento>,
    pub racha_max: Vec<RachaMax>,
    pub temperatura: Option<RawSeries>,
    pub sens_termica: Option<RawSeries>,
    pub humedad_relativa: Option<RawSeries>,
    pub uv_max: Option<String>,
}

/// The origin block as written in the document.
#[derive(Debug, PartialEq, Eq)]
pub struct RawOrigen {
    pub productor: Option<String>,
    pub web: Option<String>,
    pub enlace: Option<String>,
    pub language: Option<String>,
    pub copyright: Option<String>,
    pub nota_legal: Option<String>,
}

/// The list of days as written in the document.
#[derive(Debug, PartialEq, Eq)]
pub struct RawPrediccion {
    pub dia: Vec<RawDia>,
}

/// A whole document, every value still in text form.
#[derive(Debug, PartialEq, Eq)]
pub struct RawRoot {
    pub id: Option<String>,
    pub version: Option<String>,
    pub origen: Option<RawOrigen>,
    pub elaborado: Option<String>,
    pub nombre: Option<String>,
    pub provincia: Option<String>,
    pub prediccion: Option<RawPrediccion>,
}

/// The first of two outcomes that is an error.
pub open spec fn first_error(a: Option<MappingError>, b: Option<MappingError>) -> Option<
    MappingError,
> {
    if a is Some {
        a
    } else {
        b
    }
}

/// A reading's hour, when present, is a small integer.
pub open spec fn hour_ok(d: RawDato) -> bool {
    d.hora is Some ==> small_int_of(d.hora->Some_0@) is Some
}

/// What is wrong with a point series, if anything.
pub open spec fn series_error(o: Option<RawSeries>) -> Option<MappingError> {
    match o {
        None => Some(MappingError::MissingField),
        Some(x) => if x.maxima is None || x.minima is None {
            Some(MappingError::MissingField)
        } else if small_int_of(x.maxima->Some_0@) is None || small_int_of(x.minima->Some_0@) is None {
            Some(MappingError::InvalidNumber)
        } else if exists|i: int| 0 <= i < x.dato@.len() && !hour_ok(#[trigger] x.dato@[i]) {
            Some(MappingError::InvalidNumber)
        } else {
            None
        },
    }
}

/// What is wrong with the wind entries, if anything.
pub open spec fn winds_error(s: Seq<RawViento>) -> Option<MappingError> {
    if exists|i: int|
        0 <= i < s.len() && (#[trigger] s[i].direccion is None || s[i].velocidad is None) {
        Some(MappingError::MissingField)
    } else {
        None
    }
}

/// What is wrong with a day, if anything: its three point series are
/// checked first, in order, then its wind entries.
pub open spec fn day_error(d: RawDia) -> Option<MappingError> {
    first_error(
        series_error(d.temperatura),
        first_error(
            series_error(d.sens_termica),
            first_error(series_error(d.humedad_relativa), winds_error(d.viento@)),
        ),
    )
}

/// The error of the first faulty day, if any.
pub open spec fn days_error(s: Seq<RawDia>) -> Option<MappingError>
    decreases s.len(),
{
    if s.len() == 0 {
        None
    } else {
        first_error(day_error(s[0]), days_error(s.drop_first()))
    }
}

/// Whether the origin block and all its fields are present.
pub open spec fn origen_complete(o: Option<RawOrigen>) -> bool {
    match o {
        Some(x) => x.productor is Some && x.web is Some && x.enlace is Some && x.language is Some
            && x.copyright is Some && x.nota_legal is Some,
        None => false,
    }
}

/// What is wrong with a document, if anything: missing header fields come
/// first, then the days in order.
pub open spec fn root_error(r: RawRoot) -> Option<MappingError> {
    if !origen_complete(r.origen) || r.elaborado is None || r.nombre is None || r.provincia is None
        || r.prediccion is None {
        Some(MappingError::MissingField)
    } else {
        days_error(r.prediccion->Some_0.dia@)
    }
}

/// `d` is the reading that `r` writes.
pub open spec fn reading_maps(r: RawDato, d: Dato) -> bool {
    &&& d.value == r.value
    &&& match r.hora {
        None => d.hora is None,
        Some(h) => d.hora is Some && small_int_of(h@) == Some(d.hora->Some_0 as int),
    }
}

/// `maxima`, `minima` and `data` are the series that `r` writes.
pub open spec fn series_maps(r: RawSeries, maxima: i8, minima: i8, data: Seq<Dato>) -> bool {
    &&& r.maxima is Some && small_int_of(r.maxima->Some_0@) == Some(maxima as int)
    &&& r.minima is Some && small_int_of(r.minima->Some_0@) == Some(minima as int)
    &&& data.len() == r.dato@.len()
    &&& forall|i: int| 0 <= i < data.len() ==> reading_maps(r.dato@[i], #[trigger] data[i])
}

/// `w` is the wind entry that `r` writes.
pub open spec fn wind_maps(r: RawViento, w: Viento) -> bool {
    &&& w.periodo == r.periodo
    &&& r.direccion == Some(w.direccion)
    &&& r.velocidad == Some(w.velocidad)
}

/// `d` is the day that `r` writes.
pub open spec fn day_maps(r: RawDia, d: Dia) -> bool {
    &&& d.fecha == r.fecha
    &&& d.prob_precipitacion == r.prob_precipitacion
    &&& d.cota_nieve_prov == r.cota_nieve_prov
    &&& d.estado_cielo == r.estado_cielo
    &&& d.racha_max == r.racha_max
    &&& d.uv_max == r.uv_max
    &&& d.viento@.len() == r.viento@.len()
    &&& forall|i: int| 0 <= i < d.viento@.len() ==> wind_maps(r.viento@[i], #[trigger] d.viento@[i])
    &&& r.temperatura is Some && series_maps(
        r.temperatura->Some_0,
        d.temperatura.maxima,
        d.temperatura.minima,
        d.temperatura.dato@,
    )
    &&& r.sens_termica is Some && series_maps(
        r.sens_termica->Some_0,
        d.sens_termica.maxima,
        d.sens_termica.minima,
        d.sens_termica.dato@,
    )
    &&& r.humedad_relativa is Some && series_maps(
        r.humedad_relativa->Some_0,
        d.humedad_relativa.maxima,
        d.humedad_relativa.minima,
        d.humedad_relativa.dato@,
    )
}

/// `m` is the forecast that `r` writes.
pub open spec fn root_maps(r: RawRoot, m: Root) -> bool {
    &&& m.id == r.id
    &&& m.version == r.version
    &&& r.origen is Some
    &&& r.origen->Some_0.productor == Some(m.origen.productor)
    &&& r.origen->Some_0.web == Some(m.origen.web)
    &&& r.origen->Some_0.enlace == Some(m.origen.enlace)
    &&& r.origen->Some_0.language == Some(m.origen.language)
    &&& r.origen->Some_0.copyright == Some(m.origen.copyright)
    &&& r.origen->Some_0.nota_legal == Some(m.origen.nota_legal)
    &&& r.elaborado == Some(m.elaborado)
    &&& r.nombre == Some(m.nombre)
    &&& r.provincia == Some(m.provincia)
    &&& r.prediccion is Some
    &&& m.prediccion.dia@.len() == r.prediccion->Some_0.dia@.len()
    &&& forall|i: int|
        0 <= i < m.prediccion.dia@.len() ==> day_maps(
            r.prediccion->Some_0.dia@[i],
            #[trigger] m.prediccion.dia@[i],
        )
}

fn map_reading(r: RawDato) -> (res: Result<Dato, MappingError>)
    ensures
        match res {
            Ok(d) => hour_ok(r) && reading_maps(r, d),
            Err(e) => !hour_ok(r) && e == MappingError::InvalidNumber,
        },
{
    let RawDato { hora, value } = r;
    match hora {
        None => Ok(Dato { hora: None, value }),
        Some(h) => match parse_small_int(h.as_str()) {
            Some(n) => Ok(Dato { hora: Some(n), value }),
            None => Err(MappingError::InvalidNumber),
        },
    }
}

fn map_number(o: &Option<String>) -> (res: Result<i8, MappingError>)
    ensures
        match res {
            Ok(n) => o is Some && small_int_of(o->Some_0@) == Some(n as int),
            Err(e) => (o is None && e == MappingError::MissingField) || (o is Some && small_int_of(
                o->Some_0@,
            ) is None && e == MappingError::InvalidNumber),
        },
{
    match o {
        None => Err(MappingError::MissingField),
        Some(s) => match parse_small_int(s.as_str()) {
            Some(n) => Ok(n),
            None => Err(MappingError::InvalidNumber),
        },
    }
}

fn map_series(o: Option<RawSeries>) -> (res: Result<(i8, i8, Vec<Dato>), MappingError>)
    ensures
        match res {
            Ok((maxima, minima, data)) => series_error(o) is None && series_maps(
                o->Some_0,
                maxima,
                minima,
                data@,
            ),
            Err(e) => series_error(o) == Some(e),
        },
{
    let x = match o {
        None => {
            return Err(MappingError::MissingField);
        },
        Some(x) => x,
    };
    if x.maxima.is_none() || x.minima.is_none() {
        return Err(MappingError::MissingField);
    }
    let maxima = match map_number(&x.maxima) {
        Ok(n) => n,
        Err(e) => {
            return Err(e);
        },
    };
    let minima = match map_number(&x.minima) {
        Ok(n) => n,
        Err(e) => {
            return Err(e);
        },
    };
    let ghost orig = x.dato@;
    let mut rest = x.dato;
    let mut data: Vec<Dato> = Vec::new();
    while rest.len() > 0
        invariant
            data@.len() + rest@.len() == orig.len(),
            rest@ == orig.subrange(data@.len() as int, orig.len() as int),
            o is Some,
            o->Some_0.dato@ == orig,
            o->Some_0.maxima is Some,
            o->Some_0.minima is Some,
            small_int_of(o->Some_0.maxima->Some_0@) == Some(maxima as int),
            small_int_of(o->Some_0.minima->Some_0@) == Some(minima as int),
            forall|i: int| 0 <= i < data@.len() ==> hour_ok(#[trigger] orig[i]),
            forall|i: int| 0 <= i < data@.len() ==> reading_maps(orig[i], #[trigger] data@[i]),
        decreases rest@.len(),
    {
        let k = data.len();
        let r = rest.remove(0);
        assert(r == orig[k as int]);
        assert(rest@ =~= orig.subrange(k + 1, orig.len() as int));
        match map_reading(r) {
            Ok(d) => {
                data.push(d);
            },
            Err(e) => {
                assert(!hour_ok(orig[k as int]));
                return Err(e);
            },
        }
    }
    Ok((maxima, minima, data))
}

fn map_winds(v: Vec<RawViento>) -> (res: Result<Vec<Viento>, MappingError>)
    ensures
        match res {
            Ok(w) => winds_error(v@) is None && w@.len() == v@.len() && forall|i: int|
                0 <= i < w@.len() ==> wind_maps(v@[i], #[trigger] w@[i]),
            Err(e) => winds_error(v@) == Some(e),
        },
{
    let ghost orig = v@;
    let mut rest = v;
    let mut out: Vec<Viento> = Vec::new();
    while rest.len() > 0
        invariant
            orig == v@,
            out@.len() + rest@.len() == orig.len(),
            rest@ == orig.subrange(out@.len() as int, orig.len() as int),
            forall|i: int| 0 <= i < out@.len() ==> wind_maps(orig[i], #[trigger] out@[i]),
        decreases rest@.len(),
    {
        let k = out.len();
        let r = rest.remove(0);
        assert(r == orig[k as int]);
        assert(rest@ =~= orig.subrange(k + 1, orig.len() as int));
        let RawViento { periodo, direccion, velocidad } = r;
        match (direccion, velocidad) {
            (Some(direccion), Some(velocidad)) => {
                out.push(Viento { periodo, direccion, velocidad });
            },
            _ => {
                assert(orig[k as int].direccion is None || orig[k as int].velocidad is None);
                return Err(MappingError::MissingField);
            },
        }
    }
    assert forall|i: int| 0 <= i < orig.len() implies !(#[trigger] orig[i].direccion is None
        || orig[i].velocidad is None) by {
        assert(wind_maps(orig[i], out@[i]));
    }
    Ok(out)
}

/// Maps one day of the document into the model. The point series are
/// checked first, in order, then the wind entries; the first fault is the
/// error.
pub fn map_day(r: RawDia) -> (res: Result<Dia, MappingError>)
    ensures
        match res {
            Ok(d) => day_error(r) is None && day_maps(r, d),
            Err(e) => day_error(r) == Some(e),
        },
{
    let RawDia {
        fecha,
        prob_precipitacion,
        cota_nieve_prov,
        estado_cielo,
        viento,
        racha_max,
        temperatura,
        sens_termica,
        humedad_relativa,
        uv_max,
    } = r;
    let temperatura = match map_series(temperatura) {
        Ok((maxima, minima, dato)) => Temperatura { maxima, minima, dato },
        Err(e) => {
            return Err(e);
        },
    };
    let sens_termica = match map_series(sens_termica) {
        Ok((maxima, minima, dato)) => SensTermica { maxima, minima, dato },
        Err(e) => {
            return Err(e);
        },
    };
    let humedad_relativa = match map_series(humedad_relativa) {
        Ok((maxima, minima, dato)) => HumedadRelativa { maxima, minima, dato },
        Err(e) => {
            return Err(e);
        },
    };
    let viento = match map_winds(viento) {
        Ok(w) => w,
        Err(e) => {
            return Err(e);
        },
    };
    Ok(
        Dia {
            fecha,
            prob_precipitacion,
            cota_nieve_prov,
            estado_cielo,
            viento,
            racha_max,
            temperatura,
            sens_termica,
            humedad_relativa,
            uv_max,
        },
    )
}

/// Maps a document into the forecast model. Absent optional values stay
/// absent; an absent required element gives `MissingField`, a numeric field
/// that is not an integer in -128..127 gives `InvalidNumber`. The header
/// fields are checked first, then the days in order; the first fault is the
/// error.
pub fn map_document(r: RawRoot) -> (res: Result<Root, MappingError>)
    ensures
        match res {
            Ok(m) => root_error(r) is None && root_maps(r, m),
            Err(e) => root_error(r) == Some(e),
        },
{
    let RawRoot { id, version, origen, elaborado, nombre, provincia, prediccion } = r;
    let (origen, elaborado, nombre, provincia, prediccion) = match (
        origen,
        elaborado,
        nombre,
        provincia,
        prediccion,
    ) {
        (Some(o), Some(e), Some(n), Some(p), Some(d)) => (o, e, n, p, d),
        _ => {
            return Err(MappingError::MissingField);
        },
    };
    let RawOrigen { productor, web, enlace, language, copyright, nota_legal } = origen;
    let origen = match (productor, web, enlace, language, copyright, nota_legal) {
        (Some(productor), Some(web), Some(enlace), Some(language), Some(copyright), Some(nota_legal)) => {
            Origen { productor, web, enlace, language, copyright, nota_legal }
        },
        _ => {
            return Err(MappingError::MissingField);
        },
    };
    let ghost orig = prediccion.dia@;
    let mut rest = prediccion.dia;
    let mut dia: Vec<Dia> = Vec::new();
    while rest.len() > 0
        invariant
            dia@.len() + rest@.len() == orig.len(),
            rest@ == orig.subrange(dia@.len() as int, orig.len() as int),
            days_error(orig) == days_error(rest@),
            root_error(r) == days_error(orig),
            r.prediccion is Some && r.prediccion->Some_0.dia@ == orig,
            forall|i: int| 0 <= i < dia@.len() ==> day_maps(orig[i], #[trigger] dia@[i]),
        decreases rest@.len(),
    {
        let k = dia.len();
        let ghost before = rest@;
        let d = rest.remove(0);
        assert(d == orig[k as int]);
        assert(rest@ =~= orig.subrange(k + 1, orig.len() as int));
        assert(before.drop_first() =~= rest@);
        match map_day(d) {
            Ok(day) => {
                dia.push(day);
            },
            Err(e) => {
                return Err(e);
            },
        }
    }
    Ok(
        Root {
            id,
            version,
            origen,
            elaborado,
            nombre,
            provincia,
            prediccion: Prediccion { dia },
        },
    )
}

/// Whether `t` writes an integer that lies outside -128..127.
pub open spec fn out_of_range(t: Option<String>) -> bool {
    t is Some && match integer_of(t->Some_0@) {
        Some(n) => n < -128 || n > 127,
        None => false,
    }
}

/// Whether a point series holds an extreme or a reading hour that is an
/// integer outside -128..127.
pub open spec fn series_out_of_range(o: Option<RawSeries>) -> bool {
    o is Some && (out_of_range(o->Some_0.maxima) || out_of_range(o->Some_0.minima) || exists|j: int|
        0 <= j < o->Some_0.dato@.len() && out_of_range(#[trigger] o->Some_0.dato@[j].hora))
}

/// Whether a day holds a numeric field outside -128..127.
pub open spec fn day_out_of_range(d: RawDia) -> bool {
    series_out_of_range(d.temperatura) || series_out_of_range(d.sens_termica)
        || series_out_of_range(d.humedad_relativa)
}

proof fn lemma_series_out_of_range(o: Option<RawSeries>)
    requires
        series_out_of_range(o),
    ensures
        series_error(o) is Some,
{
    let x = o->Some_0;
    if !(x.maxima is None || x.minima is None) && !(small_int_of(x.maxima->Some_0@) is None
        || small_int_of(x.minima->Some_0@) is None) {
        let j = choose|j: int| 0 <= j < x.dato@.len() && out_of_range(#[trigger] x.dato@[j].hora);
        assert(!hour_ok(x.dato@[j]));
    }
}

proof fn lemma_days_out_of_range(s: Seq<RawDia>, i: int)
    requires
        0 <= i < s.len(),
        day_out_of_range(s[i]),
    ensures
        days_error(s) is Some,
    decreases i,
{
    if i == 0 {
        let d = s[0];
        if series_out_of_range(d.temperatura) {
            lemma_series_out_of_range(d.temperatura);
        } else if series_out_of_range(d.sens_termica) {
            lemma_series_out_of_range(d.sens_termica);
        } else {
            lemma_series_out_of_range(d.humedad_relativa);
        }
    } else {
        assert(s.drop_first()[i - 1] == s[i]);
        lemma_days_out_of_range(s.drop_first(), i - 1);
    }
}

/// A document with a point-series number (an extreme or a reading hour)
/// outside -128..127 never maps: the number is not clamped into range.
pub proof fn lemma_out_of_range_rejected(r: RawRoot, i: int)
    requires
        r.prediccion is Some,
        0 <= i < r.prediccion->Some_0.dia@.len(),
        day_out_of_range(r.prediccion->Some_0.dia@[i]),
    ensures
        root_error(r) is Some,
{
    lemma_days_out_of_range(r.prediccion->Some_0.dia@, i);
}

} // verus!
