//! Rendering a forecast as a text report.

use vstd::prelude::*;
use crate::model::{
    CotaNieveProv, Dato, Dia, EstadoCielo, ProbPrecipitacion, RachaMax, Root, Viento,
};
use crate::number::{decimal, push_decimal, push_two_digits, two_digits};

verus! {

/// Whether an optional text is present and not empty.
pub open spec fn filled(o: Option<String>) -> bool {
    o is Some && o->Some_0@.len() > 0
}

/// An optional text, or `default` when it is absent.
pub open spec fn text_or(o: Option<String>, default: Seq<char>) -> Seq<char> {
    match o {
        Some(s) => s@,
        None => default,
    }
}

/// The label of a period; an unlabelled period covers the whole day.
pub open spec fn period_label(p: Option<String>) -> Seq<char> {
    text_or(p, "all day"@)
}

/// The start of an entry line: indentation, period label and arrow.
pub open spec fn entry_start(p: Option<String>) -> Seq<char> {
    "    "@ + period_label(p) + " \u{2192} "@
}

/// A measurement given per period of the day, rendered one line per entry.
pub trait Periodized: Sized {
    /// Whether the entry carries something to show.
    spec fn shown(&self) -> bool;

    /// The line that shows the entry.
    spec fn line(&self) -> Seq<char>;

    fn is_shown(&self) -> (r: bool)
        ensures
            r == self.shown(),
    ;

    fn push_line(&self, out: &mut String)
        ensures
            final(out)@ == old(out)@ + self.line(),
    ;
}

/// The lines of the entries that are shown, in order.
pub open spec fn lines_of<T: Periodized>(s: Seq<T>) -> Seq<char>
    decreases s.len(),
{
    if s.len() == 0 {
        seq![]
    } else {
        lines_of(s.drop_last()) + if s.last().shown() {
            s.last().line()
        } else {
            seq![]
        }
    }
}

/// Whether at least one entry is shown.
pub open spec fn any_shown<T: Periodized>(s: Seq<T>) -> bool {
    exists|i: int| 0 <= i < s.len() && #[trigger] s[i].shown()
}

/// A section: its title and its lines, or nothing at all when no entry is
/// shown.
pub open spec fn section<T: Periodized>(title: Seq<char>, s: Seq<T>) -> Seq<char> {
    if any_shown(s) {
        title + lines_of(s)
    } else {
        seq![]
    }
}

fn push_text_or(out: &mut String, o: &Option<String>, default: &str)
    ensures
        final(out)@ == old(out)@ + text_or(*o, default@),
{
    match o {
        Some(s) => out.append(s.as_str()),
        None => out.append(default),
    }
}

fn push_entry_start(out: &mut String, p: &Option<String>)
    ensures
        final(out)@ == old(out)@ + entry_start(*p),
{
    let ghost before = out@;
    out.append("    ");
    push_text_or(out, p, "all day");
    out.append(" \u{2192} ");
    assert(out@ =~= before + entry_start(*p));
}

fn is_filled(o: &Option<String>) -> (r: bool)
    ensures
        r == filled(*o),
{
    match o {
        Some(s) => !s.as_str().is_empty(),
        None => false,
    }
}

impl Periodized for ProbPrecipitacion {
    open spec fn shown(&self) -> bool {
        filled(self.value)
    }

    open spec fn line(&self) -> Seq<char> {
        entry_start(self.periodo) + text_or(self.value, "0"@) + "%\n"@
    }

    fn is_shown(&self) -> (r: bool) {
        is_filled(&self.value)
    }

    fn push_line(&self, out: &mut String) {
        let ghost before = out@;
        push_entry_start(out, &self.periodo);
        push_text_or(out, &self.value, "0");
        out.append("%\n");
        assert(out@ =~= before + self.line());
    }
}

impl Periodized for CotaNieveProv {
    open spec fn shown(&self) -> bool {
        filled(self.value)
    }

    open spec fn line(&self) -> Seq<char> {
        entry_start(self.periodo) + text_or(self.value, "-"@) + "m\n"@
    }

    fn is_shown(&self) -> (r: bool) {
        is_filled(&self.value)
    }

    fn push_line(&self, out: &mut String) {
        let ghost before = out@;
        push_entry_start(out, &self.periodo);
        push_text_or(out, &self.value, "-");
        out.append("m\n");
        assert(out@ =~= before + self.line());
    }
}

impl Periodized for EstadoCielo {
    open spec fn shown(&self) -> bool {
        filled(self.descripcion)
    }

    open spec fn line(&self) -> Seq<char> {
        entry_start(self.periodo) + text_or(self.descripcion, "-"@) + "\n"@
    }

    fn is_shown(&self) -> (r: bool) {
        is_filled(&self.descripcion)
    }

    fn push_line(&self, out: &mut String) {
        let ghost before = out@;
        push_entry_start(out, &self.periodo);
        push_text_or(out, &self.descripcion, "-");
        out.append("\n");
        assert(out@ =~= before + self.line());
    }
}

impl Periodized for Viento {
    open spec fn shown(&self) -> bool {
        self.direccion@.len() > 0 || self.velocidad@.len() > 0
    }

    open spec fn line(&self) -> Seq<char> {
        entry_start(self.periodo) + self.direccion@ + " at "@ + self.velocidad@ + " km/h\n"@
    }

    fn is_shown(&self) -> (r: bool) {
        !self.direccion.as_str().is_empty() || !self.velocidad.as_str().is_empty()
    }

    fn push_line(&self, out: &mut String) {
        let ghost before = out@;
        push_entry_start(out, &self.periodo);
        out.append(self.direccion.as_str());
        out.append(" at ");
        out.append(self.velocidad.as_str());
        out.append(" km/h\n");
        assert(out@ =~= before + self.line());
    }
}

impl Periodized for RachaMax {
    open spec fn shown(&self) -> bool {
        filled(self.value)
    }

    open spec fn line(&self) -> Seq<char> {
        entry_start(self.periodo) + text_or(self.value, "-"@) + " km/h\n"@
    }

    fn is_shown(&self) -> (r: bool) {
        is_filled(&self.value)
    }

    fn push_line(&self, out: &mut String) {
        let ghost before = out@;
        push_entry_start(out, &self.periodo);
        push_text_or(out, &self.value, "-");
        out.append(" km/h\n");
        assert(out@ =~= before + self.line());
    }
}

fn push_section<T: Periodized>(out: &mut String, title: &str, items: &Vec<T>)
    ensures
        final(out)@ == old(out)@ + section(title@, items@),
{
    let ghost before = out@;
    let mut any = false;
    let mut i: usize = 0;
    while i < items.len()
        invariant
            i <= items@.len(),
            any <==> exists|j: int| 0 <= j < i && #[trigger] items@[j].shown(),
        decreases items@.len() - i,
    {
        if items[i].is_shown() {
            any = true;
        }
        i = i + 1;
    }
    if any {
        out.append(title);
        let mut k: usize = 0;
        while k < items.len()
            invariant
                k <= items@.len(),
                out@ == before + title@ + lines_of(items@.subrange(0, k as int)),
            decreases items@.len() - k,
        {
            if items[k].is_shown() {
                items[k].push_line(out);
            }
            assert(items@.subrange(0, k + 1).drop_last() =~= items@.subrange(0, k as int));
            k = k + 1;
        }
        assert(items@.subrange(0, items@.len() as int) =~= items@);
    }
}

/// The line of an hourly reading, or nothing when its hour or its value is
/// missing or the value is empty.
pub open spec fn reading_line(d: Dato, unit: Seq<char>) -> Seq<char> {
    match d.hora {
        Some(h) => if filled(d.value) {
            "    "@ + two_digits(h as int) + ":00 \u{2192} "@ + d.value->Some_0@ + unit + "\n"@
        } else {
            seq![]
        },
        None => seq![],
    }
}

/// The lines of a series' readings, in order.
pub open spec fn readings_text(s: Seq<Dato>, unit: Seq<char>) -> Seq<char>
    decreases s.len(),
{
    if s.len() == 0 {
        seq![]
    } else {
        readings_text(s.drop_last(), unit) + reading_line(s.last(), unit)
    }
}

/// A point series: its title, its range and its readings.
pub open spec fn series_text(
    title: Seq<char>,
    minima: i8,
    maxima: i8,
    unit: Seq<char>,
    data: Seq<Dato>,
) -> Seq<char> {
    title + decimal(minima as int) + unit + " - "@ + decimal(maxima as int) + unit + "\n"@
        + readings_text(data, unit)
}

fn push_series(out: &mut String, title: &str, minima: i8, maxima: i8, unit: &str, data: &Vec<Dato>)
    ensures
        final(out)@ == old(out)@ + series_text(title@, minima, maxima, unit@, data@),
{
    let ghost before = out@;
    out.append(title);
    push_decimal(out, minima);
    out.append(unit);
    out.append(" - ");
    push_decimal(out, maxima);
    out.append(unit);
    out.append("\n");
    let ghost head = out@;
    let mut k: usize = 0;
    while k < data.len()
        invariant
            k <= data@.len(),
            out@ == head + readings_text(data@.subrange(0, k as int), unit@),
        decreases data@.len() - k,
    {
        let d = &data[k];
        match d.hora {
            Some(h) => {
                if is_filled(&d.value) {
                    let ghost prev = out@;
                    out.append("    ");
                    push_two_digits(out, h);
                    out.append(":00 \u{2192} ");
                    push_text_or(out, &d.value, "");
                    out.append(unit);
                    out.append("\n");
                    assert(out@ =~= prev + reading_line(*d, unit@));
                }
            },
            None => {},
        }
        assert(data@.subrange(0, k + 1).drop_last() =~= data@.subrange(0, k as int));
        k = k + 1;
    }
    assert(data@.subrange(0, data@.len() as int) =~= data@);
    assert(out@ =~= before + series_text(title@, minima, maxima, unit@, data@));
}

/// The separator that closes the header and each day.
pub open spec fn rule() -> Seq<char> {
    "============================================================"@
}

/// The heading of a day that carries a date.
pub open spec fn date_text(fecha: Option<String>) -> Seq<char> {
    match fecha {
        Some(f) => "\n\u{1F4C5} DATE: "@ + f@ + "\n"@ + "----------------------------------------"@
            + "\n"@,
        None => seq![],
    }
}

/// The UV index line, when the index is present and not empty.
pub open spec fn uv_text(uv: Option<String>) -> Seq<char> {
    if filled(uv) {
        "\n\u{2600}\u{FE0F}  UV INDEX (max): "@ + uv->Some_0@ + "\n"@
    } else {
        seq![]
    }
}

/// The three point series of a day.
pub open spec fn series_part(d: Dia) -> Seq<char> {
    series_text(
        "\n\u{1F321}\u{FE0F}  TEMPERATURE: "@,
        d.temperatura.minima,
        d.temperatura.maxima,
        "\u{B0}C"@,
        d.temperatura.dato@,
    ) + series_text(
        "\n\u{1F321}\u{FE0F}  THERMAL SENSATION: "@,
        d.sens_termica.minima,
        d.sens_termica.maxima,
        "\u{B0}C"@,
        d.sens_termica.dato@,
    ) + series_text(
        "\n\u{1F4A7} RELATIVE HUMIDITY: "@,
        d.humedad_relativa.minima,
        d.humedad_relativa.maxima,
        "%"@,
        d.humedad_relativa.dato@,
    )
}

/// The per-period sections of a day, each one present only when one of its
/// entries is shown.
pub open spec fn sections_part(d: Dia) -> Seq<char> {
    section("\n\u{1F327}\u{FE0F}  PRECIPITATION PROBABILITY:\n"@, d.prob_precipitacion@)
        + section("\n\u{2744}\u{FE0F}  SNOW LEVEL:\n"@, d.cota_nieve_prov@)
        + section("\n\u{2601}\u{FE0F}  SKY CONDITION:\n"@, d.estado_cielo@)
        + section("\n\u{1F4A8} WIND:\n"@, d.viento@)
        + section("\n\u{1F4A8} MAX WIND GUST:\n"@, d.racha_max@)
}

/// The whole text of one day.
pub open spec fn day_text(d: Dia) -> Seq<char> {
    date_text(d.fecha) + series_part(d) + sections_part(d) + uv_text(d.uv_max) + "\n"@ + rule()
        + "\n"@
}

/// The text of the days, in order.
pub open spec fn days_text(s: Seq<Dia>) -> Seq<char>
    decreases s.len(),
{
    if s.len() == 0 {
        seq![]
    } else {
        days_text(s.drop_last()) + day_text(s.last())
    }
}

/// The report's header: place, generation time and producer.
pub open spec fn header_text(root: Root) -> Seq<char> {
    "METEO FORECAST FOR "@ + root.nombre@ + " ("@ + root.provincia@ + ")\n"@ + "Generated: "@
        + root.elaborado@ + "\n"@ + "Source: "@ + root.origen.productor@ + "\n"@ + rule()
        + "\n"@
}

/// The whole report: the header, every day in order, and the legal notice
/// once at the end.
pub open spec fn report_of(root: Root) -> Seq<char> {
    header_text(root) + days_text(root.prediccion.dia@) + "\n"@ + root.origen.nota_legal@
        + "\n"@
}

fn push_date(out: &mut String, fecha: &Option<String>)
    ensures
        final(out)@ == old(out)@ + date_text(*fecha),
{
    let ghost before = out@;
    match fecha {
        Some(f) => {
            out.append("\n\u{1F4C5} DATE: ");
            out.append(f.as_str());
            out.append("\n");
            out.append("----------------------------------------");
            out.append("\n");
        },
        None => {},
    }
    assert(out@ =~= before + date_text(*fecha));
}

fn push_series_part(out: &mut String, d: &Dia)
    ensures
        final(out)@ == old(out)@ + series_part(*d),
{
    let ghost before = out@;
    push_series(
        out,
        "\n\u{1F321}\u{FE0F}  TEMPERATURE: ",
        d.temperatura.minima,
        d.temperatura.maxima,
        "\u{B0}C",
        &d.temperatura.dato,
    );
    push_series(
        out,
        "\n\u{1F321}\u{FE0F}  THERMAL SENSATION: ",
        d.sens_termica.minima,
        d.sens_termica.maxima,
        "\u{B0}C",
        &d.sens_termica.dato,
    );
    push_series(
        out,
        "\n\u{1F4A7} RELATIVE HUMIDITY: ",
        d.humedad_relativa.minima,
        d.humedad_relativa.maxima,
        "%",
        &d.humedad_relativa.dato,
    );
    assert(out@ =~= before + series_part(*d));
}

fn push_sections_part(out: &mut String, d: &Dia)
    ensures
        final(out)@ == old(out)@ + sections_part(*d),
{
    let ghost before = out@;
    push_section(out, "\n\u{1F327}\u{FE0F}  PRECIPITATION PROBABILITY:\n", &d.prob_precipitacion);
    push_section(out, "\n\u{2744}\u{FE0F}  SNOW LEVEL:\n", &d.cota_nieve_prov);
    push_section(out, "\n\u{2601}\u{FE0F}  SKY CONDITION:\n", &d.estado_cielo);
    push_section(out, "\n\u{1F4A8} WIND:\n", &d.viento);
    push_section(out, "\n\u{1F4A8} MAX WIND GUST:\n", &d.racha_max);
    assert(out@ =~= before + sections_part(*d));
}

fn push_uv(out: &mut String, uv: &Option<String>)
    ensures
        final(out)@ == old(out)@ + uv_text(*uv),
{
    let ghost before = out@;
    if is_filled(uv) {
        out.append("\n\u{2600}\u{FE0F}  UV INDEX (max): ");
        push_text_or(out, uv, "");
        out.append("\n");
    }
    assert(out@ =~= before + uv_text(*uv));
}

fn push_day(out: &mut String, d: &Dia)
    ensures
        final(out)@ == old(out)@ + day_text(*d),
{
    let ghost before = out@;
    push_date(out, &d.fecha);
    let ghost a = out@;
    push_series_part(out, d);
    let ghost b = out@;
    push_sections_part(out, d);
    let ghost c = out@;
    push_uv(out, &d.uv_max);
    let ghost e = out@;
    out.append("\n");
    out.append("============================================================");
    out.append("\n");
    assert(out@ =~= before + day_text(*d)) by {
        assert(e == before + date_text(d.fecha) + series_part(*d) + sections_part(*d) + uv_text(
            d.uv_max,
        ));
    }
}

/// Renders the forecast as a text report. The result depends on the forecast
/// alone.
pub fn format_weather_report(root: &Root) -> (r: String)
    ensures
        r@ == report_of(*root),
{
    let mut out = String::new();
    out.append("METEO FORECAST FOR ");
    out.append(root.nombre.as_str());
    out.append(" (");
    out.append(root.provincia.as_str());
    out.append(")\n");
    out.append("Generated: ");
    out.append(root.elaborado.as_str());
    out.append("\n");
    out.append("Source: ");
    out.append(root.origen.productor.as_str());
    out.append("\n");
    out.append("============================================================");
    out.append("\n");
    let ghost head = out@;
    assert(head =~= header_text(*root));
    let days = &root.prediccion.dia;
    let mut k: usize = 0;
    while k < days.len()
        invariant
            k <= days@.len(),
            days@ == root.prediccion.dia@,
            out@ == head + days_text(days@.subrange(0, k as int)),
        decreases days@.len() - k,
    {
        push_day(&mut out, &days[k]);
        assert(days@.subrange(0, k + 1).drop_last() =~= days@.subrange(0, k as int));
        k = k + 1;
    }
    assert(days@.subrange(0, days@.len() as int) =~= days@);
    out.append("\n");
    out.append(root.origen.nota_legal.as_str());
    out.append("\n");
    assert(out@ =~= report_of(*root));
    out
}

/// Rendering is a function of the forecast: equal forecasts give the same
/// report, character for character.
pub proof fn lemma_report_deterministic(a: Root, b: Root)
    requires
        a == b,
    ensures
        report_of(a) == report_of(b),
{
}

/// A section with a non-empty title is present exactly when one of its
/// entries is shown, and then starts with its title; otherwise it leaves no
/// trace, not even the title.
pub proof fn lemma_section_presence<T: Periodized>(title: Seq<char>, s: Seq<T>)
    requires
        title.len() > 0,
    ensures
        section(title, s).len() > 0 <==> any_shown(s),
        any_shown(s) ==> section(title, s).subrange(0, title.len() as int) == title,
        !any_shown(s) ==> section(title, s) == Seq::<char>::empty(),
{
    if any_shown(s) {
        assert(section(title, s).subrange(0, title.len() as int) =~= title);
    }
}

/// In the text of a day, each per-period section (precipitation, snow, sky,
/// wind, gust) is present exactly when one of its entries is shown, and the
/// UV line exactly when the index is present and not empty.
pub proof fn lemma_day_sections(d: Dia)
    ensures
        day_text(d) == date_text(d.fecha) + series_part(d) + sections_part(d) + uv_text(d.uv_max)
            + "\n"@ + rule() + "\n"@,
        section("\n\u{1F327}\u{FE0F}  PRECIPITATION PROBABILITY:\n"@, d.prob_precipitacion@).len()
            > 0 <==> any_shown(d.prob_precipitacion@),
        section("\n\u{2744}\u{FE0F}  SNOW LEVEL:\n"@, d.cota_nieve_prov@).len() > 0 <==> any_shown(
            d.cota_nieve_prov@,
        ),
        section("\n\u{2601}\u{FE0F}  SKY CONDITION:\n"@, d.estado_cielo@).len() > 0 <==> any_shown(
            d.estado_cielo@,
        ),
        section("\n\u{1F4A8} WIND:\n"@, d.viento@).len() > 0 <==> any_shown(d.viento@),
        section("\n\u{1F4A8} MAX WIND GUST:\n"@, d.racha_max@).len() > 0 <==> any_shown(d.racha_max@),
        uv_text(d.uv_max).len() > 0 <==> filled(d.uv_max),
{
    reveal_strlit("\n\u{1F327}\u{FE0F}  PRECIPITATION PROBABILITY:\n");
    reveal_strlit("\n\u{2744}\u{FE0F}  SNOW LEVEL:\n");
    reveal_strlit("\n\u{2601}\u{FE0F}  SKY CONDITION:\n");
    reveal_strlit("\n\u{1F4A8} WIND:\n");
    reveal_strlit("\n\u{1F4A8} MAX WIND GUST:\n");
    reveal_strlit("\n\u{2600}\u{FE0F}  UV INDEX (max): ");
    lemma_section_presence(
        "\n\u{1F327}\u{FE0F}  PRECIPITATION PROBABILITY:\n"@,
        d.prob_precipitacion@,
    );
    lemma_section_presence("\n\u{2744}\u{FE0F}  SNOW LEVEL:\n"@, d.cota_nieve_prov@);
    lemma_section_presence("\n\u{2601}\u{FE0F}  SKY CONDITION:\n"@, d.estado_cielo@);
    lemma_section_presence("\n\u{1F4A8} WIND:\n"@, d.viento@);
    lemma_section_presence("\n\u{1F4A8} MAX WIND GUST:\n"@, d.racha_max@);
}

/// An entry without a period label is rendered as covering "all day".
pub proof fn lemma_unlabelled_entries(
    p: ProbPrecipitacion,
    c: CotaNieveProv,
    e: EstadoCielo,
    v: Viento,
    r: RachaMax,
)
    ensures
        p.periodo is None ==> p.line() == "    all day \u{2192} "@ + text_or(p.value, "0"@) + "%\n"@,
        c.periodo is None ==> c.line() == "    all day \u{2192} "@ + text_or(c.value, "-"@) + "m\n"@,
        e.periodo is None ==> e.line() == "    all day \u{2192} "@ + text_or(e.descripcion, "-"@)
            + "\n"@,
        v.periodo is None ==> v.line() == "    all day \u{2192} "@ + v.direccion@ + " at "@
            + v.velocidad@ + " km/h\n"@,
        r.periodo is None ==> r.line() == "    all day \u{2192} "@ + text_or(r.value, "-"@)
            + " km/h\n"@,
{
    reveal_strlit("    ");
    reveal_strlit("all day");
    reveal_strlit(" \u{2192} ");
    reveal_strlit("    all day \u{2192} ");
    assert(entry_start(None) =~= "    all day \u{2192} "@);
}

} // verus!
