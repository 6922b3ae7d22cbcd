use meteo_forecast::mapper::{map_document, MappingError, RawDato, RawDia, RawOrigen, RawPrediccion, RawRoot, RawSeries, RawViento};
use meteo_forecast::model::{CotaNieveProv, EstadoCielo, ProbPrecipitacion, RachaMax};
use meteo_forecast::render::format_weather_report;

fn text(s: &str) -> Option<String> {
    Some(s.to_string())
}

fn series(max: &str, min: &str, data: Vec<(Option<&str>, Option<&str>)>) -> Option<RawSeries> {
    Some(RawSeries {
        maxima: text(max),
        minima: text(min),
        dato: data
            .into_iter()
            .map(|(h, v)| RawDato { hora: h.map(|x| x.to_string()), value: v.map(|x| x.to_string()) })
            .collect(),
    })
}

fn day(temp: Option<RawSeries>) -> RawDia {
    RawDia {
        fecha: text("2024-05-01"),
        prob_precipitacion: vec![ProbPrecipitacion { periodo: text("00-24"), value: None }],
        cota_nieve_prov: vec![],
        estado_cielo: vec![],
        viento: vec![],
        racha_max: vec![],
        temperatura: temp,
        sens_termica: series("11", "4", vec![]),
        humedad_relativa: series("90", "40", vec![]),
        uv_max: None,
    }
}

fn document(days: Vec<RawDia>) -> RawRoot {
    RawRoot {
        id: text("28079"),
        version: text("1.0"),
        origen: Some(RawOrigen {
            productor: text("Agencia"),
            web: text("http://example.org"),
            enlace: text("http://example.org/x"),
            language: text("es"),
            copyright: text("(c)"),
            nota_legal: text("Legal notice"),
        }),
        elaborado: text("2024-05-01T08:00:00"),
        nombre: text("Madrid"),
        provincia: text("Madrid"),
        prediccion: Some(RawPrediccion { dia: days }),
    }
}

#[test]
fn one_day_temperature_report() {
    let raw = document(vec![day(series("12", "5", vec![(Some("14"), Some("10"))]))]);
    let root = map_document(raw).unwrap();
    let report = format_weather_report(&root);
    assert!(report.contains("\n\u{1F321}\u{FE0F}  TEMPERATURE: 5\u{B0}C - 12\u{B0}C\n"));
    assert!(report.contains("    14:00 \u{2192} 10\u{B0}C\n"));
    assert!(!report.contains("PRECIPITATION"));
}

#[test]
fn full_report_text() {
    let raw = document(vec![day(series("12", "-3", vec![(Some("6"), Some("-1")), (None, Some("4")), (Some("12"), Some(""))]))]);
    let root = map_document(raw).unwrap();
    let report = format_weather_report(&root);
    let rule = "=".repeat(60);
    let expected = format!(
        "METEO FORECAST FOR Madrid (Madrid)\nGenerated: 2024-05-01T08:00:00\nSource: Agencia\n{rule}\n\
         \n\u{1F4C5} DATE: 2024-05-01\n{dash}\n\
         \n\u{1F321}\u{FE0F}  TEMPERATURE: -3\u{B0}C - 12\u{B0}C\n    06:00 \u{2192} -1\u{B0}C\n\
         \n\u{1F321}\u{FE0F}  THERMAL SENSATION: 4\u{B0}C - 11\u{B0}C\n\
         \n\u{1F4A7} RELATIVE HUMIDITY: 40% - 90%\n\
         \n{rule}\n\nLegal notice\n",
        rule = rule,
        dash = "-".repeat(40)
    );
    assert_eq!(report, expected);
}

#[test]
fn render_is_repeatable() {
    let raw = document(vec![day(series("12", "5", vec![(Some("14"), Some("10"))]))]);
    let root = map_document(raw).unwrap();
    assert_eq!(format_weather_report(&root), format_weather_report(&root));
}

#[test]
fn sections_follow_entries() {
    let mut d = day(series("12", "5", vec![]));
    d.prob_precipitacion = vec![
        ProbPrecipitacion { periodo: None, value: text("40") },
        ProbPrecipitacion { periodo: text("12-24"), value: text("") },
    ];
    d.cota_nieve_prov = vec![CotaNieveProv { periodo: text("00-12"), value: text("1500") }];
    d.estado_cielo = vec![EstadoCielo { periodo: None, descripcion: text("Nuboso"), value: text("14") }];
    d.viento = vec![
        RawViento { periodo: text("00-12"), direccion: text(""), velocidad: text("") },
        RawViento { periodo: None, direccion: text("N"), velocidad: text("") },
    ];
    d.racha_max = vec![RachaMax { periodo: None, value: text("") }];
    d.uv_max = text("7");
    let root = map_document(document(vec![d])).unwrap();
    let report = format_weather_report(&root);
    assert!(report.contains("\n\u{1F327}\u{FE0F}  PRECIPITATION PROBABILITY:\n    all day \u{2192} 40%\n\n"));
    assert!(!report.contains("12-24"));
    assert!(report.contains("\n\u{2744}\u{FE0F}  SNOW LEVEL:\n    00-12 \u{2192} 1500m\n"));
    assert!(report.contains("\n\u{2601}\u{FE0F}  SKY CONDITION:\n    all day \u{2192} Nuboso\n"));
    assert!(report.contains("\n\u{1F4A8} WIND:\n    all day \u{2192} N at  km/h\n"));
    assert!(!report.contains("00-12 \u{2192}  at"));
    assert!(!report.contains("MAX WIND GUST"));
    assert!(report.contains("\n\u{2600}\u{FE0F}  UV INDEX (max): 7\n"));
}

#[test]
fn empty_uv_is_left_out() {
    let mut d = day(series("12", "5", vec![]));
    d.uv_max = text("");
    let root = map_document(document(vec![d])).unwrap();
    assert!(!format_weather_report(&root).contains("UV INDEX"));
}

#[test]
fn gust_and_hour_padding() {
    let mut d = day(series("12", "5", vec![(Some("5"), Some("7")), (Some("-5"), Some("1"))]));
    d.racha_max = vec![RachaMax { periodo: text("06-12"), value: text("45") }];
    d.fecha = None;
    let root = map_document(document(vec![d])).unwrap();
    let report = format_weather_report(&root);
    assert!(report.contains("    05:00 \u{2192} 7\u{B0}C\n"));
    assert!(report.contains("    -5:00 \u{2192} 1\u{B0}C\n"));
    assert!(report.contains("\n\u{1F4A8} MAX WIND GUST:\n    06-12 \u{2192} 45 km/h\n"));
    assert!(!report.contains("DATE"));
}

#[test]
fn legal_notice_once_at_end() {
    let raw = document(vec![day(series("1", "0", vec![])), day(series("2", "1", vec![]))]);
    let root = map_document(raw).unwrap();
    let report = format_weather_report(&root);
    assert_eq!(report.matches("Legal notice").count(), 1);
    assert!(report.ends_with("\nLegal notice\n"));
    assert_eq!(report.matches("DATE").count(), 2);
}

#[test]
fn out_of_range_temperature_fails() {
    let raw = document(vec![day(series("128", "5", vec![]))]);
    assert_eq!(map_document(raw), Err(MappingError::InvalidNumber));
    let raw = document(vec![day(series("12", "-129", vec![]))]);
    assert_eq!(map_document(raw), Err(MappingError::InvalidNumber));
}

#[test]
fn out_of_range_hour_fails() {
    let raw = document(vec![day(series("12", "5", vec![(Some("200"), Some("1"))]))]);
    assert_eq!(map_document(raw), Err(MappingError::InvalidNumber));
}

#[test]
fn non_numeric_fails() {
    let raw = document(vec![day(series("warm", "5", vec![]))]);
    assert_eq!(map_document(raw), Err(MappingError::InvalidNumber));
}

#[test]
fn extremes_of_range_map() {
    let raw = document(vec![day(series("127", "-128", vec![]))]);
    let root = map_document(raw).unwrap();
    assert_eq!(root.prediccion.dia[0].temperatura.maxima, 127);
    assert_eq!(root.prediccion.dia[0].temperatura.minima, -128);
    assert!(format_weather_report(&root).contains("TEMPERATURE: -128\u{B0}C - 127\u{B0}C\n"));
}

#[test]
fn missing_series_fails() {
    let raw = document(vec![day(None)]);
    assert_eq!(map_document(raw), Err(MappingError::MissingField));
}

#[test]
fn missing_origin_fails() {
    let mut raw = document(vec![]);
    raw.origen.as_mut().unwrap().nota_legal = None;
    assert_eq!(map_document(raw), Err(MappingError::MissingField));
}

#[test]
fn missing_wind_speed_fails() {
    let mut d = day(series("12", "5", vec![]));
    d.viento = vec![RawViento { periodo: None, direccion: text("N"), velocidad: None }];
    assert_eq!(map_document(document(vec![d])), Err(MappingError::MissingField));
}

#[test]
fn first_fault_decides() {
    let bad_number = day(series("300", "5", vec![]));
    let missing = day(None);
    assert_eq!(map_document(document(vec![bad_number, missing])), Err(MappingError::InvalidNumber));
    let bad_number = day(series("300", "5", vec![]));
    let missing = day(None);
    assert_eq!(map_document(document(vec![missing, bad_number])), Err(MappingError::MissingField));
}

#[test]
fn absent_optionals_map() {
    let mut raw = document(vec![]);
    raw.id = None;
    raw.version = None;
    let root = map_document(raw).unwrap();
    assert_eq!(root.id, None);
    assert!(root.prediccion.dia.is_empty());
    assert_eq!(root.nombre, "Madrid");
}
