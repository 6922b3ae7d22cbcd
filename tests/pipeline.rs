use meteo_forecast::mapper::{MappingError, RawOrigen, RawPrediccion, RawRoot};
use meteo_forecast::number::parse_small_int;
use meteo_forecast::pipeline::{accept_document, check_status, compose_mail, prepare_dispatch, Config, PipelineError, Setting};
use meteo_forecast::recipients::split_recipients;

fn some(s: &str) -> Option<String> {
    Some(s.to_string())
}

fn config() -> Config {
    Config::from_settings(some("http://src"), some("me@x.com"), some("a@x.com, b@y.com"), some("http://mail")).unwrap()
}

#[test]
fn recipients_are_split_and_trimmed() {
    assert_eq!(split_recipients("a@x.com, b@y.com"), vec!["a@x.com".to_string(), "b@y.com".to_string()]);
}

#[test]
fn recipients_in_mail_payload() {
    let d = compose_mail(config(), "report");
    assert_eq!(d.request.mail.to, vec!["a@x.com".to_string(), "b@y.com".to_string()]);
    assert_eq!(d.request.mail.from, "me@x.com");
    assert_eq!(d.endpoint, "http://mail");
}

#[test]
fn empty_pieces_are_dropped() {
    assert_eq!(split_recipients(" , a ,, \tb\u{3000} ,"), vec!["a".to_string(), "b".to_string()]);
    assert_eq!(split_recipients("solo"), vec!["solo".to_string()]);
    assert!(split_recipients(" , ").is_empty());
}

#[test]
fn missing_dispatch_endpoint() {
    let r = Config::from_settings(some("http://src"), some("me@x.com"), some("a@x.com"), None);
    assert_eq!(r, Err(PipelineError::ConfigMissing(Setting::DispatchUrl)));
    let r = Config::from_settings(some("http://src"), some("me@x.com"), some("a@x.com"), some(""));
    assert_eq!(r, Err(PipelineError::ConfigMissing(Setting::DispatchUrl)));
}

#[test]
fn missing_settings_in_order() {
    assert_eq!(Config::from_settings(None, None, None, None), Err(PipelineError::ConfigMissing(Setting::SourceUrl)));
    assert_eq!(Config::from_settings(some("u"), some(""), None, None), Err(PipelineError::ConfigMissing(Setting::MailFrom)));
    assert_eq!(Config::from_settings(some("u"), some("f"), None, some("d")), Err(PipelineError::ConfigMissing(Setting::MailTo)));
    assert_eq!(Config::from_settings(some("u"), some("f"), some(" , "), some("d")), Err(PipelineError::ConfigMissing(Setting::MailTo)));
}

#[test]
fn mail_text_is_base64() {
    let d = compose_mail(config(), "hello");
    assert_eq!(d.request.mail.text, "aGVsbG8=");
    assert_eq!(d.request.mail.subject, "Meteo forecast");
    assert_eq!(d.request.mail.encoding, "base64");
    let d = compose_mail(config(), "\u{B0}");
    assert_eq!(d.request.mail.text, "wrA=");
}

#[test]
fn status_checks() {
    assert_eq!(check_status(200), Ok(()));
    assert_eq!(check_status(299), Ok(()));
    assert_eq!(check_status(404), Err(PipelineError::Transport(Some(404))));
    assert_eq!(check_status(199), Err(PipelineError::Transport(Some(199))));
}

#[test]
fn document_is_decoded_as_latin9() {
    let body = vec![b'a', 0xA4, 0xE9, 0xBD, 0xA3];
    assert_eq!(accept_document(200, &body), Ok("a\u{20AC}\u{E9}\u{153}\u{A3}".to_string()));
    assert_eq!(accept_document(500, &body), Err(PipelineError::Transport(Some(500))));
}

#[test]
fn small_integers() {
    assert_eq!(parse_small_int("127"), Some(127));
    assert_eq!(parse_small_int("-128"), Some(-128));
    assert_eq!(parse_small_int("+5"), Some(5));
    assert_eq!(parse_small_int("007"), Some(7));
    assert_eq!(parse_small_int("128"), None);
    assert_eq!(parse_small_int("-129"), None);
    assert_eq!(parse_small_int("99999999999"), None);
    assert_eq!(parse_small_int(""), None);
    assert_eq!(parse_small_int("-"), None);
    assert_eq!(parse_small_int("1a"), None);
    assert_eq!(parse_small_int(" 1"), None);
}

#[test]
fn prepare_maps_renders_and_wraps() {
    let raw = RawRoot {
        id: None,
        version: None,
        origen: Some(RawOrigen {
            productor: some("P"),
            web: some("w"),
            enlace: some("e"),
            language: some("es"),
            copyright: some("c"),
            nota_legal: some("N"),
        }),
        elaborado: some("T"),
        nombre: some("A"),
        provincia: some("B"),
        prediccion: Some(RawPrediccion { dia: vec![] }),
    };
    let d = prepare_dispatch(config(), raw).unwrap();
    let report = format!("METEO FORECAST FOR A (B)\nGenerated: T\nSource: P\n{}\n\nN\n", "=".repeat(60));
    assert_eq!(d.request.mail.text, compose_mail(config(), &report).request.mail.text);
    let raw = RawRoot {
        id: None,
        version: None,
        origen: None,
        elaborado: some("T"),
        nombre: some("A"),
        provincia: some("B"),
        prediccion: Some(RawPrediccion { dia: vec![] }),
    };
    assert_eq!(prepare_dispatch(config(), raw), Err(PipelineError::Mapping(MappingError::MissingField)));
}

#[test]
fn assembled_mail_fields() {
    let d = meteo_forecast::pipeline::assemble_mail(config(), "dGV4dA==".to_string());
    assert_eq!(d.request.mail.text, "dGV4dA==");
    assert_eq!(d.request.mail.subject, "Meteo forecast");
    assert_eq!(d.request.mail.encoding, "base64");
    assert_eq!(d.request.mail.to, vec!["a@x.com".to_string(), "b@y.com".to_string()]);
    assert_eq!(d.endpoint, "http://mail");
}
