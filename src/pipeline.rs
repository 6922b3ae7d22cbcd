//! The steps of a run: configuration, accepting the fetched document, and
//! preparing the mail that carries the report.

use vstd::prelude::*;
use crate::mapper::{map_document, root_error, root_maps, MappingError, RawRoot};
use crate::model::{Mail, MailRequest};
use crate::recipients::{lemma_recipients_not_empty, recipients_of, split_recipients, texts};
use crate::render::{format_weather_report, report_of};

verus! {

/// A configuration value that a run needs.
#[derive(Debug, Clone, Copy, PartialEq, Eq, Structural)]
pub enum Setting {
    /// Where the forecast document is fetched from.
    SourceUrl,
    /// The mail's sender address.
    MailFrom,
    /// The comma-separated list of recipients.
    MailTo,
    /// Where the mail is handed over for dispatch.
    DispatchUrl,
}

/// Why a run failed.
#[derive(Debug, Clone, Copy, PartialEq, Eq, Structural)]
pub enum PipelineError {
    /// A required setting is absent or empty.
    ConfigMissing(Setting),
    /// A request failed: with the status of a non-success answer, or
    /// without one when no answer came.
    Transport(Option<u16>),
    /// The document does not map into the forecast model.
    Mapping(MappingError),
    /// The mail could not be serialized.
    Serialization,
}

/// The settings of a run, all checked.
#[derive(Debug, PartialEq, Eq)]
pub struct Config {
    pub source_url: String,
    pub mail_from: String,
    pub recipients: Vec<String>,
    pub dispatch_url: String,
}

/// Whether a setting is present and not empty.
pub open spec fn given(o: Option<String>) -> bool {
    o is Some && o->Some_0@.len() > 0
}

/// The first setting that is missing, if any. A recipient list that names
/// nobody counts as missing.
pub open spec fn config_error(
    source_url: Option<String>,
    mail_from: Option<String>,
    mail_to: Option<String>,
    dispatch_url: Option<String>,
) -> Option<PipelineError> {
    if !given(source_url) {
        Some(PipelineError::ConfigMissing(Setting::SourceUrl))
    } else if !given(mail_from) {
        Some(PipelineError::ConfigMissing(Setting::MailFrom))
    } else if !given(mail_to) || recipients_of(mail_to->Some_0@).len() == 0 {
        Some(PipelineError::ConfigMissing(Setting::MailTo))
    } else if !given(dispatch_url) {
        Some(PipelineError::ConfigMissing(Setting::DispatchUrl))
    } else {
        None
    }
}

fn is_given(o: &Option<String>) -> (r: bool)
    ensures
        r == given(*o),
{
    match o {
        Some(s) => !s.as_str().is_empty(),
        None => false,
    }
}

impl Config {
    /// Checks the settings of a run, in order: source, sender, recipients,
    /// dispatch endpoint. The recipients are read from their
    /// comma-separated list.
    pub fn from_settings(
        source_url: Option<String>,
        mail_from: Option<String>,
        mail_to: Option<String>,
        dispatch_url: Option<String>,
    ) -> (r: Result<Config, PipelineError>)
        ensures
            match r {
                Ok(c) => {
                    &&& config_error(source_url, mail_from, mail_to, dispatch_url) is None
                    &&& source_url == Some(c.source_url)
                    &&& mail_from == Some(c.mail_from)
                    &&& texts(c.recipients@) == recipients_of(mail_to->Some_0@)
                    &&& dispatch_url == Some(c.dispatch_url)
                },
                Err(e) => config_error(source_url, mail_from, mail_to, dispatch_url) == Some(e),
            },
    {
        if !is_given(&source_url) {
            return Err(PipelineError::ConfigMissing(Setting::SourceUrl));
        }
        if !is_given(&mail_from) {
            return Err(PipelineError::ConfigMissing(Setting::MailFrom));
        }
        if !is_given(&mail_to) {
            return Err(PipelineError::ConfigMissing(Setting::MailTo));
        }
        let recipients = match &mail_to {
            Some(list) => split_recipients(list.as_str()),
            None => {
                return Err(PipelineError::ConfigMissing(Setting::MailTo));
            },
        };
        if recipients.len() == 0 {
            return Err(PipelineError::ConfigMissing(Setting::MailTo));
        }
        if !is_given(&dispatch_url) {
            return Err(PipelineError::ConfigMissing(Setting::DispatchUrl));
        }
        Ok(
            Config {
                source_url: source_url.unwrap(),
                mail_from: mail_from.unwrap(),
                recipients,
                dispatch_url: dispatch_url.unwrap(),
            },
        )
    }
}

/// Whether an HTTP status reports success.
pub open spec fn success(status: u16) -> bool {
    200 <= status <= 299
}

/// Fails with the status unless it reports success.
pub fn check_status(status: u16) -> (r: Result<(), PipelineError>)
    ensures
        r is Ok <==> success(status),
        r is Err ==> r == Err::<(), PipelineError>(PipelineError::Transport(Some(status))),
{
    if 200 <= status && status <= 299 {
        Ok(())
    } else {
        Err(PipelineError::Transport(Some(status)))
    }
}

/// The code point of a byte in ISO-8859-15 (Latin-9): Latin-1 but for
/// eight bytes.
pub open spec fn latin9_code(b: u8) -> u32 {
    if b == 0xA4 {
        0x20AC
    } else if b == 0xA6 {
        0x0160
    } else if b == 0xA8 {
        0x0161
    } else if b == 0xB4 {
        0x017D
    } else if b == 0xB8 {
        0x017E
    } else if b == 0xBC {
        0x0152
    } else if b == 0xBD {
        0x0153
    } else if b == 0xBE {
        0x0178
    } else {
        b as u32
    }
}

/// Relies on encoding_rs's ISO-8859-15 decoder, without byte order mark
/// sniffing: each byte becomes the one character that the Latin-9 table
/// gives it.
#[verifier::external_body]
fn decode_latin9(bytes: &[u8]) -> (r: String)
    ensures
        r@.len() == bytes@.len(),
        forall|i: int| 0 <= i < bytes@.len() ==> r@[i] as u32 == latin9_code(bytes@[i]),
{
    encoding_rs::ISO_8859_15.decode_without_bom_handling(bytes).0.into_owned()
}

/// Accepts a fetched document: a non-success status fails the run;
/// otherwise the body is decoded from ISO-8859-15.
pub fn accept_document(status: u16, body: &[u8]) -> (r: Result<String, PipelineError>)
    ensures
        match r {
            Ok(t) => success(status) && t@.len() == body@.len() && forall|i: int|
                0 <= i < body@.len() ==> t@[i] as u32 == latin9_code(body@[i]),
            Err(e) => !success(status) && e == PipelineError::Transport(Some(status)),
        },
{
    match check_status(status) {
        Ok(()) => Ok(decode_latin9(body)),
        Err(e) => Err(e),
    }
}

/// The base64 text (standard alphabet, padded) of the UTF-8 bytes of a
/// string.
pub uninterp spec fn base64_of(s: Seq<char>) -> Seq<char>;

/// Relies on base64's `STANDARD` engine `encode`: the padded base64 text of
/// the string's UTF-8 bytes, empty for an empty string.
#[verifier::external_body]
fn encode_base64(s: &str) -> (r: String)
    ensures
        r@ == base64_of(s@),
        s@.len() == 0 ==> r@.len() == 0,
{
    base64::Engine::encode(&base64::engine::general_purpose::STANDARD, s.as_bytes())
}

/// A mail ready to be sent, and where to send it.
#[derive(Debug, PartialEq, Eq)]
pub struct Dispatch {
    pub endpoint: String,
    pub request: MailRequest,
}

/// What a prepared dispatch holds for a configuration and a mail text.
pub open spec fn mail_of(d: Dispatch, c: Config, text: Seq<char>) -> bool {
    &&& d.endpoint == c.dispatch_url
    &&& d.request.mail.from == c.mail_from
    &&& d.request.mail.to == c.recipients
    &&& d.request.mail.subject@ == "Meteo forecast"@
    &&& d.request.mail.text@ == text
    &&& d.request.mail.encoding@ == "base64"@
}

/// What a prepared dispatch holds for a configuration and a report: the
/// mail's text is the report in base64.
pub open spec fn dispatch_of(d: Dispatch, c: Config, report: Seq<char>) -> bool {
    mail_of(d, c, base64_of(report))
}

/// Builds the mail for the configured sender and recipients around a text
/// that is already base64-encoded.
pub fn assemble_mail(config: Config, text: String) -> (d: Dispatch)
    ensures
        mail_of(d, config, text@),
{
    let Config { source_url, mail_from, recipients, dispatch_url } = config;
    Dispatch {
        endpoint: dispatch_url,
        request: MailRequest {
            mail: Mail {
                from: mail_from,
                to: recipients,
                subject: String::from_str("Meteo forecast"),
                text,
                encoding: String::from_str("base64"),
            },
        },
    }
}

/// Wraps a report into the mail for the configured recipients: its text is
/// the report in base64.
pub fn compose_mail(config: Config, report: &str) -> (d: Dispatch)
    ensures
        dispatch_of(d, config, report@),
{
    let text = encode_base64(report);
    assemble_mail(config, text)
}

/// Maps a document, renders its report and wraps the report into the mail.
/// Fails exactly when the document does not map.
pub fn prepare_dispatch(config: Config, raw: RawRoot) -> (r: Result<Dispatch, PipelineError>)
    ensures
        match r {
            Ok(d) => root_error(raw) is None && exists|m| #[trigger]
                root_maps(raw, m) && dispatch_of(d, config, report_of(m)),
            Err(e) => root_error(raw) is Some && e == PipelineError::Mapping(root_error(raw)->Some_0),
        },
{
    match map_document(raw) {
        Ok(m) => {
            let report = format_weather_report(&m);
            let d = compose_mail(config, report.as_str());
            assert(root_maps(raw, m) && dispatch_of(d, config, report_of(m)));
            Ok(d)
        },
        Err(e) => Err(PipelineError::Mapping(e)),
    }
}

/// The recipients of a prepared mail are those that the configured list
/// names, in its order, each trimmed and none empty.
pub proof fn lemma_mail_recipients(
    mail_to: Option<String>,
    c: Config,
    d: Dispatch,
    report: Seq<char>,
)
    requires
        mail_to is Some,
        texts(c.recipients@) == recipients_of(mail_to->Some_0@),
        dispatch_of(d, c, report),
    ensures
        texts(d.request.mail.to@) == recipients_of(mail_to->Some_0@),
        forall|j: int|
            0 <= j < d.request.mail.to@.len() ==> (#[trigger] d.request.mail.to@[j])@.len() > 0,
{
    lemma_recipients_not_empty(mail_to->Some_0@);
    assert forall|j: int| 0 <= j < d.request.mail.to@.len() implies (#[trigger] d.request.mail.to@[
        j
    ])@.len() > 0 by {
        assert(texts(d.request.mail.to@)[j] == d.request.mail.to@[j]@);
    }
}

} // verus!
