//! Resolution of a settings payload into a [`PipelineConfig`]: strict on the
//! character set, lenient on the OCR strategy, defaulting every absent field.
use vstd::prelude::*;

use crate::config::{
    PipelineConfig, PipelineModel, build_ocr, build_office, build_pdf, default_ocr,
    default_office, default_pdf, default_pipeline, ocr_of, office_of, pdf_of,
};
use crate::settings::RawConfig;
use crate::vocab::{
    CharacterSet, OutputFormat, charset_aliases, charset_from_name, charset_of_folded,
    lemma_charset_aliases, lower_of,
};

verus! {

/// Why a payload could not be resolved.
#[derive(Debug, Clone, PartialEq, Eq)]
pub enum ConfigError {
    /// The payload is not well-formed structured data of the expected shape;
    /// carries the parser's diagnostic.
    Deserialization { diagnostic: String },
    /// The character set names none of the supported ones; carries the name
    /// as it was given.
    UnsupportedEncoding { value: String },
}

/// Text of a [`ConfigError`].
pub open spec fn config_error_text(e: ConfigError) -> Seq<char> {
    match e {
        ConfigError::Deserialization { diagnostic } => "Invalid JSON configuration: "@
            + diagnostic@,
        ConfigError::UnsupportedEncoding { value } => "Unsupported encoding: "@ + value@
            + ". Supported encodings: UTF-8, UTF-16BE, US-ASCII"@,
    }
}

impl ConfigError {
    /// Human-readable description of the error.
    pub fn message(&self) -> (r: String)
        ensures
            r@ == config_error_text(*self),
    {
        match self {
            ConfigError::Deserialization { diagnostic } => String::from_str(
                "Invalid JSON configuration: ",
            ).concat(diagnostic.as_str()),
            ConfigError::UnsupportedEncoding { value } => String::from_str(
                "Unsupported encoding: ",
            ).concat(value.as_str()).concat(". Supported encodings: UTF-8, UTF-16BE, US-ASCII"),
        }
    }
}

/// What a character-set name resolves to: the set it names, ignoring case,
/// or an error that carries the name.
pub open spec fn charset_resolution(name: String) -> Result<CharacterSet, ConfigError> {
    match charset_of_folded(lower_of(name@)) {
        Some(c) => Ok(c),
        None => Err(ConfigError::UnsupportedEncoding { value: name }),
    }
}

/// Resolves a character-set name strictly: an unrecognised name is an error.
pub fn resolve_charset(name: &String) -> (r: Result<CharacterSet, ConfigError>)
    ensures
        r == charset_resolution(*name),
{
    match charset_from_name(name.as_str()) {
        Some(c) => Ok(c),
        None => Err(ConfigError::UnsupportedEncoding { value: name.clone() }),
    }
}

/// Every accepted spelling of a character set, in any case, resolves to that
/// set; a name that spells none of them, once lowercased, is rejected with an
/// error that carries it.
pub proof fn lemma_charset_strict(name: String)
    ensures
        forall|c: CharacterSet| #[trigger]
            charset_aliases(c).contains(lower_of(name@)) <==> charset_resolution(name) == Ok::<
                CharacterSet,
                ConfigError,
            >(c),
        (forall|c: CharacterSet| !#[trigger] charset_aliases(c).contains(lower_of(name@)))
            <==> charset_resolution(name) == Err::<CharacterSet, ConfigError>(
            ConfigError::UnsupportedEncoding { value: name },
        ),
{
    let folded = lower_of(name@);
    lemma_charset_aliases(folded);
    match charset_of_folded(folded) {
        Some(c) => assert(charset_aliases(c).contains(folded)),
        None => {},
    }
}

/// The output format an optional XML flag selects.
pub open spec fn format_of(xml: Option<bool>) -> OutputFormat {
    match xml {
        Some(true) => OutputFormat::Xml,
        _ => OutputFormat::PlainText,
    }
}

/// What a payload resolves to.
pub open spec fn resolution_of(raw: RawConfig) -> Result<PipelineModel, ConfigError> {
    let charset = match raw.encoding {
        None => Ok(CharacterSet::Utf8),
        Some(name) => charset_resolution(name),
    };
    match charset {
        Err(e) => Err(e),
        Ok(c) => Ok(
            PipelineModel {
                output_format: format_of(raw.xml),
                max_output_length: raw.max_length,
                character_set: c,
                pdf: pdf_of(raw.pdf),
                office: office_of(raw.office),
                ocr: ocr_of(raw.ocr),
            },
        ),
    }
}

/// What the outcome of parsing a payload resolves to: no payload gives the
/// defaults, a payload that failed to parse gives its diagnostic.
pub open spec fn payload_resolution(parsed: Option<Result<RawConfig, String>>) -> Result<
    PipelineModel,
    ConfigError,
> {
    match parsed {
        None => Ok(default_pipeline()),
        Some(Err(diagnostic)) => Err(ConfigError::Deserialization { diagnostic }),
        Some(Ok(raw)) => resolution_of(raw),
    }
}

/// Abstract value of a resolution outcome.
pub open spec fn outcome_model(r: Result<PipelineConfig, ConfigError>) -> Result<
    PipelineModel,
    ConfigError,
> {
    match r {
        Ok(c) => Ok(c@),
        Err(e) => Err(e),
    }
}

/// Resolves a parsed payload into a complete configuration, or the first
/// error; nothing of a failed resolution is applied.
pub fn resolve_raw(raw: &RawConfig) -> (r: Result<PipelineConfig, ConfigError>)
    ensures
        outcome_model(r) == resolution_of(*raw),
{
    let character_set = match &raw.encoding {
        None => CharacterSet::Utf8,
        Some(name) => match resolve_charset(name) {
            Ok(c) => c,
            Err(e) => {
                return Err(e);
            },
        },
    };
    let output_format = match raw.xml {
        Some(true) => OutputFormat::Xml,
        _ => OutputFormat::PlainText,
    };
    let pdf = build_pdf(&raw.pdf);
    let office = build_office(&raw.office);
    let ocr = build_ocr(&raw.ocr);
    Ok(
        PipelineConfig {
            output_format,
            max_output_length: raw.max_length,
            character_set,
            pdf,
            office,
            ocr,
        },
    )
}

/// Resolves the outcome of parsing a payload: `None` when no payload was
/// given, `Some(Err(diagnostic))` when it could not be parsed.
pub fn resolve_payload(parsed: Option<Result<RawConfig, String>>) -> (r: Result<
    PipelineConfig,
    ConfigError,
>)
    ensures
        outcome_model(r) == payload_resolution(parsed),
{
    match parsed {
        None => Ok(PipelineConfig::new()),
        Some(Err(diagnostic)) => Err(ConfigError::Deserialization { diagnostic }),
        Some(Ok(raw)) => resolve_raw(&raw),
    }
}

/// Without a payload, and with a payload that gives no field, resolution
/// yields the all-defaults configuration.
pub proof fn lemma_absent_payload_is_default(raw: RawConfig)
    ensures
        payload_resolution(None) == Ok::<PipelineModel, ConfigError>(default_pipeline()),
        raw.is_empty() ==> resolution_of(raw) == Ok::<PipelineModel, ConfigError>(
            default_pipeline(),
        ),
{
}

/// A field that the payload leaves out resolves to its default whatever the
/// other fields and groups hold: a group with no field given resolves to
/// that group's defaults, and an absent top-level option to its default.
pub proof fn lemma_untouched_fields_keep_defaults(raw: RawConfig)
    ensures
        raw.encoding is None ==> resolution_of(raw) is Ok,
        resolution_of(raw) matches Ok(m) ==> {
            &&& raw.pdf.is_empty() ==> m.pdf == default_pdf()
            &&& raw.office.is_empty() ==> m.office == default_office()
            &&& raw.ocr.is_empty() ==> m.ocr == default_ocr()
            &&& raw.max_length is None ==> m.max_output_length is None
            &&& raw.xml is None ==> m.output_format == OutputFormat::PlainText
            &&& raw.encoding is None ==> m.character_set == CharacterSet::Utf8
        },
{
}

/// A payload that could not be parsed fails resolution with its diagnostic,
/// and no configuration is built from it.
pub proof fn lemma_malformed_payload_rejected(diagnostic: String)
    ensures
        payload_resolution(Some(Err(diagnostic))) == Err::<PipelineModel, ConfigError>(
            ConfigError::Deserialization { diagnostic },
        ),
{
}

} // verus!
