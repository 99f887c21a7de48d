use extractousex_native::config::{OcrConfig, OfficeConfig, PdfConfig, PipelineConfig};
use extractousex_native::resolve::{resolve_charset, resolve_payload, resolve_raw, ConfigError};
use extractousex_native::settings::{OcrSettings, RawConfig};
use extractousex_native::vocab::{
    charset_from_name, resolve_ocr_strategy, CharacterSet, OcrStrategy, OutputFormat,
};

fn charset(name: &str) -> Result<CharacterSet, ConfigError> {
    resolve_charset(&name.to_string())
}

#[test]
fn charset_aliases_resolve_in_any_case() {
    for name in ["utf8", "utf-8", "utf_8", "UTF8", "UTF-8", "Utf_8"] {
        assert_eq!(charset(name), Ok(CharacterSet::Utf8), "{}", name);
    }
    for name in ["utf16be", "utf-16be", "utf_16be", "UTF-16BE", "Utf16Be", "UTF_16BE"] {
        assert_eq!(charset(name), Ok(CharacterSet::Utf16Be), "{}", name);
    }
    for name in ["usascii", "us-ascii", "us_ascii", "US-ASCII", "UsAscii", "US_ASCII"] {
        assert_eq!(charset(name), Ok(CharacterSet::UsAscii), "{}", name);
    }
}

#[test]
fn unknown_charset_is_rejected_with_its_name() {
    for name in ["latin1", "utf 8", "utf-16", "", " utf8", "utf--8"] {
        assert_eq!(
            charset(name),
            Err(ConfigError::UnsupportedEncoding { value: name.to_string() }),
            "{}",
            name
        );
    }
    assert_eq!(charset_from_name("ISO-8859-1"), None);
}

#[test]
fn unsupported_encoding_message() {
    let e = charset("Latin1").unwrap_err();
    assert_eq!(
        e.message(),
        "Unsupported encoding: Latin1. Supported encodings: UTF-8, UTF-16BE, US-ASCII"
    );
}

#[test]
fn ocr_strategy_names_resolve_in_any_case() {
    assert_eq!(resolve_ocr_strategy("no_ocr"), OcrStrategy::NoOcr);
    assert_eq!(resolve_ocr_strategy("NO_OCR"), OcrStrategy::NoOcr);
    assert_eq!(resolve_ocr_strategy("auto"), OcrStrategy::Auto);
    assert_eq!(resolve_ocr_strategy("Ocr_Only"), OcrStrategy::OcrOnly);
    assert_eq!(
        resolve_ocr_strategy("ocr_and_text_extraction"),
        OcrStrategy::OcrAndTextExtraction
    );
    // The dotless i uppercases to a plain I.
    assert_eq!(
        resolve_ocr_strategy("ocr_and_text_extract\u{131}on"),
        OcrStrategy::OcrAndTextExtraction
    );
}

#[test]
fn unknown_ocr_strategy_falls_back_to_auto() {
    for name in ["", "none", "no-ocr", "OCR", "ocr only", "NO_OCR_"] {
        assert_eq!(resolve_ocr_strategy(name), OcrStrategy::Auto, "{}", name);
    }
}

#[test]
fn absent_payload_gives_all_defaults() {
    let c = resolve_payload(None).unwrap();
    assert_eq!(c, PipelineConfig::new());
    assert_eq!(c.output_format, OutputFormat::PlainText);
    assert_eq!(c.max_output_length, None);
    assert_eq!(c.character_set, CharacterSet::Utf8);
    assert_eq!(c.pdf.ocr_strategy, OcrStrategy::Auto);
    assert!(c.pdf.extract_annotation_text);
    assert!(!c.pdf.extract_inline_images);
    assert!(!c.pdf.extract_unique_inline_images_only);
    assert!(!c.pdf.extract_marked_content);
    assert!(c.office.include_shape_based_content);
    assert!(c.office.include_slide_notes);
    assert!(c.office.include_slide_master_content);
    assert!(c.office.concatenate_phonetic_runs);
    assert!(!c.office.include_headers_and_footers);
    assert!(!c.office.include_deleted_content);
    assert!(!c.office.include_move_from_content);
    assert!(!c.office.include_missing_rows);
    assert!(!c.office.extract_macros);
    assert!(!c.office.extract_all_alternatives_from_msg);
    assert_eq!(c.ocr.language, "eng");
    assert_eq!(c.ocr.timeout_seconds, 130);
    assert_eq!(c.ocr.density, 300);
    assert_eq!(c.ocr.depth, 4);
    assert!(!c.ocr.apply_rotation);
    assert!(!c.ocr.enable_image_preprocessing);
}

#[test]
fn empty_payload_gives_all_defaults() {
    assert_eq!(resolve_raw(&RawConfig::new()), Ok(PipelineConfig::new()));
}

#[test]
fn one_field_leaves_every_other_field_default() {
    let mut raw = RawConfig::new();
    raw.ocr.density = Some(72);
    let c = resolve_payload(Some(Ok(raw))).unwrap();
    let mut expected = PipelineConfig::new();
    expected.ocr.density = 72;
    assert_eq!(c, expected);
    assert_eq!(c.pdf, PdfConfig::new());
    assert_eq!(c.office, OfficeConfig::new());

    let mut raw = RawConfig::new();
    raw.office.extract_macros = Some(true);
    let c = resolve_raw(&raw).unwrap();
    let mut expected = PipelineConfig::new();
    expected.office.extract_macros = true;
    assert_eq!(c, expected);
    assert_eq!(c.ocr, OcrConfig::new());
}

#[test]
fn malformed_payload_is_rejected_with_its_diagnostic() {
    let diag = "invalid type: string \"big\", expected i32 at line 1 column 19".to_string();
    let r = resolve_payload(Some(Err(diag.clone())));
    assert_eq!(r, Err(ConfigError::Deserialization { diagnostic: diag.clone() }));
    assert_eq!(
        r.unwrap_err().message(),
        format!("Invalid JSON configuration: {}", diag)
    );
}

#[test]
fn bad_encoding_rejects_the_whole_payload() {
    let mut raw = RawConfig::new();
    raw.encoding = Some("ebcdic".to_string());
    raw.xml = Some(true);
    raw.ocr.language = Some("deu".to_string());
    assert_eq!(
        resolve_raw(&raw),
        Err(ConfigError::UnsupportedEncoding { value: "ebcdic".to_string() })
    );
}

#[test]
fn every_field_given_is_used_verbatim() {
    let mut raw = RawConfig::new();
    raw.max_length = Some(1000);
    raw.xml = Some(true);
    raw.encoding = Some("US-ASCII".to_string());
    raw.pdf.ocr_strategy = Some("ocr_only".to_string());
    raw.pdf.extract_annotation_text = Some(false);
    raw.pdf.extract_inline_images = Some(true);
    raw.pdf.extract_unique_inline_images_only = Some(true);
    raw.pdf.extract_marked_content = Some(true);
    raw.office.include_shape_based_content = Some(false);
    raw.office.include_slide_notes = Some(false);
    raw.office.include_slide_master_content = Some(false);
    raw.office.concatenate_phonetic_runs = Some(false);
    raw.office.include_headers_and_footers = Some(true);
    raw.office.include_deleted_content = Some(true);
    raw.office.include_move_from_content = Some(true);
    raw.office.include_missing_rows = Some(true);
    raw.office.extract_macros = Some(true);
    raw.office.extract_all_alternatives_from_msg = Some(true);
    raw.ocr = OcrSettings {
        language: Some("chi_tra+chi_sim".to_string()),
        timeout_seconds: Some(5),
        density: Some(150),
        depth: Some(8),
        apply_rotation: Some(true),
        enable_image_preprocessing: Some(true),
    };
    let c = resolve_raw(&raw).unwrap();
    assert_eq!(c.output_format, OutputFormat::Xml);
    assert_eq!(c.max_output_length, Some(1000));
    assert_eq!(c.character_set, CharacterSet::UsAscii);
    assert_eq!(
        c.pdf,
        PdfConfig {
            ocr_strategy: OcrStrategy::OcrOnly,
            extract_annotation_text: false,
            extract_inline_images: true,
            extract_unique_inline_images_only: true,
            extract_marked_content: true,
        }
    );
    assert_eq!(
        c.office,
        OfficeConfig {
            include_shape_based_content: false,
            include_slide_notes: false,
            include_slide_master_content: false,
            concatenate_phonetic_runs: false,
            include_headers_and_footers: true,
            include_deleted_content: true,
            include_move_from_content: true,
            include_missing_rows: true,
            extract_macros: true,
            extract_all_alternatives_from_msg: true,
        }
    );
    assert_eq!(
        c.ocr,
        OcrConfig {
            language: "chi_tra+chi_sim".to_string(),
            timeout_seconds: 5,
            density: 150,
            depth: 8,
            apply_rotation: true,
            enable_image_preprocessing: true,
        }
    );
}

#[test]
fn xml_flag_selects_output_format() {
    let c = resolve_raw(&RawConfig::from_xml_flag(true)).unwrap();
    assert_eq!(c.output_format, OutputFormat::Xml);
    let mut expected = PipelineConfig::new();
    expected.output_format = OutputFormat::Xml;
    assert_eq!(c, expected);
    let c = resolve_raw(&RawConfig::from_xml_flag(false)).unwrap();
    assert_eq!(c, PipelineConfig::new());
}

#[test]
fn unknown_strategy_in_payload_resolves_to_auto() {
    let mut raw = RawConfig::new();
    raw.pdf.ocr_strategy = Some("sometimes".to_string());
    let c = resolve_raw(&raw).unwrap();
    assert_eq!(c.pdf.ocr_strategy, OcrStrategy::Auto);
    assert_eq!(c, PipelineConfig::new());
}

#[test]
fn negative_numbers_pass_through_verbatim() {
    let mut raw = RawConfig::new();
    raw.max_length = Some(-1);
    raw.ocr.timeout_seconds = Some(i32::MIN);
    let c = resolve_raw(&raw).unwrap();
    assert_eq!(c.max_output_length, Some(-1));
    assert_eq!(c.ocr.timeout_seconds, i32::MIN);
}
