//! The resolved pipeline configuration, its defaults, and the builders that
//! turn one settings group into one subsystem configuration.
use vstd::prelude::*;

use crate::settings::{OcrSettings, OfficeSettings, PdfSettings};
use crate::vocab::{
    CharacterSet, OcrStrategy, OutputFormat, resolve_ocr_strategy, strategy_of_folded, upper_of,
};

verus! {

/// OCR time limit, in seconds, when none is given.
pub const DEFAULT_OCR_TIMEOUT_SECONDS: i32 = 130;

/// Image density, in dots per inch, when none is given.
pub const DEFAULT_OCR_DENSITY: i32 = 300;

/// Image colour depth when none is given.
pub const DEFAULT_OCR_DEPTH: i32 = 4;

/// PDF parser configuration, every field set.
#[derive(Debug, Clone, Copy, PartialEq, Eq, Structural)]
pub struct PdfConfig {
    pub ocr_strategy: OcrStrategy,
    pub extract_annotation_text: bool,
    pub extract_inline_images: bool,
    pub extract_unique_inline_images_only: bool,
    pub extract_marked_content: bool,
}

/// Office-document parser configuration, every field set.
#[derive(Debug, Clone, Copy, PartialEq, Eq, Structural)]
pub struct OfficeConfig {
    pub include_shape_based_content: bool,
    pub include_slide_notes: bool,
    pub include_slide_master_content: bool,
    pub concatenate_phonetic_runs: bool,
    pub include_headers_and_footers: bool,
    pub include_deleted_content: bool,
    pub include_move_from_content: bool,
    pub include_missing_rows: bool,
    pub extract_macros: bool,
    pub extract_all_alternatives_from_msg: bool,
}

/// OCR configuration, every field set.
#[derive(Debug, Clone, PartialEq, Eq)]
pub struct OcrConfig {
    pub language: String,
    pub timeout_seconds: i32,
    pub density: i32,
    pub depth: i32,
    pub apply_rotation: bool,
    pub enable_image_preprocessing: bool,
}

/// The configuration of one extraction call, every field set.
/// `max_output_length` left unset means the engine applies no limit of ours.
#[derive(Debug, Clone, PartialEq, Eq)]
pub struct PipelineConfig {
    pub output_format: OutputFormat,
    pub max_output_length: Option<i32>,
    pub character_set: CharacterSet,
    pub pdf: PdfConfig,
    pub office: OfficeConfig,
    pub ocr: OcrConfig,
}

/// Abstract value of an [`OcrConfig`].
pub struct OcrModel {
    pub language: Seq<char>,
    pub timeout_seconds: i32,
    pub density: i32,
    pub depth: i32,
    pub apply_rotation: bool,
    pub enable_image_preprocessing: bool,
}

/// Abstract value of a [`PipelineConfig`].
pub struct PipelineModel {
    pub output_format: OutputFormat,
    pub max_output_length: Option<i32>,
    pub character_set: CharacterSet,
    pub pdf: PdfConfig,
    pub office: OfficeConfig,
    pub ocr: OcrModel,
}

impl View for OcrConfig {
    type V = OcrModel;

    open spec fn view(&self) -> OcrModel {
        OcrModel {
            language: self.language@,
            timeout_seconds: self.timeout_seconds,
            density: self.density,
            depth: self.depth,
            apply_rotation: self.apply_rotation,
            enable_image_preprocessing: self.enable_image_preprocessing,
        }
    }
}

impl View for PipelineConfig {
    type V = PipelineModel;

    open spec fn view(&self) -> PipelineModel {
        PipelineModel {
            output_format: self.output_format,
            max_output_length: self.max_output_length,
            character_set: self.character_set,
            pdf: self.pdf,
            office: self.office,
            ocr: self.ocr@,
        }
    }
}

/// The given value, or `d` when none is given.
pub open spec fn given_or<T>(o: Option<T>, d: T) -> T {
    match o {
        Some(v) => v,
        None => d,
    }
}

/// The PDF configuration used when nothing is given.
pub open spec fn default_pdf() -> PdfConfig {
    PdfConfig {
        ocr_strategy: OcrStrategy::Auto,
        extract_annotation_text: true,
        extract_inline_images: false,
        extract_unique_inline_images_only: false,
        extract_marked_content: false,
    }
}

/// The office-document configuration used when nothing is given.
pub open spec fn default_office() -> OfficeConfig {
    OfficeConfig {
        include_shape_based_content: true,
        include_slide_notes: true,
        include_slide_master_content: true,
        concatenate_phonetic_runs: true,
        include_headers_and_footers: false,
        include_deleted_content: false,
        include_move_from_content: false,
        include_missing_rows: false,
        extract_macros: false,
        extract_all_alternatives_from_msg: false,
    }
}

/// The OCR configuration used when nothing is given.
pub open spec fn default_ocr() -> OcrModel {
    OcrModel {
        language: "eng"@,
        timeout_seconds: DEFAULT_OCR_TIMEOUT_SECONDS,
        density: DEFAULT_OCR_DENSITY,
        depth: DEFAULT_OCR_DEPTH,
        apply_rotation: false,
        enable_image_preprocessing: false,
    }
}

/// The pipeline configuration used when no payload is given.
pub open spec fn default_pipeline() -> PipelineModel {
    PipelineModel {
        output_format: OutputFormat::PlainText,
        max_output_length: None,
        character_set: CharacterSet::Utf8,
        pdf: default_pdf(),
        office: default_office(),
        ocr: default_ocr(),
    }
}

/// The PDF configuration a group resolves to: each given field verbatim (the
/// strategy through its lenient name resolution), each absent one defaulted.
pub open spec fn pdf_of(s: PdfSettings) -> PdfConfig {
    let d = default_pdf();
    PdfConfig {
        ocr_strategy: match s.ocr_strategy {
            Some(name) => strategy_of_folded(upper_of(name@)),
            None => d.ocr_strategy,
        },
        extract_annotation_text: given_or(s.extract_annotation_text, d.extract_annotation_text),
        extract_inline_images: given_or(s.extract_inline_images, d.extract_inline_images),
        extract_unique_inline_images_only: given_or(
            s.extract_unique_inline_images_only,
            d.extract_unique_inline_images_only,
        ),
        extract_marked_content: given_or(s.extract_marked_content, d.extract_marked_content),
    }
}

/// The office-document configuration a group resolves to.
pub open spec fn office_of(s: OfficeSettings) -> OfficeConfig {
    let d = default_office();
    OfficeConfig {
        include_shape_based_content: given_or(
            s.include_shape_based_content,
            d.include_shape_based_content,
        ),
        include_slide_notes: given_or(s.include_slide_notes, d.include_slide_notes),
        include_slide_master_content: given_or(
            s.include_slide_master_content,
            d.include_slide_master_content,
        ),
        concatenate_phonetic_runs: given_or(
            s.concatenate_phonetic_runs,
            d.concatenate_phonetic_runs,
        ),
        include_headers_and_footers: given_or(
            s.include_headers_and_footers,
            d.include_headers_and_footers,
        ),
        include_deleted_content: given_or(s.include_deleted_content, d.include_deleted_content),
        include_move_from_content: given_or(
            s.include_move_from_content,
            d.include_move_from_content,
        ),
        include_missing_rows: given_or(s.include_missing_rows, d.include_missing_rows),
        extract_macros: given_or(s.extract_macros, d.extract_macros),
        extract_all_alternatives_from_msg: given_or(
            s.extract_all_alternatives_from_msg,
            d.extract_all_alternatives_from_msg,
        ),
    }
}

/// The OCR configuration a group resolves to.
pub open spec fn ocr_of(s: OcrSettings) -> OcrModel {
    let d = default_ocr();
    OcrModel {
        language: match s.language {
            Some(l) => l@,
            None => d.language,
        },
        timeout_seconds: given_or(s.timeout_seconds, d.timeout_seconds),
        density: given_or(s.density, d.density),
        depth: given_or(s.depth, d.depth),
        apply_rotation: given_or(s.apply_rotation, d.apply_rotation),
        enable_image_preprocessing: given_or(
            s.enable_image_preprocessing,
            d.enable_image_preprocessing,
        ),
    }
}

/// The given flag, or `d`.
fn flag_or(o: Option<bool>, d: bool) -> (r: bool)
    ensures
        r == given_or(o, d),
{
    match o {
        Some(v) => v,
        None => d,
    }
}

/// The given number, or `d`.
fn number_or(o: Option<i32>, d: i32) -> (r: i32)
    ensures
        r == given_or(o, d),
{
    match o {
        Some(v) => v,
        None => d,
    }
}

impl PdfConfig {
    /// The PDF configuration used when nothing is given.
    pub fn new() -> (r: PdfConfig)
        ensures
            r == default_pdf(),
    {
        PdfConfig {
            ocr_strategy: OcrStrategy::Auto,
            extract_annotation_text: true,
            extract_inline_images: false,
            extract_unique_inline_images_only: false,
            extract_marked_content: false,
        }
    }
}

impl OfficeConfig {
    /// The office-document configuration used when nothing is given.
    pub fn new() -> (r: OfficeConfig)
        ensures
            r == default_office(),
    {
        OfficeConfig {
            include_shape_based_content: true,
            include_slide_notes: true,
            include_slide_master_content: true,
            concatenate_phonetic_runs: true,
            include_headers_and_footers: false,
            include_deleted_content: false,
            include_move_from_content: false,
            include_missing_rows: false,
            extract_macros: false,
            extract_all_alternatives_from_msg: false,
        }
    }
}

impl OcrConfig {
    /// The OCR configuration used when nothing is given.
    pub fn new() -> (r: OcrConfig)
        ensures
            r@ == default_ocr(),
    {
        OcrConfig {
            language: String::from_str("eng"),
            timeout_seconds: DEFAULT_OCR_TIMEOUT_SECONDS,
            density: DEFAULT_OCR_DENSITY,
            depth: DEFAULT_OCR_DEPTH,
            apply_rotation: false,
            enable_image_preprocessing: false,
        }
    }
}

impl PipelineConfig {
    /// The pipeline configuration used when no payload is given.
    pub fn new() -> (r: PipelineConfig)
        ensures
            r@ == default_pipeline(),
    {
        PipelineConfig {
            output_format: OutputFormat::PlainText,
            max_output_length: None,
            character_set: CharacterSet::Utf8,
            pdf: PdfConfig::new(),
            office: OfficeConfig::new(),
            ocr: OcrConfig::new(),
        }
    }
}

/// Builds the PDF configuration from its settings group.
pub fn build_pdf(s: &PdfSettings) -> (r: PdfConfig)
    ensures
        r == pdf_of(*s),
{
    let d = PdfConfig::new();
    let ocr_strategy = match &s.ocr_strategy {
        Some(name) => resolve_ocr_strategy(name.as_str()),
        None => d.ocr_strategy,
    };
    PdfConfig {
        ocr_strategy,
        extract_annotation_text: flag_or(s.extract_annotation_text, d.extract_annotation_text),
        extract_inline_images: flag_or(s.extract_inline_images, d.extract_inline_images),
        extract_unique_inline_images_only: flag_or(
            s.extract_unique_inline_images_only,
            d.extract_unique_inline_images_only,
        ),
        extract_marked_content: flag_or(s.extract_marked_content, d.extract_marked_content),
    }
}

/// Builds the office-document configuration from its settings group.
pub fn build_office(s: &OfficeSettings) -> (r: OfficeConfig)
    ensures
        r == office_of(*s),
{
    let d = OfficeConfig::new();
    OfficeConfig {
        include_shape_based_content: flag_or(
            s.include_shape_based_content,
            d.include_shape_based_content,
        ),
        include_slide_notes: flag_or(s.include_slide_notes, d.include_slide_notes),
        include_slide_master_content: flag_or(
            s.include_slide_master_content,
            d.include_slide_master_content,
        ),
        concatenate_phonetic_runs: flag_or(
            s.concatenate_phonetic_runs,
            d.concatenate_phonetic_runs,
        ),
        include_headers_and_footers: flag_or(
            s.include_headers_and_footers,
            d.include_headers_and_footers,
        ),
        include_deleted_content: flag_or(s.include_deleted_content, d.include_deleted_content),
        include_move_from_content: flag_or(
            s.include_move_from_content,
            d.include_move_from_content,
        ),
        include_missing_rows: flag_or(s.include_missing_rows, d.include_missing_rows),
        extract_macros: flag_or(s.extract_macros, d.extract_macros),
        extract_all_alternatives_from_msg: flag_or(
            s.extract_all_alternatives_from_msg,
            d.extract_all_alternatives_from_msg,
        ),
    }
}

/// Builds the OCR configuration from its settings group.
pub fn build_ocr(s: &OcrSettings) -> (r: OcrConfig)
    ensures
        r@ == ocr_of(*s),
{
    let d = OcrConfig::new();
    let language = match &s.language {
        Some(l) => l.clone(),
        None => d.language,
    };
    OcrConfig {
        language,
        timeout_seconds: number_or(s.timeout_seconds, d.timeout_seconds),
        density: number_or(s.density, d.density),
        depth: number_or(s.depth, d.depth),
        apply_rotation: flag_or(s.apply_rotation, d.apply_rotation),
        enable_image_preprocessing: flag_or(
            s.enable_image_preprocessing,
            d.enable_image_preprocessing,
        ),
    }
}

} // verus!
