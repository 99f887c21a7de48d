//! The settings payload as a caller writes it: every field optional, grouped
//! into top-level options and the `pdf`, `office` and `ocr` groups.
use vstd::prelude::*;

verus! {

/// Settings of the PDF group; an absent field keeps the engine's default.
#[derive(Debug, Clone, PartialEq, Eq)]
pub struct PdfSettings {
    pub ocr_strategy: Option<String>,
    pub extract_annotation_text: Option<bool>,
    pub extract_inline_images: Option<bool>,
    pub extract_unique_inline_images_only: Option<bool>,
    pub extract_marked_content: Option<bool>,
}

/// Settings of the office-document group; an absent field keeps the default.
#[derive(Debug, Clone, Copy, PartialEq, Eq, Structural)]
pub struct OfficeSettings {
    pub include_shape_based_content: Option<bool>,
    pub include_slide_notes: Option<bool>,
    pub include_slide_master_content: Option<bool>,
    pub concatenate_phonetic_runs: Option<bool>,
    pub include_headers_and_footers: Option<bool>,
    pub include_deleted_content: Option<bool>,
    pub include_move_from_content: Option<bool>,
    pub include_missing_rows: Option<bool>,
    pub extract_macros: Option<bool>,
    pub extract_all_alternatives_from_msg: Option<bool>,
}

/// Settings of the OCR group; an absent field keeps the default.
#[derive(Debug, Clone, PartialEq, Eq)]
pub struct OcrSettings {
    pub language: Option<String>,
    pub timeout_seconds: Option<i32>,
    pub density: Option<i32>,
    pub depth: Option<i32>,
    pub apply_rotation: Option<bool>,
    pub enable_image_preprocessing: Option<bool>,
}

/// The whole payload: top-level options and the three groups.
#[derive(Debug, Clone, PartialEq, Eq)]
pub struct RawConfig {
    pub max_length: Option<i32>,
    pub xml: Option<bool>,
    pub encoding: Option<String>,
    pub pdf: PdfSettings,
    pub office: OfficeSettings,
    pub ocr: OcrSettings,
}

impl PdfSettings {
    /// True when no field of the group is given.
    pub open spec fn is_empty(&self) -> bool {
        &&& self.ocr_strategy is None
        &&& self.extract_annotation_text is None
        &&& self.extract_inline_images is None
        &&& self.extract_unique_inline_images_only is None
        &&& self.extract_marked_content is None
    }

    /// A group with no field given.
    pub fn new() -> (r: PdfSettings)
        ensures
            r.is_empty(),
    {
        PdfSettings {
            ocr_strategy: None,
            extract_annotation_text: None,
            extract_inline_images: None,
            extract_unique_inline_images_only: None,
            extract_marked_content: None,
        }
    }
}

impl OfficeSettings {
    /// True when no field of the group is given.
    pub open spec fn is_empty(&self) -> bool {
        &&& self.include_shape_based_content is None
        &&& self.include_slide_notes is None
        &&& self.include_slide_master_content is None
        &&& self.concatenate_phonetic_runs is None
        &&& self.include_headers_and_footers is None
        &&& self.include_deleted_content is None
        &&& self.include_move_from_content is None
        &&& self.include_missing_rows is None
        &&& self.extract_macros is None
        &&& self.extract_all_alternatives_from_msg is None
    }

    /// A group with no field given.
    pub fn new() -> (r: OfficeSettings)
        ensures
            r.is_empty(),
    {
        OfficeSettings {
            include_shape_based_content: None,
            include_slide_notes: None,
            include_slide_master_content: None,
            concatenate_phonetic_runs: None,
            include_headers_and_footers: None,
            include_deleted_content: None,
            include_move_from_content: None,
            include_missing_rows: None,
            extract_macros: None,
            extract_all_alternatives_from_msg: None,
        }
    }
}

impl OcrSettings {
    /// True when no field of the group is given.
    pub open spec fn is_empty(&self) -> bool {
        &&& self.language is None
        &&& self.timeout_seconds is None
        &&& self.density is None
        &&& self.depth is None
        &&& self.apply_rotation is None
        &&& self.enable_image_preprocessing is None
    }

    /// A group with no field given.
    pub fn new() -> (r: OcrSettings)
        ensures
            r.is_empty(),
    {
        OcrSettings {
            language: None,
            timeout_seconds: None,
            density: None,
            depth: None,
            apply_rotation: None,
            enable_image_preprocessing: None,
        }
    }
}

impl RawConfig {
    /// True when no field is given, at the top level or in any group.
    pub open spec fn is_empty(&self) -> bool {
        &&& self.max_length is None
        &&& self.xml is None
        &&& self.encoding is None
        &&& self.pdf.is_empty()
        &&& self.office.is_empty()
        &&& self.ocr.is_empty()
    }

    /// A payload with no field given.
    pub fn new() -> (r: RawConfig)
        ensures
            r.is_empty(),
    {
        RawConfig {
            max_length: None,
            xml: None,
            encoding: None,
            pdf: PdfSettings::new(),
            office: OfficeSettings::new(),
            ocr: OcrSettings::new(),
        }
    }

    /// The payload of the older call shape that carries only an XML flag:
    /// that flag is given and nothing else.
    pub fn from_xml_flag(xml: bool) -> (r: RawConfig)
        ensures
            r.xml == Some(xml),
            r.max_length is None,
            r.encoding is None,
            r.pdf.is_empty(),
            r.office.is_empty(),
            r.ocr.is_empty(),
    {
        let mut r = RawConfig::new();
        r.xml = Some(xml);
        r
    }
}

} // verus!
