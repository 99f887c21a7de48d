//! Controlled vocabularies of the settings payload: character sets, PDF OCR
//! strategies and output formats, and how their names are recognised.
use vstd::prelude::*;

verus! {

/// Character set used by the engine when it decodes extracted text.
#[derive(Debug, Clone, Copy, PartialEq, Eq, Structural)]
pub enum CharacterSet {
    Utf8,
    Utf16Be,
    UsAscii,
}

/// Strategy the PDF parser follows for optical character recognition.
#[derive(Debug, Clone, Copy, PartialEq, Eq, Structural)]
pub enum OcrStrategy {
    NoOcr,
    Auto,
    OcrOnly,
    OcrAndTextExtraction,
}

/// Form of the extracted content.
#[derive(Debug, Clone, Copy, PartialEq, Eq, Structural)]
pub enum OutputFormat {
    PlainText,
    Xml,
}

/// What `str::to_lowercase` makes of a string.
pub uninterp spec fn lower_of(s: Seq<char>) -> Seq<char>;

/// Relies on `str::to_lowercase`: the Unicode lowercase mapping of `s`, which
/// depends on the characters of `s` alone.
#[verifier::external_body]
fn lowercase(s: &str) -> (r: String)
    ensures
        r@ == lower_of(s@),
{
    s.to_lowercase()
}

/// What `str::to_uppercase` makes of a string.
pub uninterp spec fn upper_of(s: Seq<char>) -> Seq<char>;

/// Relies on `str::to_uppercase`: the Unicode uppercase mapping of `s`, which
/// depends on the characters of `s` alone.
#[verifier::external_body]
fn uppercase(s: &str) -> (r: String)
    ensures
        r@ == upper_of(s@),
{
    s.to_uppercase()
}

/// The names a character set is known by once lowercased: its two parts
/// written together, or joined by a hyphen or an underscore.
pub open spec fn spelled_variants(head: Seq<char>, tail: Seq<char>) -> Set<Seq<char>> {
    set![head + tail, head + "-"@ + tail, head + "_"@ + tail]
}

/// Every lowercased name accepted for `c`.
pub open spec fn charset_aliases(c: CharacterSet) -> Set<Seq<char>> {
    match c {
        CharacterSet::Utf8 => spelled_variants("utf"@, "8"@),
        CharacterSet::Utf16Be => spelled_variants("utf"@, "16be"@),
        CharacterSet::UsAscii => spelled_variants("us"@, "ascii"@),
    }
}

/// The character set that a lowercased name stands for, if any.
pub open spec fn charset_of_folded(folded: Seq<char>) -> Option<CharacterSet> {
    if folded == "utf8"@ || folded == "utf-8"@ || folded == "utf_8"@ {
        Some(CharacterSet::Utf8)
    } else if folded == "utf16be"@ || folded == "utf-16be"@ || folded == "utf_16be"@ {
        Some(CharacterSet::Utf16Be)
    } else if folded == "usascii"@ || folded == "us-ascii"@ || folded == "us_ascii"@ {
        Some(CharacterSet::UsAscii)
    } else {
        None
    }
}

/// Whether `s` holds exactly the characters of `lit`.
fn text_is(s: &String, lit: &str) -> (r: bool)
    ensures
        r == (s@ == lit@),
{
    *s == String::from_str(lit)
}

/// Recognises an already lowercased character-set name.
pub fn charset_from_folded(folded: &String) -> (r: Option<CharacterSet>)
    ensures
        r == charset_of_folded(folded@),
{
    if text_is(folded, "utf8") || text_is(folded, "utf-8") || text_is(folded, "utf_8") {
        Some(CharacterSet::Utf8)
    } else if text_is(folded, "utf16be") || text_is(folded, "utf-16be") || text_is(
        folded,
        "utf_16be",
    ) {
        Some(CharacterSet::Utf16Be)
    } else if text_is(folded, "usascii") || text_is(folded, "us-ascii") || text_is(
        folded,
        "us_ascii",
    ) {
        Some(CharacterSet::UsAscii)
    } else {
        None
    }
}

/// Recognises a character-set name, ignoring case.
pub fn charset_from_name(name: &str) -> (r: Option<CharacterSet>)
    ensures
        r == charset_of_folded(lower_of(name@)),
{
    let folded = lowercase(name);
    charset_from_folded(&folded)
}

/// The OCR strategy that an uppercased name stands for; every name outside
/// the four known ones means `Auto`.
pub open spec fn strategy_of_folded(folded: Seq<char>) -> OcrStrategy {
    if folded == "NO_OCR"@ {
        OcrStrategy::NoOcr
    } else if folded == "OCR_ONLY"@ {
        OcrStrategy::OcrOnly
    } else if folded == "OCR_AND_TEXT_EXTRACTION"@ {
        OcrStrategy::OcrAndTextExtraction
    } else {
        OcrStrategy::Auto
    }
}

/// Recognises an already uppercased OCR strategy name, falling back to `Auto`.
pub fn strategy_from_folded(folded: &String) -> (r: OcrStrategy)
    ensures
        r == strategy_of_folded(folded@),
{
    proof {
        reveal_strlit("NO_OCR");
        reveal_strlit("AUTO");
        reveal_strlit("OCR_ONLY");
        reveal_strlit("OCR_AND_TEXT_EXTRACTION");
        assert("AUTO"@.len() != "NO_OCR"@.len());
        assert("AUTO"@.len() != "OCR_ONLY"@.len());
        assert("AUTO"@.len() != "OCR_AND_TEXT_EXTRACTION"@.len());
    }
    if text_is(folded, "NO_OCR") {
        OcrStrategy::NoOcr
    } else if text_is(folded, "AUTO") {
        OcrStrategy::Auto
    } else if text_is(folded, "OCR_ONLY") {
        OcrStrategy::OcrOnly
    } else if text_is(folded, "OCR_AND_TEXT_EXTRACTION") {
        OcrStrategy::OcrAndTextExtraction
    } else {
        OcrStrategy::Auto
    }
}

/// Resolves an OCR strategy name, ignoring case. Never fails: a name that is
/// not recognised resolves to `Auto`.
pub fn resolve_ocr_strategy(name: &str) -> (r: OcrStrategy)
    ensures
        r == strategy_of_folded(upper_of(name@)),
{
    let folded = uppercase(name);
    strategy_from_folded(&folded)
}

/// A lowercased name is recognised exactly when it is one of the accepted
/// spellings of some character set, and then it resolves to that set.
pub proof fn lemma_charset_aliases(folded: Seq<char>)
    ensures
        forall|c: CharacterSet| #[trigger]
            charset_aliases(c).contains(folded) <==> charset_of_folded(folded) == Some(c),
{
    reveal_strlit("utf");
    reveal_strlit("us");
    reveal_strlit("8");
    reveal_strlit("16be");
    reveal_strlit("ascii");
    reveal_strlit("-");
    reveal_strlit("_");
    reveal_strlit("utf8");
    reveal_strlit("utf-8");
    reveal_strlit("utf_8");
    reveal_strlit("utf16be");
    reveal_strlit("utf-16be");
    reveal_strlit("utf_16be");
    reveal_strlit("usascii");
    reveal_strlit("us-ascii");
    reveal_strlit("us_ascii");
    assert("utf"@ + "8"@ =~= "utf8"@);
    assert("utf"@ + "-"@ + "8"@ =~= "utf-8"@);
    assert("utf"@ + "_"@ + "8"@ =~= "utf_8"@);
    assert("utf"@ + "16be"@ =~= "utf16be"@);
    assert("utf"@ + "-"@ + "16be"@ =~= "utf-16be"@);
    assert("utf"@ + "_"@ + "16be"@ =~= "utf_16be"@);
    assert("us"@ + "ascii"@ =~= "usascii"@);
    assert("us"@ + "-"@ + "ascii"@ =~= "us-ascii"@);
    assert("us"@ + "_"@ + "ascii"@ =~= "us_ascii"@);
    assert("utf16be"@[1] != "usascii"@[1]);
    assert("utf-16be"@[1] != "us-ascii"@[1]);
    assert("utf_16be"@[1] != "us_ascii"@[1]);
    assert("utf-16be"@[3] != "utf_16be"@[3]);
    assert("us-ascii"@[2] != "us_ascii"@[2]);
    assert("utf-16be"@[2] != "us_ascii"@[2]);
    assert("utf_16be"@[2] != "us-ascii"@[2]);
    assert("utf-8"@[3] != "utf_8"@[3]);
}

/// A name that does not spell one of the four known strategies, once
/// uppercased, resolves to `Auto`.
pub proof fn lemma_unknown_strategy_is_auto(folded: Seq<char>)
    requires
        folded != "NO_OCR"@,
        folded != "OCR_ONLY"@,
        folded != "OCR_AND_TEXT_EXTRACTION"@,
    ensures
        strategy_of_folded(folded) == OcrStrategy::Auto,
{
}

} // verus!
