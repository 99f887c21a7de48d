//! The three input pathways of an extraction call and how the engine's
//! outcome on each is reported to the caller.
use vstd::prelude::*;

verus! {

/// The route by which a document reaches the engine.
#[derive(Debug, Clone, Copy, PartialEq, Eq, Structural)]
pub enum Pathway {
    File,
    Bytes,
    Url,
}

/// The document of one extraction call: a local path, its bytes, or a URL.
#[derive(Debug, Clone, PartialEq, Eq)]
pub enum ExtractionInput {
    File(String),
    Bytes(Vec<u8>),
    Url(String),
}

/// The pathway an input takes.
pub open spec fn pathway_of(input: ExtractionInput) -> Pathway {
    match input {
        ExtractionInput::File(_) => Pathway::File,
        ExtractionInput::Bytes(_) => Pathway::Bytes,
        ExtractionInput::Url(_) => Pathway::Url,
    }
}

impl ExtractionInput {
    /// The pathway this input takes.
    pub fn pathway(&self) -> (r: Pathway)
        ensures
            r == pathway_of(*self),
    {
        match self {
            ExtractionInput::File(_) => Pathway::File,
            ExtractionInput::Bytes(_) => Pathway::Bytes,
            ExtractionInput::Url(_) => Pathway::Url,
        }
    }
}

/// Text that opens every failure reported on a pathway.
pub open spec fn failure_prefix(p: Pathway) -> Seq<char> {
    match p {
        Pathway::File => "Extraction failed"@,
        Pathway::Bytes => "Extraction from bytes failed"@,
        Pathway::Url => "Extraction from URL failed"@,
    }
}

/// A failure of the engine on one pathway, with the engine's own message.
#[derive(Debug, Clone, PartialEq, Eq)]
pub struct ExtractionError {
    pub pathway: Pathway,
    pub engine_message: String,
}

/// Text of an [`ExtractionError`]: the pathway's prefix, then the engine's
/// message verbatim.
pub open spec fn failure_text(e: ExtractionError) -> Seq<char> {
    failure_prefix(e.pathway) + ": "@ + e.engine_message@
}

impl ExtractionError {
    /// Human-readable description of the failure.
    pub fn message(&self) -> (r: String)
        ensures
            r@ == failure_text(*self),
    {
        let prefix = match self.pathway {
            Pathway::File => String::from_str("Extraction failed"),
            Pathway::Bytes => String::from_str("Extraction from bytes failed"),
            Pathway::Url => String::from_str("Extraction from URL failed"),
        };
        prefix.concat(": ").concat(self.engine_message.as_str())
    }
}

/// What the engine produced for one document: the extracted content and its
/// metadata rendered as text.
#[derive(Debug, Clone, PartialEq, Eq)]
pub struct Extraction {
    pub content: String,
    pub metadata: String,
}

/// What an extraction call reports, given what the engine returned on a
/// pathway: its content and metadata text unchanged, or its error message
/// tagged with the pathway.
pub open spec fn report_of(p: Pathway, outcome: Result<(String, String), String>) -> Result<
    Extraction,
    ExtractionError,
> {
    match outcome {
        Ok((content, metadata)) => Ok(Extraction { content, metadata }),
        Err(engine_message) => Err(ExtractionError { pathway: p, engine_message }),
    }
}

/// Packages what the engine returned on pathway `p` into the call's result.
/// No failure is retried or altered.
pub fn report(p: Pathway, outcome: Result<(String, String), String>) -> (r: Result<
    Extraction,
    ExtractionError,
>)
    ensures
        r == report_of(p, outcome),
{
    match outcome {
        Ok((content, metadata)) => Ok(Extraction { content, metadata }),
        Err(engine_message) => Err(ExtractionError { pathway: p, engine_message }),
    }
}

/// A failure reported on any pathway begins with that pathway's prefix.
pub proof fn lemma_failure_starts_with_prefix(p: Pathway, engine_message: String)
    ensures
        report_of(p, Err(engine_message)) matches Err(e) && failure_prefix(p).is_prefix_of(
            failure_text(e),
        ),
{
    let e = ExtractionError { pathway: p, engine_message };
    assert(failure_text(e).subrange(0, failure_prefix(p).len() as int) =~= failure_prefix(p));
}

} // verus!
