use vstd::prelude::*;

verus! {

/// The fixed name the analyzer chain is registered under. The query parser
/// resolves field analyzers by name, so the same name must have been used
/// when the index was built.
pub const ANALYZER_NAME: &'static str = "commoncrawl";

/// The stemming languages the analyzer offers.
#[derive(Clone, Copy, PartialEq, Eq, Structural)]
pub enum StemLanguage {
    English,
}

/// A named, reusable text-processing chain, applied identically to indexed
/// and query text: tokenize, keep only tokens strictly shorter than
/// `max_token_len` bytes, lowercase, keep alphanumeric tokens only, stem for
/// `language`. The same
/// chain must have been registered at index-build time for term matching to
/// succeed; that is a contract with the index builder, not enforced here.
#[derive(Clone, Copy, PartialEq, Eq, Structural)]
pub struct AnalyzerSpec {
    pub max_token_len: usize,
    pub language: StemLanguage,
}

/// Describes the analyzer chain for the given token-length cap and stemming
/// language. Deterministic and side-effect free.
pub fn build_analyzer(max_token_length: usize, stemming_language: StemLanguage) -> (a: AnalyzerSpec)
    ensures
        a.max_token_len == max_token_length,
        a.language == stemming_language,
{
    AnalyzerSpec { max_token_len: max_token_length, language: stemming_language }
}

} // verus!
