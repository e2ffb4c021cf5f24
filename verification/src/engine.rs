use vstd::prelude::*;

use tantivy::collector::{Count, TopDocs};
use tantivy::schema::{FieldType, OwnedValue};
use tantivy::tokenizer::{
    AlphaNumOnlyFilter, Language, LowerCaser, RemoveLongFilter, SimpleTokenizer, Stemmer,
    TextAnalyzer,
};
use tantivy::{DocAddress, TantivyDocument};

use crate::analyzer::{AnalyzerSpec, StemLanguage};
use crate::fields::FieldInfo;
use crate::page::StoredValue;

verus! {

// The bindings to the full-text engine. Each function here hands the engine
// plain values and takes plain values back; everything around them is
// verified against the contracts below, which rest on what the engine's own
// source and documentation state.

#[verifier::external_type_specification]
#[verifier::external_body]
pub struct ExIndex(tantivy::Index);

#[verifier::external_type_specification]
#[verifier::external_body]
pub struct ExSchema(tantivy::schema::Schema);

#[verifier::external_type_specification]
#[verifier::external_body]
pub struct ExIndexReader(tantivy::IndexReader);

#[verifier::external_type_specification]
#[verifier::external_body]
pub struct ExSearcher(tantivy::Searcher);

#[verifier::external_type_specification]
#[verifier::external_body]
pub struct ExQueryParser(tantivy::query::QueryParser);

#[verifier::external_type_specification]
#[verifier::external_body]
pub struct ExTantivyError(tantivy::TantivyError);

#[verifier::external_type_specification]
#[verifier::external_body]
pub struct ExQueryParserError(tantivy::query::QueryParserError);

/// Why one retrieval round failed: the query text did not parse, or the
/// engine failed while running the parsed query.
pub enum SearchErr {
    Parse(tantivy::query::QueryParserError),
    Search(tantivy::TantivyError),
}

/// Relies on tantivy::Index::open_in_dir: opens the index stored in the
/// given directory, and fails when the directory holds no valid index.
#[verifier::external_body]
pub(crate) fn open_index(path: &str) -> (r: Result<tantivy::Index, tantivy::TantivyError>) {
    tantivy::Index::open_in_dir(path)
}

/// Relies on tantivy::tokenizer::TokenizerManager::register: makes the given
/// analyzer chain available under `name` for index-time and query-time use.
/// The chain is the one the analyzer description calls for: simple
/// tokenization, a token-length cap, lowercasing, alphanumeric-only tokens,
/// and stemming.
#[verifier::external_body]
pub(crate) fn register_analyzer(index: &tantivy::Index, name: &str, spec: &AnalyzerSpec) {
    let language = match spec.language {
        StemLanguage::English => Language::English,
    };
    let analyzer = TextAnalyzer::builder(SimpleTokenizer::default()).filter(
        RemoveLongFilter::limit(spec.max_token_len),
    ).filter(LowerCaser).filter(AlphaNumOnlyFilter).filter(Stemmer::new(language)).build();
    index.tokenizers().register(name, analyzer);
}

/// Relies on tantivy::Index::schema: returns the schema the index was built
/// with.
#[verifier::external_body]
pub(crate) fn index_schema(index: &tantivy::Index) -> (r: tantivy::schema::Schema) {
    index.schema()
}

/// Relies on tantivy::schema::Schema::fields: lists every field with its
/// name, whether it is a text field, and whether its indexing options are
/// enabled.
#[verifier::external_body]
pub(crate) fn schema_field_infos(schema: &tantivy::schema::Schema) -> (r: Vec<FieldInfo>) {
    let mut out = Vec::new();
    for (field, entry) in schema.fields() {
        let (is_text, indexed) = match entry.field_type() {
            FieldType::Str(options) => (true, options.get_indexing_options().is_some()),
            _ => (false, false),
        };
        let name = entry.name().to_string();
        out.push(FieldInfo { id: field.field_id(), name, is_text, indexed });
    }
    out
}

/// Relies on tantivy::query::QueryParser::new: builds a parser whose
/// unqualified terms run against the given fields, resolving analyzers
/// through the index's tokenizer registry.
#[verifier::external_body]
pub(crate) fn new_query_parser(
    index: &tantivy::Index,
    schema: &tantivy::schema::Schema,
    scope: &Vec<u32>,
) -> (r: tantivy::query::QueryParser) {
    let fields = scope.iter().map(|id| tantivy::schema::Field::from_field_id(*id)).collect();
    tantivy::query::QueryParser::new(schema.clone(), fields, index.tokenizers().clone())
}

/// Relies on tantivy::Index::reader: acquires a point-in-time reader over
/// the index.
#[verifier::external_body]
pub(crate) fn index_reader(index: &tantivy::Index) -> (r: Result<
    tantivy::IndexReader,
    tantivy::TantivyError,
>) {
    index.reader()
}

/// Relies on tantivy::IndexReader::searcher: returns a searcher over the
/// reader's current snapshot.
#[verifier::external_body]
pub(crate) fn reader_searcher(reader: &tantivy::IndexReader) -> (r: tantivy::Searcher) {
    reader.searcher()
}

/// One round of ranked retrieval. Relies on
/// tantivy::query::QueryParser::parse_query, which fails rather than
/// panicking on malformed query text, and on tantivy::Searcher::search with
/// the top-docs and count collectors: the top-docs collector keeps the
/// `limit` best-scored documents (all of them when fewer match) and the
/// count collector returns the exact number of matching documents, so the
/// returned list holds `min(limit, count)` triples of (score key, segment
/// ordinal, document id). Scores are reported through the sign-flip
/// embedding of their bits, whose unsigned order agrees with the float
/// order on ordinary scores; nothing is claimed here of the order the
/// engine emitted, which the caller establishes itself.
#[verifier::external_body]
pub(crate) fn run_query(
    searcher: &tantivy::Searcher,
    parser: &tantivy::query::QueryParser,
    q: &str,
    limit: usize,
) -> (r: Result<(Vec<(u32, u32, u32)>, usize), SearchErr>)
    requires
        limit >= 1,
    ensures
        match r {
            Ok(p) => p.0.len() == vstd::math::min(limit as int, p.1 as int),
            Err(e) => true,
        },
{
    let query = parser.parse_query(q).map_err(SearchErr::Parse)?;
    let collector = (TopDocs::with_limit(limit).order_by_score(), Count);
    let (top, count) = searcher.search(&query, &collector).map_err(SearchErr::Search)?;
    let hits = top.iter().map(|&(score, addr)| {
        let bits = score.to_bits();
        let key = if bits & 0x8000_0000 != 0 { !bits } else { bits | 0x8000_0000 };
        (key, addr.segment_ord, addr.doc_id)
    }).collect();
    Ok((hits, count))
}

/// Relies on tantivy::Searcher::doc: materializes the stored fields of one
/// retrieved document, reduced to the value kinds projection reads; temporal
/// values are reported as seconds since the epoch
/// (tantivy::DateTime::into_timestamp_secs). The call indexes the searcher's
/// segments by the given ordinal without a bound check, so an ordinal at or
/// past the segment count is answered with nothing here rather than handed
/// to it. Nothing is promised of the content: it is whatever the index on
/// disk holds.
#[verifier::external_body]
pub(crate) fn fetch_doc(searcher: &tantivy::Searcher, segment: u32, doc_id: u32) -> (r: Option<
    Vec<(u32, StoredValue)>,
>) {
    if segment as usize >= searcher.segment_readers().len() {
        return None;
    }
    let doc: TantivyDocument = searcher.doc(DocAddress::new(segment, doc_id)).ok()?;
    let mut out = Vec::new();
    for (field, value) in doc.field_values() {
        let stored = match OwnedValue::from(value) {
            OwnedValue::Str(text) => StoredValue::Text(text),
            OwnedValue::Date(date) => StoredValue::Temporal(date.into_timestamp_secs()),
            _ => StoredValue::Other,
        };
        out.push((field.field_id(), stored));
    }
    Some(out)
}

} // verus!
