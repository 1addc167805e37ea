//! The trusted boundary to the `tantivy` engine.
//!
//! Everything the relevance logic needs from the engine comes through the
//! items of this module: opaque engine types are declared, and each engine
//! call sits in one wrapper whose contract states no more than the engine's
//! source shows.  Index statistics, matches and stored documents depend on
//! what is on disk in the snapshot, so most wrappers promise only the shape
//! of their result; the logic around them is verified for every outcome.

use vstd::prelude::*;
use tantivy::schema::Document;

verus! {

/// A read-only snapshot of an index; opaque here.
#[verifier::external_type_specification]
#[verifier::external_body]
pub struct ExSearcher(tantivy::Searcher);

/// A configured analyzer pipeline; opaque here.
#[verifier::external_type_specification]
#[verifier::external_body]
pub struct ExTextAnalyzer(tantivy::tokenizer::TextAnalyzer);

/// A boolean combination of term queries; opaque here.
#[verifier::external_type_specification]
#[verifier::external_body]
pub struct ExBooleanQuery(tantivy::query::BooleanQuery);

/// How the text indexing of one schema field is configured.
pub enum TextIndexing {
    /// Not a text field.
    NotText,
    /// A text field without indexing options.
    NoOptions,
    /// A text field whose analyzer is registered under the carried name.
    Tokenizer(String),
}

/// One schema field, reduced to the plain values the relevance logic reads.
pub struct FieldProbe {
    pub field_id: u32,
    pub indexed: bool,
    pub text: TextIndexing,
}

/// Relies on `Searcher::schema` and `Schema::fields`: one probe per schema
/// field, in schema order, built from `Field::field_id`,
/// `FieldType::is_indexed`, `TextOptions::get_indexing_options` and
/// `TextFieldIndexing::tokenizer`.
#[verifier::external_body]
pub(crate) fn schema_text_fields(searcher: &tantivy::Searcher) -> (r: Vec<FieldProbe>) {
    searcher.schema().fields().map(|(field, entry)| {
        let text = match entry.field_type() {
            tantivy::schema::FieldType::Str(opts) => match opts.get_indexing_options() {
                Some(io) => TextIndexing::Tokenizer(io.tokenizer().to_string()),
                None => TextIndexing::NoOptions,
            },
            _ => TextIndexing::NotText,
        };
        FieldProbe { field_id: field.field_id(), indexed: entry.field_type().is_indexed(), text }
    }).collect()
}

/// Relies on `Searcher::num_docs`: the number of documents in the snapshot,
/// deleted ones excluded.
#[verifier::external_body]
pub(crate) fn searcher_num_docs(searcher: &tantivy::Searcher) -> (r: u64) {
    searcher.num_docs()
}

/// Relies on `Searcher::doc_freq`, over a term built with
/// `Field::from_field_id` and `Term::from_field_text`: the number of
/// documents of the snapshot containing the term.  The engine indexes its
/// field table with the id, so the call is guarded here: a field id outside
/// the schema returns the engine's field-not-found error instead, and the
/// call returns normally on every input.
#[verifier::external_body]
pub(crate) fn searcher_doc_freq(searcher: &tantivy::Searcher, field_id: u32, term: &str) -> (r:
    Result<u64, tantivy::TantivyError>) {
    if (field_id as usize) >= searcher.schema().num_fields() {
        return Err(tantivy::TantivyError::FieldNotFound(field_id.to_string()));
    }
    let field = tantivy::schema::Field::from_field_id(field_id);
    let t = tantivy::Term::from_field_text(field, term);
    searcher.doc_freq(&t)
}

/// Relies on `Bm25StatisticsProvider::total_num_tokens` for `Searcher`: the
/// total number of tokens the field holds across all documents of the
/// snapshot.  Guarded as in `searcher_doc_freq`: a field id outside the
/// schema returns the engine's field-not-found error, and the call returns
/// normally on every input.
#[verifier::external_body]
pub(crate) fn searcher_total_num_tokens(searcher: &tantivy::Searcher, field_id: u32) -> (r: Result<
    u64,
    tantivy::TantivyError,
>) {
    if (field_id as usize) >= searcher.schema().num_fields() {
        return Err(tantivy::TantivyError::FieldNotFound(field_id.to_string()));
    }
    tantivy::query::Bm25StatisticsProvider::total_num_tokens(
        searcher,
        tantivy::schema::Field::from_field_id(field_id),
    )
}

/// Relies on `Index::tokenizers` and `TokenizerManager::get`: the analyzer
/// registered under the name, or `None` when none is.
#[verifier::external_body]
pub(crate) fn get_analyzer(searcher: &tantivy::Searcher, name: &str) -> (r: Option<
    tantivy::tokenizer::TextAnalyzer,
>) {
    searcher.index().tokenizers().get(name)
}

/// Relies on `TextAnalyzer::token_stream` and `TokenStream::process`: the
/// text of every token the analyzer produces for the sentence, in stream
/// order.
#[verifier::external_body]
pub(crate) fn analyzer_token_texts(
    analyzer: &mut tantivy::tokenizer::TextAnalyzer,
    sentence: &str,
) -> (r: Vec<String>) {
    let mut texts: Vec<String> = Vec::new();
    let mut stream = analyzer.token_stream(sentence);
    stream.process(&mut |token| texts.push(token.text.clone()));
    texts
}

/// Relies on `BooleanQuery::new` over `TermQuery` clauses (terms built with
/// `Term::from_field_text`, postings with frequencies): one clause per term
/// on the field, every clause required when `require_all`, any one
/// sufficient otherwise.
#[verifier::external_body]
pub(crate) fn boolean_terms_query(field_id: u32, terms: &Vec<String>, require_all: bool) -> (r:
    tantivy::query::BooleanQuery) {
    let field = tantivy::schema::Field::from_field_id(field_id);
    let occur = if require_all { tantivy::query::Occur::Must } else { tantivy::query::Occur::Should };
    let clauses: Vec<(tantivy::query::Occur, Box<dyn tantivy::query::Query>)> = terms.iter().map(|t| {
        let tq: Box<dyn tantivy::query::Query> = Box::new(tantivy::query::TermQuery::new(
            tantivy::Term::from_field_text(field, t),
            tantivy::schema::IndexRecordOption::WithFreqs,
        ));
        (occur, tq)
    }).collect();
    tantivy::query::BooleanQuery::new(clauses)
}

/// Relies on `Searcher::search` with `TopDocs::with_limit(limit)
/// .order_by_score()`: at most `limit` matches, ordered by descending BM25
/// score, each hit converted to `(segment ordinal, segment-local doc id,
/// score bits)`.  BM25 scores are non-negative, and the IEEE bit patterns of
/// non-negative single-precision values order exactly as the values do, so
/// the bit keys carry the engine's descending order.  `TopDocs::with_limit`
/// panics on a limit of zero, hence the bound.
#[verifier::external_body]
pub(crate) fn search_query_top(
    searcher: &tantivy::Searcher,
    query: &tantivy::query::BooleanQuery,
    limit: usize,
) -> (r: Result<Vec<(u32, u32, u32)>, String>)
    requires
        limit >= 1,
    ensures
        r matches Ok(hits) ==> hits@.len() <= limit && forall|a: int, b: int|
            0 <= a <= b < hits@.len() ==> (#[trigger] hits@[a]).2 >= (#[trigger] hits@[b]).2,
{
    let collector = tantivy::collector::TopDocs::with_limit(limit).order_by_score();
    let hits = searcher.search(query, &collector).map_err(|e| e.to_string())?;
    Ok(hits.into_iter().map(|(s, a)| (a.segment_ord, a.doc_id, s.to_bits())).collect())
}

/// Relies on `QueryParser::for_index` / `parse_query` — conjunction by
/// default when `require_all` — and on `Searcher::search` with `TopDocs` as
/// in `search_query_top`: the parsed structured query's matches, at most
/// `limit` of them, ordered by descending score, converted the same way.
/// The parse and the search are one item because the parsed query's type
/// cannot be named here.  The parser dereferences its default field, so the
/// field id is guarded: one outside the schema is an error, and the call
/// returns normally on every admitted input.
#[verifier::external_body]
pub(crate) fn parse_and_search_top(
    searcher: &tantivy::Searcher,
    field_id: u32,
    sentence: &str,
    require_all: bool,
    limit: usize,
) -> (r: Result<Vec<(u32, u32, u32)>, String>)
    requires
        limit >= 1,
    ensures
        r matches Ok(hits) ==> hits@.len() <= limit && forall|a: int, b: int|
            0 <= a <= b < hits@.len() ==> (#[trigger] hits@[a]).2 >= (#[trigger] hits@[b]).2,
{
    if (field_id as usize) >= searcher.schema().num_fields() {
        return Err("the field id lies outside the schema".to_string());
    }
    let field = tantivy::schema::Field::from_field_id(field_id);
    let mut parser = tantivy::query::QueryParser::for_index(searcher.index(), vec![field]);
    if require_all {
        parser.set_conjunction_by_default();
    }
    let query = parser.parse_query(sentence).map_err(|e| e.to_string())?;
    let collector = tantivy::collector::TopDocs::with_limit(limit).order_by_score();
    let hits = searcher.search(&query, &collector).map_err(|e| e.to_string())?;
    Ok(hits.into_iter().map(|(s, a)| (a.segment_ord, a.doc_id, s.to_bits())).collect())
}

/// Relies on `Searcher::doc` and `Document::to_json`: the stored document at
/// the address, rendered as JSON.  The store readers are indexed by segment
/// ordinal, so the ordinal is guarded: one outside the snapshot is an error
/// — a bad doc id already comes back as the engine's own error — and the
/// call returns normally on every input.
#[verifier::external_body]
pub(crate) fn fetch_doc_json(searcher: &tantivy::Searcher, segment_ord: u32, doc_id: u32) -> (r:
    Result<String, tantivy::TantivyError>) {
    if (segment_ord as usize) >= searcher.segment_readers().len() {
        return Err(
            tantivy::TantivyError::InvalidArgument(
                "the segment ordinal lies outside the snapshot".to_string(),
            ),
        );
    }
    let address = tantivy::DocAddress::new(segment_ord, doc_id);
    match searcher.doc::<tantivy::TantivyDocument>(address) {
        Ok(doc) => Ok(doc.to_json(searcher.schema())),
        Err(e) => Err(e),
    }
}

} // verus!
