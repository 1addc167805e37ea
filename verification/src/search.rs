//! The public search and diagnostics operations.
//!
//! A query runs against a read-only snapshot.  When the caller supplies
//! per-shard statistics, the merged global statistics are returned alongside
//! the query plan as an explicit configuration value — the engine scores
//! with them attached to the snapshot for that one call; an empty
//! `docs_freq` list skips the merge entirely and the query executes here
//! against the snapshot's own local statistics.

use vstd::prelude::*;
use crate::errors::TantivySearchError;
use crate::stats::{Statistics, GlobalStatistics, DocWithFreq, merge, is_merged, total_freq, distinct_terms};
use crate::rank::{RowIdWithScore, row_alive, filter_and_cap, sorted_desc};
use crate::engine::{FieldProbe, TextIndexing, schema_text_fields, searcher_num_docs, searcher_doc_freq, searcher_total_num_tokens, get_analyzer, analyzer_token_texts, boolean_terms_query, search_query_top, parse_and_search_top, fetch_doc_json};

verus! {

/// How the query sentence is to be read.
pub enum QueryKind {
    /// Free text, tokenized by the active field's analyzer.
    NaturalLanguage,
    /// Structured query syntax, parsed directly.
    Standard,
}

/// An engine-independent description of what to query and how.
pub struct QueryPlan {
    pub kind: QueryKind,
    pub sentence: String,
    /// The analyzer's tokens for the sentence; natural-language plans only.
    pub terms: Vec<String>,
    /// The single active text field the query runs against.
    pub field_id: u32,
    pub topk: u32,
    pub alive_bitmap: Vec<u8>,
    pub query_with_filter: bool,
    pub need_doc: bool,
    pub operation_or: bool,
}

/// A query that must be scored with merged global statistics.  The caller
/// hands `global` to the engine alongside the snapshot for this one call —
/// an explicit configuration value, never a field mutated on a shared
/// object — and executes `plan` with it.
pub struct DistributedSearch {
    pub global: GlobalStatistics,
    pub plan: QueryPlan,
}

/// The outcome of preparing and running a BM25 search.
pub enum Bm25Search {
    /// The snapshot's local statistics sufficed; these are the results.
    Ranked(Vec<RowIdWithScore>),
    /// Merged global statistics must be attached before scoring.
    Distributed(DistributedSearch),
}

/// What a ranked result list promises: capped at `topk`, only alive rows
/// when the filter applies, descending score order, the stored document
/// present exactly when it was requested.
pub open spec fn ranked_results_ok(
    v: Seq<RowIdWithScore>,
    bitmap: Seq<u8>,
    query_with_filter: bool,
    topk: u32,
    need_doc: bool,
) -> bool {
    &&& v.len() <= topk
    &&& query_with_filter ==> forall|k: int|
        0 <= k < v.len() ==> row_alive(bitmap, (#[trigger] v[k]).row_id)
    &&& forall|a: int, b: int|
        0 <= a <= b < v.len() ==> (#[trigger] v[a]).score_bits >= (#[trigger] v[b]).score_bits
    &&& forall|k: int| 0 <= k < v.len() ==> ((#[trigger] v[k]).doc is Some <==> need_doc)
}

/// The plan carries the caller's parameters unchanged.
pub open spec fn plan_matches(
    plan: QueryPlan,
    kind: QueryKind,
    sentence: Seq<char>,
    topk: u32,
    bitmap: Seq<u8>,
    query_with_filter: bool,
    operation_or: bool,
    need_doc: bool,
) -> bool {
    &&& plan.kind == kind
    &&& plan.sentence@ == sentence
    &&& plan.topk == topk
    &&& plan.alive_bitmap@ == bitmap
    &&& plan.query_with_filter == query_with_filter
    &&& plan.operation_or == operation_or
    &&& plan.need_doc == need_doc
}

/// Whether some element of `v` reads `t`.
pub open spec fn contains_str(v: Seq<String>, t: Seq<char>) -> bool {
    exists|i: int| 0 <= i < v.len() && v[i]@ == t
}

/// A field that is indexed and carries text.
pub open spec fn is_indexed_text(p: FieldProbe) -> bool {
    p.indexed && !(p.text is NotText)
}

/// What the scan of the schema found: the single active text field.
pub enum TextFieldScan {
    /// No schema field is an indexed text field.
    NoTextField,
    /// The first indexed text field lacks indexing options — a configuration
    /// invariant violation.
    MissingOptions(u32),
    /// The first indexed text field and the name of its analyzer.
    Found(u32, String),
}

/// Scan the schema probes for the first indexed text field.  Only that
/// field takes part in search and statistics: single-field operation is a
/// hard, deliberate constraint, and later text fields are ignored.
pub fn first_indexed_text_field(probes: &Vec<FieldProbe>) -> (r: TextFieldScan)
    ensures
        match r {
            TextFieldScan::NoTextField => forall|i: int|
                0 <= i < probes@.len() ==> !is_indexed_text(#[trigger] probes@[i]),
            TextFieldScan::MissingOptions(fid) => exists|i: int|
                {
                    &&& 0 <= i < probes@.len()
                    &&& is_indexed_text(#[trigger] probes@[i])
                    &&& probes@[i].text is NoOptions
                    &&& probes@[i].field_id == fid
                    &&& forall|j: int| 0 <= j < i ==> !is_indexed_text(#[trigger] probes@[j])
                },
            TextFieldScan::Found(fid, tok) => exists|i: int|
                {
                    &&& 0 <= i < probes@.len()
                    &&& is_indexed_text(#[trigger] probes@[i])
                    &&& probes@[i].text matches TextIndexing::Tokenizer(name) && name@ == tok@
                    &&& probes@[i].field_id == fid
                    &&& forall|j: int| 0 <= j < i ==> !is_indexed_text(#[trigger] probes@[j])
                },
        },
{
    let mut i: usize = 0;
    while i < probes.len()
        invariant
            i <= probes@.len(),
            forall|j: int| 0 <= j < i ==> !is_indexed_text(#[trigger] probes@[j]),
        decreases probes@.len() - i,
    {
        if probes[i].indexed {
            match &probes[i].text {
                TextIndexing::NotText => {},
                TextIndexing::NoOptions => {
                    return TextFieldScan::MissingOptions(probes[i].field_id);
                },
                TextIndexing::Tokenizer(name) => {
                    return TextFieldScan::Found(probes[i].field_id, name.clone());
                },
            }
        }
        i += 1;
    }
    TextFieldScan::NoTextField
}

/// Whether `v` holds an element reading `s`.
fn contains_string(v: &Vec<String>, s: &String) -> (r: bool)
    ensures
        r == contains_str(v@, s@),
{
    let mut j: usize = 0;
    while j < v.len()
        invariant
            j <= v@.len(),
            forall|m: int| 0 <= m < j ==> (#[trigger] v@[m])@ != s@,
        decreases v@.len() - j,
    {
        if v[j] == *s {
            return true;
        }
        j += 1;
    }
    false
}

/// Deduplicate the analyzer's tokens into a set of distinct terms, first
/// occurrences first: a repeated word in the sentence yields one entry.
pub fn dedup_terms(tokens: &Vec<String>) -> (r: Vec<String>)
    ensures
        forall|i: int, j: int| 0 <= i < j < r@.len() ==> (#[trigger] r@[i])@ != (#[trigger] r@[j])@,
        forall|k: int| 0 <= k < r@.len() ==> contains_str(tokens@, (#[trigger] r@[k])@),
        forall|k: int| 0 <= k < tokens@.len() ==> contains_str(r@, (#[trigger] tokens@[k])@),
{
    let mut out: Vec<String> = Vec::new();
    let mut i: usize = 0;
    while i < tokens.len()
        invariant
            i <= tokens@.len(),
            forall|a: int, b: int|
                0 <= a < b < out@.len() ==> (#[trigger] out@[a])@ != (#[trigger] out@[b])@,
            forall|k: int| 0 <= k < out@.len() ==> contains_str(tokens@, (#[trigger] out@[k])@),
            forall|k: int| 0 <= k < i ==> contains_str(out@, (#[trigger] tokens@[k])@),
        decreases tokens@.len() - i,
    {
        let ghost old_out = out@;
        if !contains_string(&out, &tokens[i]) {
            out.push(tokens[i].clone());
            proof {
                assert(out@.drop_last() =~= old_out);
                assert forall|k: int| 0 <= k < i + 1 implies contains_str(
                    out@,
                    (#[trigger] tokens@[k])@,
                ) by {
                    if k < i {
                        let w = choose|w: int| 0 <= w < old_out.len() && old_out[w]@ == tokens@[k]@;
                        assert(out@[w]@ == tokens@[k]@);
                    } else {
                        assert(out@[out@.len() - 1]@ == tokens@[k]@);
                    }
                }
                assert forall|k: int| 0 <= k < out@.len() implies contains_str(
                    tokens@,
                    (#[trigger] out@[k])@,
                ) by {
                    if k < out@.len() - 1 {
                        assert(out@[k] == old_out[k]);
                    } else {
                        assert(out@[k]@ == tokens@[i as int]@);
                    }
                }
            }
        } else {
            proof {
                assert forall|k: int| 0 <= k < i + 1 implies contains_str(
                    out@,
                    (#[trigger] tokens@[k])@,
                ) by {}
            }
        }
        i += 1;
    }
    out
}

/// Turn raw engine hits into `(row id, score bits)` rows.  A row id packs
/// the segment ordinal above the segment-local doc id, a stable identity
/// within one snapshot.
fn to_rows(hits: &Vec<(u32, u32, u32)>) -> (r: Vec<(u64, u32)>)
    ensures
        r@.len() == hits@.len(),
        forall|k: int|
            0 <= k < r@.len() ==> (#[trigger] r@[k]).0 == (hits@[k].0 as u64) * 0x1_0000_0000u64
                + (hits@[k].1 as u64) && r@[k].1 == hits@[k].2,
{
    let mut out: Vec<(u64, u32)> = Vec::new();
    let mut i: usize = 0;
    while i < hits.len()
        invariant
            i <= hits@.len(),
            out@.len() == i,
            forall|k: int|
                0 <= k < i ==> (#[trigger] out@[k]).0 == (hits@[k].0 as u64) * 0x1_0000_0000u64
                    + (hits@[k].1 as u64) && out@[k].1 == hits@[k].2,
        decreases hits@.len() - i,
    {
        let (seg, doc, bits) = hits[i];
        let row: u64 = (seg as u64) * 0x1_0000_0000u64 + (doc as u64);
        out.push((row, bits));
        i += 1;
    }
    out
}

/// Build the final results, fetching each stored document when asked to.
fn attach_docs(searcher: &tantivy::Searcher, rows: &Vec<(u64, u32)>, need_doc: bool) -> (r: Result<
    Vec<RowIdWithScore>,
    TantivySearchError,
>)
    ensures
        r matches Ok(v) ==> v@.len() == rows@.len() && forall|k: int|
            0 <= k < v@.len() ==> (#[trigger] v@[k]).row_id == rows@[k].0 && v@[k].score_bits
                == rows@[k].1 && (v@[k].doc is Some <==> need_doc),
        !need_doc ==> r is Ok,
        r matches Err(e) ==> e is TantivyError,
{
    let mut out: Vec<RowIdWithScore> = Vec::new();
    let mut i: usize = 0;
    while i < rows.len()
        invariant
            i <= rows@.len(),
            out@.len() == i,
            forall|k: int|
                0 <= k < i ==> (#[trigger] out@[k]).row_id == rows@[k].0 && out@[k].score_bits
                    == rows@[k].1 && (out@[k].doc is Some <==> need_doc),
        decreases rows@.len() - i,
    {
        let (row, bits) = rows[i];
        let doc = if need_doc {
            let seg = (row / 0x1_0000_0000u64) as u32;
            let id = (row % 0x1_0000_0000u64) as u32;
            match fetch_doc_json(searcher, seg, id) {
                Ok(json) => Some(json),
                Err(e) => {
                    return Err(TantivySearchError::TantivyError(e));
                },
            }
        } else {
            None
        };
        out.push(RowIdWithScore { row_id: row, score_bits: bits, doc });
        i += 1;
    }
    Ok(out)
}

/// Run one BM25 query against the snapshot, or hand back the merged global
/// statistics when the caller supplied per-shard numbers.
fn bm25_inner_search(
    searcher: &tantivy::Searcher,
    kind: QueryKind,
    sentence: &str,
    topk: u32,
    alive_bitmap: &Vec<u8>,
    query_with_filter: bool,
    operation_or: bool,
    statistics: &Statistics,
    need_doc: bool,
) -> (r: Result<Bm25Search, TantivySearchError>)
    requires
        topk >= 1,
        total_freq(statistics.docs_freq@) <= u64::MAX,
    ensures
        match r {
            Ok(out) => match out {
                Bm25Search::Ranked(v) => ranked_results_ok(
                    v@,
                    alive_bitmap@,
                    query_with_filter,
                    topk,
                    need_doc,
                ),
                Bm25Search::Distributed(d) => statistics.docs_freq@.len() > 0 && is_merged(
                    d.global,
                    *statistics,
                ) && plan_matches(
                    d.plan,
                    kind,
                    sentence@,
                    topk,
                    alive_bitmap@,
                    query_with_filter,
                    operation_or,
                    need_doc,
                ),
            },
            Err(_) => true,
        },
        statistics.docs_freq@.len() == 0 ==> !(r matches Ok(Bm25Search::Distributed(_))),
        statistics.docs_freq@.len() > 0 ==> (r matches Ok(Bm25Search::Ranked(v)) ==> v@.len()
            == 0),
        kind is Standard && statistics.docs_freq@.len() > 0 ==> r is Ok,
        kind is NaturalLanguage && !need_doc ==> (r matches Err(e) ==> e is InternalError
            || e is IndexSearcherError),
        kind is Standard && !need_doc ==> (r matches Err(e) ==> e is IndexSearcherError),
{
    let probes = schema_text_fields(searcher);
    let mut field_id: u32 = 0;
    let mut terms: Vec<String> = Vec::new();
    match kind {
        QueryKind::NaturalLanguage => {
            match first_indexed_text_field(&probes) {
                TextFieldScan::NoTextField => {
                    return Ok(Bm25Search::Ranked(Vec::new()));
                },
                TextFieldScan::MissingOptions(_) => {
                    return Err(
                        TantivySearchError::InternalError(
                            "indexed text field has no indexing options".to_string(),
                        ),
                    );
                },
                TextFieldScan::Found(fid, tokenizer_name) => {
                    field_id = fid;
                    match get_analyzer(searcher, tokenizer_name.as_str()) {
                        Some(mut analyzer) => {
                            terms = analyzer_token_texts(&mut analyzer, sentence);
                        },
                        None => {
                            return Err(
                                TantivySearchError::InternalError(
                                    "no analyzer is registered under the field's tokenizer name".to_string(),
                                ),
                            );
                        },
                    }
                },
            }
        },
        QueryKind::Standard => {
            match first_indexed_text_field(&probes) {
                TextFieldScan::NoTextField => {
                    return Ok(Bm25Search::Ranked(Vec::new()));
                },
                TextFieldScan::MissingOptions(fid) => {
                    field_id = fid;
                },
                TextFieldScan::Found(fid, _) => {
                    field_id = fid;
                },
            }
        },
    }
    if statistics.docs_freq.len() == 0 {
        // Non-distributed mode: execute directly against the snapshot's own
        // local statistics, with no merge step.
        let num_docs = searcher_num_docs(searcher);
        if num_docs == 0 {
            return Ok(Bm25Search::Ranked(Vec::new()));
        }
        let limit: usize = if num_docs > (usize::MAX as u64) {
            usize::MAX
        } else {
            num_docs as usize
        };
        let raw = match kind {
            QueryKind::NaturalLanguage => {
                let query = boolean_terms_query(field_id, &terms, !operation_or);
                search_query_top(searcher, &query, limit)
            },
            QueryKind::Standard => parse_and_search_top(
                searcher,
                field_id,
                sentence,
                !operation_or,
                limit,
            ),
        };
        let hits = match raw {
            Ok(h) => h,
            Err(message) => {
                return Err(TantivySearchError::IndexSearcherError(message));
            },
        };
        let rows = to_rows(&hits);
        proof {
            assert forall|a: int, b: int| 0 <= a <= b < rows@.len() implies (#[trigger] rows@[a]).1
                >= (#[trigger] rows@[b]).1 by {
                assert(hits@[a].2 >= hits@[b].2);
            }
            assert(sorted_desc(rows@));
        }
        let capped = filter_and_cap(&rows, alive_bitmap, query_with_filter, topk);
        match attach_docs(searcher, &capped, need_doc) {
            Ok(ranked) => Ok(Bm25Search::Ranked(ranked)),
            Err(e) => Err(e),
        }
    } else {
        let global = merge(statistics);
        let plan = QueryPlan {
            kind,
            sentence: sentence.to_owned(),
            terms,
            field_id,
            topk,
            alive_bitmap: copy_bitmap(alive_bitmap),
            query_with_filter,
            need_doc,
            operation_or,
        };
        Ok(Bm25Search::Distributed(DistributedSearch { global, plan }))
    }
}

/// An element-wise copy of the row-filter bitmap.
fn copy_bitmap(bitmap: &Vec<u8>) -> (r: Vec<u8>)
    ensures
        r@ == bitmap@,
{
    let mut out: Vec<u8> = Vec::new();
    let mut i: usize = 0;
    while i < bitmap.len()
        invariant
            i <= bitmap@.len(),
            out@ == bitmap@.take(i as int),
        decreases bitmap@.len() - i,
    {
        out.push(bitmap[i]);
        proof {
            assert(out@ =~= bitmap@.take(i as int + 1));
        }
        i += 1;
    }
    proof {
        assert(bitmap@.take(bitmap@.len() as int) =~= bitmap@);
    }
    out
}

/// BM25 search over free text: the sentence is tokenized by the active
/// field's analyzer and the term queries are combined with OR semantics when
/// `operation_or` holds, AND semantics otherwise.  With `query_with_filter`,
/// only rows alive in the bitmap are returned.  At most `topk` results come
/// back, ordered by descending score.  Non-empty `statistics` yield a
/// `Distributed` outcome carrying the merged global statistics and the plan.
/// `topk` must be positive, and the supplied document frequencies must not
/// sum past `u64::MAX`.  Failures are `InternalError` (missing configuration
/// or analyzer) or `IndexSearcherError` (the engine's search); the low-level
/// engine variant appears only when a stored document was requested.
pub fn bm25_natural_language_search(
    searcher: &tantivy::Searcher,
    sentence: &str,
    topk: u32,
    alive_bitmap: &Vec<u8>,
    query_with_filter: bool,
    operation_or: bool,
    statistics: &Statistics,
    need_doc: bool,
) -> (r: Result<Bm25Search, TantivySearchError>)
    requires
        topk >= 1,
        total_freq(statistics.docs_freq@) <= u64::MAX,
    ensures
        match r {
            Ok(out) => match out {
                Bm25Search::Ranked(v) => ranked_results_ok(
                    v@,
                    alive_bitmap@,
                    query_with_filter,
                    topk,
                    need_doc,
                ),
                Bm25Search::Distributed(d) => statistics.docs_freq@.len() > 0 && is_merged(
                    d.global,
                    *statistics,
                ) && plan_matches(
                    d.plan,
                    QueryKind::NaturalLanguage,
                    sentence@,
                    topk,
                    alive_bitmap@,
                    query_with_filter,
                    operation_or,
                    need_doc,
                ),
            },
            Err(_) => true,
        },
        statistics.docs_freq@.len() == 0 ==> !(r matches Ok(Bm25Search::Distributed(_))),
        statistics.docs_freq@.len() > 0 ==> (r matches Ok(Bm25Search::Ranked(v)) ==> v@.len()
            == 0),
        !need_doc ==> (r matches Err(e) ==> e is InternalError || e is IndexSearcherError),
{
    bm25_inner_search(
        searcher,
        QueryKind::NaturalLanguage,
        sentence,
        topk,
        alive_bitmap,
        query_with_filter,
        operation_or,
        statistics,
        need_doc,
    )
}

/// BM25 search over structured query syntax: the sentence is parsed
/// directly; `operation_or` governs the default combination of bare terms.
/// Filtering, capping, statistics and the bounds on `topk` and the supplied
/// frequencies behave as in the natural-language search.  Unless a stored
/// document was requested, the only failure is `IndexSearcherError` — a
/// sentence the engine cannot parse as its structured syntax, or a failed
/// search — and with per-shard statistics supplied the call cannot fail.
pub fn bm25_standard_search(
    searcher: &tantivy::Searcher,
    sentence: &str,
    topk: u32,
    alive_bitmap: &Vec<u8>,
    query_with_filter: bool,
    operation_or: bool,
    statistics: &Statistics,
    need_doc: bool,
) -> (r: Result<Bm25Search, TantivySearchError>)
    requires
        topk >= 1,
        total_freq(statistics.docs_freq@) <= u64::MAX,
    ensures
        match r {
            Ok(out) => match out {
                Bm25Search::Ranked(v) => ranked_results_ok(
                    v@,
                    alive_bitmap@,
                    query_with_filter,
                    topk,
                    need_doc,
                ),
                Bm25Search::Distributed(d) => statistics.docs_freq@.len() > 0 && is_merged(
                    d.global,
                    *statistics,
                ) && plan_matches(
                    d.plan,
                    QueryKind::Standard,
                    sentence@,
                    topk,
                    alive_bitmap@,
                    query_with_filter,
                    operation_or,
                    need_doc,
                ),
            },
            Err(_) => true,
        },
        statistics.docs_freq@.len() == 0 ==> !(r matches Ok(Bm25Search::Distributed(_))),
        statistics.docs_freq@.len() > 0 ==> r is Ok,
        statistics.docs_freq@.len() > 0 ==> (r matches Ok(Bm25Search::Ranked(v)) ==> v@.len()
            == 0),
        !need_doc ==> (r matches Err(e) ==> e is IndexSearcherError),
{
    bm25_inner_search(
        searcher,
        QueryKind::Standard,
        sentence,
        topk,
        alive_bitmap,
        query_with_filter,
        operation_or,
        statistics,
        need_doc,
    )
}

/// The per-term document frequencies of a sentence: the sentence is
/// tokenized with the active text field's analyzer, the tokens are
/// deduplicated, and each distinct term is looked up in the snapshot.  An
/// index without an indexed text field yields the empty list rather than an
/// error.  Failures are `InternalError` (a configuration invariant violated)
/// or the engine's own error from a frequency lookup, surfaced unchanged —
/// never `IndexSearcherError` — and no partial list is ever returned.
pub fn get_doc_freq(searcher: &tantivy::Searcher, sentence: &str) -> (r: Result<
    Vec<DocWithFreq>,
    TantivySearchError,
>)
    ensures
        r matches Ok(v) ==> distinct_terms(v@) && forall|a: int, b: int|
            0 <= a < v@.len() && 0 <= b < v@.len() ==> (#[trigger] v@[a]).field_id == (
            #[trigger] v@[b]).field_id,
        r matches Err(e) ==> e is InternalError || e is TantivyError,
{
    let probes = schema_text_fields(searcher);
    match first_indexed_text_field(&probes) {
        TextFieldScan::NoTextField => Ok(Vec::new()),
        TextFieldScan::MissingOptions(_) => Err(
            TantivySearchError::InternalError(
                "indexed text field has no indexing options".to_string(),
            ),
        ),
        TextFieldScan::Found(field_id, tokenizer_name) => {
            let mut analyzer = match get_analyzer(searcher, tokenizer_name.as_str()) {
                Some(a) => a,
                None => {
                    return Err(
                        TantivySearchError::InternalError(
                            "no analyzer is registered under the field's tokenizer name".to_string(),
                        ),
                    );
                },
            };
            let tokens = analyzer_token_texts(&mut analyzer, sentence);
            let terms = dedup_terms(&tokens);
            let mut out: Vec<DocWithFreq> = Vec::new();
            let mut i: usize = 0;
            while i < terms.len()
                invariant
                    i <= terms@.len(),
                    out@.len() == i,
                    forall|a: int, b: int|
                        0 <= a < b < terms@.len() ==> (#[trigger] terms@[a])@ != (
                        #[trigger] terms@[b])@,
                    forall|k: int|
                        0 <= k < i ==> (#[trigger] out@[k]).term_str@ == terms@[k]@
                            && out@[k].field_id == field_id,
                decreases terms@.len() - i,
            {
                match searcher_doc_freq(searcher, field_id, terms[i].as_str()) {
                    Ok(freq) => {
                        out.push(DocWithFreq::new(terms[i].clone(), field_id, freq));
                    },
                    Err(e) => {
                        return Err(TantivySearchError::TantivyError(e));
                    },
                }
                i += 1;
            }
            Ok(out)
        },
    }
}

/// The total number of documents in the snapshot.
pub fn get_total_num_docs(searcher: &tantivy::Searcher) -> (r: Result<u64, TantivySearchError>)
    ensures
        r is Ok,
{
    Ok(searcher_num_docs(searcher))
}

/// The total token count of the first indexed text field — later text
/// fields are ignored, the single-field constraint again — or `0` when no
/// text field is indexed, rather than an error.
pub fn get_total_num_tokens(searcher: &tantivy::Searcher) -> (r: Result<u64, TantivySearchError>)
    ensures
        r matches Err(e) ==> e is TantivyError,
{
    let probes = schema_text_fields(searcher);
    match first_indexed_text_field(&probes) {
        TextFieldScan::NoTextField => Ok(0),
        TextFieldScan::MissingOptions(field_id) => match searcher_total_num_tokens(
            searcher,
            field_id,
        ) {
            Ok(n) => Ok(n),
            Err(e) => Err(TantivySearchError::TantivyError(e)),
        },
        TextFieldScan::Found(field_id, _) => match searcher_total_num_tokens(searcher, field_id) {
            Ok(n) => Ok(n),
            Err(e) => Err(TantivySearchError::TantivyError(e)),
        },
    }
}

} // verus!
