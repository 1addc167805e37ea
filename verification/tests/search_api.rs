use tantivy::collector::TopDocs;
use tantivy::query::BooleanQuery;
use tantivy::schema::{Schema, TextFieldIndexing, TextOptions, INDEXED, TEXT};
use tantivy::{Index, Searcher, TantivyDocument, Term};

use tantivy_search::errors::TantivySearchError;

use tantivy_search::search::{
    bm25_natural_language_search, bm25_standard_search, get_doc_freq, get_total_num_docs,
    get_total_num_tokens, Bm25Search, QueryKind,
};
use tantivy_search::stats::{DocWithFreq, Statistics};

fn empty_statistics() -> Statistics {
    Statistics { docs_freq: Vec::new(), total_num_tokens: 0, total_num_docs: 0 }
}

/// Three documents in one segment: doc 0 "apple banana", doc 1 "apple apple",
/// doc 2 "cherry".
fn text_index() -> (Index, Searcher) {
    let mut builder = Schema::builder();
    let title = builder.add_text_field("title", TEXT.set_stored());
    let schema = builder.build();
    let index = Index::create_in_ram(schema);
    let mut writer = index.writer_with_num_threads::<TantivyDocument>(1, 20_000_000).unwrap();
    for text in ["apple banana", "apple apple", "cherry"] {
        let mut doc = TantivyDocument::new();
        doc.add_text(title, text);
        writer.add_document(doc).unwrap();
    }
    writer.commit().unwrap();
    let searcher = index.reader().unwrap().searcher();
    (index, searcher)
}

fn numeric_only_index() -> Searcher {
    let mut builder = Schema::builder();
    let number = builder.add_u64_field("number", INDEXED);
    let schema = builder.build();
    let index = Index::create_in_ram(schema);
    let mut writer = index.writer_with_num_threads::<TantivyDocument>(1, 20_000_000).unwrap();
    let mut doc = TantivyDocument::new();
    doc.add_u64(number, 42);
    writer.add_document(doc).unwrap();
    writer.commit().unwrap();
    index.reader().unwrap().searcher()
}

fn ranked(outcome: Bm25Search) -> Vec<(u64, u32)> {
    match outcome {
        Bm25Search::Ranked(v) => v.iter().map(|r| (r.row_id, r.score_bits)).collect(),
        Bm25Search::Distributed(_) => panic!("expected a ranked outcome"),
    }
}

#[test]
fn natural_language_search_ranks_by_descending_score() {
    let (_index, searcher) = text_index();
    let outcome = bm25_natural_language_search(
        &searcher,
        "apple",
        10,
        &Vec::new(),
        false,
        true,
        &empty_statistics(),
        false,
    )
    .unwrap();
    let rows = ranked(outcome);
    assert_eq!(rows.len(), 2);
    // Doc 1 holds "apple" twice: higher term frequency, higher score.
    assert_eq!(rows[0].0, 1);
    assert_eq!(rows[1].0, 0);
    let top = f32::from_bits(rows[0].1);
    let second = f32::from_bits(rows[1].1);
    assert!(top > second);
    assert!(second > 0.0);
}

#[test]
fn empty_statistics_match_a_plain_engine_search() {
    let (index, searcher) = text_index();
    let outcome = bm25_natural_language_search(
        &searcher,
        "apple banana",
        10,
        &Vec::new(),
        false,
        true,
        &empty_statistics(),
        false,
    )
    .unwrap();
    let rows = ranked(outcome);

    // The same query, run directly against the engine with no statistics
    // attached: the library's non-distributed path must agree with it.
    let title = index.schema().get_field("title").unwrap();
    let terms = vec![
        Term::from_field_text(title, "apple"),
        Term::from_field_text(title, "banana"),
    ];
    let query = BooleanQuery::new_multiterms_query(terms);
    let direct = searcher.search(&query, &TopDocs::with_limit(10).order_by_score()).unwrap();
    let direct_rows: Vec<(u64, u32)> = direct
        .iter()
        .map(|(score, addr)| {
            ((addr.segment_ord as u64) * 0x1_0000_0000u64 + addr.doc_id as u64, score.to_bits())
        })
        .collect();
    assert_eq!(rows, direct_rows);
}

#[test]
fn topk_caps_the_result_list_at_the_best_matches() {
    let (_index, searcher) = text_index();
    let full = ranked(
        bm25_natural_language_search(
            &searcher,
            "apple banana cherry",
            10,
            &Vec::new(),
            false,
            true,
            &empty_statistics(),
            false,
        )
        .unwrap(),
    );
    assert_eq!(full.len(), 3);
    let capped = ranked(
        bm25_natural_language_search(
            &searcher,
            "apple banana cherry",
            1,
            &Vec::new(),
            false,
            true,
            &empty_statistics(),
            false,
        )
        .unwrap(),
    );
    // More than one document matches; the survivor is the single best.
    assert_eq!(capped.len(), 1);
    assert_eq!(capped[0], full[0]);
    assert!(f32::from_bits(full[0].1) >= f32::from_bits(full[1].1));
    assert!(f32::from_bits(full[1].1) >= f32::from_bits(full[2].1));
}

#[test]
fn excluded_rows_never_appear_even_when_they_match_best() {
    let (_index, searcher) = text_index();
    // Row 1 ("apple apple", the best match for "apple") is dead.
    let bitmap = vec![0b0000_0101u8];
    let outcome = bm25_natural_language_search(
        &searcher,
        "apple",
        10,
        &bitmap,
        true,
        true,
        &empty_statistics(),
        false,
    )
    .unwrap();
    let rows = ranked(outcome);
    assert_eq!(rows.iter().filter(|r| r.0 == 1).count(), 0);
    assert_eq!(rows.len(), 1);
    assert_eq!(rows[0].0, 0);
}

#[test]
fn and_semantics_require_every_term() {
    let (_index, searcher) = text_index();
    let outcome = bm25_natural_language_search(
        &searcher,
        "apple banana",
        10,
        &Vec::new(),
        false,
        false,
        &empty_statistics(),
        false,
    )
    .unwrap();
    let rows = ranked(outcome);
    assert_eq!(rows.len(), 1);
    assert_eq!(rows[0].0, 0);
}

#[test]
fn need_doc_attaches_the_stored_document() {
    let (_index, searcher) = text_index();
    let outcome = bm25_natural_language_search(
        &searcher,
        "cherry",
        10,
        &Vec::new(),
        false,
        true,
        &empty_statistics(),
        true,
    )
    .unwrap();
    match outcome {
        Bm25Search::Ranked(v) => {
            assert_eq!(v.len(), 1);
            let doc = v[0].doc.as_ref().expect("document was requested");
            assert!(doc.contains("cherry"));
        },
        Bm25Search::Distributed(_) => panic!("expected a ranked outcome"),
    }
}

#[test]
fn non_empty_statistics_yield_a_distributed_search() {
    let (_index, searcher) = text_index();
    let stats = Statistics {
        docs_freq: vec![
            DocWithFreq::new("apple".to_string(), 0, 3),
            DocWithFreq::new("apple".to_string(), 0, 4),
        ],
        total_num_tokens: 40,
        total_num_docs: 9,
    };
    let outcome = bm25_natural_language_search(
        &searcher,
        "apple",
        5,
        &vec![0xffu8],
        true,
        true,
        &stats,
        false,
    )
    .unwrap();
    match outcome {
        Bm25Search::Ranked(_) => panic!("expected a distributed outcome"),
        Bm25Search::Distributed(d) => {
            assert_eq!(d.global.doc_freq_map.len(), 1);
            assert_eq!(d.global.doc_freq_map[0].doc_freq, 7);
            assert_eq!(d.global.active_field, 0);
            assert_eq!(d.global.total_num_tokens, 40);
            assert_eq!(d.global.total_num_docs, 9);
            assert!(matches!(d.plan.kind, QueryKind::NaturalLanguage));
            assert_eq!(d.plan.sentence, "apple");
            assert_eq!(d.plan.terms, vec!["apple".to_string()]);
            assert_eq!(d.plan.topk, 5);
            assert_eq!(d.plan.alive_bitmap, vec![0xffu8]);
            assert!(d.plan.query_with_filter);
            assert!(d.plan.operation_or);
            assert!(!d.plan.need_doc);
        },
    }
}

#[test]
fn standard_search_parses_structured_syntax() {
    let (_index, searcher) = text_index();
    let outcome = bm25_standard_search(
        &searcher,
        "apple AND banana",
        10,
        &Vec::new(),
        false,
        true,
        &empty_statistics(),
        false,
    )
    .unwrap();
    let rows = ranked(outcome);
    assert_eq!(rows.len(), 1);
    assert_eq!(rows[0].0, 0);
}

#[test]
fn malformed_structured_query_is_a_search_error() {
    let (_index, searcher) = text_index();
    let result = bm25_standard_search(
        &searcher,
        "title:[",
        10,
        &Vec::new(),
        false,
        true,
        &empty_statistics(),
        false,
    );
    assert!(matches!(result, Err(TantivySearchError::IndexSearcherError(_))));
}

#[test]
fn unregistered_tokenizer_is_an_internal_error() {
    let mut builder = Schema::builder();
    let indexing = TextFieldIndexing::default().set_tokenizer("missing_tokenizer");
    builder.add_text_field("body", TextOptions::default().set_indexing_options(indexing));
    let index = Index::create_in_ram(builder.build());
    let searcher = index.reader().unwrap().searcher();

    let freq = get_doc_freq(&searcher, "anything");
    assert!(matches!(freq, Err(TantivySearchError::InternalError(_))));

    let search = bm25_natural_language_search(
        &searcher,
        "anything",
        5,
        &Vec::new(),
        false,
        true,
        &empty_statistics(),
        false,
    );
    assert!(matches!(search, Err(TantivySearchError::InternalError(_))));
}

#[test]
fn standard_search_with_statistics_is_distributed_too() {
    let (_index, searcher) = text_index();
    let stats = Statistics {
        docs_freq: vec![DocWithFreq::new("cherry".to_string(), 0, 2)],
        total_num_tokens: 12,
        total_num_docs: 6,
    };
    let outcome = bm25_standard_search(
        &searcher,
        "cherry",
        3,
        &Vec::new(),
        false,
        false,
        &empty_statistics(),
        false,
    )
    .unwrap();
    assert!(matches!(outcome, Bm25Search::Ranked(_)));
    let outcome = bm25_standard_search(
        &searcher,
        "cherry",
        3,
        &Vec::new(),
        false,
        false,
        &stats,
        false,
    )
    .unwrap();
    match outcome {
        Bm25Search::Ranked(_) => panic!("expected a distributed outcome"),
        Bm25Search::Distributed(d) => {
            assert!(matches!(d.plan.kind, QueryKind::Standard));
            assert_eq!(d.plan.sentence, "cherry");
            assert_eq!(d.global.doc_freq_map.len(), 1);
            assert_eq!(d.global.doc_freq_map[0].doc_freq, 2);
        },
    }
}

#[test]
fn doc_freq_deduplicates_repeated_words() {
    let (_index, searcher) = text_index();
    let entries = get_doc_freq(&searcher, "apple cherry apple").unwrap();
    assert_eq!(entries.len(), 2);
    let apple: Vec<&DocWithFreq> = entries.iter().filter(|e| e.term_str == "apple").collect();
    assert_eq!(apple.len(), 1);
    assert_eq!(apple[0].doc_freq, 2);
    let cherry: Vec<&DocWithFreq> = entries.iter().filter(|e| e.term_str == "cherry").collect();
    assert_eq!(cherry.len(), 1);
    assert_eq!(cherry[0].doc_freq, 1);
}

#[test]
fn totals_reflect_the_snapshot() {
    let (_index, searcher) = text_index();
    assert_eq!(get_total_num_docs(&searcher).unwrap(), 3);
    // "apple banana" + "apple apple" + "cherry": five tokens in the field.
    assert_eq!(get_total_num_tokens(&searcher).unwrap(), 5);
}

#[test]
fn index_without_text_field_yields_zero_and_empty() {
    let searcher = numeric_only_index();
    assert_eq!(get_total_num_tokens(&searcher).unwrap(), 0);
    assert_eq!(get_doc_freq(&searcher, "anything at all").unwrap().len(), 0);
    assert_eq!(get_total_num_docs(&searcher).unwrap(), 1);
    // Searches against such an index return no rows rather than failing.
    let outcome = bm25_natural_language_search(
        &searcher,
        "anything",
        5,
        &Vec::new(),
        false,
        true,
        &empty_statistics(),
        false,
    )
    .unwrap();
    assert_eq!(ranked(outcome).len(), 0);
}
