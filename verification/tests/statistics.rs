use tantivy_search::stats::{DocWithFreq, Statistics, merge};

fn entry(field_id: u32, term: &str, doc_freq: u64) -> DocWithFreq {
    DocWithFreq::new(term.to_string(), field_id, doc_freq)
}

fn freq_of(merged: &Vec<DocWithFreq>, field_id: u32, term: &str) -> Option<u64> {
    merged
        .iter()
        .find(|e| e.field_id == field_id && e.term_str == term)
        .map(|e| e.doc_freq)
}

#[test]
fn merge_sums_duplicate_entries() {
    let stats = Statistics {
        docs_freq: vec![
            entry(0, "apple", 3),
            entry(0, "apple", 5),
            entry(0, "banana", 2),
        ],
        total_num_tokens: 100,
        total_num_docs: 10,
    };
    let global = merge(&stats);
    assert_eq!(global.doc_freq_map.len(), 2);
    assert_eq!(freq_of(&global.doc_freq_map, 0, "apple"), Some(8));
    assert_eq!(freq_of(&global.doc_freq_map, 0, "banana"), Some(2));
}

#[test]
fn merge_distinguishes_fields_with_same_term() {
    let stats = Statistics {
        docs_freq: vec![entry(0, "apple", 3), entry(1, "apple", 4), entry(0, "apple", 1)],
        total_num_tokens: 7,
        total_num_docs: 2,
    };
    let global = merge(&stats);
    assert_eq!(global.doc_freq_map.len(), 2);
    assert_eq!(freq_of(&global.doc_freq_map, 0, "apple"), Some(4));
    assert_eq!(freq_of(&global.doc_freq_map, 1, "apple"), Some(4));
}

#[test]
fn merge_takes_active_field_from_first_entry_and_copies_totals() {
    let stats = Statistics {
        docs_freq: vec![entry(7, "pear", 1), entry(3, "plum", 2)],
        total_num_tokens: 55,
        total_num_docs: 44,
    };
    let global = merge(&stats);
    assert_eq!(global.active_field, 7);
    assert_eq!(global.total_num_tokens, 55);
    assert_eq!(global.total_num_docs, 44);
}
