//! Per-shard statistics and their merge into one global statistics object.
//!
//! Each index partition only knows its own local term statistics; a caller
//! supplies the already-gathered per-shard numbers and `merge` assembles the
//! global view a BM25 scorer needs, summing the document frequencies of
//! duplicate `(field_id, term)` entries instead of overwriting them.

use vstd::prelude::*;
use vstd::pervasive::VecAdditionalExecFns;

verus! {

/// One term together with its field and its document frequency: an input row
/// of the shard statistics, and equally an output row of `get_doc_freq`.
pub struct DocWithFreq {
    pub term_str: String,
    pub field_id: u32,
    pub doc_freq: u64,
}

impl DocWithFreq {
    pub fn new(term_str: String, field_id: u32, doc_freq: u64) -> (r: DocWithFreq)
        ensures
            r.term_str@ == term_str@,
            r.field_id == field_id,
            r.doc_freq == doc_freq,
    {
        DocWithFreq { term_str, field_id, doc_freq }
    }
}

/// Caller-supplied statistics for one query.  An empty `docs_freq` list
/// signals "no distributed statistics": the query then runs against the
/// snapshot's own local numbers.
pub struct Statistics {
    pub docs_freq: Vec<DocWithFreq>,
    pub total_num_tokens: u64,
    pub total_num_docs: u64,
}

/// The merged, globally correct statistics attached to a snapshot for the
/// duration of one query.  The total token count is kept only under the
/// single active field (`active_field`): distributed scoring over more than
/// one text field is deliberately unsupported.
pub struct GlobalStatistics {
    pub doc_freq_map: Vec<DocWithFreq>,
    pub active_field: u32,
    pub total_num_tokens: u64,
    pub total_num_docs: u64,
}

/// Whether entry `e` carries the term identified by `(field_id, term)`.
pub open spec fn entry_matches(e: DocWithFreq, field_id: u32, term: Seq<char>) -> bool {
    e.field_id == field_id && e.term_str@ == term
}

/// What entry `e` contributes to the document frequency of `(field_id, term)`.
pub open spec fn freq_contrib(e: DocWithFreq, field_id: u32, term: Seq<char>) -> int {
    if entry_matches(e, field_id, term) {
        e.doc_freq as int
    } else {
        0
    }
}

/// The document frequency of `(field_id, term)` in a list of entries: the sum
/// of the frequencies of every entry that carries that term.
pub open spec fn doc_freq_sum(s: Seq<DocWithFreq>, field_id: u32, term: Seq<char>) -> int
    decreases s.len(),
{
    if s.len() == 0 {
        0
    } else {
        doc_freq_sum(s.drop_last(), field_id, term) + freq_contrib(s.last(), field_id, term)
    }
}

/// The sum of every document frequency in the list, whatever its term.
pub open spec fn total_freq(s: Seq<DocWithFreq>) -> int
    decreases s.len(),
{
    if s.len() == 0 {
        0
    } else {
        total_freq(s.drop_last()) + s.last().doc_freq as int
    }
}

/// Whether some entry of `s` carries `(field_id, term)`.
pub open spec fn contains_term(s: Seq<DocWithFreq>, field_id: u32, term: Seq<char>) -> bool {
    exists|i: int| 0 <= i < s.len() && entry_matches(s[i], field_id, term)
}

/// No two entries of `s` carry the same `(field_id, term)` key.
pub open spec fn distinct_terms(s: Seq<DocWithFreq>) -> bool {
    forall|i: int, j: int|
        0 <= i < j < s.len() ==> !entry_matches(s[j], s[i].field_id, s[i].term_str@)
}

/// What `merge` promises: `g` is the global view of the shard statistics `s`.
pub open spec fn is_merged(g: GlobalStatistics, s: Statistics) -> bool {
    &&& distinct_terms(g.doc_freq_map@)
    &&& forall|f: u32, t: Seq<char>|
        #[trigger] doc_freq_sum(g.doc_freq_map@, f, t) == doc_freq_sum(s.docs_freq@, f, t)
    &&& forall|k: int|
        0 <= k < g.doc_freq_map@.len() ==> contains_term(
            s.docs_freq@,
            #[trigger] g.doc_freq_map@[k].field_id,
            g.doc_freq_map@[k].term_str@,
        )
    &&& s.docs_freq@.len() > 0 ==> g.active_field == s.docs_freq@[0].field_id
    &&& g.total_num_tokens == s.total_num_tokens
    &&& g.total_num_docs == s.total_num_docs
}

proof fn lemma_sum_bounds(s: Seq<DocWithFreq>, field_id: u32, term: Seq<char>)
    ensures
        0 <= doc_freq_sum(s, field_id, term) <= total_freq(s),
    decreases s.len(),
{
    if s.len() > 0 {
        lemma_sum_bounds(s.drop_last(), field_id, term);
    }
}

proof fn lemma_total_freq_take(s: Seq<DocWithFreq>, i: int)
    requires
        0 <= i <= s.len(),
    ensures
        total_freq(s.take(i)) <= total_freq(s),
    decreases s.len() - i,
{
    if i == s.len() {
        assert(s.take(i) =~= s);
    } else {
        assert(s.take(i + 1).drop_last() =~= s.take(i));
        assert(s.take(i + 1).last() == s[i]);
        lemma_total_freq_take(s, i + 1);
    }
}

proof fn lemma_sum_take_step(s: Seq<DocWithFreq>, i: int, field_id: u32, term: Seq<char>)
    requires
        0 <= i < s.len(),
    ensures
        doc_freq_sum(s.take(i + 1), field_id, term) == doc_freq_sum(s.take(i), field_id, term)
            + freq_contrib(s[i], field_id, term),
{
    assert(s.take(i + 1).drop_last() =~= s.take(i));
    assert(s.take(i + 1).last() == s[i]);
}

proof fn lemma_sum_update(s: Seq<DocWithFreq>, j: int, e: DocWithFreq, field_id: u32, term: Seq<char>)
    requires
        0 <= j < s.len(),
    ensures
        doc_freq_sum(s.update(j, e), field_id, term) == doc_freq_sum(s, field_id, term)
            - freq_contrib(s[j], field_id, term) + freq_contrib(e, field_id, term),
    decreases s.len(),
{
    let su = s.update(j, e);
    if j == s.len() - 1 {
        assert(su.drop_last() =~= s.drop_last());
        assert(su.last() == e);
    } else {
        assert(su.drop_last() =~= s.drop_last().update(j, e));
        assert(su.last() == s.last());
        lemma_sum_update(s.drop_last(), j, e, field_id, term);
    }
}

proof fn lemma_sum_absent(s: Seq<DocWithFreq>, field_id: u32, term: Seq<char>)
    requires
        !contains_term(s, field_id, term),
    ensures
        doc_freq_sum(s, field_id, term) == 0,
    decreases s.len(),
{
    if s.len() > 0 {
        assert(!entry_matches(s.last(), field_id, term)) by {
            assert(s[s.len() - 1] == s.last());
        }
        assert(forall|i: int|
            0 <= i < s.drop_last().len() ==> s.drop_last()[i] == s[i]);
        lemma_sum_absent(s.drop_last(), field_id, term);
    }
}

proof fn lemma_sum_distinct_entry(s: Seq<DocWithFreq>, k: int)
    requires
        distinct_terms(s),
        0 <= k < s.len(),
    ensures
        doc_freq_sum(s, s[k].field_id, s[k].term_str@) == s[k].doc_freq as int,
    decreases s.len(),
{
    let f = s[k].field_id;
    let t = s[k].term_str@;
    if k == s.len() - 1 {
        assert(!contains_term(s.drop_last(), f, t)) by {
            if contains_term(s.drop_last(), f, t) {
                let w = choose|w: int|
                    0 <= w < s.drop_last().len() && entry_matches(s.drop_last()[w], f, t);
                assert(s.drop_last()[w] == s[w]);
                assert(entry_matches(s[k], s[w].field_id, s[w].term_str@));
                assert(false);
            }
        }
        lemma_sum_absent(s.drop_last(), f, t);
    } else {
        assert(!entry_matches(s.last(), f, t)) by {
            assert(s[s.len() - 1] == s.last());
        }
        assert(forall|i: int|
            0 <= i < s.drop_last().len() ==> s.drop_last()[i] == s[i]);
        lemma_sum_distinct_entry(s.drop_last(), k);
    }
}

/// Law: in a merged statistics object every stored document frequency equals
/// the sum of all shard entries that carry the same `(field_id, term)` key —
/// duplicate entries are summed, never overwritten.
pub proof fn lemma_merged_entry_is_sum_of_duplicates(g: GlobalStatistics, s: Statistics, k: int)
    requires
        is_merged(g, s),
        0 <= k < g.doc_freq_map@.len(),
    ensures
        g.doc_freq_map@[k].doc_freq as int == doc_freq_sum(
            s.docs_freq@,
            g.doc_freq_map@[k].field_id,
            g.doc_freq_map@[k].term_str@,
        ),
{
    lemma_sum_distinct_entry(g.doc_freq_map@, k);
}

/// Find the entry carrying `(field_id, term)` in a list with distinct keys.
fn find_term(map: &Vec<DocWithFreq>, field_id: u32, term: &String) -> (r: Option<usize>)
    ensures
        match r {
            Some(j) => j < map@.len() && entry_matches(map@[j as int], field_id, term@),
            None => !contains_term(map@, field_id, term@),
        },
{
    let mut j: usize = 0;
    while j < map.len()
        invariant
            j <= map@.len(),
            forall|k: int| 0 <= k < j ==> !entry_matches(map@[k], field_id, term@),
        decreases map@.len() - j,
    {
        if map[j].field_id == field_id && map[j].term_str == *term {
            return Some(j);
        }
        j += 1;
    }
    None
}

/// Combine per-shard term document frequencies and the per-field token count
/// into one global statistics object.
///
/// Duplicate `(field_id, term)` entries are summed.  The active field is the
/// field of the first entry — distributed scoring is single-field by design —
/// and `total_num_docs` is passed through unchanged, since the caller has
/// already computed the global document count.
pub fn merge(stats: &Statistics) -> (r: GlobalStatistics)
    requires
        stats.docs_freq@.len() > 0,
        total_freq(stats.docs_freq@) <= u64::MAX,
    ensures
        is_merged(r, *stats),
{
    let ghost all = stats.docs_freq@;
    let mut map: Vec<DocWithFreq> = Vec::new();
    let n = stats.docs_freq.len();
    let mut i: usize = 0;
    while i < n
        invariant
            n == all.len(),
            all == stats.docs_freq@,
            total_freq(all) <= u64::MAX,
            i <= n,
            distinct_terms(map@),
            forall|f: u32, t: Seq<char>|
                #[trigger] doc_freq_sum(map@, f, t) == doc_freq_sum(all.take(i as int), f, t),
            forall|k: int|
                0 <= k < map@.len() ==> contains_term(
                    all.take(i as int),
                    #[trigger] map@[k].field_id,
                    map@[k].term_str@,
                ),
            forall|k: int|
                0 <= k < map@.len() ==> #[trigger] map@[k].doc_freq as int == doc_freq_sum(
                    all.take(i as int),
                    map@[k].field_id,
                    map@[k].term_str@,
                ),
        decreases n - i,
    {
        let entry = &stats.docs_freq[i];
        let ghost f = entry.field_id;
        let ghost t = entry.term_str@;
        proof {
            assert(all[i as int] == *entry);
            assert(all[i as int].field_id == f && all[i as int].term_str@ == t);
            lemma_sum_bounds(all.take(i as int + 1), f, t);
            lemma_total_freq_take(all, i as int + 1);
            lemma_sum_take_step(all, i as int, f, t);
        }
        match find_term(&map, entry.field_id, &entry.term_str) {
            Some(j) => {
                let ghost old_map = map@;
                let summed = DocWithFreq {
                    term_str: map[j].term_str.clone(),
                    field_id: map[j].field_id,
                    doc_freq: map[j].doc_freq + entry.doc_freq,
                };
                map.set(j, summed);
                proof {
                    assert(summed.field_id == old_map[j as int].field_id
                        && summed.term_str@ == old_map[j as int].term_str@);
                    assert(distinct_terms(map@)) by {
                        assert forall|a: int, b: int|
                            0 <= a < b < map@.len() implies !entry_matches(
                                map@[b],
                                map@[a].field_id,
                                map@[a].term_str@,
                            ) by {
                            assert(map@[a].field_id == old_map[a].field_id
                                && map@[a].term_str@ == old_map[a].term_str@);
                            assert(map@[b].field_id == old_map[b].field_id
                                && map@[b].term_str@ == old_map[b].term_str@);
                            assert(!entry_matches(old_map[b], old_map[a].field_id, old_map[a].term_str@));
                        }
                    }
                    assert forall|f2: u32, t2: Seq<char>|
                        #[trigger] doc_freq_sum(map@, f2, t2) == doc_freq_sum(
                            all.take(i as int + 1),
                            f2,
                            t2,
                        ) by {
                        lemma_sum_update(old_map, j as int, summed, f2, t2);
                        lemma_sum_take_step(all, i as int, f2, t2);
                    }
                    assert forall|k: int|
                        0 <= k < map@.len() implies #[trigger] map@[k].doc_freq as int
                        == doc_freq_sum(all.take(i as int + 1), map@[k].field_id, map@[k].term_str@) by {
                        lemma_sum_take_step(all, i as int, map@[k].field_id, map@[k].term_str@);
                        if k != j {
                            assert(map@[k] == old_map[k]);
                            assert(!entry_matches(all[i as int], map@[k].field_id, map@[k].term_str@)) by {
                                if entry_matches(all[i as int], map@[k].field_id, map@[k].term_str@) {
                                    assert(old_map[k as int].field_id == f
                                        && old_map[k as int].term_str@ == t);
                                    assert(old_map[j as int].field_id == f
                                        && old_map[j as int].term_str@ == t);
                                    if k < j {
                                        assert(entry_matches(old_map[j as int], old_map[k as int].field_id, old_map[k as int].term_str@));
                                    } else {
                                        assert(entry_matches(old_map[k as int], old_map[j as int].field_id, old_map[j as int].term_str@));
                                    }
                                    assert(false);
                                }
                            }
                        }
                    }
                    assert forall|k: int|
                        0 <= k < map@.len() implies contains_term(
                            all.take(i as int + 1),
                            #[trigger] map@[k].field_id,
                            map@[k].term_str@,
                        ) by {
                        let prev = all.take(i as int);
                        let cur = all.take(i as int + 1);
                        assert(contains_term(prev, map@[k].field_id, map@[k].term_str@));
                        let w = choose|w: int|
                            0 <= w < prev.len() && entry_matches(prev[w], map@[k].field_id, map@[k].term_str@);
                        assert(cur[w] == prev[w]);
                    }
                }
            },
            None => {
                let ghost old_map = map@;
                let fresh = DocWithFreq {
                    term_str: entry.term_str.clone(),
                    field_id: entry.field_id,
                    doc_freq: entry.doc_freq,
                };
                map.push(fresh);
                proof {
                    assert(map@.drop_last() =~= old_map);
                    assert(map@.last() == fresh);
                    assert(fresh.field_id == all[i as int].field_id
                        && fresh.term_str@ == all[i as int].term_str@
                        && fresh.doc_freq == all[i as int].doc_freq);
                    lemma_sum_absent(old_map, f, t);
                    assert forall|f2: u32, t2: Seq<char>|
                        #[trigger] doc_freq_sum(map@, f2, t2) == doc_freq_sum(
                            all.take(i as int + 1),
                            f2,
                            t2,
                        ) by {
                        lemma_sum_take_step(all, i as int, f2, t2);
                        assert(freq_contrib(fresh, f2, t2) == freq_contrib(all[i as int], f2, t2));
                        assert(doc_freq_sum(map@, f2, t2) == doc_freq_sum(old_map, f2, t2)
                            + freq_contrib(fresh, f2, t2));
                    }
                    assert forall|k: int|
                        0 <= k < map@.len() implies #[trigger] map@[k].doc_freq as int
                        == doc_freq_sum(all.take(i as int + 1), map@[k].field_id, map@[k].term_str@) by {
                        lemma_sum_take_step(all, i as int, map@[k].field_id, map@[k].term_str@);
                        if k < map@.len() - 1 {
                            assert(map@[k] == old_map[k]);
                            assert(!entry_matches(all[i as int], map@[k].field_id, map@[k].term_str@)) by {
                                if entry_matches(all[i as int], map@[k].field_id, map@[k].term_str@) {
                                    assert(entry_matches(old_map[k as int], f, t));
                                    assert(contains_term(old_map, f, t));
                                    assert(false);
                                }
                            }
                        } else {
                            assert(entry_matches(all[i as int], f, t));
                        }
                    }
                    assert(distinct_terms(map@)) by {
                        assert forall|a: int, b: int|
                            0 <= a < b < map@.len() implies !entry_matches(
                                map@[b],
                                map@[a].field_id,
                                map@[a].term_str@,
                            ) by {
                            if b < map@.len() - 1 {
                                assert(map@[a] == old_map[a] && map@[b] == old_map[b]);
                            } else {
                                assert(map@[a] == old_map[a] && map@[b] == fresh);
                                if entry_matches(fresh, old_map[a].field_id, old_map[a].term_str@) {
                                    assert(entry_matches(old_map[a], f, t));
                                    assert(contains_term(old_map, f, t));
                                    assert(false);
                                }
                            }
                        }
                    }
                    assert forall|k: int|
                        0 <= k < map@.len() implies contains_term(
                            all.take(i as int + 1),
                            #[trigger] map@[k].field_id,
                            map@[k].term_str@,
                        ) by {
                        let prev = all.take(i as int);
                        let cur = all.take(i as int + 1);
                        if k < map@.len() - 1 {
                            assert(contains_term(prev, map@[k].field_id, map@[k].term_str@));
                            let w = choose|w: int|
                                0 <= w < prev.len() && entry_matches(prev[w], map@[k].field_id, map@[k].term_str@);
                            assert(cur[w] == prev[w]);
                        } else {
                            assert(cur[i as int] == all[i as int]);
                            assert(entry_matches(cur[i as int], map@[k].field_id, map@[k].term_str@));
                        }
                    }
                }
            },
        }
        i += 1;
    }
    proof {
        assert(all.take(n as int) =~= all);
    }
    GlobalStatistics {
        doc_freq_map: map,
        active_field: stats.docs_freq[0].field_id,
        total_num_tokens: stats.total_num_tokens,
        total_num_docs: stats.total_num_docs,
    }
}

} // verus!
