//! Row-liveness filtering and result capping.
//!
//! The engine hands back matching rows ordered by descending score; this
//! module keeps only the rows whose bit is set in the caller's row-filter
//! bitmap (when the filter applies) and cuts the list down to the requested
//! `topk`, preserving the score order throughout.
//!
//! A score is carried as the bit representation of the engine's IEEE
//! single-precision value; BM25 scores are non-negative, and on non-negative
//! values the bit representation orders exactly as the value does.

use vstd::prelude::*;

verus! {

/// One ranked result: a row id, the bit representation of its score, and the
/// stored document when it was requested.
pub struct RowIdWithScore {
    pub row_id: u64,
    pub score_bits: u32,
    pub doc: Option<String>,
}

/// Whether the bitmap marks `row_id` as alive: its bit exists and is set.
pub open spec fn row_alive(bitmap: Seq<u8>, row_id: u64) -> bool {
    &&& row_id / 8 < bitmap.len()
    &&& (bitmap[(row_id / 8) as int] >> (row_id % 8)) & 1 == 1
}

/// Test one row id against the byte-packed row-filter bitmap: one bit per
/// row id, bit set = row alive and eligible.  A row id beyond the bitmap is
/// not alive.
pub fn row_id_alive(bitmap: &Vec<u8>, row_id: u64) -> (r: bool)
    ensures
        r == row_alive(bitmap@, row_id),
{
    let idx = row_id / 8;
    if idx < bitmap.len() as u64 {
        let byte = bitmap[idx as usize];
        (byte >> (row_id % 8)) & 1 == 1
    } else {
        false
    }
}

/// The sub-list of rows whose id the bitmap marks alive, order kept.
pub open spec fn keep_alive(rows: Seq<(u64, u32)>, bitmap: Seq<u8>) -> Seq<(u64, u32)>
    decreases rows.len(),
{
    if rows.len() == 0 {
        Seq::empty()
    } else {
        let prev = keep_alive(rows.drop_last(), bitmap);
        if row_alive(bitmap, rows.last().0) {
            prev.push(rows.last())
        } else {
            prev
        }
    }
}

/// The rows eligible for return: all of them, or the alive ones when the
/// caller asked for the filter.
pub open spec fn eligible_rows(rows: Seq<(u64, u32)>, bitmap: Seq<u8>, apply_filter: bool) -> Seq<
    (u64, u32),
> {
    if apply_filter {
        keep_alive(rows, bitmap)
    } else {
        rows
    }
}

/// The first `topk` entries — all of them when fewer exist.
pub open spec fn capped(s: Seq<(u64, u32)>, topk: u32) -> Seq<(u64, u32)> {
    if s.len() <= topk {
        s
    } else {
        s.take(topk as int)
    }
}

/// Scores never increase along the list.
pub open spec fn sorted_desc(rows: Seq<(u64, u32)>) -> bool {
    forall|i: int, j: int| 0 <= i <= j < rows.len() ==> rows[i].1 >= rows[j].1
}

proof fn lemma_keep_alive_props(rows: Seq<(u64, u32)>, bitmap: Seq<u8>)
    ensures
        forall|k: int|
            0 <= k < keep_alive(rows, bitmap).len() ==> row_alive(
                bitmap,
                (#[trigger] keep_alive(rows, bitmap)[k]).0,
            ),
        forall|k: int|
            0 <= k < keep_alive(rows, bitmap).len() ==> exists|i: int|
                0 <= i < rows.len() && rows[i] == #[trigger] keep_alive(rows, bitmap)[k],
        sorted_desc(rows) ==> sorted_desc(keep_alive(rows, bitmap)),
    decreases rows.len(),
{
    if rows.len() > 0 {
        let prev = rows.drop_last();
        lemma_keep_alive_props(prev, bitmap);
        assert(forall|i: int| 0 <= i < prev.len() ==> prev[i] == rows[i]);
        let kept = keep_alive(rows, bitmap);
        assert forall|k: int|
            0 <= k < kept.len() implies exists|i: int|
            0 <= i < rows.len() && rows[i] == #[trigger] kept[k] by {
            if k < keep_alive(prev, bitmap).len() {
                assert(kept[k] == keep_alive(prev, bitmap)[k]);
                let w = choose|i: int| 0 <= i < prev.len() && prev[i] == keep_alive(prev, bitmap)[k];
                assert(rows[w] == kept[k]);
            } else {
                assert(kept[k] == rows.last());
                assert(rows[rows.len() - 1] == kept[k]);
            }
        }
        if sorted_desc(rows) {
            assert(sorted_desc(prev));
            assert forall|i: int, j: int| 0 <= i <= j < kept.len() implies kept[i].1 >= kept[j].1 by {
                if j < keep_alive(prev, bitmap).len() {
                    assert(kept[i] == keep_alive(prev, bitmap)[i]);
                    assert(kept[j] == keep_alive(prev, bitmap)[j]);
                } else if i < j {
                    assert(kept[j] == rows.last());
                    assert(kept[i] == keep_alive(prev, bitmap)[i]);
                    let w = choose|w: int|
                        0 <= w < prev.len() && prev[w] == keep_alive(prev, bitmap)[i];
                    assert(rows[w].1 >= rows[rows.len() - 1].1);
                }
            }
        }
    }
}

/// Law: capping a descending-score list returns the top of it — every
/// returned row scores at least as high as every row the cap left out, so
/// when more rows are eligible than `topk`, the returned rows are the best
/// `topk` of them.
pub proof fn lemma_cap_returns_the_best(s: Seq<(u64, u32)>, topk: u32)
    requires
        sorted_desc(s),
    ensures
        forall|i: int, j: int|
            0 <= i < capped(s, topk).len() && capped(s, topk).len() <= j < s.len()
                ==> (#[trigger] capped(s, topk)[i]).1 >= (#[trigger] s[j]).1,
{
    assert forall|i: int, j: int|
        0 <= i < capped(s, topk).len() && capped(s, topk).len() <= j < s.len() implies (
    #[trigger] capped(s, topk)[i]).1 >= (#[trigger] s[j]).1 by {
        assert(capped(s, topk)[i] == s[i]);
    }
}

/// Law: against a descending-score match list, what comes back is the top
/// `topk` of the eligible rows.  When more eligible rows match than `topk`,
/// exactly `topk` are returned; otherwise all of them are; the returned list
/// descends by score; and no eligible row left out scores higher than any
/// returned one.
pub proof fn lemma_top_k_of_eligible(
    rows: Seq<(u64, u32)>,
    bitmap: Seq<u8>,
    apply_filter: bool,
    topk: u32,
)
    requires
        sorted_desc(rows),
    ensures
        ({
            let elig = eligible_rows(rows, bitmap, apply_filter);
            let r = capped(elig, topk);
            &&& elig.len() >= topk ==> r.len() == topk
            &&& elig.len() < topk ==> r == elig
            &&& sorted_desc(r)
            &&& forall|i: int, j: int|
                0 <= i < r.len() && r.len() <= j < elig.len() ==> (#[trigger] r[i]).1 >= (
                #[trigger] elig[j]).1
        }),
{
    lemma_keep_alive_props(rows, bitmap);
    let elig = eligible_rows(rows, bitmap, apply_filter);
    assert(sorted_desc(elig));
    lemma_cap_returns_the_best(elig, topk);
}

/// Apply the row filter, then cut the list down to `topk`, keeping the
/// engine's descending-score order.  Every returned row comes from the
/// input; with the filter on, every returned row is alive in the bitmap.
pub fn filter_and_cap(rows: &Vec<(u64, u32)>, bitmap: &Vec<u8>, apply_filter: bool, topk: u32) -> (r:
    Vec<(u64, u32)>)
    ensures
        r@ == capped(eligible_rows(rows@, bitmap@, apply_filter), topk),
        r@.len() <= topk,
        apply_filter ==> forall|k: int|
            0 <= k < r@.len() ==> row_alive(bitmap@, (#[trigger] r@[k]).0),
        forall|k: int|
            0 <= k < r@.len() ==> exists|i: int| 0 <= i < rows@.len() && rows@[i] == #[trigger] r@[k],
        sorted_desc(rows@) ==> sorted_desc(r@),
{
    let mut kept: Vec<(u64, u32)> = Vec::new();
    if apply_filter {
        let mut i: usize = 0;
        while i < rows.len()
            invariant
                i <= rows@.len(),
                kept@ == keep_alive(rows@.take(i as int), bitmap@),
            decreases rows@.len() - i,
        {
            proof {
                assert(rows@.take(i as int + 1).drop_last() =~= rows@.take(i as int));
                assert(rows@.take(i as int + 1).last() == rows@[i as int]);
            }
            if row_id_alive(bitmap, rows[i].0) {
                kept.push(rows[i]);
            }
            i += 1;
        }
        proof {
            assert(rows@.take(rows@.len() as int) =~= rows@);
        }
    } else {
        let mut i: usize = 0;
        while i < rows.len()
            invariant
                i <= rows@.len(),
                kept@ == rows@.take(i as int),
            decreases rows@.len() - i,
        {
            kept.push(rows[i]);
            proof {
                assert(kept@ =~= rows@.take(i as int + 1));
            }
            i += 1;
        }
        proof {
            assert(rows@.take(rows@.len() as int) =~= rows@);
        }
    }
    proof {
        lemma_keep_alive_props(rows@, bitmap@);
    }
    let mut out: Vec<(u64, u32)> = Vec::new();
    let mut j: usize = 0;
    while j < kept.len() && j < topk as usize
        invariant
            j <= kept@.len(),
            j <= topk,
            out@ == kept@.take(j as int),
        decreases kept@.len() - j,
    {
        out.push(kept[j]);
        proof {
            assert(out@ =~= kept@.take(j as int + 1));
        }
        j += 1;
    }
    proof {
        if kept@.len() <= topk {
            assert(out@ =~= kept@);
        }
        let elig = eligible_rows(rows@, bitmap@, apply_filter);
        assert(kept@ == elig);
        assert forall|k: int|
            0 <= k < out@.len() implies exists|i: int|
            0 <= i < rows@.len() && rows@[i] == #[trigger] out@[k] by {
            assert(out@[k] == kept@[k]);
        }
        if sorted_desc(rows@) {
            assert(sorted_desc(kept@));
            assert forall|a: int, b: int| 0 <= a <= b < out@.len() implies out@[a].1 >= out@[b].1 by {
                assert(out@[a] == kept@[a] && out@[b] == kept@[b]);
            }
        }
    }
    out
}

} // verus!
