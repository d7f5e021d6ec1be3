//! The value synthesizer: deterministic, range-pure mappings from a
//! contiguous row-index range to the typed value sequence of one column.
//!
//! Timestamp and integer columns carry the row index itself; text columns
//! carry `"str_"` plus the index, reduced modulo the timeline bound when the
//! column is cardinality-bounded.

use vstd::prelude::*;

use crate::text::lemma_text_value_injective;
use crate::text::render_text_value;
use crate::text::text_value;

verus! {

/// The value sequence of a timestamp or integer column over the range
/// starting at `start` with `len` rows: the row indices themselves, widened
/// to 64 bits.
pub open spec fn index_values(start: nat, len: nat) -> Seq<i64> {
    Seq::new(len, |k: int| (start + k) as i64)
}

/// The text value synthesized for row index `i`. With `bounded` set and an
/// effective bound `m > 0` the index is reduced modulo `m`, so at most `m`
/// distinct values ever appear; otherwise every index gets its own value.
pub open spec fn text_for_row(i: nat, bounded: bool, m: nat) -> Seq<char> {
    if bounded && m > 0 {
        text_value(i % m)
    } else {
        text_value(i)
    }
}

/// The value sequence of a text column over the range starting at `start`
/// with `len` rows.
pub open spec fn text_column_values(start: nat, len: nat, bounded: bool, m: nat) -> Seq<Seq<char>> {
    Seq::new(len, |k: int| text_for_row((start + k) as nat, bounded, m))
}

/// Synthesizes the values of a timestamp or integer column for the row range
/// `[start, end)`.
pub fn synth_index_values(start: usize, end: usize) -> (v: Vec<i64>)
    requires
        start <= end,
        end <= i64::MAX,
    ensures
        v@ == index_values(start as nat, (end - start) as nat),
{
    let mut v: Vec<i64> = Vec::new();
    let mut i = start;
    while i < end
        invariant
            start <= i <= end,
            end <= i64::MAX,
            v@.len() == i - start,
            forall|k: int| 0 <= k < v@.len() ==> v@[k] == (start + k) as i64,
        decreases end - i,
    {
        v.push(i as i64);
        i += 1;
    }
    proof {
        assert(v@ =~= index_values(start as nat, (end - start) as nat));
    }
    v
}

/// Synthesizes the values of a text column for the row range `[start, end)`.
pub fn synth_text_values(start: usize, end: usize, bounded: bool, max_timeline: usize) -> (v: Vec<
    String,
>)
    requires
        start <= end,
    ensures
        v@.len() == end - start,
        forall|k: int|
            0 <= k < v@.len() ==> v@[k]@ == text_column_values(
                start as nat,
                (end - start) as nat,
                bounded,
                max_timeline as nat,
            )[k],
{
    let mut v: Vec<String> = Vec::new();
    let mut i = start;
    while i < end
        invariant
            start <= i <= end,
            v@.len() == i - start,
            forall|k: int|
                0 <= k < v@.len() ==> v@[k]@ == text_for_row(
                    (start + k) as nat,
                    bounded,
                    max_timeline as nat,
                ),
        decreases end - i,
    {
        let s = if bounded && max_timeline > 0 {
            render_text_value(i % max_timeline)
        } else {
            render_text_value(i)
        };
        v.push(s);
        i += 1;
    }
    v
}

/// Two row indices in the same residue class modulo the bound synthesize the
/// same bounded text value.
pub proof fn lemma_bounded_text_repeats(i: nat, j: nat, m: nat)
    requires
        m > 0,
        i % m == j % m,
    ensures
        text_for_row(i, true, m) == text_for_row(j, true, m),
{
}

/// Over any range, a bounded text column with bound `m > 0` takes at most `m`
/// distinct values.
pub proof fn lemma_bounded_text_cardinality(start: nat, len: nat, m: nat)
    requires
        m > 0,
    ensures
        text_column_values(start, len, true, m).to_set().finite(),
        text_column_values(start, len, true, m).to_set().len() <= m,
{
    broadcast use vstd::seq_lib::seq_to_set_is_finite;

    let vals = text_column_values(start, len, true, m);
    let residues = Seq::new(m, |r: int| text_value(r as nat));
    assert forall|v: Seq<char>| vals.to_set().contains(v) implies residues.to_set().contains(
        v,
    ) by {
        let k = choose|k: int| 0 <= k < vals.len() && vals[k] == v;
        let r = (((start + k) as nat) % m) as int;
        assert(residues[r] == v);
        assert(residues.contains(v));
    }
    assert(vals.to_set().subset_of(residues.to_set()));
    residues.lemma_cardinality_of_set();
    vstd::set_lib::lemma_len_subset(vals.to_set(), residues.to_set());
}

/// Without an effective bound (the column is not in `gen_by`, or the bound is
/// zero), the values over a contiguous range are pairwise distinct.
pub proof fn lemma_unbounded_text_distinct(
    start: nat,
    len: nat,
    bounded: bool,
    m: nat,
    i: int,
    j: int,
)
    requires
        !(bounded && m > 0),
        0 <= i < len,
        0 <= j < len,
        i != j,
    ensures
        text_column_values(start, len, bounded, m)[i] != text_column_values(
            start,
            len,
            bounded,
            m,
        )[j],
{
    let vals = text_column_values(start, len, bounded, m);
    if vals[i] == vals[j] {
        lemma_text_value_injective((start + i) as nat, (start + j) as nat);
    }
}

} // verus!
