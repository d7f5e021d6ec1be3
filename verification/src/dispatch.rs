//! The dispatch planner: how many batches one tick issues, which row range
//! each batch covers, and how the row cursor advances.
//!
//! The cursor is the loop's only persistent state. It advances by exactly
//! the batch size on every iteration — a failed submission never rewinds it
//! and its range is never revisited. Per tick the burst size is the target
//! rate floor-divided by the batch size, so the achieved rate may truncate
//! below the nominal one; that truncation is part of the contract.

use vstd::arithmetic::div_mod::lemma_fundamental_div_mod;
use vstd::arithmetic::mul::lemma_mul_inequality;
use vstd::prelude::*;

use crate::batch::WriteBatch;
use crate::batch::batch_matches;
use crate::batch::gen_range_insert_reqs;
use crate::schema::Config;

verus! {

/// How many batches one tick issues: the per-second row target divided by
/// the rows per batch, rounded down.
pub open spec fn spec_batches_per_tick(rps: nat, rows_per_batch: nat) -> nat
    recommends
        rows_per_batch > 0,
{
    rps / rows_per_batch
}

/// Computes the burst size of one tick.
pub fn batches_per_tick(rps: usize, rows_per_batch: usize) -> (n: usize)
    requires
        rows_per_batch > 0,
    ensures
        n == spec_batches_per_tick(rps as nat, rows_per_batch as nat),
{
    rps / rows_per_batch
}

/// One dispatch iteration: builds the batch for the next `rows_per_batch`
/// rows and advances the cursor. The cursor advances whether or not the
/// submission of the returned batch will succeed.
pub fn dispatch_step(
    table_name: &str,
    cursor: usize,
    rows_per_batch: usize,
    cfg: &Config,
    max_timeline: usize,
) -> (r: (WriteBatch, usize))
    requires
        cursor + rows_per_batch <= usize::MAX,
        cursor + rows_per_batch <= i64::MAX,
        rows_per_batch <= u32::MAX,
    ensures
        batch_matches(
            r.0,
            table_name@,
            cursor as nat,
            (cursor + rows_per_batch) as nat,
            *cfg,
            max_timeline as nat,
        ),
        r.1 == cursor + rows_per_batch,
{
    let b = gen_range_insert_reqs(table_name, cursor, cursor + rows_per_batch, cfg, max_timeline);
    (b, cursor + rows_per_batch)
}

/// Whether an iteration at this cursor crosses a progress-report boundary:
/// the cursor is a multiple of ten seconds' worth of rows.
pub fn should_log_progress(cursor: usize, rps: usize) -> (b: bool)
    requires
        rps > 0,
        rps * 10 <= usize::MAX,
    ensures
        b == (cursor as int % (rps * 10) == 0),
{
    cursor % (rps * 10) == 0
}

/// The cursor after `n` dispatch iterations that started at `start`.
pub open spec fn cursor_after_steps(start: nat, rows_per_batch: nat, n: nat) -> nat
    decreases n,
{
    if n == 0 {
        start
    } else {
        cursor_after_steps(start, rows_per_batch, (n - 1) as nat) + rows_per_batch
    }
}

/// The cursor advances by exactly `rows_per_batch` per iteration, so after
/// `n` iterations it stands at `start + n * rows_per_batch`.
pub proof fn lemma_cursor_after_steps(start: nat, rows_per_batch: nat, n: nat)
    ensures
        cursor_after_steps(start, rows_per_batch, n) == start + n * rows_per_batch,
    decreases n,
{
    if n > 0 {
        let m = (n - 1) as nat;
        lemma_cursor_after_steps(start, rows_per_batch, m);
        assert(cursor_after_steps(start, rows_per_batch, n) == cursor_after_steps(
            start,
            rows_per_batch,
            m,
        ) + rows_per_batch);
        assert(m * rows_per_batch + rows_per_batch == n * rows_per_batch) by (nonlinear_arith)
            requires
                n > 0,
                m == n - 1,
        ;
    } else {
        assert(n * rows_per_batch == 0) by (nonlinear_arith)
            requires
                n == 0,
        ;
    }
}

/// One burst: builds the tick's batches back to back. Exactly
/// `rps / rows_per_batch` batches come out, covering consecutive ranges of
/// `rows_per_batch` rows from `cursor` on, and the returned cursor has
/// advanced past all of them.
pub fn run_tick(
    table_name: &str,
    cursor: usize,
    rps: usize,
    rows_per_batch: usize,
    cfg: &Config,
    max_timeline: usize,
) -> (r: (Vec<WriteBatch>, usize))
    requires
        rows_per_batch > 0,
        rows_per_batch <= u32::MAX,
        cursor + rps <= usize::MAX,
        cursor + rps <= i64::MAX,
    ensures
        r.0@.len() == spec_batches_per_tick(rps as nat, rows_per_batch as nat),
        r.1 == cursor + r.0@.len() * rows_per_batch,
        forall|k: int|
            0 <= k < r.0@.len() ==> batch_matches(
                #[trigger] r.0@[k],
                table_name@,
                (cursor + k * rows_per_batch) as nat,
                (cursor + (k + 1) * rows_per_batch) as nat,
                *cfg,
                max_timeline as nat,
            ),
{
    let n = batches_per_tick(rps, rows_per_batch);
    proof {
        lemma_fundamental_div_mod(rps as int, rows_per_batch as int);
    }
    let mut batches: Vec<WriteBatch> = Vec::new();
    let mut cur = cursor;
    let mut k: usize = 0;
    while k < n
        invariant
            k <= n,
            rows_per_batch > 0,
            rows_per_batch <= u32::MAX,
            cursor + rps <= usize::MAX,
            cursor + rps <= i64::MAX,
            n == spec_batches_per_tick(rps as nat, rows_per_batch as nat),
            n * rows_per_batch <= rps,
            cur == cursor + k * rows_per_batch,
            batches@.len() == k,
            forall|j: int|
                0 <= j < k ==> batch_matches(
                    #[trigger] batches@[j],
                    table_name@,
                    (cursor + j * rows_per_batch) as nat,
                    (cursor + (j + 1) * rows_per_batch) as nat,
                    *cfg,
                    max_timeline as nat,
                ),
        decreases n - k,
    {
        proof {
            lemma_mul_inequality((k + 1) as int, n as int, rows_per_batch as int);
            assert(k * rows_per_batch + rows_per_batch == (k + 1) * rows_per_batch)
                by (nonlinear_arith);
        }
        let (b, next) = dispatch_step(table_name, cur, rows_per_batch, cfg, max_timeline);
        batches.push(b);
        cur = next;
        k += 1;
    }
    (batches, cur)
}

} // verus!
