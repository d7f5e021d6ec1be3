//! The batch builder: assembles the per-column value sequences for one
//! row-index range into a single write batch.
//!
//! Columns are visited in schema declaration order; a column whose declared
//! type is unsupported is dropped from the batch entirely, which never
//! affects the batch's row count. A batch that retains no column at all is
//! still a valid batch.

use vstd::prelude::*;

use crate::schema::ColumnDataType;
use crate::schema::ColumnDef;
use crate::schema::Config;
use crate::schema::SemanticType;
use crate::schema::column_type_of;
use crate::schema::contains_name;
use crate::schema::spec_column_type;
use crate::schema::spec_is_bounded;
use crate::synth::index_values;
use crate::synth::synth_index_values;
use crate::synth::synth_text_values;
use crate::synth::text_column_values;

verus! {

/// The typed value sequence of one synthesized column.
#[derive(Debug)]
pub enum ColumnValues {
    TimestampMillisecond(Vec<i64>),
    Text(Vec<String>),
    Int64(Vec<i64>),
}

impl ColumnValues {
    /// How many rows the sequence holds.
    pub open spec fn spec_len(self) -> nat {
        match self {
            ColumnValues::TimestampMillisecond(v) => v@.len(),
            ColumnValues::Text(v) => v@.len(),
            ColumnValues::Int64(v) => v@.len(),
        }
    }
}

/// One synthesized column of a write batch.
#[derive(Debug)]
pub struct ColumnBatch {
    pub column_name: String,
    pub semantic: SemanticType,
    pub datatype: ColumnDataType,
    pub values: ColumnValues,
}

impl ColumnBatch {
    /// How many rows the column holds.
    pub open spec fn spec_len(self) -> nat {
        self.values.spec_len()
    }
}

/// One write request: the retained columns for a row range, in schema order,
/// and the number of rows the range covers.
#[derive(Debug)]
pub struct WriteBatch {
    pub table_name: String,
    pub columns: Vec<ColumnBatch>,
    pub row_count: u32,
}

/// Whether a column with this definition is synthesized at all.
pub open spec fn supported(def: ColumnDef) -> bool {
    spec_column_type(def.data_type@) is Some
}

/// The subsequence of `defs` that the batch builder retains, in order.
pub open spec fn retained_defs(defs: Seq<ColumnDef>) -> Seq<ColumnDef>
    decreases defs.len(),
{
    if defs.len() == 0 {
        Seq::empty()
    } else {
        let rest = retained_defs(defs.drop_last());
        if supported(defs.last()) {
            rest.push(defs.last())
        } else {
            rest
        }
    }
}

/// What one synthesized column must hold for the definition `def` over the
/// row range `[start, end)` under the bound `m`.
pub open spec fn column_matches(
    cb: ColumnBatch,
    def: ColumnDef,
    start: nat,
    end: nat,
    bounded: bool,
    m: nat,
) -> bool {
    &&& cb.column_name@ == def.name@
    &&& cb.semantic == def.semantic
    &&& spec_column_type(def.data_type@) == Some(cb.datatype)
    &&& match cb.values {
        ColumnValues::TimestampMillisecond(v) => {
            &&& cb.datatype == ColumnDataType::TimestampMillisecond
            &&& v@ == index_values(start, (end - start) as nat)
        },
        ColumnValues::Text(v) => {
            &&& cb.datatype == ColumnDataType::Text
            &&& v@.len() == end - start
            &&& forall|k: int|
                0 <= k < v@.len() ==> v@[k]@ == text_column_values(
                    start,
                    (end - start) as nat,
                    bounded,
                    m,
                )[k]
        },
        ColumnValues::Int64(v) => {
            &&& cb.datatype == ColumnDataType::Int64
            &&& v@ == index_values(start, (end - start) as nat)
        },
    }
}

/// What a whole write batch must hold for the table `table`, the row range
/// `[start, end)`, the schema `cfg` and the timeline bound `m`: the row
/// count is the range's length, and the columns are exactly the retained
/// definitions, in schema order, each with its synthesized values.
pub open spec fn batch_matches(
    b: WriteBatch,
    table: Seq<char>,
    start: nat,
    end: nat,
    cfg: Config,
    m: nat,
) -> bool {
    &&& b.table_name@ == table
    &&& b.row_count == end - start
    &&& b.columns@.len() == retained_defs(cfg.table_schema@).len()
    &&& forall|k: int|
        0 <= k < b.columns@.len() ==> column_matches(
            #[trigger] b.columns@[k],
            retained_defs(cfg.table_schema@)[k],
            start,
            end,
            spec_is_bounded(cfg, retained_defs(cfg.table_schema@)[k].name@),
            m,
        )
    &&& forall|k: int| 0 <= k < b.columns@.len() ==> (#[trigger] b.columns@[k]).spec_len() == end
        - start
}

/// Retaining a prefix one definition longer extends the retained sequence by
/// that definition exactly when it is supported.
proof fn lemma_retained_take_step(defs: Seq<ColumnDef>, i: int)
    requires
        0 <= i < defs.len(),
    ensures
        retained_defs(defs.take(i + 1)) == if supported(defs[i]) {
            retained_defs(defs.take(i)).push(defs[i])
        } else {
            retained_defs(defs.take(i))
        },
{
    assert(defs.take(i + 1).drop_last() =~= defs.take(i));
    assert(defs.take(i + 1).last() == defs[i]);
}

/// Dropping an unsupported definition leaves the retained columns unchanged.
pub proof fn lemma_drop_unsupported(defs: Seq<ColumnDef>, i: int)
    requires
        0 <= i < defs.len(),
        !supported(defs[i]),
    ensures
        retained_defs(defs.remove(i)) == retained_defs(defs),
    decreases defs.len(),
{
    if i == defs.len() - 1 {
        assert(defs.remove(i) =~= defs.drop_last());
    } else {
        assert(defs.remove(i).drop_last() =~= defs.drop_last().remove(i));
        assert(defs.remove(i).last() == defs.last());
        lemma_drop_unsupported(defs.drop_last(), i);
    }
}

/// Builds the write batch for the row range `[start, end)`: one column per
/// supported definition of the schema, in declaration order, with the row
/// count set to the range's length whether or not any column was retained.
pub fn gen_range_insert_reqs(
    table_name: &str,
    start: usize,
    end: usize,
    cfg: &Config,
    max_timeline: usize,
) -> (r: WriteBatch)
    requires
        start <= end,
        end - start <= u32::MAX,
        end <= i64::MAX,
    ensures
        batch_matches(r, table_name@, start as nat, end as nat, *cfg, max_timeline as nat),
{
    let row_count: u32 = (end - start) as u32;
    let mut columns: Vec<ColumnBatch> = Vec::new();
    let defs = &cfg.table_schema;
    let mut di: usize = 0;
    while di < defs.len()
        invariant
            start <= end <= i64::MAX,
            di <= defs@.len(),
            defs == cfg.table_schema,
            columns@.len() == retained_defs(defs@.take(di as int)).len(),
            forall|k: int|
                0 <= k < columns@.len() ==> column_matches(
                    #[trigger] columns@[k],
                    retained_defs(defs@.take(di as int))[k],
                    start as nat,
                    end as nat,
                    spec_is_bounded(*cfg, retained_defs(defs@.take(di as int))[k].name@),
                    max_timeline as nat,
                ),
            forall|k: int|
                0 <= k < columns@.len() ==> (#[trigger] columns@[k]).spec_len() == end - start,
        decreases defs@.len() - di,
    {
        let def = &defs[di];
        match column_type_of(&def.data_type) {
            None => {},
            Some(datatype) => {
                let bounded = contains_name(&cfg.gen_by, &def.name);
                let values = match datatype {
                    ColumnDataType::TimestampMillisecond => ColumnValues::TimestampMillisecond(
                        synth_index_values(start, end),
                    ),
                    ColumnDataType::Text => ColumnValues::Text(
                        synth_text_values(start, end, bounded, max_timeline),
                    ),
                    ColumnDataType::Int64 => ColumnValues::Int64(synth_index_values(start, end)),
                };
                let cb = ColumnBatch {
                    column_name: def.name.clone(),
                    semantic: def.semantic,
                    datatype,
                    values,
                };
                columns.push(cb);
            },
        }
        proof {
            lemma_retained_take_step(defs@, di as int);
        }
        di += 1;
    }
    proof {
        assert(defs@.take(defs@.len() as int) =~= defs@);
    }
    WriteBatch { table_name: String::from_str(table_name), columns, row_count }
}

} // verus!
