//! The table schema: ordered column definitions plus the set of
//! cardinality-bounded ("gen_by") column names.
//!
//! A schema is loaded once at startup and read-only afterwards; nothing here
//! mutates it.

use vstd::prelude::*;

verus! {

/// The semantic role of a column. Defaults to `Field` when the schema source
/// leaves it unspecified.
#[derive(Clone, Copy, Debug, PartialEq, Eq, Structural)]
pub enum SemanticType {
    Tag,
    Field,
    Timestamp,
}

/// The role a column gets when the schema source does not name one.
pub fn default_semantic_type() -> (s: SemanticType)
    ensures
        s == SemanticType::Field,
{
    SemanticType::Field
}

/// The concrete data types the synthesizer can emit.
#[derive(Clone, Copy, Debug, PartialEq, Eq, Structural)]
pub enum ColumnDataType {
    TimestampMillisecond,
    Text,
    Int64,
}

/// One column of the table: its name, its declared type as the schema source
/// spells it, and its semantic role.
#[derive(Debug)]
pub struct ColumnDef {
    pub name: String,
    pub data_type: String,
    pub semantic: SemanticType,
}

/// The declarative table schema: the ordered column definitions and the names
/// of the columns whose value cardinality is bounded. A name in `gen_by` that
/// matches no column is silently inert.
#[derive(Debug)]
pub struct Config {
    pub table_schema: Vec<ColumnDef>,
    pub gen_by: Vec<String>,
}

/// The data type a declared type string maps to; `None` means the column is
/// unsupported and will be dropped from every batch.
pub open spec fn spec_column_type(s: Seq<char>) -> Option<ColumnDataType> {
    if s == "TIMESTAMP(3)"@ {
        Some(ColumnDataType::TimestampMillisecond)
    } else if s == "STRING"@ {
        Some(ColumnDataType::Text)
    } else if s == "BIGINT"@ {
        Some(ColumnDataType::Int64)
    } else {
        None
    }
}

/// Maps a declared type string to the synthesizer's data type.
pub fn column_type_of(data_type: &String) -> (t: Option<ColumnDataType>)
    ensures
        t == spec_column_type(data_type@),
{
    let ts = String::from_str("TIMESTAMP(3)");
    let st = String::from_str("STRING");
    let bi = String::from_str("BIGINT");
    if *data_type == ts {
        Some(ColumnDataType::TimestampMillisecond)
    } else if *data_type == st {
        Some(ColumnDataType::Text)
    } else if *data_type == bi {
        Some(ColumnDataType::Int64)
    } else {
        None
    }
}

/// Whether `name` occurs among `names`.
pub open spec fn spec_contains_name(names: Seq<String>, name: Seq<char>) -> bool {
    exists|k: int| 0 <= k < names.len() && names[k]@ == name
}

/// Whether the column called `name` is cardinality-bounded under `cfg`.
pub open spec fn spec_is_bounded(cfg: Config, name: Seq<char>) -> bool {
    spec_contains_name(cfg.gen_by@, name)
}

/// Looks `name` up among `names`.
pub fn contains_name(names: &Vec<String>, name: &String) -> (b: bool)
    ensures
        b == spec_contains_name(names@, name@),
{
    let mut idx: usize = 0;
    while idx < names.len()
        invariant
            idx <= names@.len(),
            forall|k: int| 0 <= k < idx ==> names@[k]@ != name@,
        decreases names@.len() - idx,
    {
        if names[idx] == *name {
            return true;
        }
        idx += 1;
    }
    false
}

} // verus!
