use flow_stress_test::batch::ColumnValues;
use flow_stress_test::batch::WriteBatch;
use flow_stress_test::batch::gen_range_insert_reqs;
use flow_stress_test::schema::ColumnDef;
use flow_stress_test::schema::Config;
use flow_stress_test::schema::SemanticType;
use flow_stress_test::schema::default_semantic_type;

fn base_config() -> Config {
    Config {
        table_schema: vec![
            ColumnDef {
                name: String::from("ts"),
                data_type: String::from("TIMESTAMP(3)"),
                semantic: SemanticType::Timestamp,
            },
            ColumnDef {
                name: String::from("tag"),
                data_type: String::from("STRING"),
                semantic: SemanticType::Tag,
            },
            ColumnDef {
                name: String::from("val"),
                data_type: String::from("BIGINT"),
                semantic: default_semantic_type(),
            },
        ],
        gen_by: vec![String::from("tag")],
    }
}

fn i64_values(batch: &WriteBatch, idx: usize) -> Vec<i64> {
    match &batch.columns[idx].values {
        ColumnValues::TimestampMillisecond(v) => v.clone(),
        ColumnValues::Int64(v) => v.clone(),
        ColumnValues::Text(_) => panic!("expected an integer column"),
    }
}

fn text_values(batch: &WriteBatch, idx: usize) -> Vec<String> {
    match &batch.columns[idx].values {
        ColumnValues::Text(v) => v.clone(),
        _ => panic!("expected a text column"),
    }
}

#[test]
fn bounded_schema_scenario() {
    let cfg = base_config();
    let batch = gen_range_insert_reqs("base_table", 100, 105, &cfg, 5);
    assert_eq!(batch.table_name, "base_table");
    assert_eq!(batch.row_count, 5);
    assert_eq!(batch.columns.len(), 3);
    assert_eq!(batch.columns[0].column_name, "ts");
    assert_eq!(batch.columns[1].column_name, "tag");
    assert_eq!(batch.columns[2].column_name, "val");
    assert_eq!(i64_values(&batch, 0), vec![100, 101, 102, 103, 104]);
    assert_eq!(
        text_values(&batch, 1),
        vec!["str_0", "str_1", "str_2", "str_3", "str_4"]
    );
    assert_eq!(i64_values(&batch, 2), vec![100, 101, 102, 103, 104]);
}

#[test]
fn unbounded_schema_scenario() {
    let cfg = base_config();
    let batch = gen_range_insert_reqs("base_table", 0, 3, &cfg, 0);
    assert_eq!(text_values(&batch, 1), vec!["str_0", "str_1", "str_2"]);
}

#[test]
fn unrecognized_type_column_is_omitted() {
    let mut cfg = base_config();
    cfg.table_schema.insert(
        1,
        ColumnDef {
            name: String::from("blob"),
            data_type: String::from("VARBINARY"),
            semantic: SemanticType::Field,
        },
    );
    let batch = gen_range_insert_reqs("base_table", 10, 14, &cfg, 0);
    assert_eq!(batch.row_count, 4);
    assert_eq!(batch.columns.len(), 3);
    assert_eq!(batch.columns[0].column_name, "ts");
    assert_eq!(batch.columns[1].column_name, "tag");
    assert_eq!(batch.columns[2].column_name, "val");
}

#[test]
fn all_columns_dropped_is_still_valid() {
    let cfg = Config {
        table_schema: vec![ColumnDef {
            name: String::from("x"),
            data_type: String::from("DOUBLE"),
            semantic: SemanticType::Field,
        }],
        gen_by: vec![],
    };
    let batch = gen_range_insert_reqs("base_table", 0, 7, &cfg, 0);
    assert_eq!(batch.row_count, 7);
    assert!(batch.columns.is_empty());
}

#[test]
fn empty_schema_keeps_row_count() {
    let cfg = Config { table_schema: vec![], gen_by: vec![] };
    let batch = gen_range_insert_reqs("base_table", 5, 9, &cfg, 3);
    assert_eq!(batch.row_count, 4);
    assert!(batch.columns.is_empty());
}

#[test]
fn all_column_lengths_equal_range_length() {
    let cfg = base_config();
    let batch = gen_range_insert_reqs("base_table", 40, 61, &cfg, 2);
    for idx in 0..batch.columns.len() {
        let len = match &batch.columns[idx].values {
            ColumnValues::TimestampMillisecond(v) => v.len(),
            ColumnValues::Text(v) => v.len(),
            ColumnValues::Int64(v) => v.len(),
        };
        assert_eq!(len, 21);
    }
}

#[test]
fn gen_by_name_without_column_is_inert() {
    let mut cfg = base_config();
    cfg.gen_by = vec![String::from("no_such_column")];
    let batch = gen_range_insert_reqs("base_table", 0, 4, &cfg, 2);
    assert_eq!(
        text_values(&batch, 1),
        vec!["str_0", "str_1", "str_2", "str_3"]
    );
}

#[test]
fn bound_without_gen_by_membership_is_inert() {
    let mut cfg = base_config();
    cfg.gen_by = vec![];
    let batch = gen_range_insert_reqs("base_table", 0, 4, &cfg, 2);
    assert_eq!(
        text_values(&batch, 1),
        vec!["str_0", "str_1", "str_2", "str_3"]
    );
}
