use flow_stress_test::synth::synth_index_values;
use flow_stress_test::synth::synth_text_values;
use flow_stress_test::text::format_usize;
use flow_stress_test::text::render_text_value;

#[test]
fn format_single_digits() {
    assert_eq!(format_usize(0), "0");
    assert_eq!(format_usize(7), "7");
    assert_eq!(format_usize(9), "9");
}

#[test]
fn format_multi_digits() {
    assert_eq!(format_usize(10), "10");
    assert_eq!(format_usize(12345), "12345");
    assert_eq!(format_usize(1000000), "1000000");
    assert_eq!(format_usize(4294967295), "4294967295");
}

#[test]
fn render_text_prefix() {
    assert_eq!(render_text_value(0), "str_0");
    assert_eq!(render_text_value(42), "str_42");
    assert_eq!(render_text_value(100000), "str_100000");
}

#[test]
fn index_values_identity() {
    let v = synth_index_values(100, 105);
    assert_eq!(v, vec![100, 101, 102, 103, 104]);
}

#[test]
fn index_values_empty_range() {
    let v = synth_index_values(7, 7);
    assert!(v.is_empty());
}

#[test]
fn text_values_length_matches_range() {
    assert_eq!(synth_text_values(0, 10, false, 0).len(), 10);
    assert_eq!(synth_text_values(50, 60, true, 4).len(), 10);
    assert_eq!(synth_text_values(3, 3, true, 4).len(), 0);
}

#[test]
fn bounded_text_cycles_through_bound() {
    let v = synth_text_values(0, 9, true, 3);
    assert_eq!(
        v,
        vec!["str_0", "str_1", "str_2", "str_0", "str_1", "str_2", "str_0", "str_1", "str_2"]
    );
}

#[test]
fn bounded_text_distinct_values_at_most_bound() {
    let v = synth_text_values(17, 117, true, 5);
    let mut distinct: Vec<&String> = Vec::new();
    for s in &v {
        if !distinct.contains(&s) {
            distinct.push(s);
        }
    }
    assert!(distinct.len() <= 5);
}

#[test]
fn bounded_text_repeats_on_same_residue() {
    let v = synth_text_values(0, 20, true, 7);
    for i in 0..20 {
        for j in 0..20 {
            if i % 7 == j % 7 {
                assert_eq!(v[i], v[j]);
            }
        }
    }
}

#[test]
fn unbounded_text_pairwise_distinct() {
    let v = synth_text_values(990, 1010, false, 5);
    for i in 0..v.len() {
        for j in 0..v.len() {
            if i != j {
                assert_ne!(v[i], v[j]);
            }
        }
    }
}

#[test]
fn zero_bound_text_pairwise_distinct() {
    let v = synth_text_values(0, 30, true, 0);
    for i in 0..v.len() {
        for j in 0..v.len() {
            if i != j {
                assert_ne!(v[i], v[j]);
            }
        }
    }
}
