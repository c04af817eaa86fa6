use trustfall_core::context::{field_refs_match, rows_match, types_match, values_match, vertices_match, DataContext};
use trustfall_core::ir::{ContextField, Eid, FieldRef, FieldType, FoldSpecificField, FoldSpecificFieldKind, Vid};
use trustfall_core::value::FieldValue;

fn row(n: u64) -> DataContext<u64> {
    DataContext {
        active_vertex: Some(n),
        vertices: vec![(Vid(1), Some(n))],
        values: vec![],
        suspended_vertices: vec![],
        folded_contexts: vec![],
        folded_values: vec![],
        piggyback: None,
        imported_tags: vec![],
    }
}

fn numbers(ns: &[i64]) -> FieldValue {
    FieldValue::List(ns.iter().map(|n| FieldValue::Int64(*n)).collect())
}

#[test]
fn fold_outputs_have_one_value_per_folded_row() {
    let mut context = row(2);
    assert!(context.has_agreeing_fold_counts());
    context.folded_contexts = vec![(Eid(1), vec![row(2), row(3), row(4), row(5)]), (Eid(2), vec![])];
    context.folded_values = vec![
        ((Eid(1), "seq".to_string()), numbers(&[2, 3, 4, 5])),
        ((Eid(1), "doubled".to_string()), numbers(&[4, 6, 8, 10])),
        ((Eid(2), "none".to_string()), numbers(&[])),
    ];
    assert!(context.has_agreeing_fold_counts());
    context.folded_values[1].1 = numbers(&[4, 6, 8]);
    assert!(!context.has_agreeing_fold_counts());
    context.folded_values[1].1 = FieldValue::Null;
    assert!(!context.has_agreeing_fold_counts());
    context.folded_values[1] = ((Eid(9), "elsewhere".to_string()), numbers(&[]));
    assert!(!context.has_agreeing_fold_counts());
}

#[test]
fn bindings_are_found_by_vertex() {
    let mut context = row(7);
    context.vertices.push((Vid(2), None));
    context.vertices.push((Vid(1), Some(9)));
    assert_eq!(context.binding(Vid(1)), Some(&Some(7)));
    assert_eq!(context.binding(Vid(2)), Some(&None));
    assert_eq!(context.binding(Vid(3)), None);
}

#[test]
fn parts_of_rows_compare_by_content() {
    assert!(vertices_match(&Some(1u64), &Some(1u64)));
    assert!(!vertices_match(&Some(1u64), &Some(2u64)));
    assert!(!vertices_match(&Some(1u64), &None));
    assert!(vertices_match::<u64>(&None, &None));
    let int = FieldType { base: "Int".to_string(), nullable: true };
    assert!(types_match(&int, &int.clone()));
    assert!(!types_match(&int, &FieldType { base: "Int".to_string(), nullable: false }));
    assert!(!types_match(&int, &FieldType { base: "String".to_string(), nullable: true }));
    let value = FieldRef::ContextField(ContextField { vertex_id: Vid(1), field_name: "value".to_string(), field_type: int.clone() });
    let name = FieldRef::ContextField(ContextField { vertex_id: Vid(1), field_name: "name".to_string(), field_type: int.clone() });
    let elsewhere = FieldRef::ContextField(ContextField { vertex_id: Vid(2), field_name: "value".to_string(), field_type: int.clone() });
    let count = FieldRef::FoldSpecificField(FoldSpecificField { fold_eid: Eid(1), fold_root_vid: Vid(2), kind: FoldSpecificFieldKind::Count });
    let other_count = FieldRef::FoldSpecificField(FoldSpecificField { fold_eid: Eid(2), fold_root_vid: Vid(2), kind: FoldSpecificFieldKind::Count });
    assert!(field_refs_match(&value, &value.clone()));
    assert!(!field_refs_match(&value, &name));
    assert!(!field_refs_match(&value, &elsewhere));
    assert!(!field_refs_match(&value, &count));
    assert!(field_refs_match(&count, &count.clone()));
    assert!(!field_refs_match(&count, &other_count));
    assert!(values_match(&vec![FieldValue::Int64(1)], &vec![FieldValue::Int64(1)]));
    assert!(!values_match(&vec![FieldValue::Int64(1)], &vec![FieldValue::Uint64(1)]));
    assert!(!values_match(&vec![FieldValue::Int64(1)], &vec![]));
    assert!(rows_match(&vec![row(1), row(2)], &vec![row(1), row(2)]));
    assert!(!rows_match(&vec![row(1), row(2)], &vec![row(2), row(1)]));
    assert!(!rows_match(&vec![row(1)], &vec![row(1), row(2)]));
}

#[test]
fn tables_of_a_row_compare_as_mappings() {
    let int = FieldType { base: "Int".to_string(), nullable: true };
    let value = FieldRef::ContextField(ContextField { vertex_id: Vid(1), field_name: "value".to_string(), field_type: int.clone() });
    let name = FieldRef::ContextField(ContextField { vertex_id: Vid(1), field_name: "name".to_string(), field_type: int.clone() });
    let mut a = row(1);
    a.vertices = vec![(Vid(1), Some(1)), (Vid(2), None)];
    a.folded_contexts = vec![(Eid(1), vec![row(2), row(3)]), (Eid(2), vec![])];
    a.folded_values = vec![((Eid(1), "seq".to_string()), numbers(&[2, 3])), ((Eid(2), "seq".to_string()), numbers(&[]))];
    a.imported_tags = vec![(value.clone(), FieldValue::Int64(4)), (name.clone(), FieldValue::Null)];
    let mut b = row(1);
    b.vertices = vec![(Vid(2), None), (Vid(1), Some(1))];
    b.folded_contexts = vec![(Eid(2), vec![]), (Eid(1), vec![row(2), row(3)])];
    b.folded_values = vec![((Eid(2), "seq".to_string()), numbers(&[])), ((Eid(1), "seq".to_string()), numbers(&[2, 3]))];
    b.imported_tags = vec![(name.clone(), FieldValue::Null), (value.clone(), FieldValue::Int64(4))];
    assert!(a == b);
    assert!(b == a);

    // The rows of one fold are a list: their order counts.
    let mut c = row(1);
    c.vertices = a.vertices.clone();
    c.folded_contexts = vec![(Eid(1), vec![row(3), row(2)]), (Eid(2), vec![])];
    c.folded_values = vec![((Eid(1), "seq".to_string()), numbers(&[2, 3])), ((Eid(2), "seq".to_string()), numbers(&[]))];
    c.imported_tags = vec![(value.clone(), FieldValue::Int64(4)), (name.clone(), FieldValue::Null)];
    assert!(a != c);

    // A key that only one of the two holds tells them apart, either way round.
    let mut d = row(1);
    d.vertices = vec![(Vid(1), Some(1))];
    let mut e = row(1);
    e.vertices = vec![(Vid(1), Some(1)), (Vid(2), None)];
    assert!(d != e);
    assert!(e != d);
    let mut f = row(1);
    f.folded_contexts = vec![(Eid(1), vec![])];
    assert!(f != row(1));
    assert!(row(1) != f);

    // Of two entries under one key the first counts.
    let mut g = row(1);
    g.vertices = vec![(Vid(1), Some(1)), (Vid(1), Some(8))];
    assert!(g == row(1));
}

#[test]
fn a_key_that_stands_twice_is_found() {
    let int = FieldType { base: "Int".to_string(), nullable: true };
    let value = FieldRef::ContextField(ContextField { vertex_id: Vid(1), field_name: "value".to_string(), field_type: int.clone() });
    let name = FieldRef::ContextField(ContextField { vertex_id: Vid(1), field_name: "name".to_string(), field_type: int.clone() });
    let mut fine = row(1);
    fine.vertices = vec![(Vid(2), None), (Vid(1), Some(1))];
    fine.folded_contexts = vec![(Eid(2), vec![]), (Eid(1), vec![row(2)])];
    fine.folded_values = vec![((Eid(1), "seq".to_string()), numbers(&[2])), ((Eid(1), "doubled".to_string()), numbers(&[4]))];
    fine.imported_tags = vec![(value.clone(), FieldValue::Int64(4)), (name.clone(), FieldValue::Null)];
    assert!(fine.has_each_key_once());
    assert!(row(1).has_each_key_once());

    let mut twice = row(1);
    twice.vertices.push((Vid(1), None));
    assert!(!twice.has_each_key_once());
    let mut twice = row(1);
    twice.folded_contexts = vec![(Eid(1), vec![]), (Eid(2), vec![]), (Eid(1), vec![row(2)])];
    assert!(!twice.has_each_key_once());
    let mut twice = row(1);
    twice.folded_values = vec![((Eid(1), "seq".to_string()), numbers(&[2])), ((Eid(1), "seq".to_string()), numbers(&[4]))];
    assert!(!twice.has_each_key_once());
    let mut twice = row(1);
    twice.imported_tags = vec![(value.clone(), FieldValue::Int64(4)), (value.clone(), FieldValue::Null)];
    assert!(!twice.has_each_key_once());
}
