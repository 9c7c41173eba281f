use polars_core::datatypes::{ArrowDataType, ArrowField, ArrowSchema};
use polars_core::error::PolarsError;
use polars_core::io::{
    apply_projection, resolve_projection, BatchBudget, ParquetReadState, ReadOutcome,
    RowGroupAction,
};

#[test]
fn row_groups_are_read_unless_statistics_say_no() {
    let mut state = ParquetReadState::new(100);
    assert_eq!(state.finish(), ReadOutcome::Empty);
    assert!(matches!(
        state.on_row_group(10, Some(Ok(false))),
        RowGroupAction::Skip
    ));
    assert_eq!(state.finish(), ReadOutcome::Empty);
    assert!(matches!(
        state.on_row_group(10, None),
        RowGroupAction::Read {
            remaining_rows: 100,
            chunk_size: 10
        }
    ));
    assert!(matches!(
        state.on_row_group(20, Some(Ok(true))),
        RowGroupAction::Read {
            remaining_rows: 10,
            chunk_size: 20
        }
    ));
    assert_eq!(state.finish(), ReadOutcome::Concat { limit: 100 });
}

#[test]
fn missing_statistics_do_not_stop_the_scan() {
    let mut state = ParquetReadState::new(7);
    let advice = Some(Err(PolarsError::NotFound("no statistics".to_string())));
    assert!(matches!(
        state.on_row_group(3, advice),
        RowGroupAction::Read {
            remaining_rows: 7,
            chunk_size: 3
        }
    ));
    assert_eq!(state.finish(), ReadOutcome::Concat { limit: 7 });
}

#[test]
fn other_errors_of_the_statistics_stop_the_scan() {
    let mut state = ParquetReadState::new(7);
    let advice = Some(Err(PolarsError::ComputeError("bad".to_string())));
    match state.on_row_group(3, advice) {
        RowGroupAction::Fail(e) => assert_eq!(e, PolarsError::ComputeError("bad".to_string())),
        _ => panic!("expected a failure"),
    }
    let advice = Some(Err(PolarsError::SchemaMisMatch("worse".to_string())));
    match state.on_row_group(3, advice) {
        RowGroupAction::Fail(e) => {
            assert_eq!(e, PolarsError::SchemaMisMatch("worse".to_string()))
        }
        _ => panic!("expected a failure"),
    }
    assert_eq!(state.finish(), ReadOutcome::Empty);
}

#[test]
fn projection_defaults_to_all_columns() {
    assert_eq!(resolve_projection(None, 3), vec![0, 1, 2]);
    assert_eq!(resolve_projection(None, 0), Vec::<usize>::new());
    assert_eq!(resolve_projection(Some(&[2, 0]), 3), vec![2, 0]);
    assert_eq!(resolve_projection(Some(&[]), 3), Vec::<usize>::new());
}

#[test]
fn projection_selects_fields_in_order() {
    let schema = ArrowSchema::from(vec![
        ArrowField::new("a", ArrowDataType::Utf8, true),
        ArrowField::new("b", ArrowDataType::Int8, true),
        ArrowField::new("c", ArrowDataType::Date32, true),
    ]);
    let fields = apply_projection(&schema, &[2, 0, 2]);
    let names: Vec<&str> = fields.iter().map(|f| f.name.as_str()).collect();
    assert_eq!(names, vec!["c", "a", "c"]);
}

#[test]
fn batches_are_counted_against_the_row_limit() {
    let mut budget = BatchBudget::new(Some(10));
    assert!(!budget.take_batch(4));
    assert!(!budget.take_batch(5));
    assert!(budget.take_batch(1));
    assert!(budget.take_batch(0));
    let mut unlimited = BatchBudget::new(None);
    assert!(!unlimited.take_batch(usize::MAX));
    let mut none = BatchBudget::new(Some(0));
    assert!(none.take_batch(0));
}
