use std::sync::Arc;

use arrow::array::Array;
use arrow::array::ArrayRef;
use arrow::array::Int32Array;
use arrow::array::LargeListArray;
use arrow::array::ListArray;
use arrow::buffer::NullBuffer;
use arrow::buffer::OffsetBuffer;
use arrow::buffer::ScalarBuffer;
use arrow::datatypes::DataType;
use arrow::datatypes::Field;
use arrow_struct::list::assemble_lists;
use arrow_struct::list::offsets_are_fit;
use arrow_struct::list::require_elements;
use arrow_struct::Column;
use arrow_struct::DecodeError;
use arrow_struct::FromArrayRef;
use arrow_struct::FromArrayRefOpt;

fn shared(array: impl Array + 'static) -> ArrayRef {
    Arc::new(array)
}

fn tags_array() -> ListArray {
    let values: ArrayRef = Arc::new(Int32Array::from(vec![1, 2, 3]));
    ListArray::new(
        Arc::new(Field::new_list_field(DataType::Int32, true)),
        OffsetBuffer::new(ScalarBuffer::from(vec![0, 2, 2, 2, 3])),
        values,
        Some(NullBuffer::from(vec![true, false, true, true])),
    )
}

#[test]
fn rows_are_cut_at_the_offsets() {
    let rows = assemble_lists(
        &vec![0, 2, 2, 2, 3],
        &vec![false, true, false, false],
        vec![Some(1), Some(2), Some(3)],
    );
    assert_eq!(
        rows,
        vec![
            Some(vec![Some(1), Some(2)]),
            None,
            Some(vec![]),
            Some(vec![Some(3)]),
        ]
    );
}

#[test]
fn a_null_row_takes_its_placeholders_along() {
    let rows = assemble_lists(
        &vec![0, 1, 3, 4],
        &vec![false, true, false],
        vec![10, 20, 30, 40],
    );
    assert_eq!(rows, vec![Some(vec![10]), None, Some(vec![40])]);
}

#[test]
fn elements_before_the_first_offset_are_passed_over() {
    let rows = assemble_lists(&vec![2, 2, 3], &vec![false, false], vec![1, 2, 3]);
    assert_eq!(rows, vec![Some(vec![]), Some(vec![3])]);
}

#[test]
fn elements_after_the_last_row_are_left_alone() {
    let rows = assemble_lists(&vec![0, 1, 2, 3], &vec![false, true], vec![7, 8, 9]);
    assert_eq!(rows, vec![Some(vec![7]), None]);
}

#[test]
fn no_rows_from_an_empty_mask() {
    let rows: Vec<Option<Vec<i32>>> = assemble_lists(&vec![0], &vec![], vec![]);
    assert_eq!(rows, vec![]);
}

#[test]
fn required_elements_are_unwrapped() {
    let rows = vec![Some(vec![Some(1), Some(2)]), None, Some(vec![])];
    assert_eq!(
        require_elements(rows),
        Ok(vec![Some(vec![1, 2]), None, Some(vec![])])
    );
}

#[test]
fn an_absent_required_element_is_refused() {
    let rows = vec![Some(vec![Some(1)]), Some(vec![Some(2), None])];
    assert_eq!(require_elements(rows), Err(DecodeError::UnexpectedNull));
}

#[test]
fn optional_list_of_required_items() {
    let column = Column { array: &shared(tags_array()) };
    assert_eq!(
        <Option<Vec<i32>> as FromArrayRef>::from_array_ref(&column),
        Ok(vec![Some(vec![1, 2]), None, Some(vec![]), Some(vec![3])])
    );
}

#[test]
fn optional_list_of_optional_items() {
    let column = Column { array: &shared(tags_array()) };
    assert_eq!(
        <Vec<Option<i32>> as FromArrayRefOpt>::from_array_ref_opt(&column, 4),
        Ok(vec![
            Some(vec![Some(1), Some(2)]),
            None,
            Some(vec![]),
            Some(vec![Some(3)]),
        ])
    );
}

#[test]
fn a_sliced_list_skips_the_rows_before_it() {
    let sliced = tags_array().slice(2, 2);
    assert_eq!(sliced.value_offsets()[0], 2);
    let column = Column { array: &shared(sliced) };
    assert_eq!(
        <Option<Vec<i32>> as FromArrayRef>::from_array_ref(&column),
        Ok(vec![Some(vec![]), Some(vec![3])])
    );
}

#[test]
fn a_sliced_list_is_the_matching_part_of_the_whole() {
    let whole = Column { array: &shared(tags_array()) };
    let all = <Vec<i32> as FromArrayRefOpt>::from_array_ref_opt(&whole, 4).unwrap();
    for start in 0..=4usize {
        for len in 0..=(4 - start) {
            let part = Column { array: &shared(tags_array().slice(start, len)) };
            assert_eq!(
                <Vec<i32> as FromArrayRefOpt>::from_array_ref_opt(&part, len),
                Ok(all[start..start + len].to_vec())
            );
        }
    }
}

#[test]
fn a_count_below_the_length_reads_the_first_rows() {
    let column = Column { array: &shared(tags_array()) };
    assert_eq!(
        <Vec<i32> as FromArrayRefOpt>::from_array_ref_opt(&column, 2),
        Ok(vec![Some(vec![1, 2]), None])
    );
    assert_eq!(
        <Vec<i32> as FromArrayRefOpt>::from_array_ref_opt(&column, 9),
        Ok(vec![Some(vec![1, 2]), None, Some(vec![]), Some(vec![3])])
    );
}

#[test]
fn a_null_row_with_placeholders_keeps_the_next_row_aligned() {
    let values: ArrayRef = Arc::new(Int32Array::from(vec![Some(1), None, Some(7), Some(4)]));
    let list = ListArray::new(
        Arc::new(Field::new_list_field(DataType::Int32, true)),
        OffsetBuffer::new(ScalarBuffer::from(vec![0, 1, 3, 4])),
        values,
        Some(NullBuffer::from(vec![true, false, true])),
    );
    let column = Column { array: &shared(list) };
    assert_eq!(
        <Vec<i32> as FromArrayRefOpt>::from_array_ref_opt(&column, 3),
        Ok(vec![Some(vec![1]), None, Some(vec![4])])
    );
}

#[test]
fn an_absent_element_of_a_present_row_is_refused() {
    let values: ArrayRef = Arc::new(Int32Array::from(vec![Some(1), None, Some(3)]));
    let list = ListArray::new(
        Arc::new(Field::new_list_field(DataType::Int32, true)),
        OffsetBuffer::new(ScalarBuffer::from(vec![0, 1, 3])),
        values,
        None,
    );
    let column = Column { array: &shared(list) };
    assert_eq!(
        <Vec<i32> as FromArrayRefOpt>::from_array_ref_opt(&column, 2),
        Err(DecodeError::UnexpectedNull)
    );
    assert_eq!(
        <Vec<i32> as FromArrayRefOpt>::from_array_ref_opt(&column, 1),
        Ok(vec![Some(vec![1])])
    );
    assert_eq!(
        <Vec<Option<i32>> as FromArrayRefOpt>::from_array_ref_opt(&column, 2),
        Ok(vec![Some(vec![Some(1)]), Some(vec![None, Some(3)])])
    );
}

#[test]
fn both_offset_widths_decode_alike() {
    let values: ArrayRef = Arc::new(Int32Array::from(vec![1, 2, 3]));
    let large = LargeListArray::new(
        Arc::new(Field::new_list_field(DataType::Int32, true)),
        OffsetBuffer::new(ScalarBuffer::from(vec![0i64, 2, 2, 2, 3])),
        values,
        Some(NullBuffer::from(vec![true, false, true, true])),
    );
    let large = Column { array: &shared(large) };
    let small = Column { array: &shared(tags_array()) };
    assert_eq!(
        <Vec<i32> as FromArrayRefOpt>::from_array_ref_opt(&large, 4),
        <Vec<i32> as FromArrayRefOpt>::from_array_ref_opt(&small, 4)
    );
    assert_eq!(
        <Vec<i32> as FromArrayRefOpt>::from_array_ref_opt(&large, 4),
        Ok(vec![Some(vec![1, 2]), None, Some(vec![]), Some(vec![3])])
    );
}

#[test]
fn a_list_of_lists_shares_one_pass_per_level() {
    let values: ArrayRef = Arc::new(Int32Array::from(vec![1, 2, 3, 4, 5]));
    let inner = ListArray::new(
        Arc::new(Field::new_list_field(DataType::Int32, true)),
        OffsetBuffer::new(ScalarBuffer::from(vec![0, 2, 3, 5])),
        values,
        None,
    );
    let inner_type = inner.data_type().clone();
    let outer = ListArray::new(
        Arc::new(Field::new_list_field(inner_type, true)),
        OffsetBuffer::new(ScalarBuffer::from(vec![0, 1, 3])),
        Arc::new(inner),
        None,
    );
    let column = Column { array: &shared(outer) };
    assert_eq!(
        <Vec<Option<Vec<i32>>> as FromArrayRefOpt>::from_array_ref_opt(&column, 2),
        Ok(vec![
            Some(vec![Some(vec![1, 2])]),
            Some(vec![Some(vec![3]), Some(vec![4, 5])]),
        ])
    );
}

#[test]
fn a_column_that_is_no_list_is_a_schema_mismatch() {
    let column = Column { array: &shared(Int32Array::from(vec![1])) };
    assert_eq!(
        <Vec<i32> as FromArrayRefOpt>::from_array_ref_opt(&column, 1),
        Err(DecodeError::SchemaMismatch)
    );
    let lists = Column { array: &shared(tags_array()) };
    assert_eq!(
        <Vec<String> as FromArrayRefOpt>::from_array_ref_opt(&lists, 4),
        Err(DecodeError::SchemaMismatch)
    );
}

#[test]
fn rows_written_by_a_builder_come_back() {
    let rows: Vec<Option<Vec<Option<i32>>>> = vec![
        Some(vec![Some(1), None, Some(3)]),
        None,
        Some(vec![]),
        Some(vec![Some(-4)]),
        None,
        Some(vec![None]),
    ];
    let mut small = arrow::array::ListBuilder::new(arrow::array::Int32Builder::new());
    let mut large = arrow::array::LargeListBuilder::new(arrow::array::Int32Builder::new());
    for row in &rows {
        match row {
            Some(items) => {
                for item in items {
                    small.values().append_option(*item);
                    large.values().append_option(*item);
                }
                small.append(true);
                large.append(true);
            }
            None => {
                small.append(false);
                large.append(false);
            }
        }
    }
    let small = shared(small.finish());
    let large = shared(large.finish());
    assert_eq!(
        <Vec<Option<i32>> as FromArrayRefOpt>::from_array_ref_opt(&Column { array: &small }, 6),
        Ok(rows.clone())
    );
    assert_eq!(
        <Vec<Option<i32>> as FromArrayRefOpt>::from_array_ref_opt(&Column { array: &large }, 6),
        Ok(rows.clone())
    );
    assert_eq!(
        <Option<Vec<Option<i32>>> as FromArrayRef>::from_array_ref(&Column { array: &large }),
        Ok(rows)
    );
}

#[test]
fn the_parts_of_a_list_column() {
    let array = shared(tags_array().slice(1, 3));
    let column = Column { array: &array };
    let (offsets, child) = column.list_parts().unwrap();
    assert_eq!(offsets, vec![2, 2, 2, 3]);
    assert_eq!(child.len(), 3);
    assert_eq!(column.len(), 3);
    assert_eq!(column.rows(2), 2);
    assert_eq!(column.rows(7), 3);
    assert_eq!(column.null_mask(3), vec![true, false, false]);
    assert!(child.list_parts().is_none());
}

#[test]
fn offsets_are_tested_before_they_are_used() {
    assert!(offsets_are_fit(&vec![0, 2, 2, 2, 3], 4, 3));
    assert!(offsets_are_fit(&vec![0, 2, 2, 2, 3], 4, 9));
    assert!(offsets_are_fit(&vec![0, 2, 2, 2, 3], 1, 2));
    assert!(offsets_are_fit(&vec![2, 2, 3], 2, 3));
    assert!(offsets_are_fit(&vec![0], 0, 0));
    assert!(!offsets_are_fit(&vec![0, 2, 2, 2, 3], 4, 2));
    assert!(!offsets_are_fit(&vec![0, 2, 2, 2, 3], 5, 3));
    assert!(!offsets_are_fit(&vec![0, 2, 1, 3], 3, 3));
    assert!(offsets_are_fit(&vec![0, 2, 1, 3], 1, 3));
    assert!(!offsets_are_fit(&vec![-1, 2], 1, 3));
    assert!(!offsets_are_fit(&vec![], 0, 0));
}
