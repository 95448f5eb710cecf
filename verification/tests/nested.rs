use std::sync::Arc;

use arrow::array::Array;
use arrow::array::ArrayRef;
use arrow::array::Int32Array;
use arrow::array::Int64Array;
use arrow::array::ListArray;
use arrow::array::StringArray;
use arrow::array::StructArray;
use arrow::buffer::OffsetBuffer;
use arrow::buffer::ScalarBuffer;
use arrow::datatypes::DataType;
use arrow::datatypes::Field;
use arrow::datatypes::Fields;
use arrow_struct::decode::decode_required;
use arrow_struct::model::Modeled;
use arrow_struct::null::require;
use arrow_struct::row::decode_struct;
use arrow_struct::row::RenameAll;
use arrow_struct::Column;
use arrow_struct::DecodeError;
use arrow_struct::FromArrayRef;
use arrow_struct::FromArrayRefOpt;
use arrow_struct::NotNull;
use arrow_struct::NullConversion;

fn shared(array: impl Array + 'static) -> ArrayRef {
    Arc::new(array)
}

fn list_of(offsets: Vec<i32>, values: impl Array + 'static) -> ListArray {
    let values: ArrayRef = Arc::new(values);
    ListArray::new(
        Arc::new(Field::new_list_field(values.data_type().clone(), true)),
        OffsetBuffer::new(ScalarBuffer::from(offsets)),
        values,
        None,
    )
}

fn struct_of(children: Vec<(&str, ArrayRef)>) -> StructArray {
    let fields: Vec<Field> = children
        .iter()
        .map(|(name, child)| Field::new(*name, child.data_type().clone(), true))
        .collect();
    let arrays = children.into_iter().map(|(_, child)| child).collect();
    StructArray::new(Fields::from(fields), arrays, None)
}

#[derive(Debug, PartialEq)]
struct Nested4 {
    element: Option<i32>,
}

impl Modeled for Nested4 {
    type Model = ();
}

impl<'a> FromArrayRefOpt<'a> for Nested4 {
    type Item = Nested4;

    fn from_array_ref_opt(array: &Column<'a>, count: usize) -> Result<Vec<Option<Self>>, DecodeError> {
        let rows = decode_struct::<(Option<i32>, ())>(array, &["element"], RenameAll::Exact, count)?;
        Ok(rows.into_iter().map(|row| row.map(|(element, ())| Nested4 { element })).collect())
    }
}

impl NullConversion for Nested4 {
    type Item = Nested4;

    fn convert(item: Option<Self>) -> Result<Self, DecodeError> {
        require(item)
    }
}

impl NotNull for Nested4 {}

#[derive(Debug, PartialEq)]
struct Nested3 {
    nested_4a: Option<Vec<Nested4>>,
    nested_4b: Option<Vec<Nested4>>,
}

impl Modeled for Nested3 {
    type Model = ();
}

impl<'a> FromArrayRefOpt<'a> for Nested3 {
    type Item = Nested3;

    fn from_array_ref_opt(array: &Column<'a>, count: usize) -> Result<Vec<Option<Self>>, DecodeError> {
        let rows = decode_struct::<(Option<Vec<Nested4>>, (Option<Vec<Nested4>>, ()))>(
            array,
            &["nested_4a", "nested_4b"],
            RenameAll::Exact,
            count,
        )?;
        Ok(rows
            .into_iter()
            .map(|row| row.map(|(nested_4a, (nested_4b, ()))| Nested3 { nested_4a, nested_4b }))
            .collect())
    }
}

impl NullConversion for Nested3 {
    type Item = Nested3;

    fn convert(item: Option<Self>) -> Result<Self, DecodeError> {
        require(item)
    }
}

impl NotNull for Nested3 {}

#[derive(Debug, PartialEq)]
struct Nested2 {
    nested_3: Option<Vec<Nested3>>,
}

impl Modeled for Nested2 {
    type Model = ();
}

impl<'a> FromArrayRefOpt<'a> for Nested2 {
    type Item = Nested2;

    fn from_array_ref_opt(array: &Column<'a>, count: usize) -> Result<Vec<Option<Self>>, DecodeError> {
        let rows = decode_struct::<(Option<Vec<Nested3>>, ())>(
            array,
            &["nested_3"],
            RenameAll::Exact,
            count,
        )?;
        Ok(rows.into_iter().map(|row| row.map(|(nested_3, ())| Nested2 { nested_3 })).collect())
    }
}

impl NullConversion for Nested2 {
    type Item = Nested2;

    fn convert(item: Option<Self>) -> Result<Self, DecodeError> {
        require(item)
    }
}

impl NotNull for Nested2 {}

#[derive(Debug, PartialEq)]
struct Nested1 {
    element: Option<i32>,
    nested_2: Option<Vec<Nested2>>,
}

impl Modeled for Nested1 {
    type Model = ();
}

impl<'a> FromArrayRefOpt<'a> for Nested1 {
    type Item = Nested1;

    fn from_array_ref_opt(array: &Column<'a>, count: usize) -> Result<Vec<Option<Self>>, DecodeError> {
        let rows = decode_struct::<(Option<i32>, (Option<Vec<Nested2>>, ()))>(
            array,
            &["element", "nested_2"],
            RenameAll::Exact,
            count,
        )?;
        Ok(rows
            .into_iter()
            .map(|row| row.map(|(element, (nested_2, ()))| Nested1 { element, nested_2 }))
            .collect())
    }
}

impl<'a> FromArrayRef<'a> for Nested1 {
    fn from_array_ref(array: &Column<'a>) -> Result<Vec<Self>, DecodeError> {
        decode_required::<Nested1>(array)
    }
}

fn one_each() -> Vec<i32> {
    (0..=10).collect()
}

#[test]
fn deeply_nested() {
    let data: Vec<Nested1> = (0..10)
        .map(|i| Nested1 {
            element: Some(i),
            nested_2: Some(vec![Nested2 {
                nested_3: Some(vec![Nested3 {
                    nested_4a: Some(vec![Nested4 { element: Some(i) }]),
                    nested_4b: Some(vec![Nested4 { element: Some(i) }]),
                }]),
            }]),
        })
        .collect();
    let elements = || -> ArrayRef { Arc::new(Int32Array::from((0..10).collect::<Vec<i32>>())) };
    let nested_4a = list_of(one_each(), struct_of(vec![("element", elements())]));
    let nested_4b = list_of(one_each(), struct_of(vec![("element", elements())]));
    let nested_3 = list_of(
        one_each(),
        struct_of(vec![("nested_4a", Arc::new(nested_4a)), ("nested_4b", Arc::new(nested_4b))]),
    );
    let nested_2 = list_of(one_each(), struct_of(vec![("nested_3", Arc::new(nested_3))]));
    let batch = struct_of(vec![("element", elements()), ("nested_2", Arc::new(nested_2))]);
    assert_eq!(Nested1::from_array_ref(&Column { array: &shared(batch.clone()) }), Ok(data));
    let part = Nested1::from_array_ref(&Column { array: &shared(batch.slice(7, 2)) }).unwrap();
    assert_eq!(part.len(), 2);
    assert_eq!(part[0].element, Some(7));
    assert_eq!(
        part[1].nested_2.as_ref().unwrap()[0].nested_3.as_ref().unwrap()[0].nested_4b,
        Some(vec![Nested4 { element: Some(8) }])
    );
}

#[derive(Debug, PartialEq)]
struct Inner {
    i64: Option<i64>,
}

impl Modeled for Inner {
    type Model = ();
}

impl<'a> FromArrayRefOpt<'a> for Inner {
    type Item = Inner;

    fn from_array_ref_opt(array: &Column<'a>, count: usize) -> Result<Vec<Option<Self>>, DecodeError> {
        let rows = decode_struct::<(Option<i64>, ())>(array, &["i64"], RenameAll::Exact, count)?;
        Ok(rows.into_iter().map(|row| row.map(|(i64, ())| Inner { i64 })).collect())
    }
}

impl NullConversion for Inner {
    type Item = Inner;

    fn convert(item: Option<Self>) -> Result<Self, DecodeError> {
        require(item)
    }
}

#[derive(Debug, PartialEq)]
struct Outer {
    inner: Inner,
}

impl Modeled for Outer {
    type Model = ();
}

impl<'a> FromArrayRefOpt<'a> for Outer {
    type Item = Outer;

    fn from_array_ref_opt(array: &Column<'a>, count: usize) -> Result<Vec<Option<Self>>, DecodeError> {
        let rows = decode_struct::<(Inner, ())>(array, &["inner"], RenameAll::Exact, count)?;
        Ok(rows.into_iter().map(|row| row.map(|(inner, ())| Outer { inner })).collect())
    }
}

#[test]
fn outer_inner() {
    let data: Vec<Outer> = (0..10).map(|i| Outer { inner: Inner { i64: Some(i) } }).collect();
    let values: ArrayRef = Arc::new(Int64Array::from((0..10).collect::<Vec<i64>>()));
    let inner = struct_of(vec![("i64", values)]);
    let batch = struct_of(vec![("inner", Arc::new(inner))]);
    assert_eq!(decode_required::<Outer>(&Column { array: &shared(batch) }), Ok(data));
}

#[derive(Debug, PartialEq)]
struct Strings {
    string: Vec<String>,
}

impl Modeled for Strings {
    type Model = ();
}

impl<'a> FromArrayRefOpt<'a> for Strings {
    type Item = Strings;

    fn from_array_ref_opt(array: &Column<'a>, count: usize) -> Result<Vec<Option<Self>>, DecodeError> {
        let rows = decode_struct::<(Vec<String>, ())>(array, &["string"], RenameAll::Exact, count)?;
        Ok(rows.into_iter().map(|row| row.map(|(string, ())| Strings { string })).collect())
    }
}

#[test]
fn null_object_vec() {
    let data: Vec<Strings> = (1..=10)
        .map(|x| Strings { string: (1..=x).map(|y| y.to_string()).collect() })
        .collect();
    let mut offsets = vec![0];
    let mut flat: Vec<String> = Vec::new();
    for row in &data {
        flat.extend(row.string.iter().cloned());
        offsets.push(flat.len() as i32);
    }
    let lists = list_of(offsets, StringArray::from(flat));
    let batch = struct_of(vec![("string", Arc::new(lists))]).slice(5, 5);
    let actual = decode_required::<Strings>(&Column { array: &shared(batch) }).unwrap();
    assert_eq!(data[5..10], actual[..]);
}
