use crate::error::DecodeError;
use crate::model::Float32Bits;
use crate::model::Float64Bits;
use arrow::array::Array;
use arrow::array::ArrayRef;
use arrow::array::AsArray;
use arrow::datatypes::Float32Type;
use arrow::datatypes::Float64Type;
use arrow::datatypes::Int16Type;
use arrow::datatypes::Int32Type;
use arrow::datatypes::Int64Type;
use arrow::datatypes::Int8Type;
use arrow::datatypes::UInt16Type;
use arrow::datatypes::UInt32Type;
use arrow::datatypes::UInt64Type;
use arrow::datatypes::UInt8Type;
use vstd::prelude::*;

verus! {

/// What a column holds. A leaf column is the sequence of its values, an
/// absent value where the position is null. A list column is its offsets,
/// one more than it has rows, its null mask and the flat column of the
/// elements. A struct column is its null mask and its children by name.
/// `wide` tells the 64-bit offset encoding from the 32-bit one.
#[verifier::ext_equal]
#[allow(inconsistent_fields)]
pub enum ColumnData {
    Int8(Seq<Option<i8>>),
    Int16(Seq<Option<i16>>),
    Int32(Seq<Option<i32>>),
    Int64(Seq<Option<i64>>),
    UInt8(Seq<Option<u8>>),
    UInt16(Seq<Option<u16>>),
    UInt32(Seq<Option<u32>>),
    UInt64(Seq<Option<u64>>),
    /// 32-bit floating-point values, each by its bit pattern.
    Float32(Seq<Option<u32>>),
    /// 64-bit floating-point values, each by its bit pattern.
    Float64(Seq<Option<u64>>),
    Boolean(Seq<Option<bool>>),
    Text { wide: bool, items: Seq<Option<Seq<char>>> },
    Binary { wide: bool, items: Seq<Option<Seq<u8>>> },
    List { wide: bool, offsets: Seq<i64>, nulls: Seq<bool>, values: Box<ColumnData> },
    Struct { nulls: Seq<bool>, fields: Map<Seq<char>, ColumnData> },
    /// Any other kind of column: nothing but its null mask is read.
    Other { nulls: Seq<bool> },
}

/// For each value of a leaf column, whether it is absent.
pub open spec fn absent<A>(items: Seq<Option<A>>) -> Seq<bool> {
    items.map_values(|item: Option<A>| item is None)
}

impl ColumnData {
    /// For each position, whether it is logically null.
    pub open spec fn nulls(self) -> Seq<bool> {
        match self {
            ColumnData::Int8(items) => absent(items),
            ColumnData::Int16(items) => absent(items),
            ColumnData::Int32(items) => absent(items),
            ColumnData::Int64(items) => absent(items),
            ColumnData::UInt8(items) => absent(items),
            ColumnData::UInt16(items) => absent(items),
            ColumnData::UInt32(items) => absent(items),
            ColumnData::UInt64(items) => absent(items),
            ColumnData::Float32(items) => absent(items),
            ColumnData::Float64(items) => absent(items),
            ColumnData::Boolean(items) => absent(items),
            ColumnData::Text { items, .. } => absent(items),
            ColumnData::Binary { items, .. } => absent(items),
            ColumnData::List { nulls, .. } => nulls,
            ColumnData::Struct { nulls, .. } => nulls,
            ColumnData::Other { nulls } => nulls,
        }
    }

    /// The number of positions.
    pub open spec fn len(self) -> nat {
        self.nulls().len()
    }
}

/// How many rows a pass over `len` positions yields when at most `count`
/// are asked for.
pub open spec fn row_count(count: nat, len: nat) -> nat {
    if count <= len {
        count
    } else {
        len
    }
}

/// The first `count` items, or all of them where there are fewer.
pub open spec fn leading<A>(items: Seq<A>, count: nat) -> Seq<A> {
    items.take(row_count(count, items.len()) as int)
}

/// Whether the first `rows + 1` offsets delimit `rows` consecutive ranges
/// of a flat column of `available` positions: none is negative, none is
/// less than the one before it, and the last one is within the column.
pub open spec fn offsets_fit(offsets: Seq<i64>, rows: nat, available: nat) -> bool {
    &&& rows < offsets.len()
    &&& 0 <= offsets[0]
    &&& forall|i: int, j: int| 0 <= i <= j <= rows ==> offsets[i] <= offsets[j]
    &&& offsets[rows as int] <= available
}

/// A handle on one Arrow array: a record batch as a struct array, or any
/// column of one. The array is borrowed for the length of a pass and is
/// never changed through the handle; what is decoded without a copy borrows
/// from it as well.
#[verifier::external_body]
pub struct Column<'a> {
    pub array: &'a ArrayRef,
}

/// What the Arrow array behind a column holds.
pub uninterp spec fn column_data(c: Column<'_>) -> ColumnData;

impl<'a> Column<'a> {
    /// `Array::len`: the number of positions of the array.
    #[verifier::external_body]
    fn length(&self) -> (n: usize)
        ensures
            n == column_data(*self).len(),
    {
        self.array.len()
    }

    /// `Array::logical_nulls` and `NullBuffer::is_null`: whether the
    /// position is logically null; an array without a null buffer has no
    /// null position. `is_null` panics on an index past the end.
    #[verifier::external_body]
    pub(crate) fn is_null(&self, index: usize) -> (null: bool)
        requires
            index < column_data(*self).len(),
        ensures
            null == column_data(*self).nulls()[index as int],
    {
        self.array.logical_nulls().is_some_and(|nulls| nulls.is_null(index))
    }

    /// `AsArray::as_primitive_opt::<Int8Type>`, `PrimitiveArray::slice` and
    /// `PrimitiveArray::iter`: `None` unless the array is of that type; else
    /// what the iterator over its first `count` positions yields, `None`
    /// for a null position. `slice` panics on a count past the end.
    #[verifier::external_body]
    pub(crate) fn int8_items(&self, count: usize) -> (r: Option<Vec<Option<i8>>>)
        requires
            count <= column_data(*self).len(),
        ensures
            match r {
                Some(v) => column_data(*self) matches ColumnData::Int8(items) && v@
                    == items.take(count as int),
                None => !(column_data(*self) is Int8),
            },
    {
        Some(self.array.as_primitive_opt::<Int8Type>()?.slice(0, count).iter().collect())
    }

    /// `AsArray::as_primitive_opt::<Int16Type>`, `PrimitiveArray::slice` and
    /// `PrimitiveArray::iter`: `None` unless the array is of that type; else
    /// what the iterator over its first `count` positions yields, `None`
    /// for a null position. `slice` panics on a count past the end.
    #[verifier::external_body]
    pub(crate) fn int16_items(&self, count: usize) -> (r: Option<Vec<Option<i16>>>)
        requires
            count <= column_data(*self).len(),
        ensures
            match r {
                Some(v) => column_data(*self) matches ColumnData::Int16(items) && v@
                    == items.take(count as int),
                None => !(column_data(*self) is Int16),
            },
    {
        Some(self.array.as_primitive_opt::<Int16Type>()?.slice(0, count).iter().collect())
    }

    /// `AsArray::as_primitive_opt::<Int32Type>`, `PrimitiveArray::slice` and
    /// `PrimitiveArray::iter`: `None` unless the array is of that type; else
    /// what the iterator over its first `count` positions yields, `None`
    /// for a null position. `slice` panics on a count past the end.
    #[verifier::external_body]
    pub(crate) fn int32_items(&self, count: usize) -> (r: Option<Vec<Option<i32>>>)
        requires
            count <= column_data(*self).len(),
        ensures
            match r {
                Some(v) => column_data(*self) matches ColumnData::Int32(items) && v@
                    == items.take(count as int),
                None => !(column_data(*self) is Int32),
            },
    {
        Some(self.array.as_primitive_opt::<Int32Type>()?.slice(0, count).iter().collect())
    }

    /// `AsArray::as_primitive_opt::<Int64Type>`, `PrimitiveArray::slice` and
    /// `PrimitiveArray::iter`: `None` unless the array is of that type; else
    /// what the iterator over its first `count` positions yields, `None`
    /// for a null position. `slice` panics on a count past the end.
    #[verifier::external_body]
    pub(crate) fn int64_items(&self, count: usize) -> (r: Option<Vec<Option<i64>>>)
        requires
            count <= column_data(*self).len(),
        ensures
            match r {
                Some(v) => column_data(*self) matches ColumnData::Int64(items) && v@
                    == items.take(count as int),
                None => !(column_data(*self) is Int64),
            },
    {
        Some(self.array.as_primitive_opt::<Int64Type>()?.slice(0, count).iter().collect())
    }

    /// `AsArray::as_primitive_opt::<UInt8Type>`, `PrimitiveArray::slice` and
    /// `PrimitiveArray::iter`: `None` unless the array is of that type; else
    /// what the iterator over its first `count` positions yields, `None`
    /// for a null position. `slice` panics on a count past the end.
    #[verifier::external_body]
    pub(crate) fn uint8_items(&self, count: usize) -> (r: Option<Vec<Option<u8>>>)
        requires
            count <= column_data(*self).len(),
        ensures
            match r {
                Some(v) => column_data(*self) matches ColumnData::UInt8(items) && v@
                    == items.take(count as int),
                None => !(column_data(*self) is UInt8),
            },
    {
        Some(self.array.as_primitive_opt::<UInt8Type>()?.slice(0, count).iter().collect())
    }

    /// `AsArray::as_primitive_opt::<UInt16Type>`, `PrimitiveArray::slice` and
    /// `PrimitiveArray::iter`: `None` unless the array is of that type; else
    /// what the iterator over its first `count` positions yields, `None`
    /// for a null position. `slice` panics on a count past the end.
    #[verifier::external_body]
    pub(crate) fn uint16_items(&self, count: usize) -> (r: Option<Vec<Option<u16>>>)
        requires
            count <= column_data(*self).len(),
        ensures
            match r {
                Some(v) => column_data(*self) matches ColumnData::UInt16(items) && v@
                    == items.take(count as int),
                None => !(column_data(*self) is UInt16),
            },
    {
        Some(self.array.as_primitive_opt::<UInt16Type>()?.slice(0, count).iter().collect())
    }

    /// `AsArray::as_primitive_opt::<UInt32Type>`, `PrimitiveArray::slice` and
    /// `PrimitiveArray::iter`: `None` unless the array is of that type; else
    /// what the iterator over its first `count` positions yields, `None`
    /// for a null position. `slice` panics on a count past the end.
    #[verifier::external_body]
    pub(crate) fn uint32_items(&self, count: usize) -> (r: Option<Vec<Option<u32>>>)
        requires
            count <= column_data(*self).len(),
        ensures
            match r {
                Some(v) => column_data(*self) matches ColumnData::UInt32(items) && v@
                    == items.take(count as int),
                None => !(column_data(*self) is UInt32),
            },
    {
        Some(self.array.as_primitive_opt::<UInt32Type>()?.slice(0, count).iter().collect())
    }

    /// `AsArray::as_primitive_opt::<UInt64Type>`, `PrimitiveArray::slice` and
    /// `PrimitiveArray::iter`: `None` unless the array is of that type; else
    /// what the iterator over its first `count` positions yields, `None`
    /// for a null position. `slice` panics on a count past the end.
    #[verifier::external_body]
    pub(crate) fn uint64_items(&self, count: usize) -> (r: Option<Vec<Option<u64>>>)
        requires
            count <= column_data(*self).len(),
        ensures
            match r {
                Some(v) => column_data(*self) matches ColumnData::UInt64(items) && v@
                    == items.take(count as int),
                None => !(column_data(*self) is UInt64),
            },
    {
        Some(self.array.as_primitive_opt::<UInt64Type>()?.slice(0, count).iter().collect())
    }

    /// `AsArray::as_primitive_opt::<Float32Type>`, `PrimitiveArray::slice`,
    /// `PrimitiveArray::iter` and `to_bits`: `None` unless the array is of
    /// that type; else the bit patterns of what the iterator over its first
    /// `count` positions yields, `None` for a null position. `slice` panics
    /// on a count past the end.
    #[verifier::external_body]
    pub(crate) fn float32_items(&self, count: usize) -> (r: Option<Vec<Option<Float32Bits>>>)
        requires
            count <= column_data(*self).len(),
        ensures
            match r {
                Some(v) => column_data(*self) matches ColumnData::Float32(items) && v@.map_values(
                    (|item: Option<Float32Bits>|
                        match item {
                            Some(value) => Some(value.0),
                            None => None,
                        }),
                ) == items.take(count as int),
                None => !(column_data(*self) is Float32),
            },
    {
        let array = self.array.as_primitive_opt::<Float32Type>()?.slice(0, count);
        Some(array.iter().map(|v| v.map(|v| Float32Bits(v.to_bits()))).collect())
    }

    /// `AsArray::as_primitive_opt::<Float64Type>`, `PrimitiveArray::slice`,
    /// `PrimitiveArray::iter` and `to_bits`: `None` unless the array is of
    /// that type; else the bit patterns of what the iterator over its first
    /// `count` positions yields, `None` for a null position. `slice` panics
    /// on a count past the end.
    #[verifier::external_body]
    pub(crate) fn float64_items(&self, count: usize) -> (r: Option<Vec<Option<Float64Bits>>>)
        requires
            count <= column_data(*self).len(),
        ensures
            match r {
                Some(v) => column_data(*self) matches ColumnData::Float64(items) && v@.map_values(
                    (|item: Option<Float64Bits>|
                        match item {
                            Some(value) => Some(value.0),
                            None => None,
                        }),
                ) == items.take(count as int),
                None => !(column_data(*self) is Float64),
            },
    {
        let array = self.array.as_primitive_opt::<Float64Type>()?.slice(0, count);
        Some(array.iter().map(|v| v.map(|v| Float64Bits(v.to_bits()))).collect())
    }

    /// `AsArray::as_boolean_opt`, `BooleanArray::slice` and
    /// `BooleanArray::iter`: `None` unless the array is a boolean array; else
    /// what the iterator over its first `count` positions yields, `None`
    /// for a null position. `slice` panics on a count past the end.
    #[verifier::external_body]
    pub(crate) fn boolean_items(&self, count: usize) -> (r: Option<Vec<Option<bool>>>)
        requires
            count <= column_data(*self).len(),
        ensures
            match r {
                Some(v) => column_data(*self) matches ColumnData::Boolean(items) && v@
                    == items.take(count as int),
                None => !(column_data(*self) is Boolean),
            },
    {
        Some(self.array.as_boolean_opt()?.slice(0, count).iter().collect())
    }

    /// `AsArray::as_string_opt::<i32>`: whether the array is a UTF-8 array
    /// with 32-bit offsets.
    #[verifier::external_body]
    pub(crate) fn is_small_text(&self) -> (r: bool)
        ensures
            r == (column_data(*self) matches ColumnData::Text { wide, .. } && !wide),
    {
        self.array.as_string_opt::<i32>().is_some()
    }

    /// `AsArray::as_string::<i32>` and `GenericStringArray::value`: the text
    /// stored at a position, borrowed from the array. The first panics
    /// unless the array is a UTF-8 array with 32-bit offsets, the second
    /// on an index past the end.
    #[verifier::external_body]
    pub(crate) fn small_text_at(&self, index: usize) -> (r: &'a str)
        requires
            column_data(*self) matches ColumnData::Text { wide, items } && !wide && index
                < items.len(),
        ensures
            column_data(*self)->Text_items[index as int] matches Some(text) ==> r@ == text,
    {
        self.array.as_string::<i32>().value(index)
    }

    /// `AsArray::as_string_opt::<i64>`: whether the array is a UTF-8 array
    /// with 64-bit offsets.
    #[verifier::external_body]
    pub(crate) fn is_large_text(&self) -> (r: bool)
        ensures
            r == (column_data(*self) matches ColumnData::Text { wide, .. } && wide),
    {
        self.array.as_string_opt::<i64>().is_some()
    }

    /// `AsArray::as_string::<i64>` and `GenericStringArray::value`: the text
    /// stored at a position, borrowed from the array. The first panics
    /// unless the array is a UTF-8 array with 64-bit offsets, the second
    /// on an index past the end.
    #[verifier::external_body]
    pub(crate) fn large_text_at(&self, index: usize) -> (r: &'a str)
        requires
            column_data(*self) matches ColumnData::Text { wide, items } && wide && index
                < items.len(),
        ensures
            column_data(*self)->Text_items[index as int] matches Some(text) ==> r@ == text,
    {
        self.array.as_string::<i64>().value(index)
    }

    /// `AsArray::as_binary_opt::<i32>`: whether the array is a binary array
    /// with 32-bit offsets.
    #[verifier::external_body]
    pub(crate) fn is_small_binary(&self) -> (r: bool)
        ensures
            r == (column_data(*self) matches ColumnData::Binary { wide, .. } && !wide),
    {
        self.array.as_binary_opt::<i32>().is_some()
    }

    /// `AsArray::as_binary::<i32>` and `GenericBinaryArray::value`: the bytes
    /// stored at a position, borrowed from the array. The first panics
    /// unless the array is a binary array with 32-bit offsets, the second
    /// on an index past the end.
    #[verifier::external_body]
    pub(crate) fn small_binary_at(&self, index: usize) -> (r: &'a [u8])
        requires
            column_data(*self) matches ColumnData::Binary { wide, items } && !wide && index
                < items.len(),
        ensures
            column_data(*self)->Binary_items[index as int] matches Some(bytes) ==> r@ == bytes,
    {
        self.array.as_binary::<i32>().value(index)
    }

    /// `AsArray::as_binary_opt::<i64>`: whether the array is a binary array
    /// with 64-bit offsets.
    #[verifier::external_body]
    pub(crate) fn is_large_binary(&self) -> (r: bool)
        ensures
            r == (column_data(*self) matches ColumnData::Binary { wide, .. } && wide),
    {
        self.array.as_binary_opt::<i64>().is_some()
    }

    /// `AsArray::as_binary::<i64>` and `GenericBinaryArray::value`: the bytes
    /// stored at a position, borrowed from the array. The first panics
    /// unless the array is a binary array with 64-bit offsets, the second
    /// on an index past the end.
    #[verifier::external_body]
    pub(crate) fn large_binary_at(&self, index: usize) -> (r: &'a [u8])
        requires
            column_data(*self) matches ColumnData::Binary { wide, items } && wide && index
                < items.len(),
        ensures
            column_data(*self)->Binary_items[index as int] matches Some(bytes) ==> r@ == bytes,
    {
        self.array.as_binary::<i64>().value(index)
    }

    /// `AsArray::as_list_opt::<i32>`, `GenericListArray::value_offsets` and
    /// `GenericListArray::values`: `None` unless the array is a list array
    /// with 32-bit offsets; else its offsets and a handle on its flat
    /// child array. Arrow keeps the offsets one more than the rows,
    /// non-negative, non-decreasing and within the child array.
    #[verifier::external_body]
    fn small_list_parts(&self) -> (r: Option<(Vec<i64>, Column<'a>)>)
        ensures
            match r {
                Some((offsets, child)) => column_data(*self) matches ColumnData::List {
                    wide,
                    offsets: all,
                    nulls,
                    values,
                } && !wide && offsets@ == all && column_data(child) == *values && all.len()
                    == nulls.len() + 1 && offsets_fit(all, nulls.len(), values.len()),
                None => !(column_data(*self) matches ColumnData::List { wide, .. } && !wide),
            },
    {
        let list = self.array.as_list_opt::<i32>()?;
        let offsets = list.value_offsets().iter().map(|offset| i64::from(*offset)).collect();
        Some((offsets, Column { array: list.values() }))
    }

    /// `AsArray::as_list_opt::<i64>`, `GenericListArray::value_offsets` and
    /// `GenericListArray::values`: `None` unless the array is a list array
    /// with 64-bit offsets; else its offsets and a handle on its flat
    /// child array. Arrow keeps the offsets one more than the rows,
    /// non-negative, non-decreasing and within the child array.
    #[verifier::external_body]
    fn large_list_parts(&self) -> (r: Option<(Vec<i64>, Column<'a>)>)
        ensures
            match r {
                Some((offsets, child)) => column_data(*self) matches ColumnData::List {
                    wide,
                    offsets: all,
                    nulls,
                    values,
                } && wide && offsets@ == all && column_data(child) == *values && all.len()
                    == nulls.len() + 1 && offsets_fit(all, nulls.len(), values.len()),
                None => !(column_data(*self) matches ColumnData::List { wide, .. } && wide),
            },
    {
        let list = self.array.as_list_opt::<i64>()?;
        let offsets = list.value_offsets().iter().map(|offset| i64::from(*offset)).collect();
        Some((offsets, Column { array: list.values() }))
    }

    /// `AsArray::as_struct_opt`: whether the array is a struct array.
    #[verifier::external_body]
    pub(crate) fn is_struct(&self) -> (r: bool)
        ensures
            r == (column_data(*self) is Struct),
    {
        self.array.as_struct_opt().is_some()
    }

    /// `AsArray::as_struct_opt` and `StructArray::column_by_name`: `None`
    /// unless the array is a struct array; else a handle on its child of
    /// that name, if it has one.
    #[verifier::external_body]
    fn struct_child(&self, name: &str) -> (r: Option<Option<Column<'a>>>)
        ensures
            match r {
                Some(Some(child)) => column_data(*self) matches ColumnData::Struct { fields, .. }
                    && fields.dom().contains(name@) && column_data(child) == fields[name@],
                Some(None) => column_data(*self) matches ColumnData::Struct { fields, .. }
                    && !fields.dom().contains(name@),
                None => !(column_data(*self) is Struct),
            },
    {
        let array = self.array.as_struct_opt()?;
        Some(array.column_by_name(name).map(|child| Column { array: child }))
    }
}

/// The child of a struct column that a field of the given name is read from,
/// or why there is none.
pub open spec fn named_child(data: ColumnData, name: Seq<char>) -> Result<ColumnData, DecodeError> {
    match data {
        ColumnData::Struct { fields, .. } => if fields.dom().contains(name) {
            Ok(fields[name])
        } else {
            Err(DecodeError::MissingColumn)
        },
        _ => Err(DecodeError::SchemaMismatch),
    }
}

impl<'a> Column<'a> {
    /// The number of positions of the column.
    pub fn len(&self) -> (n: usize)
        ensures
            n == column_data(*self).len(),
    {
        self.length()
    }

    /// How many rows a pass over the column yields when at most `count`
    /// are asked for.
    pub fn rows(&self, count: usize) -> (rows: usize)
        ensures
            rows == row_count(count as nat, column_data(*self).len()),
    {
        let len = self.length();
        if count <= len {
            count
        } else {
            len
        }
    }

    /// The logical-null flag of each of the first `count` positions, or of
    /// all of them where the column has fewer.
    pub fn null_mask(&self, count: usize) -> (mask: Vec<bool>)
        ensures
            mask@ == leading(column_data(*self).nulls(), count as nat),
    {
        let rows = self.rows(count);
        let mut mask: Vec<bool> = Vec::with_capacity(rows);
        let mut i: usize = 0;
        while i < rows
            invariant
                i <= rows <= column_data(*self).len(),
                mask@ == column_data(*self).nulls().take(i as int),
            decreases rows - i,
        {
            mask.push(self.is_null(i));
            i += 1;
        }
        mask
    }

    /// The offsets and the flat child column of a list column, whichever
    /// the width of its offsets; `None` for a column of another kind.
    pub fn list_parts(&self) -> (r: Option<(Vec<i64>, Column<'a>)>)
        ensures
            match r {
                Some((offsets, child)) => column_data(*self) matches ColumnData::List {
                    offsets: all,
                    nulls,
                    values,
                    ..
                } && offsets@ == all && column_data(child) == *values && all.len() == nulls.len()
                    + 1 && offsets_fit(all, nulls.len(), values.len()),
                None => !(column_data(*self) is List),
            },
    {
        match self.small_list_parts() {
            Some(parts) => Some(parts),
            None => self.large_list_parts(),
        }
    }

    /// The child of a struct column that has exactly this name. A column
    /// that is no struct column is a schema mismatch; a struct column
    /// without such a child is a missing column.
    pub fn child(&self, name: &str) -> (r: Result<Column<'a>, DecodeError>)
        ensures
            match r {
                Ok(child) => named_child(column_data(*self), name@) == Ok::<
                    ColumnData,
                    DecodeError,
                >(column_data(child)),
                Err(error) => named_child(column_data(*self), name@) == Err::<
                    ColumnData,
                    DecodeError,
                >(error),
            },
    {
        match self.struct_child(name) {
            Some(Some(child)) => Ok(child),
            Some(None) => Err(DecodeError::MissingColumn),
            None => Err(DecodeError::SchemaMismatch),
        }
    }
}

} // verus!
