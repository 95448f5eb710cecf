use crate::column::column_data;
use crate::column::leading;
use crate::column::row_count;
use crate::column::Column;
use crate::column::ColumnData;
use crate::decode::decode_required;
use crate::decode::required_rows;
use crate::decode::FromArrayRef;
use crate::decode::FromArrayRefOpt;
use crate::error::DecodeError;
use crate::model::bytes_of;
use crate::model::modeled;
use crate::model::models;
use crate::model::Float32Bits;
use crate::model::Float64Bits;
use crate::model::Modeled;
use bytes::Bytes;
use vstd::prelude::*;

verus! {

impl<'a> FromArrayRefOpt<'a> for i8 {
    type Item = i8;

    open spec fn decoded(data: ColumnData, count: nat) -> Result<Seq<Option<i8>>, DecodeError> {
        match data {
            ColumnData::Int8(items) => Ok(leading(items, count)),
            _ => Err(DecodeError::SchemaMismatch),
        }
    }

    fn from_array_ref_opt(array: &Column<'a>, count: usize) -> (r: Result<
        Vec<Option<i8>>,
        DecodeError,
    >) {
        match array.int8_items(array.rows(count)) {
            Some(items) => {
                assert(items.model() =~= items@);
                Ok(items)
            },
            None => Err(DecodeError::SchemaMismatch),
        }
    }
}

impl<'a> FromArrayRef<'a> for i8 {
    open spec fn decoded_rows(data: ColumnData) -> Result<Seq<i8>, DecodeError> {
        required_rows::<i8>(data)
    }

    fn from_array_ref(array: &Column<'a>) -> (r: Result<Vec<i8>, DecodeError>) {
        decode_required::<i8>(array)
    }
}

impl<'a> FromArrayRefOpt<'a> for i16 {
    type Item = i16;

    open spec fn decoded(data: ColumnData, count: nat) -> Result<Seq<Option<i16>>, DecodeError> {
        match data {
            ColumnData::Int16(items) => Ok(leading(items, count)),
            _ => Err(DecodeError::SchemaMismatch),
        }
    }

    fn from_array_ref_opt(array: &Column<'a>, count: usize) -> (r: Result<
        Vec<Option<i16>>,
        DecodeError,
    >) {
        match array.int16_items(array.rows(count)) {
            Some(items) => {
                assert(items.model() =~= items@);
                Ok(items)
            },
            None => Err(DecodeError::SchemaMismatch),
        }
    }
}

impl<'a> FromArrayRef<'a> for i16 {
    open spec fn decoded_rows(data: ColumnData) -> Result<Seq<i16>, DecodeError> {
        required_rows::<i16>(data)
    }

    fn from_array_ref(array: &Column<'a>) -> (r: Result<Vec<i16>, DecodeError>) {
        decode_required::<i16>(array)
    }
}

impl<'a> FromArrayRefOpt<'a> for i32 {
    type Item = i32;

    open spec fn decoded(data: ColumnData, count: nat) -> Result<Seq<Option<i32>>, DecodeError> {
        match data {
            ColumnData::Int32(items) => Ok(leading(items, count)),
            _ => Err(DecodeError::SchemaMismatch),
        }
    }

    fn from_array_ref_opt(array: &Column<'a>, count: usize) -> (r: Result<
        Vec<Option<i32>>,
        DecodeError,
    >) {
        match array.int32_items(array.rows(count)) {
            Some(items) => {
                assert(items.model() =~= items@);
                Ok(items)
            },
            None => Err(DecodeError::SchemaMismatch),
        }
    }
}

impl<'a> FromArrayRef<'a> for i32 {
    open spec fn decoded_rows(data: ColumnData) -> Result<Seq<i32>, DecodeError> {
        required_rows::<i32>(data)
    }

    fn from_array_ref(array: &Column<'a>) -> (r: Result<Vec<i32>, DecodeError>) {
        decode_required::<i32>(array)
    }
}

impl<'a> FromArrayRefOpt<'a> for i64 {
    type Item = i64;

    open spec fn decoded(data: ColumnData, count: nat) -> Result<Seq<Option<i64>>, DecodeError> {
        match data {
            ColumnData::Int64(items) => Ok(leading(items, count)),
            _ => Err(DecodeError::SchemaMismatch),
        }
    }

    fn from_array_ref_opt(array: &Column<'a>, count: usize) -> (r: Result<
        Vec<Option<i64>>,
        DecodeError,
    >) {
        match array.int64_items(array.rows(count)) {
            Some(items) => {
                assert(items.model() =~= items@);
                Ok(items)
            },
            None => Err(DecodeError::SchemaMismatch),
        }
    }
}

impl<'a> FromArrayRef<'a> for i64 {
    open spec fn decoded_rows(data: ColumnData) -> Result<Seq<i64>, DecodeError> {
        required_rows::<i64>(data)
    }

    fn from_array_ref(array: &Column<'a>) -> (r: Result<Vec<i64>, DecodeError>) {
        decode_required::<i64>(array)
    }
}

impl<'a> FromArrayRefOpt<'a> for u8 {
    type Item = u8;

    open spec fn decoded(data: ColumnData, count: nat) -> Result<Seq<Option<u8>>, DecodeError> {
        match data {
            ColumnData::UInt8(items) => Ok(leading(items, count)),
            _ => Err(DecodeError::SchemaMismatch),
        }
    }

    fn from_array_ref_opt(array: &Column<'a>, count: usize) -> (r: Result<
        Vec<Option<u8>>,
        DecodeError,
    >) {
        match array.uint8_items(array.rows(count)) {
            Some(items) => {
                assert(items.model() =~= items@);
                Ok(items)
            },
            None => Err(DecodeError::SchemaMismatch),
        }
    }
}

impl<'a> FromArrayRef<'a> for u8 {
    open spec fn decoded_rows(data: ColumnData) -> Result<Seq<u8>, DecodeError> {
        required_rows::<u8>(data)
    }

    fn from_array_ref(array: &Column<'a>) -> (r: Result<Vec<u8>, DecodeError>) {
        decode_required::<u8>(array)
    }
}

impl<'a> FromArrayRefOpt<'a> for u16 {
    type Item = u16;

    open spec fn decoded(data: ColumnData, count: nat) -> Result<Seq<Option<u16>>, DecodeError> {
        match data {
            ColumnData::UInt16(items) => Ok(leading(items, count)),
            _ => Err(DecodeError::SchemaMismatch),
        }
    }

    fn from_array_ref_opt(array: &Column<'a>, count: usize) -> (r: Result<
        Vec<Option<u16>>,
        DecodeError,
    >) {
        match array.uint16_items(array.rows(count)) {
            Some(items) => {
                assert(items.model() =~= items@);
                Ok(items)
            },
            None => Err(DecodeError::SchemaMismatch),
        }
    }
}

impl<'a> FromArrayRef<'a> for u16 {
    open spec fn decoded_rows(data: ColumnData) -> Result<Seq<u16>, DecodeError> {
        required_rows::<u16>(data)
    }

    fn from_array_ref(array: &Column<'a>) -> (r: Result<Vec<u16>, DecodeError>) {
        decode_required::<u16>(array)
    }
}

impl<'a> FromArrayRefOpt<'a> for u32 {
    type Item = u32;

    open spec fn decoded(data: ColumnData, count: nat) -> Result<Seq<Option<u32>>, DecodeError> {
        match data {
            ColumnData::UInt32(items) => Ok(leading(items, count)),
            _ => Err(DecodeError::SchemaMismatch),
        }
    }

    fn from_array_ref_opt(array: &Column<'a>, count: usize) -> (r: Result<
        Vec<Option<u32>>,
        DecodeError,
    >) {
        match array.uint32_items(array.rows(count)) {
            Some(items) => {
                assert(items.model() =~= items@);
                Ok(items)
            },
            None => Err(DecodeError::SchemaMismatch),
        }
    }
}

impl<'a> FromArrayRef<'a> for u32 {
    open spec fn decoded_rows(data: ColumnData) -> Result<Seq<u32>, DecodeError> {
        required_rows::<u32>(data)
    }

    fn from_array_ref(array: &Column<'a>) -> (r: Result<Vec<u32>, DecodeError>) {
        decode_required::<u32>(array)
    }
}

impl<'a> FromArrayRefOpt<'a> for u64 {
    type Item = u64;

    open spec fn decoded(data: ColumnData, count: nat) -> Result<Seq<Option<u64>>, DecodeError> {
        match data {
            ColumnData::UInt64(items) => Ok(leading(items, count)),
            _ => Err(DecodeError::SchemaMismatch),
        }
    }

    fn from_array_ref_opt(array: &Column<'a>, count: usize) -> (r: Result<
        Vec<Option<u64>>,
        DecodeError,
    >) {
        match array.uint64_items(array.rows(count)) {
            Some(items) => {
                assert(items.model() =~= items@);
                Ok(items)
            },
            None => Err(DecodeError::SchemaMismatch),
        }
    }
}

impl<'a> FromArrayRef<'a> for u64 {
    open spec fn decoded_rows(data: ColumnData) -> Result<Seq<u64>, DecodeError> {
        required_rows::<u64>(data)
    }

    fn from_array_ref(array: &Column<'a>) -> (r: Result<Vec<u64>, DecodeError>) {
        decode_required::<u64>(array)
    }
}

impl<'a> FromArrayRefOpt<'a> for bool {
    type Item = bool;

    open spec fn decoded(data: ColumnData, count: nat) -> Result<Seq<Option<bool>>, DecodeError> {
        match data {
            ColumnData::Boolean(items) => Ok(leading(items, count)),
            _ => Err(DecodeError::SchemaMismatch),
        }
    }

    fn from_array_ref_opt(array: &Column<'a>, count: usize) -> (r: Result<
        Vec<Option<bool>>,
        DecodeError,
    >) {
        match array.boolean_items(array.rows(count)) {
            Some(items) => {
                assert(items.model() =~= items@);
                Ok(items)
            },
            None => Err(DecodeError::SchemaMismatch),
        }
    }
}

impl<'a> FromArrayRef<'a> for bool {
    open spec fn decoded_rows(data: ColumnData) -> Result<Seq<bool>, DecodeError> {
        required_rows::<bool>(data)
    }

    fn from_array_ref(array: &Column<'a>) -> (r: Result<Vec<bool>, DecodeError>) {
        decode_required::<bool>(array)
    }
}

impl<'a> FromArrayRefOpt<'a> for Float32Bits {
    type Item = Float32Bits;

    open spec fn decoded(data: ColumnData, count: nat) -> Result<Seq<Option<u32>>, DecodeError> {
        match data {
            ColumnData::Float32(items) => Ok(leading(items, count)),
            _ => Err(DecodeError::SchemaMismatch),
        }
    }

    fn from_array_ref_opt(array: &Column<'a>, count: usize) -> (r: Result<
        Vec<Option<Float32Bits>>,
        DecodeError,
    >) {
        match array.float32_items(array.rows(count)) {
            Some(items) => {
                proof {
                    let all = column_data(*array)->Float32_0;
                    assert(items.model() =~= leading(all, count as nat));
                }
                Ok(items)
            },
            None => Err(DecodeError::SchemaMismatch),
        }
    }
}

impl<'a> FromArrayRef<'a> for Float32Bits {
    open spec fn decoded_rows(data: ColumnData) -> Result<Seq<u32>, DecodeError> {
        required_rows::<Float32Bits>(data)
    }

    fn from_array_ref(array: &Column<'a>) -> (r: Result<Vec<Float32Bits>, DecodeError>) {
        decode_required::<Float32Bits>(array)
    }
}

impl<'a> FromArrayRefOpt<'a> for Float64Bits {
    type Item = Float64Bits;

    open spec fn decoded(data: ColumnData, count: nat) -> Result<Seq<Option<u64>>, DecodeError> {
        match data {
            ColumnData::Float64(items) => Ok(leading(items, count)),
            _ => Err(DecodeError::SchemaMismatch),
        }
    }

    fn from_array_ref_opt(array: &Column<'a>, count: usize) -> (r: Result<
        Vec<Option<Float64Bits>>,
        DecodeError,
    >) {
        match array.float64_items(array.rows(count)) {
            Some(items) => {
                proof {
                    let all = column_data(*array)->Float64_0;
                    assert(items.model() =~= leading(all, count as nat));
                }
                Ok(items)
            },
            None => Err(DecodeError::SchemaMismatch),
        }
    }
}

impl<'a> FromArrayRef<'a> for Float64Bits {
    open spec fn decoded_rows(data: ColumnData) -> Result<Seq<u64>, DecodeError> {
        required_rows::<Float64Bits>(data)
    }

    fn from_array_ref(array: &Column<'a>) -> (r: Result<Vec<Float64Bits>, DecodeError>) {
        decode_required::<Float64Bits>(array)
    }
}

/// What the first `count` positions of a text column decode to, whichever
/// the width of its offsets; a column of another kind is a schema mismatch.
pub open spec fn decoded_text(data: ColumnData, count: nat) -> Result<
    Seq<Option<Seq<char>>>,
    DecodeError,
> {
    match data {
        ColumnData::Text { items, .. } => Ok(leading(items, count)),
        _ => Err(DecodeError::SchemaMismatch),
    }
}

/// Decodes the first `count` positions of a text column without copying:
/// each present value borrows its text from the array.
pub fn decode_text<'a>(array: &Column<'a>, count: usize) -> (r: Result<
    Vec<Option<&'a str>>,
    DecodeError,
>)
    ensures
        modeled(r) == decoded_text(column_data(*array), count as nat),
        r matches Ok(rows) ==> rows@.len() == row_count(count as nat, column_data(*array).len()),
{
    let wide = if array.is_small_text() {
        false
    } else if array.is_large_text() {
        true
    } else {
        return Err(DecodeError::SchemaMismatch);
    };
    let ghost all = column_data(*array)->Text_items;
    let rows = array.rows(count);
    let mut items: Vec<Option<&'a str>> = Vec::with_capacity(rows);
    let mut i: usize = 0;
    while i < rows
        invariant
            i <= rows <= all.len(),
            column_data(*array) matches ColumnData::Text { wide: is_wide, items: stored }
                && is_wide == wide && stored == all,
            items.model() == all.take(i as int),
        decreases rows - i,
    {
        let item = if array.is_null(i) {
            None
        } else if wide {
            Some(array.large_text_at(i))
        } else {
            Some(array.small_text_at(i))
        };
        let ghost before = items@;
        items.push(item);
        i += 1;
        assert(models(items@) =~= models(before).push(item.model()));
    }
    Ok(items)
}

/// A copy of each present value.
fn owned_text<'a>(items: Vec<Option<&'a str>>) -> (owned: Vec<Option<String>>)
    ensures
        owned.model() == items.model(),
        owned@.len() == items@.len(),
{
    let ghost all = items@;
    let mut owned: Vec<Option<String>> = Vec::with_capacity(items.len());
    for item in iter: items
        invariant
            iter.seq() == all,
            owned@.len() == iter.index(),
            forall|i: int| 0 <= i < owned@.len() ==> owned@[i].model() == all[i].model(),
    {
        let copy = match item {
            Some(text) => Some(text.to_owned()),
            None => None,
        };
        owned.push(copy);
    }
    owned
}

impl<'a> FromArrayRefOpt<'a> for &'a str {
    type Item = &'a str;

    open spec fn decoded(data: ColumnData, count: nat) -> Result<
        Seq<Option<Seq<char>>>,
        DecodeError,
    > {
        decoded_text(data, count)
    }

    fn from_array_ref_opt(array: &Column<'a>, count: usize) -> (r: Result<
        Vec<Option<&'a str>>,
        DecodeError,
    >) {
        decode_text(array, count)
    }
}

impl<'a> FromArrayRefOpt<'a> for String {
    type Item = String;

    open spec fn decoded(data: ColumnData, count: nat) -> Result<
        Seq<Option<Seq<char>>>,
        DecodeError,
    > {
        decoded_text(data, count)
    }

    fn from_array_ref_opt(array: &Column<'a>, count: usize) -> (r: Result<
        Vec<Option<String>>,
        DecodeError,
    >) {
        match decode_text(array, count) {
            Ok(items) => Ok(owned_text(items)),
            Err(error) => Err(error),
        }
    }
}

impl<'a> FromArrayRef<'a> for String {
    open spec fn decoded_rows(data: ColumnData) -> Result<Seq<Seq<char>>, DecodeError> {
        required_rows::<String>(data)
    }

    fn from_array_ref(array: &Column<'a>) -> (r: Result<Vec<String>, DecodeError>) {
        decode_required::<String>(array)
    }
}

impl<'a> FromArrayRef<'a> for &'a str {
    open spec fn decoded_rows(data: ColumnData) -> Result<Seq<Seq<char>>, DecodeError> {
        required_rows::<&'a str>(data)
    }

    fn from_array_ref(array: &Column<'a>) -> (r: Result<Vec<&'a str>, DecodeError>) {
        decode_required::<&'a str>(array)
    }
}

/// What the first `count` positions of a binary column decode to, whichever
/// the width of its offsets; a column of another kind is a schema mismatch.
pub open spec fn decoded_bytes(data: ColumnData, count: nat) -> Result<
    Seq<Option<Seq<u8>>>,
    DecodeError,
> {
    match data {
        ColumnData::Binary { items, .. } => Ok(leading(items, count)),
        _ => Err(DecodeError::SchemaMismatch),
    }
}

/// Decodes the first `count` positions of a binary column without copying:
/// each present value borrows its bytes from the array.
pub fn decode_bytes<'a>(array: &Column<'a>, count: usize) -> (r: Result<
    Vec<Option<&'a [u8]>>,
    DecodeError,
>)
    ensures
        modeled(r) == decoded_bytes(column_data(*array), count as nat),
        r matches Ok(rows) ==> rows@.len() == row_count(count as nat, column_data(*array).len()),
{
    let wide = if array.is_small_binary() {
        false
    } else if array.is_large_binary() {
        true
    } else {
        return Err(DecodeError::SchemaMismatch);
    };
    let ghost all = column_data(*array)->Binary_items;
    let rows = array.rows(count);
    let mut items: Vec<Option<&'a [u8]>> = Vec::with_capacity(rows);
    let mut i: usize = 0;
    while i < rows
        invariant
            i <= rows <= all.len(),
            column_data(*array) matches ColumnData::Binary { wide: is_wide, items: stored }
                && is_wide == wide && stored == all,
            items.model() == all.take(i as int),
        decreases rows - i,
    {
        let item = if array.is_null(i) {
            None
        } else if wide {
            Some(array.large_binary_at(i))
        } else {
            Some(array.small_binary_at(i))
        };
        let ghost before = items@;
        items.push(item);
        i += 1;
        assert(models(items@) =~= models(before).push(item.model()));
    }
    Ok(items)
}

/// A copy of each present value.
fn owned_bytes<'a>(items: Vec<Option<&'a [u8]>>) -> (owned: Vec<Option<Bytes>>)
    ensures
        owned.model() == items.model(),
        owned@.len() == items@.len(),
{
    let ghost all = items@;
    let mut owned: Vec<Option<Bytes>> = Vec::with_capacity(items.len());
    for item in iter: items
        invariant
            iter.seq() == all,
            owned@.len() == iter.index(),
            forall|i: int| 0 <= i < owned@.len() ==> owned@[i].model() == all[i].model(),
    {
        let copy = match item {
            Some(bytes) => Some(bytes_of(bytes)),
            None => None,
        };
        owned.push(copy);
    }
    owned
}

impl<'a> FromArrayRefOpt<'a> for &'a [u8] {
    type Item = &'a [u8];

    open spec fn decoded(data: ColumnData, count: nat) -> Result<
        Seq<Option<Seq<u8>>>,
        DecodeError,
    > {
        decoded_bytes(data, count)
    }

    fn from_array_ref_opt(array: &Column<'a>, count: usize) -> (r: Result<
        Vec<Option<&'a [u8]>>,
        DecodeError,
    >) {
        decode_bytes(array, count)
    }
}

impl<'a> FromArrayRefOpt<'a> for Bytes {
    type Item = Bytes;

    open spec fn decoded(data: ColumnData, count: nat) -> Result<
        Seq<Option<Seq<u8>>>,
        DecodeError,
    > {
        decoded_bytes(data, count)
    }

    fn from_array_ref_opt(array: &Column<'a>, count: usize) -> (r: Result<
        Vec<Option<Bytes>>,
        DecodeError,
    >) {
        match decode_bytes(array, count) {
            Ok(items) => Ok(owned_bytes(items)),
            Err(error) => Err(error),
        }
    }
}

impl<'a> FromArrayRef<'a> for Bytes {
    open spec fn decoded_rows(data: ColumnData) -> Result<Seq<Seq<u8>>, DecodeError> {
        required_rows::<Bytes>(data)
    }

    fn from_array_ref(array: &Column<'a>) -> (r: Result<Vec<Bytes>, DecodeError>) {
        decode_required::<Bytes>(array)
    }
}

} // verus!
