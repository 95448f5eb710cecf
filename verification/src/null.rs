use crate::error::DecodeError;
use crate::model::modeled;
use crate::model::Float32Bits;
use crate::model::Float64Bits;
use crate::model::Modeled;
use bytes::Bytes;
use vstd::prelude::*;

verus! {

/// Marks the item types that have no absent value of their own: a list
/// declared with such items requires every item of a present row to be
/// present.
pub trait NotNull {
}

/// What a required field makes of one decoded value: the value itself, or
/// the failure that an absent one is.
pub open spec fn required<A>(item: Option<A>) -> Result<A, DecodeError> {
    match item {
        Some(value) => Ok(value),
        None => Err(DecodeError::UnexpectedNull),
    }
}

/// Computes `required`.
pub fn require<T>(item: Option<T>) -> (r: Result<T, DecodeError>)
    ensures
        r == required(item),
{
    match item {
        Some(value) => Ok(value),
        None => Err(DecodeError::UnexpectedNull),
    }
}

/// The null policy of a field type: what becomes of a decoded value, present
/// or absent, when it is stored in a field of this type. An optional field
/// keeps either; a required field keeps a present value and fails on an
/// absent one. The policy looks at nothing but the one value.
///
/// A type declared elsewhere leaves `converted` as it is.
pub trait NullConversion: Sized + Modeled {
    type Item: Modeled;

    /// The field value for `item`, or why there is none.
    open spec fn converted(item: Option<<Self::Item as Modeled>::Model>) -> Result<
        <Self as Modeled>::Model,
        DecodeError,
    > {
        arbitrary()
    }

    /// Applies the policy to one decoded value.
    fn convert(item: Option<Self::Item>) -> (r: Result<Self, DecodeError>)
        ensures
            modeled(r) == Self::converted(item.model()),
    ;
}

impl<T: Modeled> NullConversion for Option<T> {
    type Item = T;

    open spec fn converted(item: Option<T::Model>) -> Result<Option<T::Model>, DecodeError> {
        Ok(item)
    }

    fn convert(item: Option<T>) -> (r: Result<Self, DecodeError>) {
        Ok(item)
    }
}

impl<T: Modeled> NullConversion for Vec<T> {
    type Item = Vec<T>;

    open spec fn converted(item: Option<Seq<T::Model>>) -> Result<Seq<T::Model>, DecodeError> {
        required(item)
    }

    fn convert(item: Option<Vec<T>>) -> (r: Result<Self, DecodeError>) {
        require(item)
    }
}

impl NullConversion for i8 {
    type Item = i8;

    open spec fn converted(item: Option<i8>) -> Result<i8, DecodeError> {
        required(item)
    }

    fn convert(item: Option<i8>) -> (r: Result<Self, DecodeError>) {
        require(item)
    }
}

impl NotNull for i8 {
}

impl NullConversion for i16 {
    type Item = i16;

    open spec fn converted(item: Option<i16>) -> Result<i16, DecodeError> {
        required(item)
    }

    fn convert(item: Option<i16>) -> (r: Result<Self, DecodeError>) {
        require(item)
    }
}

impl NotNull for i16 {
}

impl NullConversion for i32 {
    type Item = i32;

    open spec fn converted(item: Option<i32>) -> Result<i32, DecodeError> {
        required(item)
    }

    fn convert(item: Option<i32>) -> (r: Result<Self, DecodeError>) {
        require(item)
    }
}

impl NotNull for i32 {
}

impl NullConversion for i64 {
    type Item = i64;

    open spec fn converted(item: Option<i64>) -> Result<i64, DecodeError> {
        required(item)
    }

    fn convert(item: Option<i64>) -> (r: Result<Self, DecodeError>) {
        require(item)
    }
}

impl NotNull for i64 {
}

impl NullConversion for u8 {
    type Item = u8;

    open spec fn converted(item: Option<u8>) -> Result<u8, DecodeError> {
        required(item)
    }

    fn convert(item: Option<u8>) -> (r: Result<Self, DecodeError>) {
        require(item)
    }
}

impl NotNull for u8 {
}

impl NullConversion for u16 {
    type Item = u16;

    open spec fn converted(item: Option<u16>) -> Result<u16, DecodeError> {
        required(item)
    }

    fn convert(item: Option<u16>) -> (r: Result<Self, DecodeError>) {
        require(item)
    }
}

impl NotNull for u16 {
}

impl NullConversion for u32 {
    type Item = u32;

    open spec fn converted(item: Option<u32>) -> Result<u32, DecodeError> {
        required(item)
    }

    fn convert(item: Option<u32>) -> (r: Result<Self, DecodeError>) {
        require(item)
    }
}

impl NotNull for u32 {
}

impl NullConversion for u64 {
    type Item = u64;

    open spec fn converted(item: Option<u64>) -> Result<u64, DecodeError> {
        required(item)
    }

    fn convert(item: Option<u64>) -> (r: Result<Self, DecodeError>) {
        require(item)
    }
}

impl NotNull for u64 {
}

impl NullConversion for bool {
    type Item = bool;

    open spec fn converted(item: Option<bool>) -> Result<bool, DecodeError> {
        required(item)
    }

    fn convert(item: Option<bool>) -> (r: Result<Self, DecodeError>) {
        require(item)
    }
}

impl NotNull for bool {
}

impl NullConversion for String {
    type Item = String;

    open spec fn converted(item: Option<Seq<char>>) -> Result<Seq<char>, DecodeError> {
        required(item)
    }

    fn convert(item: Option<String>) -> (r: Result<Self, DecodeError>) {
        require(item)
    }
}

impl NotNull for String {
}

impl NullConversion for Bytes {
    type Item = Bytes;

    open spec fn converted(item: Option<Seq<u8>>) -> Result<Seq<u8>, DecodeError> {
        required(item)
    }

    fn convert(item: Option<Bytes>) -> (r: Result<Self, DecodeError>) {
        require(item)
    }
}

impl NotNull for Bytes {
}

impl NullConversion for Float32Bits {
    type Item = Float32Bits;

    open spec fn converted(item: Option<u32>) -> Result<u32, DecodeError> {
        required(item)
    }

    fn convert(item: Option<Float32Bits>) -> (r: Result<Self, DecodeError>) {
        require(item)
    }
}

impl NotNull for Float32Bits {
}

impl NullConversion for Float64Bits {
    type Item = Float64Bits;

    open spec fn converted(item: Option<u64>) -> Result<u64, DecodeError> {
        required(item)
    }

    fn convert(item: Option<Float64Bits>) -> (r: Result<Self, DecodeError>) {
        require(item)
    }
}

impl NotNull for Float64Bits {
}

} // verus!
