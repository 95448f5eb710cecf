use crate::error::DecodeError;
use bytes::Bytes;
use vstd::prelude::*;

verus! {

/// `bytes::Bytes`, carried through as it is: all that is known of a value is
/// its `bytes_content`.
#[verifier::external_type_specification]
#[verifier::external_body]
pub struct ExBytes(Bytes);

/// The bytes that a byte string holds, in order.
pub uninterp spec fn bytes_content(b: Bytes) -> Seq<u8>;

/// `Bytes::from` on a copy of the bytes: a byte string of its own that holds
/// the same bytes.
#[verifier::external_body]
pub(crate) fn bytes_of(bytes: &[u8]) -> (b: Bytes)
    ensures
        bytes_content(b) == bytes@,
{
    Bytes::from(bytes.to_vec())
}

/// A decoded value and the mathematical value it stands for. Contracts
/// compare models, so that two strings with the same characters, or two
/// vectors with the same items, count as the same decoded value.
///
/// A type declared elsewhere names its `Model` and leaves `model` as it is.
pub trait Modeled {
    type Model;

    /// The mathematical value of `self`.
    open spec fn model(&self) -> Self::Model {
        arbitrary()
    }
}

impl Modeled for i8 {
    type Model = i8;

    open spec fn model(&self) -> i8 {
        *self
    }
}

impl Modeled for i16 {
    type Model = i16;

    open spec fn model(&self) -> i16 {
        *self
    }
}

impl Modeled for i32 {
    type Model = i32;

    open spec fn model(&self) -> i32 {
        *self
    }
}

impl Modeled for i64 {
    type Model = i64;

    open spec fn model(&self) -> i64 {
        *self
    }
}

impl Modeled for u8 {
    type Model = u8;

    open spec fn model(&self) -> u8 {
        *self
    }
}

impl Modeled for u16 {
    type Model = u16;

    open spec fn model(&self) -> u16 {
        *self
    }
}

impl Modeled for u32 {
    type Model = u32;

    open spec fn model(&self) -> u32 {
        *self
    }
}

impl Modeled for u64 {
    type Model = u64;

    open spec fn model(&self) -> u64 {
        *self
    }
}

impl Modeled for bool {
    type Model = bool;

    open spec fn model(&self) -> bool {
        *self
    }
}

/// A 32-bit floating-point value, held by its bit pattern.
#[derive(Clone, Copy, Debug, PartialEq, Eq, Hash, Structural)]
pub struct Float32Bits(pub u32);

/// A 64-bit floating-point value, held by its bit pattern.
#[derive(Clone, Copy, Debug, PartialEq, Eq, Hash, Structural)]
pub struct Float64Bits(pub u64);

impl Modeled for Float32Bits {
    type Model = u32;

    open spec fn model(&self) -> u32 {
        self.0
    }
}

impl Modeled for Float64Bits {
    type Model = u64;

    open spec fn model(&self) -> u64 {
        self.0
    }
}

impl Modeled for String {
    type Model = Seq<char>;

    open spec fn model(&self) -> Seq<char> {
        self@
    }
}

impl<'a> Modeled for &'a str {
    type Model = Seq<char>;

    open spec fn model(&self) -> Seq<char> {
        self@
    }
}

impl<'a> Modeled for &'a [u8] {
    type Model = Seq<u8>;

    open spec fn model(&self) -> Seq<u8> {
        self@
    }
}

impl Modeled for Bytes {
    type Model = Seq<u8>;

    open spec fn model(&self) -> Seq<u8> {
        bytes_content(*self)
    }
}

impl<T: Modeled> Modeled for Option<T> {
    type Model = Option<T::Model>;

    open spec fn model(&self) -> Option<T::Model> {
        match *self {
            Some(value) => Some(value.model()),
            None => None,
        }
    }
}

impl Modeled for () {
    type Model = ();

    open spec fn model(&self) -> () {
        ()
    }
}

impl<A: Modeled, B: Modeled> Modeled for (A, B) {
    type Model = (A::Model, B::Model);

    open spec fn model(&self) -> (A::Model, B::Model) {
        (self.0.model(), self.1.model())
    }
}

/// The models of the items, in order.
pub open spec fn models<T: Modeled>(items: Seq<T>) -> Seq<T::Model> {
    items.map_values(|item: T| item.model())
}

impl<T: Modeled> Modeled for Vec<T> {
    type Model = Seq<T::Model>;

    open spec fn model(&self) -> Seq<T::Model> {
        models(self@)
    }
}

/// The model of what a decoding pass returned: the model of its rows, or
/// its failure unchanged.
pub open spec fn modeled<T: Modeled>(outcome: Result<T, DecodeError>) -> Result<
    T::Model,
    DecodeError,
> {
    match outcome {
        Ok(value) => Ok(value.model()),
        Err(error) => Err(error),
    }
}

} // verus!
