use crate::column::column_data;
use crate::column::row_count;
use crate::column::Column;
use crate::column::ColumnData;
use crate::error::DecodeError;
use crate::model::modeled;
use crate::model::models;
use crate::model::Modeled;
use vstd::prelude::*;

verus! {

/// A type whose values are read out of a column one position at a time,
/// each either present or absent. This is the null-tolerant reading: an
/// absent value is handed on, not refused.
///
/// `Item` is what one present position decodes to. A pass reads positions
/// from the first on, in order, and stops after `count` of them or at the
/// end of the column, whichever comes first; it returns exactly the rows it
/// read, or the failure that ended it.
///
/// A type declared elsewhere leaves `decoded` as it is.
pub trait FromArrayRefOpt<'a>: Sized {
    type Item: Modeled;

    /// What a pass over the first `count` positions of a column yields.
    open spec fn decoded(data: ColumnData, count: nat) -> Result<
        Seq<Option<<Self::Item as Modeled>::Model>>,
        DecodeError,
    > {
        arbitrary()
    }

    /// Decodes the first `count` positions of `array`, or all of them
    /// where it has fewer.
    fn from_array_ref_opt(array: &Column<'a>, count: usize) -> (r: Result<
        Vec<Option<Self::Item>>,
        DecodeError,
    >)
        ensures
            modeled(r) == Self::decoded(column_data(*array), count as nat),
            r matches Ok(rows) ==> rows@.len() == row_count(
                count as nat,
                column_data(*array).len(),
            ),
    ;
}

/// A type whose values are read out of a whole column, one per position.
/// This is the strict reading of a required type, in which an absent value
/// ends the pass; an optional type reads every position, absent or present.
///
/// A type declared elsewhere leaves `decoded_rows` as it is.
pub trait FromArrayRef<'a>: Sized + Modeled {
    /// What a pass over the whole column yields.
    open spec fn decoded_rows(data: ColumnData) -> Result<
        Seq<<Self as Modeled>::Model>,
        DecodeError,
    > {
        arbitrary()
    }

    /// Decodes every position of `array`.
    fn from_array_ref(array: &Column<'a>) -> (r: Result<Vec<Self>, DecodeError>)
        ensures
            modeled(r) == Self::decoded_rows(column_data(*array)),
    ;
}

/// What a pass that requires every value makes of decoded values: the
/// values themselves where all are present, a failure where one is absent.
pub open spec fn all_present<A>(items: Seq<Option<A>>) -> Result<Seq<A>, DecodeError> {
    if forall|i: int| 0 <= i < items.len() ==> (#[trigger] items[i]) is Some {
        Ok(items.map_values(|item: Option<A>| item->0))
    } else {
        Err(DecodeError::UnexpectedNull)
    }
}

/// Requiring every value commutes with taking models.
pub proof fn lemma_all_present_models<T: Modeled>(items: Seq<Option<T>>)
    ensures
        all_present(models(items)) == match all_present(items) {
            Ok(values) => Ok::<Seq<T::Model>, DecodeError>(models(values)),
            Err(error) => Err(error),
        },
{
    let modelled = models(items);
    if forall|i: int| 0 <= i < items.len() ==> (#[trigger] items[i]) is Some {
        assert(modelled.map_values(|item: Option<T::Model>| item->0) =~= models(
            items.map_values(|item: Option<T>| item->0),
        ));
    } else {
        let i = choose|i: int| 0 <= i < items.len() && !((#[trigger] items[i]) is Some);
        assert(modelled[i] is None);
    }
}

/// Computes `all_present`: hands the values on where every one is present,
/// and fails at the first absent one.
pub fn require_all<T>(items: Vec<Option<T>>) -> (r: Result<Vec<T>, DecodeError>)
    ensures
        match r {
            Ok(values) => all_present(items@) == Ok::<Seq<T>, DecodeError>(values@),
            Err(error) => all_present(items@) == Err::<Seq<T>, DecodeError>(error),
        },
{
    let ghost all = items@;
    let mut values: Vec<T> = Vec::with_capacity(items.len());
    for item in iter: items
        invariant
            iter.seq() == all,
            values@.len() == iter.index(),
            forall|i: int| 0 <= i < values@.len() ==> all[i] == Some(values@[i]),
    {
        match item {
            Some(value) => values.push(value),
            None => {
                return Err(DecodeError::UnexpectedNull);
            },
        }
    }
    assert(all.map_values(|item: Option<T>| item->0) =~= values@);
    Ok(values)
}

/// What the strict reading of a whole column yields for an item type: its
/// decoded values where all are present.
pub open spec fn required_rows<'a, T: FromArrayRefOpt<'a>>(data: ColumnData) -> Result<
    Seq<<T::Item as Modeled>::Model>,
    DecodeError,
> {
    match T::decoded(data, data.len()) {
        Ok(items) => all_present(items),
        Err(error) => Err(error),
    }
}

/// Decodes every position of `array` and requires each value to be present:
/// the strict reading of any type that has the null-tolerant one.
pub fn decode_required<'a, T: FromArrayRefOpt<'a>>(array: &Column<'a>) -> (r: Result<
    Vec<T::Item>,
    DecodeError,
>)
    ensures
        modeled(r) == required_rows::<T>(column_data(*array)),
{
    match T::from_array_ref_opt(array, array.len()) {
        Ok(items) => {
            proof {
                lemma_all_present_models(items@);
            }
            require_all(items)
        },
        Err(error) => Err(error),
    }
}

impl<'a, T: FromArrayRefOpt<'a, Item = T> + Modeled> FromArrayRefOpt<'a> for Option<T> {
    type Item = T;

    open spec fn decoded(data: ColumnData, count: nat) -> Result<
        Seq<Option<<T as Modeled>::Model>>,
        DecodeError,
    > {
        T::decoded(data, count)
    }

    fn from_array_ref_opt(array: &Column<'a>, count: usize) -> (r: Result<
        Vec<Option<T>>,
        DecodeError,
    >) {
        T::from_array_ref_opt(array, count)
    }
}

impl<'a, T: FromArrayRefOpt<'a, Item = T> + Modeled> FromArrayRef<'a> for Option<T> {
    open spec fn decoded_rows(data: ColumnData) -> Result<
        Seq<Option<<T as Modeled>::Model>>,
        DecodeError,
    > {
        T::decoded(data, data.len())
    }

    fn from_array_ref(array: &Column<'a>) -> (r: Result<Vec<Option<T>>, DecodeError>) {
        T::from_array_ref_opt(array, array.len())
    }
}

} // verus!
