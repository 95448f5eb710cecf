use crate::column::column_data;
use crate::column::leading;
use crate::column::offsets_fit;
use crate::column::Column;
use crate::column::ColumnData;
use crate::decode::all_present;
use crate::decode::lemma_all_present_models;
use crate::decode::require_all;
use crate::decode::FromArrayRefOpt;
use crate::error::DecodeError;
use crate::model::models;
use crate::model::Modeled;
use crate::null::NotNull;
use vstd::prelude::*;

verus! {

/// The rows of a list column: row `i` is absent where the mask says so, and
/// is otherwise the run of decoded elements between offset `i` and offset
/// `i + 1`. The mask has one flag for each row; elements before the first
/// offset and after the last one belong to no row.
pub open spec fn list_rows<A>(offsets: Seq<i64>, nulls: Seq<bool>, inner: Seq<A>) -> Seq<
    Option<Seq<A>>,
> {
    Seq::new(
        nulls.len(),
        |i: int|
            if nulls[i] {
                None
            } else {
                Some(inner.subrange(offsets[i] as int, offsets[i + 1] as int))
            },
    )
}

/// The rows as sequences: each present row by its view.
pub open spec fn row_views<T>(rows: Seq<Option<Vec<T>>>) -> Seq<Option<Seq<T>>> {
    rows.map_values(
        |row: Option<Vec<T>>|
            match row {
                Some(items) => Some(items@),
                None => None,
            },
    )
}

/// Offsets of which each of the first `rows` is at most the next are in
/// ascending order up to offset `rows`.
pub proof fn lemma_offsets_ascend(offsets: Seq<i64>, rows: int, i: int, j: int)
    requires
        0 <= i <= j <= rows < offsets.len(),
        forall|k: int| 0 <= k < rows ==> #[trigger] offsets[k] <= offsets[k + 1],
    ensures
        offsets[i] <= offsets[j],
    decreases j - i,
{
    if i < j {
        lemma_offsets_ascend(offsets, rows, i, j - 1);
    }
}

/// Tests `offsets_fit`: whether these offsets delimit `rows` rows within
/// `available` elements, as `assemble_lists` needs them to.
pub fn offsets_are_fit(offsets: &Vec<i64>, rows: usize, available: usize) -> (fit: bool)
    ensures
        fit == offsets_fit(offsets@, rows as nat, available as nat),
{
    if rows >= offsets.len() || offsets[0] < 0 {
        return false;
    }
    let mut row: usize = 0;
    while row < rows
        invariant
            row <= rows < offsets@.len(),
            forall|k: int| 0 <= k < row ==> #[trigger] offsets@[k] <= offsets@[k + 1],
        decreases rows - row,
    {
        if offsets[row] > offsets[row + 1] {
            return false;
        }
        row += 1;
    }
    assert forall|i: int, j: int| 0 <= i <= j <= rows implies offsets@[i] <= offsets@[j] by {
        lemma_offsets_ascend(offsets@, rows as int, i, j);
    }
    offsets[rows] >= 0 && offsets[rows] as u64 <= available as u64
}

/// Whether `source` holds, last first, what is left of `all` after `pulled`
/// values were taken from its front.
spec fn holds_rest<T>(source: Seq<T>, all: Seq<T>, pulled: int) -> bool {
    &&& 0 <= pulled <= all.len()
    &&& source.len() == all.len() - pulled
    &&& forall|k: int| 0 <= k < source.len() ==> source[k] == all[all.len() - 1 - k]
}

/// The same values, last first.
pub(crate) fn reversed<T>(items: Vec<T>) -> (r: Vec<T>)
    ensures
        r@ == items@.reverse(),
{
    let ghost all = items@;
    let mut rest = items;
    let mut r: Vec<T> = Vec::with_capacity(rest.len());
    while rest.len() > 0
        invariant
            rest@ == all.take(all.len() - r@.len()),
            r@.len() <= all.len(),
            forall|k: int| 0 <= k < r@.len() ==> r@[k] == all[all.len() - 1 - k],
        decreases rest@.len(),
    {
        let item = rest.pop().unwrap();
        r.push(item);
    }
    r
}

/// Cuts the decoded elements of a list column into its rows.
///
/// The elements are taken from one cursor that only moves forward. What
/// lies before the first offset is passed over. Then each row moves the
/// cursor by as many elements as its two offsets say, whether it is null or
/// not, so that the cursor stands at the next row's first element; a null
/// row drops those elements and is absent.
pub fn assemble_lists<T>(offsets: &Vec<i64>, nulls: &Vec<bool>, inner: Vec<T>) -> (rows: Vec<
    Option<Vec<T>>,
>)
    requires
        offsets_fit(offsets@, nulls@.len() as nat, inner@.len() as nat),
    ensures
        row_views(rows@) == list_rows(offsets@, nulls@, inner@),
{
    let ghost all = inner@;
    let count = nulls.len();
    let mut source = reversed(inner);
    let mut pulled: usize = offsets[0] as usize;
    source.truncate(source.len() - pulled);
    let mut rows: Vec<Option<Vec<T>>> = Vec::with_capacity(count);
    let mut row: usize = 0;
    while row < count
        invariant
            offsets_fit(offsets@, nulls@.len() as nat, all.len() as nat),
            count == nulls@.len(),
            all.len() <= usize::MAX,
            row <= count,
            pulled == offsets@[row as int],
            holds_rest(source@, all, pulled as int),
            rows@.len() == row,
            forall|i: int|
                0 <= i < row ==> #[trigger] row_views(rows@)[i] == list_rows(
                    offsets@,
                    nulls@,
                    all,
                )[i],
        decreases count - row,
    {
        let ghost start = pulled as int;
        let ghost before = rows@;
        let end = offsets[row + 1] as usize;
        if nulls[row] {
            source.truncate(source.len() - (end - pulled));
            pulled = end;
            rows.push(None);
        } else {
            let mut items: Vec<T> = Vec::with_capacity(end - pulled);
            while pulled < end
                invariant
                    0 <= start <= pulled <= end <= all.len(),
                    holds_rest(source@, all, pulled as int),
                    items@ == all.subrange(start, pulled as int),
                decreases end - pulled,
            {
                let item = source.pop().unwrap();
                items.push(item);
                pulled += 1;
            }
            rows.push(Some(items));
        }
        assert forall|i: int| 0 <= i < row + 1 implies #[trigger] row_views(rows@)[i]
            == list_rows(offsets@, nulls@, all)[i] by {
            if i < row {
                assert(row_views(before)[i] == list_rows(offsets@, nulls@, all)[i]);
            }
        }
        row += 1;
    }
    rows
}

/// Whether no element of the row is absent. An absent row has no element.
pub open spec fn row_complete<A>(row: Option<Seq<Option<A>>>) -> bool {
    match row {
        Some(items) => all_present(items) is Ok,
        None => true,
    }
}

/// The row with each of its elements required to be present.
pub open spec fn required_row<A>(row: Option<Seq<Option<A>>>) -> Option<Seq<A>> {
    match row {
        Some(items) => Some(all_present(items)->Ok_0),
        None => None,
    }
}

/// What a list of required elements makes of the rows of a list column: the
/// same rows with the elements themselves, where every element of every
/// present row is present; else a failure. The elements under an absent row
/// are not looked at.
pub open spec fn required_lists<A>(rows: Seq<Option<Seq<Option<A>>>>) -> Result<
    Seq<Option<Seq<A>>>,
    DecodeError,
> {
    if forall|i: int| 0 <= i < rows.len() ==> row_complete(#[trigger] rows[i]) {
        Ok(rows.map_values(|row: Option<Seq<Option<A>>>| required_row(row)))
    } else {
        Err(DecodeError::UnexpectedNull)
    }
}

/// Computes `required_lists`: goes through the rows in order and fails at
/// the first present row that holds an absent element.
pub fn require_elements<T>(rows: Vec<Option<Vec<Option<T>>>>) -> (r: Result<
    Vec<Option<Vec<T>>>,
    DecodeError,
>)
    ensures
        match r {
            Ok(lists) => required_lists(row_views(rows@)) == Ok::<
                Seq<Option<Seq<T>>>,
                DecodeError,
            >(row_views(lists@)),
            Err(error) => required_lists(row_views(rows@)) == Err::<
                Seq<Option<Seq<T>>>,
                DecodeError,
            >(error),
        },
{
    let ghost all = rows@;
    let mut lists: Vec<Option<Vec<T>>> = Vec::with_capacity(rows.len());
    for row in iter: rows
        invariant
            iter.seq() == all,
            lists@.len() == iter.index(),
            forall|i: int|
                0 <= i < lists@.len() ==> row_complete(#[trigger] row_views(all)[i])
                    && row_views(lists@)[i] == required_row(row_views(all)[i]),
    {
        match row {
            Some(items) => match require_all(items) {
                Ok(values) => lists.push(Some(values)),
                Err(error) => {
                    assert(!row_complete(row_views(all)[iter.index() as int]));
                    return Err(error);
                },
            },
            None => lists.push(None),
        }
    }
    assert(row_views(all).map_values(|row: Option<Seq<Option<T>>>| required_row(row))
        =~= row_views(lists@));
    Ok(lists)
}

/// The rows with each element replaced by its model.
pub open spec fn row_models<T: Modeled>(rows: Seq<Option<Seq<T>>>) -> Seq<Option<Seq<T::Model>>> {
    rows.map_values(
        |row: Option<Seq<T>>|
            match row {
                Some(items) => Some(models(items)),
                None => None,
            },
    )
}

/// The model of decoded rows is the model of each element of their views.
pub proof fn lemma_models_of_rows<T: Modeled>(rows: Seq<Option<Vec<T>>>)
    ensures
        models(rows) == row_models(row_views(rows)),
{
}

/// Cutting elements into rows commutes with taking models.
pub proof fn lemma_list_rows_models<T: Modeled>(
    offsets: Seq<i64>,
    nulls: Seq<bool>,
    inner: Seq<T>,
)
    requires
        offsets_fit(offsets, nulls.len(), inner.len()),
    ensures
        row_models(list_rows(offsets, nulls, inner)) == list_rows(offsets, nulls, models(inner)),
{
    let left = row_models(list_rows(offsets, nulls, inner));
    let right = list_rows(offsets, nulls, models(inner));
    assert forall|i: int| 0 <= i < nulls.len() implies left[i] == right[i] by {
    }
}

/// Requiring the elements of every present row commutes with taking models.
pub proof fn lemma_required_lists_models<T: Modeled>(rows: Seq<Option<Seq<Option<T>>>>)
    ensures
        required_lists(row_models(rows)) == match required_lists(rows) {
            Ok(lists) => Ok::<Seq<Option<Seq<T::Model>>>, DecodeError>(row_models(lists)),
            Err(error) => Err(error),
        },
{
    let modelled = row_models(rows);
    let required = rows.map_values(|row: Option<Seq<Option<T>>>| required_row(row));
    assert forall|i: int| 0 <= i < rows.len() implies row_complete(#[trigger] modelled[i])
        == row_complete(rows[i]) by {
        if let Some(items) = rows[i] {
            lemma_all_present_models(items);
        }
    }
    if forall|i: int| 0 <= i < rows.len() ==> row_complete(#[trigger] rows[i]) {
        assert forall|i: int| 0 <= i < rows.len() implies required_row(#[trigger] modelled[i])
            == row_models(required)[i] by {
        }
        assert(modelled.map_values(|row: Option<Seq<Option<T::Model>>>| required_row(row))
            =~= row_models(required));
    } else {
        let i = choose|i: int| 0 <= i < rows.len() && !row_complete(#[trigger] rows[i]);
        assert(!row_complete(modelled[i]));
    }
}

/// What the first `count` rows of a list column decode to, the elements
/// read as `T` reads them: a column that is no list column is a schema
/// mismatch; else the flat child column is decoded as far as the last of
/// these rows reaches, which may fail, and is cut into rows.
pub open spec fn decoded_lists<'a, T: FromArrayRefOpt<'a>>(data: ColumnData, count: nat) -> Result<
    Seq<Option<Seq<Option<<T::Item as Modeled>::Model>>>>,
    DecodeError,
> {
    match data {
        ColumnData::List { offsets, nulls, values, .. } => {
            let mask = leading(nulls, count);
            match T::decoded(*values, offsets[mask.len() as int] as nat) {
                Ok(inner) => Ok(list_rows(offsets, mask, inner)),
                Err(error) => Err(error),
            }
        },
        _ => Err(DecodeError::SchemaMismatch),
    }
}

/// Decodes the first `count` rows of a list column, the elements read as
/// `T` reads them, each element present or absent.
///
/// One pass is opened over the flat child column and shared by all rows.
pub fn decode_lists<'a, T: FromArrayRefOpt<'a>>(array: &Column<'a>, count: usize) -> (r: Result<
    Vec<Option<Vec<Option<T::Item>>>>,
    DecodeError,
>)
    ensures
        match r {
            Ok(rows) => decoded_lists::<T>(column_data(*array), count as nat) == Ok::<
                Seq<Option<Seq<Option<<T::Item as Modeled>::Model>>>>,
                DecodeError,
            >(models(rows@)) && rows@.len() == leading(column_data(*array).nulls(), count as nat).len(),
            Err(error) => decoded_lists::<T>(column_data(*array), count as nat) == Err::<
                Seq<Option<Seq<Option<<T::Item as Modeled>::Model>>>>,
                DecodeError,
            >(error),
        },
{
    let (offsets, child) = match array.list_parts() {
        Some(parts) => parts,
        None => {
            return Err(DecodeError::SchemaMismatch);
        },
    };
    let nulls = array.null_mask(count);
    let available = child.len();
    let needed = offsets[nulls.len()] as usize;
    match T::from_array_ref_opt(&child, needed) {
        Ok(inner) => {
            let ghost elements = inner@;
            let rows = assemble_lists(&offsets, &nulls, inner);
            proof {
                lemma_models_of_rows(rows@);
                lemma_list_rows_models(offsets@, nulls@, elements);
            }
            Ok(rows)
        },
        Err(error) => Err(error),
    }
}

impl<'a, T: FromArrayRefOpt<'a>> FromArrayRefOpt<'a> for Vec<Option<T>> {
    type Item = Vec<Option<T::Item>>;

    open spec fn decoded(data: ColumnData, count: nat) -> Result<
        Seq<Option<Seq<Option<<T::Item as Modeled>::Model>>>>,
        DecodeError,
    > {
        decoded_lists::<T>(data, count)
    }

    fn from_array_ref_opt(array: &Column<'a>, count: usize) -> (r: Result<
        Vec<Option<Vec<Option<T::Item>>>>,
        DecodeError,
    >) {
        decode_lists::<T>(array, count)
    }
}

impl<'a, T: FromArrayRefOpt<'a> + NotNull> FromArrayRefOpt<'a> for Vec<T> {
    type Item = Vec<T::Item>;

    open spec fn decoded(data: ColumnData, count: nat) -> Result<
        Seq<Option<Seq<<T::Item as Modeled>::Model>>>,
        DecodeError,
    > {
        match decoded_lists::<T>(data, count) {
            Ok(rows) => required_lists(rows),
            Err(error) => Err(error),
        }
    }

    fn from_array_ref_opt(array: &Column<'a>, count: usize) -> (r: Result<
        Vec<Option<Vec<T::Item>>>,
        DecodeError,
    >) {
        match decode_lists::<T>(array, count) {
            Ok(rows) => {
                let ghost views = row_views(rows@);
                proof {
                    lemma_models_of_rows(rows@);
                    lemma_required_lists_models(views);
                }
                match require_elements(rows) {
                    Ok(lists) => {
                        proof {
                            lemma_models_of_rows(lists@);
                        }
                        Ok(lists)
                    },
                    Err(error) => Err(error),
                }
            },
            Err(error) => Err(error),
        }
    }
}

} // verus!
