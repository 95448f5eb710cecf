use crate::column::leading;
use crate::column::offsets_fit;
use crate::column::ColumnData;
use crate::decode::all_present;
use crate::decode::required_rows;
use crate::decode::FromArrayRefOpt;
use crate::error::DecodeError;
use crate::leaf::decoded_bytes;
use crate::leaf::decoded_text;
use crate::list::decoded_lists;
use crate::list::lemma_offsets_ascend;
use crate::list::list_rows;
use crate::list::required_lists;
use crate::list::row_complete;
use crate::model::Modeled;
use crate::row::composed;
use crate::row::FieldList;
use bytes::Bytes;
use vstd::prelude::*;

verus! {

/// The elements of a row; an absent row has none.
pub open spec fn row_items<A>(row: Option<Seq<A>>) -> Seq<A> {
    match row {
        Some(items) => items,
        None => Seq::empty(),
    }
}

/// The elements of the rows laid end to end, as a list column stores them
/// when it stores nothing under an absent row.
pub open spec fn flattened<A>(rows: Seq<Option<Seq<A>>>) -> Seq<A>
    decreases rows.len(),
{
    if rows.len() == 0 {
        Seq::empty()
    } else {
        flattened(rows.drop_last()) + row_items(rows.last())
    }
}

/// The offsets of that list column: where each row begins, and where the
/// last one ends.
pub open spec fn run_offsets<A>(rows: Seq<Option<Seq<A>>>) -> Seq<i64> {
    Seq::new(rows.len() + 1, |i: int| flattened(rows.take(i)).len() as i64)
}

/// The null mask of that list column.
pub open spec fn null_flags<A>(rows: Seq<Option<Seq<A>>>) -> Seq<bool> {
    rows.map_values(|row: Option<Seq<A>>| row is None)
}

/// The elements of the first rows are the first of the elements.
proof fn lemma_flattened_prefix<A>(rows: Seq<Option<Seq<A>>>, i: int)
    requires
        0 <= i <= rows.len(),
    ensures
        flattened(rows.take(i)).len() <= flattened(rows).len(),
        flattened(rows.take(i)) == flattened(rows).take(flattened(rows.take(i)).len() as int),
    decreases rows.len() - i,
{
    if i == rows.len() {
        assert(rows.take(i) =~= rows);
    } else {
        lemma_flattened_prefix(rows, i + 1);
        let shorter = rows.take(i);
        let longer = rows.take(i + 1);
        assert(longer.drop_last() =~= shorter);
    }
}

/// Round trip of a list column. Rows that are stored the plain way, the
/// elements of the present rows end to end with the offsets that delimit
/// them and one null flag for each row, decode to the same rows in the same
/// order, provided the elements are few enough to be counted by an offset.
pub proof fn lemma_stored_rows_decode_to_themselves<A>(rows: Seq<Option<Seq<A>>>)
    requires
        flattened(rows).len() <= i64::MAX,
    ensures
        offsets_fit(run_offsets(rows), rows.len(), flattened(rows).len()),
        list_rows(run_offsets(rows), null_flags(rows), flattened(rows)) == rows,
{
    let offsets = run_offsets(rows);
    let flat = flattened(rows);
    assert forall|i: int| 0 <= i <= rows.len() implies 0 <= #[trigger] offsets[i] <= flat.len()
        && offsets[i] == flattened(rows.take(i)).len() by {
        lemma_flattened_prefix(rows, i);
    }
    assert forall|i: int| 0 <= i < rows.len() implies offsets[i] <= offsets[i + 1] && row_items(
        rows[i],
    ) == flat.subrange(offsets[i] as int, offsets[i + 1] as int) by {
        lemma_flattened_prefix(rows, i + 1);
        let shorter = rows.take(i);
        let longer = rows.take(i + 1);
        assert(longer.drop_last() =~= shorter);
        assert(row_items(rows[i]) =~= flattened(longer).subrange(
            offsets[i] as int,
            offsets[i + 1] as int,
        ));
    }
    assert forall|i: int, j: int| 0 <= i <= j <= rows.len() implies offsets[i] <= offsets[j] by {
        lemma_offsets_ascend(offsets, rows.len() as int, i, j);
    }
}

/// Null placeholders. A null row is absent whatever its offsets claim, and
/// every other row is what it would be were that row not null: the elements
/// that lie under a null row are passed over, and the rows after it are cut
/// at their own offsets.
pub proof fn lemma_null_row_keeps_the_others_aligned<A>(
    offsets: Seq<i64>,
    nulls: Seq<bool>,
    inner: Seq<A>,
    row: int,
)
    requires
        0 <= row < nulls.len(),
        nulls[row],
    ensures
        list_rows(offsets, nulls, inner)[row] is None,
        forall|other: int|
            0 <= other < nulls.len() && other != row ==> #[trigger] list_rows(
                offsets,
                nulls,
                inner,
            )[other] == list_rows(offsets, nulls.update(row, false), inner)[other],
        row + 1 < nulls.len() && !nulls[row + 1] ==> list_rows(offsets, nulls, inner)[row + 1]
            == Some(inner.subrange(offsets[row + 1] as int, offsets[row + 2] as int)),
{
}

/// Stopping early. The first rows of a list column are the same whether the
/// pass stops after them or goes on: cutting with fewer null flags yields
/// the first of the rows that cutting with all of them yields.
pub proof fn lemma_fewer_rows_are_the_first_rows<A>(
    offsets: Seq<i64>,
    nulls: Seq<bool>,
    inner: Seq<A>,
    count: nat,
)
    requires
        count <= nulls.len(),
    ensures
        list_rows(offsets, nulls.take(count as int), inner) == list_rows(
            offsets,
            nulls,
            inner,
        ).take(count as int),
{
}

/// Slices of a leaf column. The first `len` values of what is left of a
/// column when its first `start` values and any number of its last ones are
/// dropped are the values `start` to `start + len` of the column.
pub proof fn lemma_sliced_leaf_decodes_to_slice<A>(
    items: Seq<A>,
    start: nat,
    len: nat,
    kept: nat,
)
    requires
        start + len <= start + kept <= items.len(),
    ensures
        leading(items.subrange(start as int, (start + kept) as int), len) == leading(
            items,
            start + len,
        ).subrange(start as int, (start + len) as int),
{
}

/// Slices of a list column. A list column sliced to the rows `start` to
/// `start + len` keeps its whole child column and the offsets and null flags
/// of those rows, so that its first offset need not be zero. It decodes to
/// the rows `start` to `start + len` of what the first `start + len` rows of
/// the unsliced column decode to, and fails as those do.
pub proof fn lemma_sliced_list_decodes_to_slice<'a, T: FromArrayRefOpt<'a>>(
    wide: bool,
    offsets: Seq<i64>,
    nulls: Seq<bool>,
    values: ColumnData,
    start: nat,
    len: nat,
)
    requires
        offsets.len() == nulls.len() + 1,
        start + len <= nulls.len(),
    ensures
        decoded_lists::<T>(
            ColumnData::List {
                wide,
                offsets: offsets.subrange(start as int, (start + len + 1) as int),
                nulls: nulls.subrange(start as int, (start + len) as int),
                values: Box::new(values),
            },
            len,
        ) == match decoded_lists::<T>(
            ColumnData::List { wide, offsets, nulls, values: Box::new(values) },
            start + len,
        ) {
            Ok(rows) => Ok(rows.subrange(start as int, (start + len) as int)),
            Err(error) => Err(error),
        },
{
    let part_offsets = offsets.subrange(start as int, (start + len + 1) as int);
    let part_nulls = nulls.subrange(start as int, (start + len) as int);
    let part_mask = leading(part_nulls, len);
    let mask = leading(nulls, start + len);
    match T::decoded(values, offsets[mask.len() as int] as nat) {
        Ok(inner) => {
            assert(list_rows(part_offsets, part_mask, inner) =~= list_rows(
                offsets,
                mask,
                inner,
            ).subrange(start as int, (start + len) as int));
        },
        Err(error) => {},
    }
}

/// Slices of a list column of required elements: where the first
/// `start + len` rows of the unsliced column decode, the sliced column
/// decodes to the rows `start` to `start + len` of them.
pub proof fn lemma_sliced_required_list_decodes_to_slice<A>(
    rows: Seq<Option<Seq<Option<A>>>>,
    start: nat,
    len: nat,
)
    requires
        start + len <= rows.len(),
        required_lists(rows) is Ok,
    ensures
        required_lists(rows.subrange(start as int, (start + len) as int)) == Ok::<
            Seq<Option<Seq<A>>>,
            DecodeError,
        >(required_lists(rows)->Ok_0.subrange(start as int, (start + len) as int)),
{
    let part = rows.subrange(start as int, (start + len) as int);
    assert(required_lists(part)->Ok_0 =~= required_lists(rows)->Ok_0.subrange(
        start as int,
        (start + len) as int,
    ));
}

/// Composing reads the first `rows` positions only: two passes that agree
/// there compose alike.
proof fn lemma_composed_reads_first_rows<'a, L: FieldList<'a>>(
    nulls: Seq<bool>,
    pulled: Seq<<L::Pulled as Modeled>::Model>,
    other_nulls: Seq<bool>,
    other_pulled: Seq<<L::Pulled as Modeled>::Model>,
    rows: nat,
)
    requires
        forall|i: int| 0 <= i < rows ==> nulls[i] == other_nulls[i],
        forall|i: int| 0 <= i < rows ==> pulled[i] == other_pulled[i],
    ensures
        composed::<L>(nulls, pulled, rows) == composed::<L>(other_nulls, other_pulled, rows),
    decreases rows,
{
    if rows > 0 {
        lemma_composed_reads_first_rows::<L>(
            nulls,
            pulled,
            other_nulls,
            other_pulled,
            (rows - 1) as nat,
        );
    }
}

/// Slices of a struct column. A struct column sliced to the rows `start` to
/// `start + len` keeps the null flags of those rows, and its fields yield
/// what they yielded for those rows. Where the first `start + len` rows of
/// the unsliced column compose, the sliced column composes to the rows
/// `start` to `start + len` of them.
pub proof fn lemma_sliced_rows_compose_to_slice<'a, L: FieldList<'a>>(
    nulls: Seq<bool>,
    pulled: Seq<<L::Pulled as Modeled>::Model>,
    start: nat,
    len: nat,
)
    requires
        start + len <= nulls.len(),
        start + len <= pulled.len(),
        composed::<L>(nulls, pulled, start + len) is Ok,
    ensures
        composed::<L>(
            nulls.subrange(start as int, (start + len) as int),
            pulled.subrange(start as int, (start + len) as int),
            len,
        ) == Ok::<Seq<Option<<L as Modeled>::Model>>, DecodeError>(
            composed::<L>(nulls, pulled, start + len)->Ok_0.subrange(
                start as int,
                (start + len) as int,
            ),
        ),
    decreases len,
{
    let part_nulls = nulls.subrange(start as int, (start + len) as int);
    let part_pulled = pulled.subrange(start as int, (start + len) as int);
    lemma_composed_len::<L>(nulls, pulled, start + len);
    if len == 0 {
        assert(composed::<L>(nulls, pulled, start)->Ok_0.subrange(start as int, start as int)
            =~= Seq::empty());
    } else {
        let fewer = (len - 1) as nat;
        lemma_sliced_rows_compose_to_slice::<L>(nulls, pulled, start, fewer);
        lemma_composed_reads_first_rows::<L>(
            part_nulls,
            part_pulled,
            nulls.subrange(start as int, (start + fewer) as int),
            pulled.subrange(start as int, (start + fewer) as int),
            fewer,
        );
        let whole = composed::<L>(nulls, pulled, start + len)->Ok_0;
        let before = composed::<L>(nulls, pulled, start + fewer)->Ok_0;
        assert(whole.subrange(start as int, (start + len) as int) =~= before.subrange(
            start as int,
            (start + fewer) as int,
        ).push(whole[(start + fewer) as int]));
    }
}

/// A pass that composes yields one row for each position.
pub proof fn lemma_composed_len<'a, L: FieldList<'a>>(
    nulls: Seq<bool>,
    pulled: Seq<<L::Pulled as Modeled>::Model>,
    rows: nat,
)
    ensures
        composed::<L>(nulls, pulled, rows) matches Ok(out) ==> out.len() == rows,
    decreases rows,
{
    if rows > 0 {
        lemma_composed_len::<L>(nulls, pulled, (rows - 1) as nat);
    }
}

/// Text decodes alike from either offset width, borrowed or copied.
pub proof fn lemma_text_width_is_not_seen(
    items: Seq<Option<Seq<char>>>,
    count: nat,
    wide: bool,
    other: bool,
)
    ensures
        decoded_text(ColumnData::Text { wide, items }, count) == decoded_text(
            ColumnData::Text { wide: other, items },
            count,
        ),
        <String as FromArrayRefOpt>::decoded(ColumnData::Text { wide, items }, count)
            == <&str as FromArrayRefOpt>::decoded(ColumnData::Text { wide: other, items }, count),
{
}

/// Bytes decode alike from either offset width, borrowed or copied.
pub proof fn lemma_binary_width_is_not_seen(
    items: Seq<Option<Seq<u8>>>,
    count: nat,
    wide: bool,
    other: bool,
)
    ensures
        decoded_bytes(ColumnData::Binary { wide, items }, count) == decoded_bytes(
            ColumnData::Binary { wide: other, items },
            count,
        ),
        <Bytes as FromArrayRefOpt>::decoded(ColumnData::Binary { wide, items }, count)
            == <&[u8] as FromArrayRefOpt>::decoded(
            ColumnData::Binary { wide: other, items },
            count,
        ),
{
}

/// Lists decode alike from either offset width, whatever their elements.
pub proof fn lemma_list_width_is_not_seen<'a, T: FromArrayRefOpt<'a>>(
    offsets: Seq<i64>,
    nulls: Seq<bool>,
    values: ColumnData,
    count: nat,
    wide: bool,
    other: bool,
)
    ensures
        decoded_lists::<T>(ColumnData::List { wide, offsets, nulls, values: Box::new(values) }, count)
            == decoded_lists::<T>(
            ColumnData::List { wide: other, offsets, nulls, values: Box::new(values) },
            count,
        ),
{
}

/// A pass that requires every value fails with an unexpected null exactly
/// where a value is absent, and then yields no row.
pub proof fn lemma_required_values_fail_on_null<A>(items: Seq<Option<A>>)
    ensures
        all_present(items) == Err::<Seq<A>, DecodeError>(DecodeError::UnexpectedNull) <==> exists|
            i: int,
        |
            0 <= i < items.len() && (#[trigger] items[i]) is None,
        all_present(items) matches Ok(values) ==> values.len() == items.len(),
{
    if all_present(items) is Err {
        let i = choose|i: int| 0 <= i < items.len() && !((#[trigger] items[i]) is Some);
    }
}

/// The strict reading of a column that decodes with a null position fails
/// with an unexpected null.
pub proof fn lemma_required_column_fails_on_null<'a, T: FromArrayRefOpt<'a>>(data: ColumnData, at: int)
    requires
        T::decoded(data, data.len()) matches Ok(items) && 0 <= at < items.len() && items[at] is None,
    ensures
        required_rows::<T>(data) == Err::<Seq<<T::Item as Modeled>::Model>, DecodeError>(
            DecodeError::UnexpectedNull,
        ),
{
}

/// A struct row that is not null and holds a value that a field's null
/// policy refuses ends the pass: the rows up to it, and any number of rows
/// more, decode to the failure of the first such row.
pub proof fn lemma_refused_field_ends_the_pass<'a, L: FieldList<'a>>(
    nulls: Seq<bool>,
    pulled: Seq<<L::Pulled as Modeled>::Model>,
    at: nat,
    rows: nat,
)
    requires
        at < rows,
        !nulls[at as int],
        L::built(pulled[at as int]) is Err,
    ensures
        composed::<L>(nulls, pulled, rows) is Err,
    decreases rows,
{
    if at + 1 < rows {
        lemma_refused_field_ends_the_pass::<L>(nulls, pulled, at, (rows - 1) as nat);
    }
}

} // verus!
