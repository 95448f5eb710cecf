use crate::column::column_data;
use crate::column::leading;
use crate::column::named_child;
use crate::column::row_count;
use crate::column::Column;
use crate::column::ColumnData;
use crate::decode::FromArrayRefOpt;
use crate::error::DecodeError;
use crate::list::reversed;
use crate::model::modeled;
use crate::model::models;
use crate::model::Modeled;
use crate::null::NullConversion;
use convert_case::Case;
use convert_case::Casing;
use vstd::prelude::*;

verus! {

/// The case convention of the column names of a row type: how the name of a
/// declared field becomes the name of the column it is read from.
#[derive(Clone, Copy, Debug, PartialEq, Eq, Hash, Structural)]
pub enum RenameAll {
    /// The column has the field's name.
    Exact,
    /// The column has the field's name in snake_case.
    SnakeCase,
    /// The column has the field's name in camelCase.
    CamelCase,
}

/// `name` written in snake_case, as `convert_case` writes it.
pub uninterp spec fn snake_case(name: Seq<char>) -> Seq<char>;

/// `name` written in camelCase, as `convert_case` writes it.
pub uninterp spec fn camel_case(name: Seq<char>) -> Seq<char>;

/// `Casing::to_case` with `Case::Snake`: the name in snake_case, a function
/// of the name alone.
#[verifier::external_body]
fn to_snake_case(name: &str) -> (r: String)
    ensures
        r@ == snake_case(name@),
{
    name.to_case(Case::Snake)
}

/// `Casing::to_case` with `Case::Camel`: the name in camelCase, a function
/// of the name alone.
#[verifier::external_body]
fn to_camel_case(name: &str) -> (r: String)
    ensures
        r@ == camel_case(name@),
{
    name.to_case(Case::Camel)
}

/// `str::eq`: whether the two hold the same characters.
#[verifier::external_body]
fn same_text(a: &str, b: &str) -> (same: bool)
    ensures
        same == (a@ == b@),
{
    a == b
}

impl Default for RenameAll {
    fn default() -> (r: Self)
        ensures
            r == RenameAll::Exact,
    {
        RenameAll::Exact
    }
}

impl RenameAll {
    /// The convention that a configuration text names, if it names one.
    pub open spec fn parsed(text: Seq<char>) -> Option<RenameAll> {
        if text == "snake_case"@ {
            Some(RenameAll::SnakeCase)
        } else if text == "none"@ {
            Some(RenameAll::Exact)
        } else if text == "camelCase"@ {
            Some(RenameAll::CamelCase)
        } else {
            None
        }
    }

    /// Reads a convention from its configuration text: `snake_case`, `none`
    /// or `camelCase`. Any other text names no convention.
    pub fn from_str(text: &str) -> (r: Option<RenameAll>)
        ensures
            r == Self::parsed(text@),
    {
        if same_text(text, "snake_case") {
            Some(RenameAll::SnakeCase)
        } else if same_text(text, "none") {
            Some(RenameAll::Exact)
        } else if same_text(text, "camelCase") {
            Some(RenameAll::CamelCase)
        } else {
            None
        }
    }

    /// The name of the column that a field of the given name is read from.
    pub open spec fn column_name(self, field: Seq<char>) -> Seq<char> {
        match self {
            RenameAll::Exact => field,
            RenameAll::SnakeCase => snake_case(field),
            RenameAll::CamelCase => camel_case(field),
        }
    }

    /// Computes `column_name`.
    pub fn rename(self, field: &str) -> (name: String)
        ensures
            name@ == self.column_name(field@),
    {
        match self {
            RenameAll::Exact => field.to_owned(),
            RenameAll::SnakeCase => to_snake_case(field),
            RenameAll::CamelCase => to_camel_case(field),
        }
    }
}

impl<'a> Column<'a> {
    /// The column of a struct column that a declared field is read from:
    /// its child named as the convention names the field.
    pub fn field(&self, field: &str, rename: RenameAll) -> (r: Result<Column<'a>, DecodeError>)
        ensures
            match r {
                Ok(child) => named_child(column_data(*self), rename.column_name(field@)) == Ok::<
                    ColumnData,
                    DecodeError,
                >(column_data(child)),
                Err(error) => named_child(column_data(*self), rename.column_name(field@))
                    == Err::<ColumnData, DecodeError>(error),
            },
    {
        let name = rename.rename(field);
        self.child(name.as_str())
    }
}

/// The rows of two field decoders pulled in lock-step: one pair for each
/// position that both have. Where one has fewer rows than the other, the
/// rows end with the shorter one.
pub open spec fn zipped<A, B>(first: Seq<A>, second: Seq<B>) -> Seq<(A, B)> {
    Seq::new(row_count(first.len(), second.len()), |i: int| (first[i], second[i]))
}

/// Computes `zipped`. More than two fields are zipped by nesting the pairs.
pub fn zip_fields<A, B>(first: Vec<A>, second: Vec<B>) -> (rows: Vec<(A, B)>)
    ensures
        rows@ == zipped(first@, second@),
{
    let ghost left = first@;
    let ghost right = second@;
    let mut source = reversed(second);
    let mut rows: Vec<(A, B)> = Vec::new();
    for a in iter: first
        invariant
            iter.seq() == left,
            left == first@,
            right == second@,
            rows@.len() == iter.index(),
            iter.index() <= right.len(),
            source@.len() == right.len() - iter.index(),
            forall|k: int| 0 <= k < source@.len() ==> source@[k] == right[right.len() - 1 - k],
            forall|i: int| 0 <= i < rows@.len() ==> rows@[i] == (left[i], right[i]),
    {
        match source.pop() {
            Some(b) => {
                rows.push((a, b));
            },
            None => {
                return rows;
            },
        }
    }
    rows
}

/// Zipping commutes with taking models.
pub proof fn lemma_zipped_models<A: Modeled, B: Modeled>(first: Seq<A>, second: Seq<B>)
    ensures
        models(zipped(first, second)) == zipped(models(first), models(second)),
{
}

/// The names of the columns that the declared fields are read from, in
/// order.
pub open spec fn column_names(fields: Seq<&str>, rename: RenameAll) -> Seq<Seq<char>> {
    fields.map_values(|field: &str| rename.column_name(field@))
}

/// The declared fields of a row type, in order: either no field, written
/// `()`, or a first field of type `H` and the fields `T` after it, written
/// `(H, T)`. A row of three fields is an `(A, (B, (C, ())))`.
///
/// Each field type brings its decoder and its null policy. A row is made in
/// two steps, as a struct column is read: one value, present or absent, is
/// pulled for every field; then the null policy of each field is applied.
pub trait FieldList<'a>: Sized + Modeled {
    /// What one pull from every field decoder yields.
    type Pulled: Modeled;

    /// What the field decoders yield for the first `count` positions of a
    /// struct column, given the names of the fields' columns: one value for
    /// each field at each position that every field has. The first field
    /// in order whose column is missing or does not decode ends the pass.
    spec fn pulled(data: ColumnData, columns: Seq<Seq<char>>, count: nat) -> Result<
        Seq<<Self::Pulled as Modeled>::Model>,
        DecodeError,
    >;

    /// The row that the fields' null policies make of the values pulled for
    /// one position: the first field in order that refuses its value
    /// decides the failure.
    spec fn built(pulled: <Self::Pulled as Modeled>::Model) -> Result<
        <Self as Modeled>::Model,
        DecodeError,
    >;

    /// Decodes the columns of the declared fields, which `fields` names in
    /// order, and zips what they yield.
    fn pull(array: &Column<'a>, fields: &[&str], rename: RenameAll, count: usize) -> (r: Result<
        Vec<Self::Pulled>,
        DecodeError,
    >)
        ensures
            modeled(r) == Self::pulled(
                column_data(*array),
                column_names(fields@, rename),
                count as nat,
            ),
    ;

    /// Applies each field's null policy to the value pulled for it.
    fn build(pulled: Self::Pulled) -> (r: Result<Self, DecodeError>)
        ensures
            modeled(r) == Self::built(pulled.model()),
    ;
}

impl<'a> FieldList<'a> for () {
    type Pulled = ();

    open spec fn pulled(data: ColumnData, columns: Seq<Seq<char>>, count: nat) -> Result<
        Seq<()>,
        DecodeError,
    > {
        match data {
            ColumnData::Struct { nulls, .. } => Ok(
                Seq::new(row_count(count, nulls.len()), |i: int| ()),
            ),
            _ => Err(DecodeError::SchemaMismatch),
        }
    }

    open spec fn built(pulled: ()) -> Result<(), DecodeError> {
        Ok(())
    }

    fn pull(array: &Column<'a>, fields: &[&str], rename: RenameAll, count: usize) -> (r: Result<
        Vec<()>,
        DecodeError,
    >) {
        if !array.is_struct() {
            return Err(DecodeError::SchemaMismatch);
        }
        let rows = array.rows(count);
        let mut pulled: Vec<()> = Vec::with_capacity(rows);
        let mut i: usize = 0;
        while i < rows
            invariant
                i <= rows,
                pulled@.len() == i,
            decreases rows - i,
        {
            pulled.push(());
            i += 1;
        }
        assert(pulled.model() =~= Seq::new(rows as nat, |i: int| ()));
        Ok(pulled)
    }

    fn build(pulled: ()) -> (r: Result<(), DecodeError>) {
        Ok(())
    }
}

impl<'a, H, T> FieldList<'a> for (H, T) where
    H: FromArrayRefOpt<'a> + NullConversion<Item = <H as FromArrayRefOpt<'a>>::Item>,
    T: FieldList<'a>,
 {
    type Pulled = (Option<<H as FromArrayRefOpt<'a>>::Item>, T::Pulled);

    open spec fn pulled(data: ColumnData, columns: Seq<Seq<char>>, count: nat) -> Result<
        Seq<(Option<<<H as FromArrayRefOpt<'a>>::Item as Modeled>::Model>, <T::Pulled as Modeled>::Model)>,
        DecodeError,
    > {
        if columns.len() == 0 {
            Err(DecodeError::MissingColumn)
        } else {
            match named_child(data, columns[0]) {
                Ok(child) => match H::decoded(child, count) {
                    Ok(head) => match T::pulled(data, columns.skip(1), count) {
                        Ok(rest) => Ok(zipped(head, rest)),
                        Err(error) => Err(error),
                    },
                    Err(error) => Err(error),
                },
                Err(error) => Err(error),
            }
        }
    }

    open spec fn built(
        pulled: (Option<<<H as FromArrayRefOpt<'a>>::Item as Modeled>::Model>, <T::Pulled as Modeled>::Model),
    ) -> Result<(<H as Modeled>::Model, <T as Modeled>::Model), DecodeError> {
        match H::converted(pulled.0) {
            Ok(head) => match T::built(pulled.1) {
                Ok(rest) => Ok((head, rest)),
                Err(error) => Err(error),
            },
            Err(error) => Err(error),
        }
    }

    fn pull(array: &Column<'a>, fields: &[&str], rename: RenameAll, count: usize) -> (r: Result<
        Vec<(Option<<H as FromArrayRefOpt<'a>>::Item>, T::Pulled)>,
        DecodeError,
    >) {
        if fields.len() == 0 {
            return Err(DecodeError::MissingColumn);
        }
        let (head, others) = fields.split_at(1);
        assert(column_names(fields@, rename).skip(1) =~= column_names(others@, rename));
        let child = match array.field(head[0], rename) {
            Ok(child) => child,
            Err(error) => {
                return Err(error);
            },
        };
        let head = match H::from_array_ref_opt(&child, count) {
            Ok(head) => head,
            Err(error) => {
                return Err(error);
            },
        };
        let rest = match T::pull(array, others, rename, count) {
            Ok(rest) => rest,
            Err(error) => {
                return Err(error);
            },
        };
        proof {
            lemma_zipped_models(head@, rest@);
        }
        Ok(zip_fields(head, rest))
    }

    fn build(pulled: (Option<<H as FromArrayRefOpt<'a>>::Item>, T::Pulled)) -> (r: Result<
        (H, T),
        DecodeError,
    >) {
        let (head, rest) = pulled;
        match H::convert(head) {
            Ok(head) => match T::build(rest) {
                Ok(rest) => Ok((head, rest)),
                Err(error) => Err(error),
            },
            Err(error) => Err(error),
        }
    }
}

/// The first `rows` rows of a struct column, composed from what its field
/// decoders yielded: at a position where the struct is null the row is
/// absent, whatever was pulled there; at any other position the row is what
/// the fields' null policies make of the values pulled there. The first
/// position in order where a policy refuses ends the pass with its failure.
pub open spec fn composed<'a, L: FieldList<'a>>(
    nulls: Seq<bool>,
    pulled: Seq<<L::Pulled as Modeled>::Model>,
    rows: nat,
) -> Result<Seq<Option<<L as Modeled>::Model>>, DecodeError>
    decreases rows,
{
    if rows == 0 {
        Ok(Seq::empty())
    } else {
        match composed::<L>(nulls, pulled, (rows - 1) as nat) {
            Ok(before) => if nulls[rows - 1] {
                Ok(before.push(None))
            } else {
                match L::built(pulled[rows - 1]) {
                    Ok(row) => Ok(before.push(Some(row))),
                    Err(error) => Err(error),
                }
            },
            Err(error) => Err(error),
        }
    }
}

/// The rows of a struct column, composed from its null mask and from what
/// its field decoders yielded. The rows end where the shorter of the two
/// ends.
pub open spec fn composed_rows<'a, L: FieldList<'a>>(
    nulls: Seq<bool>,
    pulled: Seq<<L::Pulled as Modeled>::Model>,
) -> Result<Seq<Option<<L as Modeled>::Model>>, DecodeError> {
    composed::<L>(nulls, pulled, row_count(pulled.len(), nulls.len()))
}

/// A pass that has failed within its first rows has failed.
pub proof fn lemma_composed_failure_persists<'a, L: FieldList<'a>>(
    nulls: Seq<bool>,
    pulled: Seq<<L::Pulled as Modeled>::Model>,
    failed: nat,
    rows: nat,
)
    requires
        failed <= rows,
        composed::<L>(nulls, pulled, failed) is Err,
    ensures
        composed::<L>(nulls, pulled, rows) == composed::<L>(nulls, pulled, failed),
    decreases rows,
{
    if failed < rows {
        lemma_composed_failure_persists::<L>(nulls, pulled, failed, (rows - 1) as nat);
    }
}


/// Composes the rows of a struct column from what its field decoders
/// yielded, position by position.
///
/// `pulled` holds, for each position, the values pulled from every field
/// decoder, and `nulls` the struct's own null flag. The values of a position
/// have been pulled whether the struct is null there or not. A null position
/// gives an absent row and its values are dropped unseen. Any other position
/// gives the row that the fields' null policies make of its values; the
/// first position that a policy refuses ends the pass with its failure.
pub fn compose_rows<'a, L: FieldList<'a>>(nulls: &Vec<bool>, pulled: Vec<L::Pulled>) -> (r: Result<
    Vec<Option<L>>,
    DecodeError,
>)
    ensures
        modeled(r) == composed_rows::<L>(nulls@, pulled.model()),
{
    let ghost all = pulled.model();
    let ghost total = row_count(all.len(), nulls@.len());
    let mut rows: Vec<Option<L>> = Vec::new();
    assert(models(rows@) =~= Seq::<Option<<L as Modeled>::Model>>::empty());
    for fields in iter: pulled
        invariant
            models(iter.seq()) == all,
            total == row_count(all.len(), nulls@.len()),
            rows@.len() == iter.index(),
            iter.index() <= nulls@.len(),
            composed::<L>(nulls@, all, iter.index() as nat) == Ok::<
                Seq<Option<<L as Modeled>::Model>>,
                DecodeError,
            >(models(rows@)),
    {
        let at = rows.len();
        if at >= nulls.len() {
            return Ok(rows);
        }
        let ghost before = rows@;
        if nulls[at] {
            rows.push(None);
            assert(models(rows@) =~= models(before).push(None));
        } else {
            match L::build(fields) {
                Ok(row) => {
                    rows.push(Some(row));
                    assert(models(rows@) =~= models(before).push(Some(row.model())));
                },
                Err(error) => {
                    proof {
                        lemma_composed_failure_persists::<L>(nulls@, all, (at + 1) as nat, total);
                    }
                    return Err(error);
                },
            }
        }
    }
    Ok(rows)
}

/// What the first `count` rows of a struct column decode to, given the
/// names of the columns of the declared fields `L`.
pub open spec fn struct_rows<'a, L: FieldList<'a>>(
    data: ColumnData,
    columns: Seq<Seq<char>>,
    count: nat,
) -> Result<Seq<Option<<L as Modeled>::Model>>, DecodeError> {
    match L::pulled(data, columns, count) {
        Ok(pulled) => composed_rows::<L>(leading(data.nulls(), count), pulled),
        Err(error) => Err(error),
    }
}

/// Decodes the first `count` rows of a struct column into rows of the
/// declared fields `L`; `fields` names them in order, and `rename` says how
/// a field's name becomes its column's.
///
/// Each field's column is looked up and decoded once for the whole pass,
/// field after field, and the first that is missing or does not decode ends
/// the pass. Then the rows are composed position by position from what the
/// fields yielded and from the struct's own null mask. A declared field that
/// `fields` gives no name has no column; names beyond the declared fields
/// are not looked at.
pub fn decode_struct<'a, L: FieldList<'a>>(
    array: &Column<'a>,
    fields: &[&str],
    rename: RenameAll,
    count: usize,
) -> (r: Result<Vec<Option<L>>, DecodeError>)
    ensures
        modeled(r) == struct_rows::<L>(
            column_data(*array),
            column_names(fields@, rename),
            count as nat,
        ),
{
    match L::pull(array, fields, rename, count) {
        Ok(pulled) => {
            let nulls = array.null_mask(count);
            compose_rows::<L>(&nulls, pulled)
        },
        Err(error) => Err(error),
    }
}

} // verus!
