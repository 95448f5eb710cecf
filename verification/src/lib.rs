//! Decoding of Arrow columns into statically typed rows.
//!
//! A [`Column`] is a handle on an Arrow array, and [`column::ColumnData`] is
//! what such an array holds: the values of a leaf column, the offsets, the
//! null mask and the flat child of a list column, the null mask and the
//! named children of a struct column. Every contract in this crate is
//! stated over that model and over the [`model::Modeled`] value of what was
//! decoded.
//!
//! * [`FromArrayRefOpt`] reads a column position by position, each value
//!   present or absent; [`FromArrayRef`] reads a whole column strictly. The
//!   integers, `bool`, the bit patterns of floating-point numbers, text and
//!   bytes, borrowed from the array or copied out of it, are the leaf types;
//!   `Option<T>`, `Vec<T>` and `Vec<Option<T>>` are built on them.
//! * [`NullConversion`] is a field type's null policy, and [`NotNull`] marks
//!   the item types that have no absent value.
//! * [`list`] cuts the decoded elements of a list column into rows, along
//!   one forward cursor over the child column.
//! * [`row`] composes the rows of a struct column from the columns of its
//!   declared fields, which a [`row::FieldList`] names by their types.
//! * [`laws`] proves what holds of decoding in general: of slices, of null
//!   placeholders, of offset widths, of required values and of round trips.

pub mod column;
pub mod decode;
pub mod error;
pub mod laws;
pub mod leaf;
pub mod list;
pub mod model;
pub mod null;
pub mod row;

pub use column::Column;
pub use decode::FromArrayRef;
pub use decode::FromArrayRefOpt;
pub use error::DecodeError;
pub use null::NotNull;
pub use null::NullConversion;
