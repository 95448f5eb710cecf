use vstd::prelude::*;

verus! {

/// Why a decoding pass was abandoned. Each of these ends the whole pass:
/// no row is handed out, and none is repaired.
#[derive(Clone, Copy, Debug, PartialEq, Eq, Hash, Structural)]
pub enum DecodeError {
    /// The column's physical kind is not one that the decoder reads.
    SchemaMismatch,
    /// The struct column has no child of the wanted name.
    MissingColumn,
    /// A required value is absent.
    UnexpectedNull,
}

impl DecodeError {
    /// The failure in words.
    pub open spec fn text(self) -> Seq<char> {
        match self {
            DecodeError::SchemaMismatch => "the column is not of the kind that the type decodes"@,
            DecodeError::MissingColumn => "the struct column has no child of the field's name"@,
            DecodeError::UnexpectedNull => "a required value is null"@,
        }
    }

    /// Computes `text`.
    pub fn message(&self) -> (message: &'static str)
        ensures
            message@ == self.text(),
    {
        match self {
            DecodeError::SchemaMismatch => "the column is not of the kind that the type decodes",
            DecodeError::MissingColumn => "the struct column has no child of the field's name",
            DecodeError::UnexpectedNull => "a required value is null",
        }
    }
}

} // verus!
