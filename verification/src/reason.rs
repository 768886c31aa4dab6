//! Why an input was turned down.

use vstd::prelude::*;

verus! {

/// The field of a record that a rejection speaks of.
#[derive(Debug, Clone, Copy, PartialEq, Eq, Structural)]
pub enum Field {
    Title,
    PageCount,
    Genre,
    /// A required value that the caller did not tie to a field.
    Unnamed,
}

/// What was wrong with a field.
#[derive(Debug, Clone, Copy, PartialEq, Eq, Structural)]
pub enum Detail {
    /// Nothing is left once the surrounding white space is taken away.
    Empty,
    /// More characters than `max_len`.
    TooLong { max_len: usize },
    /// Outside `min..=max`.
    OutOfRange { min: u32, max: u32 },
}

/// What was wrong with a date.
#[derive(Debug, Clone, Copy, PartialEq, Eq, Structural)]
pub enum DateFault {
    /// The text is not a date written as year, month and day.
    Unparsable,
    /// The month is not one of 1 to 12.
    MonthOutOfRange { month: u32 },
    /// The month has no such day in that year.
    DayInvalid { day: u32, month: u32 },
}

/// A rejection: which rule failed, and on what.
#[derive(Debug, PartialEq, Eq)]
#[allow(inconsistent_fields)]
pub enum Reason {
    InvalidField { field: Field, detail: Detail },
    InvalidDate { detail: DateFault },
    /// The text names no genre; `raw_text` is the text as it was given.
    InvalidGenre { raw_text: String },
    /// The position is past the end of the catalogue.
    InvalidPosition,
    /// The stored bytes are not the image of a catalogue of valid records.
    StorageCorrupt,
    /// The catalogue could not be turned into bytes.
    StorageIoFailure,
}

/// The mathematical value of a [`Reason`]: the same cases, with the text of
/// an unknown genre as a sequence of characters.
#[allow(inconsistent_fields)]
pub enum ReasonView {
    InvalidField { field: Field, detail: Detail },
    InvalidDate { detail: DateFault },
    InvalidGenre { raw_text: Seq<char> },
    InvalidPosition,
    StorageCorrupt,
    StorageIoFailure,
}

impl View for Reason {
    type V = ReasonView;

    open spec fn view(&self) -> ReasonView {
        match *self {
            Reason::InvalidField { field, detail } => ReasonView::InvalidField { field, detail },
            Reason::InvalidDate { detail } => ReasonView::InvalidDate { detail },
            Reason::InvalidGenre { raw_text } => ReasonView::InvalidGenre { raw_text: raw_text@ },
            Reason::InvalidPosition => ReasonView::InvalidPosition,
            Reason::StorageCorrupt => ReasonView::StorageCorrupt,
            Reason::StorageIoFailure => ReasonView::StorageIoFailure,
        }
    }
}

impl Clone for Reason {
    fn clone(&self) -> (r: Self)
        ensures
            r == *self,
    {
        match self {
            Reason::InvalidField { field, detail } => Reason::InvalidField {
                field: *field,
                detail: *detail,
            },
            Reason::InvalidDate { detail } => Reason::InvalidDate { detail: *detail },
            Reason::InvalidGenre { raw_text } => Reason::InvalidGenre { raw_text: raw_text.clone() },
            Reason::InvalidPosition => Reason::InvalidPosition,
            Reason::StorageCorrupt => Reason::StorageCorrupt,
            Reason::StorageIoFailure => Reason::StorageIoFailure,
        }
    }
}

/// A rejection of a field, as a value of the model.
pub open spec fn invalid_field(field: Field, detail: Detail) -> ReasonView {
    ReasonView::InvalidField { field, detail }
}

/// A rejection of a date, as a value of the model.
pub open spec fn invalid_date(detail: DateFault) -> ReasonView {
    ReasonView::InvalidDate { detail }
}

/// The model of a result: the views of what it holds.
pub open spec fn outcome<T: View, E: View>(r: Result<T, E>) -> Result<T::V, E::V> {
    match r {
        Ok(t) => Ok(t@),
        Err(e) => Err(e@),
    }
}

} // verus!
