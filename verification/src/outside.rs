//! What the crate takes on trust: the calls into chrono, bincode and the part
//! of the standard library that lowers the case of a text.
//!
//! Nothing here is proved. Each contract says what the called function is
//! taken to do; where that takes tables or pages to say, the result only has a
//! name, and the contract says that the call returns what the name stands for.

use vstd::prelude::*;
use chrono::Datelike;

verus! {

/// One record as bincode sees it: title, page count, year, month, day, and
/// the number of the genre.
pub type Row = (String, u32, i32, u32, u32, u32);

/// The mathematical value of a [`Row`].
pub type RowView = (Seq<char>, u32, i32, u32, u32, u32);

/// chrono's error for a text that is no date. It is carried, never looked
/// into.
#[verifier::external_type_specification]
#[verifier::external_body]
pub struct ExParseError(chrono::ParseError);

/// bincode's error. It is carried, never looked into.
#[verifier::external_type_specification]
#[verifier::external_body]
pub struct ExErrorKind(bincode::ErrorKind);

/// The day that chrono reads from a text under the format `%Y-%m-%d`, as
/// year, month and day; `None` for a text that chrono turns down.
pub uninterp spec fn chrono_ymd(text: Seq<char>) -> Option<(i32, u32, u32)>;

/// The text that `str::to_lowercase` gives for a text.
pub uninterp spec fn lowercase(text: Seq<char>) -> Seq<char>;

/// The bytes that `bincode::serialize` gives for a list of rows; `None` where
/// it fails.
pub uninterp spec fn bincode_bytes(rows: Seq<RowView>) -> Option<Seq<u8>>;

/// The rows that `bincode::deserialize` reads from bytes; `None` where it
/// fails.
pub uninterp spec fn bincode_rows(bytes: Seq<u8>) -> Option<Seq<RowView>>;

/// Calls `chrono::NaiveDate::parse_from_str` with the format `%Y-%m-%d` and
/// takes year, month and day off the date with `Datelike`.
///
/// Claimed: the answer depends on the text alone, so it is `chrono_ymd` of
/// the text. Nothing is claimed of which texts chrono accepts, nor that the
/// numbers name a real day.
#[verifier::external_body]
pub(crate) fn parse_ymd(text: &str) -> (r: Result<(i32, u32, u32), chrono::ParseError>)
    ensures
        match r {
            Ok(ymd) => chrono_ymd(text@) == Some(ymd),
            Err(_) => chrono_ymd(text@) is None,
        },
{
    match chrono::NaiveDate::parse_from_str(text, "%Y-%m-%d") {
        Ok(date) => Ok((date.year(), date.month(), date.day())),
        Err(e) => Err(e),
    }
}

/// `str::to_lowercase`: the lowercase form of a text under the Unicode rules.
///
/// Claimed: the answer depends on the text alone, so it is `lowercase` of the
/// text.
pub assume_specification[ str::to_lowercase ](s: &str) -> (r: String)
    ensures
        r@ == lowercase(s@),
;

/// Calls `bincode::serialize` on a list of rows.
///
/// Claimed: the bytes depend on the rows alone, so they are `bincode_bytes`
/// of the rows; and `bincode::deserialize` reads the same rows back from
/// them.
#[verifier::external_body]
pub(crate) fn encode_rows(rows: &Vec<Row>) -> (r: Result<Vec<u8>, Box<bincode::ErrorKind>>)
    ensures
        match r {
            Ok(bytes) => {
                &&& bincode_bytes(rows.deep_view()) == Some(bytes@)
                &&& bincode_rows(bytes@) == Some(rows.deep_view())
            },
            Err(_) => bincode_bytes(rows.deep_view()) is None,
        },
{
    bincode::serialize(rows)
}

/// Calls `bincode::deserialize` for a list of rows.
///
/// Claimed: the rows depend on the bytes alone, so they are `bincode_rows` of
/// the bytes.
#[verifier::external_body]
pub(crate) fn decode_rows(bytes: &[u8]) -> (r: Result<Vec<Row>, Box<bincode::ErrorKind>>)
    ensures
        match r {
            Ok(rows) => bincode_rows(bytes@) == Some(rows.deep_view()),
            Err(_) => bincode_rows(bytes@) is None,
        },
{
    bincode::deserialize(bytes)
}

} // verus!
