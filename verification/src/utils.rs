//! The validators of single fields.

use vstd::prelude::*;
use crate::calendar::{Date, check_day, checked_day, real_day};
use crate::outside::{chrono_ymd, parse_ymd};
use crate::reason::{DateFault, Detail, Field, Reason, ReasonView, invalid_date, invalid_field, outcome};
use crate::text::{blank, is_blank};

verus! {

/// What [`validar_string`] answers: a title is turned down when it is blank,
/// and otherwise when it has more than `max_len` characters.
pub open spec fn string_validada(valor: Seq<char>, max_len: usize) -> Result<(), ReasonView> {
    if blank(valor) {
        Err(invalid_field(Field::Title, Detail::Empty))
    } else if valor.len() > max_len {
        Err(invalid_field(Field::Title, Detail::TooLong { max_len }))
    } else {
        Ok(())
    }
}

/// What [`validar_numero`] answers: a page count is accepted when it lies in
/// `min..=max`.
pub open spec fn numero_validado(valor: u32, min: u32, max: u32) -> Result<(), ReasonView> {
    if valor < min || valor > max {
        Err(invalid_field(Field::PageCount, Detail::OutOfRange { min, max }))
    } else {
        Ok(())
    }
}

/// What [`validar_obrigatorio`] answers: a required value is turned down when
/// it is blank.
pub open spec fn obrigatorio_validado(valor: Seq<char>) -> Result<(), ReasonView> {
    if blank(valor) {
        Err(invalid_field(Field::Unnamed, Detail::Empty))
    } else {
        Ok(())
    }
}

/// `c` is one of the digits `0` to `9`.
pub open spec fn is_digit(c: char) -> bool {
    0x30 <= c as u32 <= 0x39
}

/// The number that a digit stands for.
pub open spec fn digit_value(c: char) -> int {
    c as u32 - 0x30
}

/// The three numbers of a text written as four digits, a hyphen, two digits,
/// a hyphen and two digits; `None` for a text of any other shape.
pub open spec fn written_fields(text: Seq<char>) -> Option<(i32, u32, u32)> {
    if text.len() == 10 && text[4] == '-' && text[7] == '-' && is_digit(text[0]) && is_digit(
        text[1],
    ) && is_digit(text[2]) && is_digit(text[3]) && is_digit(text[5]) && is_digit(text[6])
        && is_digit(text[8]) && is_digit(text[9]) {
        Some(
            (
                (1000 * digit_value(text[0]) + 100 * digit_value(text[1]) + 10 * digit_value(
                    text[2],
                ) + digit_value(text[3])) as i32,
                (10 * digit_value(text[5]) + digit_value(text[6])) as u32,
                (10 * digit_value(text[8]) + digit_value(text[9])) as u32,
            ),
        )
    } else {
        None
    }
}

/// What [`find_fault`] answers: the fault of the numbers that are written in
/// the text, and `Unparsable` where the text has another shape or its numbers
/// name a real day.
pub open spec fn fault_in(text: Seq<char>) -> DateFault {
    match written_fields(text) {
        Some((year, month, day)) => match checked_day(year, month, day) {
            Err(fault) => fault,
            Ok(_) => DateFault::Unparsable,
        },
        None => DateFault::Unparsable,
    }
}

/// What [`validar_data`] answers. A text that chrono reads gives the day it
/// read, checked once more; a text that chrono turns down gives the fault
/// that its own numbers show.
pub open spec fn data_validada(text: Seq<char>) -> Result<Date, ReasonView> {
    match chrono_ymd(text) {
        Some((year, month, day)) => match checked_day(year, month, day) {
            Ok(date) => Ok(date),
            Err(fault) => Err(invalid_date(fault)),
        },
        None => Err(invalid_date(fault_in(text))),
    }
}

/// Checks a title: it must not be blank, and must have at most `max_len`
/// characters.
pub fn validar_string(valor: &str, max_len: usize) -> (r: Result<(), Reason>)
    ensures
        outcome(r) == string_validada(valor@, max_len),
        r is Ok <==> !blank(valor@) && valor@.len() <= max_len,
{
    if is_blank(valor) {
        return Err(Reason::InvalidField { field: Field::Title, detail: Detail::Empty });
    }
    if valor.unicode_len() > max_len {
        return Err(Reason::InvalidField { field: Field::Title, detail: Detail::TooLong { max_len } });
    }
    Ok(())
}

/// Checks that a page count lies in `min..=max`.
pub fn validar_numero(valor: u32, min: u32, max: u32) -> (r: Result<(), Reason>)
    ensures
        outcome(r) == numero_validado(valor, min, max),
        r is Ok <==> min <= valor <= max,
{
    if valor < min || valor > max {
        return Err(
            Reason::InvalidField { field: Field::PageCount, detail: Detail::OutOfRange { min, max } },
        );
    }
    Ok(())
}

/// Checks that a required value is not blank.
pub fn validar_obrigatorio(valor: &str) -> (r: Result<(), Reason>)
    ensures
        outcome(r) == obrigatorio_validado(valor@),
        r is Ok <==> !blank(valor@),
{
    if is_blank(valor) {
        return Err(Reason::InvalidField { field: Field::Unnamed, detail: Detail::Empty });
    }
    Ok(())
}

/// The digit at place `i` of `text`, if a digit stands there.
fn digit_at(text: &str, i: usize) -> (r: Option<u32>)
    requires
        i < text@.len(),
    ensures
        r is Some <==> is_digit(text@[i as int]),
        r matches Some(d) ==> d == digit_value(text@[i as int]) && d <= 9,
{
    let n: u32 = text.get_char(i) as u32;
    if 0x30 <= n && n <= 0x39 {
        Some(n - 0x30)
    } else {
        None
    }
}

/// Reads the three numbers of a text written as `YYYY-MM-DD`.
pub fn read_fields(text: &str) -> (r: Option<(i32, u32, u32)>)
    ensures
        r == written_fields(text@),
{
    if text.unicode_len() != 10 {
        return None;
    }
    if text.get_char(4) != '-' || text.get_char(7) != '-' {
        return None;
    }
    let y0 = digit_at(text, 0)?;
    let y1 = digit_at(text, 1)?;
    let y2 = digit_at(text, 2)?;
    let y3 = digit_at(text, 3)?;
    let m0 = digit_at(text, 5)?;
    let m1 = digit_at(text, 6)?;
    let d0 = digit_at(text, 8)?;
    let d1 = digit_at(text, 9)?;
    let year: u32 = 1000 * y0 + 100 * y1 + 10 * y2 + y3;
    Some((year as i32, 10 * m0 + m1, 10 * d0 + d1))
}

/// Says what is wrong with a text that chrono did not read as a date.
pub fn find_fault(text: &str) -> (fault: DateFault)
    ensures
        fault == fault_in(text@),
{
    match read_fields(text) {
        Some((year, month, day)) => match check_day(year, month, day) {
            Err(fault) => fault,
            Ok(_) => DateFault::Unparsable,
        },
        None => DateFault::Unparsable,
    }
}

/// Reads a date written as year, month and day, and checks that the day
/// exists.
pub fn validar_data(data_str: &str) -> (r: Result<Date, Reason>)
    ensures
        outcome(r) == data_validada(data_str@),
        r is Ok <==> (chrono_ymd(data_str@) matches Some((year, month, day)) && real_day(
            year as int,
            month as int,
            day as int,
        )),
        r matches Ok(date) ==> date.wf(),
        r matches Err(e) ==> e@ is InvalidDate,
{
    match parse_ymd(data_str) {
        Ok((year, month, day)) => match check_day(year, month, day) {
            Ok(date) => Ok(date),
            Err(fault) => Err(Reason::InvalidDate { detail: fault }),
        },
        Err(_) => Err(Reason::InvalidDate { detail: find_fault(data_str) }),
    }
}

} // verus!
