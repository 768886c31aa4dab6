//! The catalogue in memory: adding a book, removing one and changing one.
//!
//! A book is chosen by its place in the list, counted from 1. The place 0
//! stands for "none": the caller changed their mind, and nothing is done.

use std::str::FromStr;
use vstd::prelude::*;
use crate::calendar::Date;
use crate::models::{BookRecord, Genero, Livro, MAX_PAGES, MAX_TITLE_LEN, MIN_PAGES};
use crate::reason::{Reason, ReasonView};
use crate::text::{blank, is_blank, trim, trimmed};
use crate::utils::{data_validada, numero_validado, string_validada, validar_data, validar_numero, validar_string};

verus! {

/// The new values asked for a book. A field that is `None` is left as it is,
/// and so is a text that is blank.
#[derive(Debug, PartialEq, Eq)]
pub struct Changes {
    pub titulo: Option<String>,
    pub numero_paginas: Option<u32>,
    pub data_publicacao: Option<String>,
    pub genero: Option<String>,
}

/// The mathematical value of [`Changes`].
pub struct ChangesView {
    pub titulo: Option<Seq<char>>,
    pub numero_paginas: Option<u32>,
    pub data_publicacao: Option<Seq<char>>,
    pub genero: Option<Seq<char>>,
}

impl View for Changes {
    type V = ChangesView;

    open spec fn view(&self) -> ChangesView {
        ChangesView {
            titulo: self.titulo.deep_view(),
            numero_paginas: self.numero_paginas,
            data_publicacao: self.data_publicacao.deep_view(),
            genero: self.genero.deep_view(),
        }
    }
}

impl Default for Changes {
    /// The changes that ask for nothing.
    fn default() -> (r: Self)
        ensures
            r@ == (ChangesView {
                titulo: None,
                numero_paginas: None,
                data_publicacao: None,
                genero: None,
            }),
    {
        Changes { titulo: None, numero_paginas: None, data_publicacao: None, genero: None }
    }
}

/// What became of one field in an edit.
#[derive(Debug, PartialEq, Eq)]
pub enum FieldOutcome {
    /// No new value was asked for; the field is as before.
    Kept,
    /// The new value was accepted and stands in the book.
    Replaced,
    /// The new value was turned down; the field is as before.
    Rejected(Reason),
}

/// The mathematical value of a [`FieldOutcome`].
pub enum FieldOutcomeView {
    Kept,
    Replaced,
    Rejected(ReasonView),
}

impl View for FieldOutcome {
    type V = FieldOutcomeView;

    open spec fn view(&self) -> FieldOutcomeView {
        match *self {
            FieldOutcome::Kept => FieldOutcomeView::Kept,
            FieldOutcome::Replaced => FieldOutcomeView::Replaced,
            FieldOutcome::Rejected(reason) => FieldOutcomeView::Rejected(reason@),
        }
    }
}

/// What became of each field in an edit.
#[derive(Debug, PartialEq, Eq)]
pub struct EditReport {
    pub titulo: FieldOutcome,
    pub numero_paginas: FieldOutcome,
    pub data_publicacao: FieldOutcome,
    pub genero: FieldOutcome,
}

/// The mathematical value of an [`EditReport`].
pub struct EditReportView {
    pub titulo: FieldOutcomeView,
    pub numero_paginas: FieldOutcomeView,
    pub data_publicacao: FieldOutcomeView,
    pub genero: FieldOutcomeView,
}

impl View for EditReport {
    type V = EditReportView;

    open spec fn view(&self) -> EditReportView {
        EditReportView {
            titulo: self.titulo@,
            numero_paginas: self.numero_paginas@,
            data_publicacao: self.data_publicacao@,
            genero: self.genero@,
        }
    }
}

/// The text that a change asks for, without the white space around it;
/// `None` where the change is left out or blank.
pub open spec fn asked(change: Option<Seq<char>>) -> Option<Seq<char>> {
    match change {
        Some(text) => if blank(text) {
            None
        } else {
            Some(trimmed(text))
        },
        None => None,
    }
}

/// The title after an edit, and what became of it.
pub open spec fn new_title(old: Seq<char>, change: Option<Seq<char>>) -> (
    Seq<char>,
    FieldOutcomeView,
) {
    match asked(change) {
        None => (old, FieldOutcomeView::Kept),
        Some(text) => match string_validada(text, MAX_TITLE_LEN) {
            Ok(_) => (text, FieldOutcomeView::Replaced),
            Err(e) => (old, FieldOutcomeView::Rejected(e)),
        },
    }
}

/// The page count after an edit, and what became of it.
pub open spec fn new_pages(old: u32, change: Option<u32>) -> (u32, FieldOutcomeView) {
    match change {
        None => (old, FieldOutcomeView::Kept),
        Some(pages) => match numero_validado(pages, MIN_PAGES, MAX_PAGES) {
            Ok(_) => (pages, FieldOutcomeView::Replaced),
            Err(e) => (old, FieldOutcomeView::Rejected(e)),
        },
    }
}

/// The date after an edit, and what became of it.
pub open spec fn new_date(old: Date, change: Option<Seq<char>>) -> (Date, FieldOutcomeView) {
    match asked(change) {
        None => (old, FieldOutcomeView::Kept),
        Some(text) => match data_validada(text) {
            Ok(data) => (data, FieldOutcomeView::Replaced),
            Err(e) => (old, FieldOutcomeView::Rejected(e)),
        },
    }
}

/// The genre after an edit, and what became of it.
pub open spec fn new_genre(old: Genero, change: Option<Seq<char>>) -> (Genero, FieldOutcomeView) {
    match asked(change) {
        None => (old, FieldOutcomeView::Kept),
        Some(text) => match Genero::parsed(text) {
            Ok(genero) => (genero, FieldOutcomeView::Replaced),
            Err(e) => (old, FieldOutcomeView::Rejected(e)),
        },
    }
}

/// A record after an edit, and what became of each field. Each field is
/// settled on its own: a new value that is turned down leaves that field as
/// it was and does not stop the others.
pub open spec fn edited(record: BookRecord, changes: ChangesView) -> (BookRecord, EditReportView) {
    let titulo = new_title(record.titulo, changes.titulo);
    let numero_paginas = new_pages(record.numero_paginas, changes.numero_paginas);
    let data_publicacao = new_date(record.data_publicacao, changes.data_publicacao);
    let genero = new_genre(record.genero, changes.genero);
    (
        BookRecord {
            titulo: titulo.0,
            numero_paginas: numero_paginas.0,
            data_publicacao: data_publicacao.0,
            genero: genero.0,
        },
        EditReportView {
            titulo: titulo.1,
            numero_paginas: numero_paginas.1,
            data_publicacao: data_publicacao.1,
            genero: genero.1,
        },
    )
}

/// An edit of a valid record gives a valid record.
pub proof fn lemma_edited_wf(record: BookRecord, changes: ChangesView)
    requires
        record.wf(),
    ensures
        edited(record, changes).0.wf(),
{
}

/// The text that a change asks for, trimmed, if it asks for one.
fn asked_text(change: &Option<String>) -> (r: Option<&str>)
    ensures
        r.deep_view() == asked(change.deep_view()),
{
    match change {
        Some(text) => {
            if is_blank(text.as_str()) {
                None
            } else {
                Some(trim(text.as_str()))
            }
        },
        None => None,
    }
}

/// Changes one book as `changes` ask, field by field, and reports on each.
pub fn edit_record(livro: &mut Livro, changes: &Changes) -> (report: EditReport)
    ensures
        (final(livro)@, report@) == edited(old(livro)@, changes@),
        old(livro).wf() ==> final(livro).wf(),
{
    let titulo = match asked_text(&changes.titulo) {
        None => FieldOutcome::Kept,
        Some(text) => match validar_string(text, MAX_TITLE_LEN) {
            Ok(_) => {
                livro.titulo = text.to_owned();
                FieldOutcome::Replaced
            },
            Err(e) => FieldOutcome::Rejected(e),
        },
    };
    let numero_paginas = match changes.numero_paginas {
        None => FieldOutcome::Kept,
        Some(pages) => match validar_numero(pages, MIN_PAGES, MAX_PAGES) {
            Ok(_) => {
                livro.numero_paginas = pages;
                FieldOutcome::Replaced
            },
            Err(e) => FieldOutcome::Rejected(e),
        },
    };
    let data_publicacao = match asked_text(&changes.data_publicacao) {
        None => FieldOutcome::Kept,
        Some(text) => match validar_data(text) {
            Ok(data) => {
                livro.data_publicacao = data;
                FieldOutcome::Replaced
            },
            Err(e) => FieldOutcome::Rejected(e),
        },
    };
    let genero = match asked_text(&changes.genero) {
        None => FieldOutcome::Kept,
        Some(text) => match Genero::from_str(text) {
            Ok(genero) => {
                livro.genero = genero;
                FieldOutcome::Replaced
            },
            Err(e) => FieldOutcome::Rejected(e),
        },
    };
    EditReport { titulo, numero_paginas, data_publicacao, genero }
}

/// Adds a book made of the four fields to the end of the list, if the fields
/// are valid; a list is never changed by fields that are not.
pub fn append_book(
    livros: &mut Vec<Livro>,
    titulo: &str,
    numero_paginas: u32,
    data_publicacao: &str,
    genero: &str,
) -> (r: Result<(), Reason>)
    ensures
        match BookRecord::validated(titulo@, numero_paginas, data_publicacao@, genero@) {
            Ok(record) => {
                &&& r is Ok
                &&& record.wf()
                &&& final(livros).deep_view() == old(livros).deep_view().push(record)
                &&& final(livros)@.len() == old(livros)@.len() + 1
                &&& final(livros)@.subrange(0, old(livros)@.len() as int) == old(livros)@
            },
            Err(reason) => {
                &&& r matches Err(e)
                &&& e@ == reason
                &&& final(livros)@ == old(livros)@
            },
        },
{
    let livro = Livro::novo(titulo, numero_paginas, data_publicacao, genero)?;
    livros.push(livro);
    assert(livros.deep_view() =~= old(livros).deep_view().push(livro@));
    assert(livros@.subrange(0, old(livros)@.len() as int) =~= old(livros)@);
    Ok(())
}

/// Removes the book at place `escolha`, counted from 1, and gives it back.
/// The place 0 removes nothing and is no error; a place past the end of the
/// list is an error and removes nothing.
pub fn remove_book(livros: &mut Vec<Livro>, escolha: usize) -> (r: Result<Option<Livro>, Reason>)
    ensures
        r is Ok <==> escolha <= old(livros)@.len(),
        match r {
            Ok(None) => escolha == 0 && final(livros)@ == old(livros)@,
            Ok(Some(livro)) => {
                &&& 1 <= escolha <= old(livros)@.len()
                &&& livro == old(livros)@[escolha - 1]
                &&& final(livros)@ == old(livros)@.remove(escolha - 1)
                &&& final(livros)@.len() == old(livros)@.len() - 1
            },
            Err(e) => {
                &&& escolha > old(livros)@.len()
                &&& e@ == ReasonView::InvalidPosition
                &&& final(livros)@ == old(livros)@
            },
        },
{
    if escolha == 0 {
        return Ok(None);
    }
    if escolha > livros.len() {
        return Err(Reason::InvalidPosition);
    }
    let livro = livros.remove(escolha - 1);
    Ok(Some(livro))
}

/// Changes the book at place `escolha`, counted from 1, as `changes` ask, and
/// reports on each field. The place 0 changes nothing and is no error; a
/// place past the end of the list is an error and changes nothing.
pub fn edit_book(livros: &mut Vec<Livro>, escolha: usize, changes: &Changes) -> (r: Result<
    Option<EditReport>,
    Reason,
>)
    ensures
        r is Ok <==> escolha <= old(livros)@.len(),
        match r {
            Ok(None) => escolha == 0 && final(livros)@ == old(livros)@,
            Ok(Some(report)) => {
                let after = edited(old(livros)@[escolha - 1]@, changes@);
                &&& 1 <= escolha <= old(livros)@.len()
                &&& report@ == after.1
                &&& final(livros).deep_view() == old(livros).deep_view().update(
                    escolha - 1,
                    after.0,
                )
                &&& final(livros)@.len() == old(livros)@.len()
                &&& forall|k: int|
                    0 <= k < old(livros)@.len() && k != escolha - 1 ==> final(livros)@[k] == old(
                        livros,
                    )@[k]
            },
            Err(e) => {
                &&& escolha > old(livros)@.len()
                &&& e@ == ReasonView::InvalidPosition
                &&& final(livros)@ == old(livros)@
            },
        },
{
    if escolha == 0 {
        return Ok(None);
    }
    if escolha > livros.len() {
        return Err(Reason::InvalidPosition);
    }
    let report = edit_record(&mut livros[escolha - 1], changes);
    assert(livros.deep_view() =~= old(livros).deep_view().update(
        escolha - 1,
        edited(old(livros)@[escolha - 1]@, changes@).0,
    ));
    Ok(Some(report))
}

} // verus!
