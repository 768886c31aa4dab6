//! The catalogue as it is kept: a list of books in the order in which they
//! were added, and the bytes that stand for the whole list.

use vstd::prelude::*;
use crate::catalog::{Changes, EditReport, edit_book, edited, lemma_edited_wf, remove_book};
use crate::calendar::{Date, check_day};
use crate::models::{BookRecord, Genero, Livro, MAX_PAGES, MAX_TITLE_LEN, MIN_PAGES};
use crate::outside::{Row, RowView, bincode_bytes, bincode_rows, decode_rows, encode_rows};
use crate::reason::{Reason, ReasonView};
use crate::utils::{validar_numero, validar_string};

verus! {

/// Every record of the catalogue is one that the validators accept.
pub open spec fn all_wf(catalog: Seq<BookRecord>) -> bool {
    forall|i: int| 0 <= i < catalog.len() ==> (#[trigger] catalog[i]).wf()
}

/// A record as the row that is handed to bincode.
pub open spec fn row_of(record: BookRecord) -> RowView {
    (
        record.titulo,
        record.numero_paginas,
        record.data_publicacao.year,
        record.data_publicacao.month,
        record.data_publicacao.day,
        record.genero.number(),
    )
}

/// The rows of a catalogue, in its order.
pub open spec fn rows_of(catalog: Seq<BookRecord>) -> Seq<RowView> {
    catalog.map_values(|record: BookRecord| row_of(record))
}

/// The record that a row stands for; `None` where the row has no genre of
/// that number or breaks a rule of the validators.
pub open spec fn record_of(row: RowView) -> Option<BookRecord> {
    match Genero::numbered(row.5) {
        None => None,
        Some(genero) => {
            let record = BookRecord {
                titulo: row.0,
                numero_paginas: row.1,
                data_publicacao: Date { year: row.2, month: row.3, day: row.4 },
                genero,
            };
            if record.wf() {
                Some(record)
            } else {
                None
            }
        },
    }
}

/// The catalogue that a list of rows stands for; `None` where one of the rows
/// stands for no record.
pub open spec fn records_of(rows: Seq<RowView>) -> Option<Seq<BookRecord>> {
    if forall|i: int| 0 <= i < rows.len() ==> record_of(#[trigger] rows[i]) is Some {
        Some(rows.map_values(|row: RowView| record_of(row)->0))
    } else {
        None
    }
}

/// What [`carregar_livros`] answers. No bytes at all are the catalogue with
/// no books; other bytes must be read by bincode as rows that each stand for
/// a valid record, or the store is corrupt.
pub open spec fn loaded(dados: Seq<u8>) -> Result<Seq<BookRecord>, ReasonView> {
    if dados.len() == 0 {
        Ok(Seq::empty())
    } else {
        match bincode_rows(dados) {
            None => Err(ReasonView::StorageCorrupt),
            Some(rows) => match records_of(rows) {
                None => Err(ReasonView::StorageCorrupt),
                Some(catalog) => Ok(catalog),
            },
        }
    }
}

/// The bytes that [`salvar_livros`] gives for a catalogue: those that bincode
/// makes of its rows. There are none where bincode fails, and none where it
/// makes no bytes at all of a catalogue that has books, since those bytes
/// would be read back as the catalogue with no books.
pub open spec fn stored(catalog: Seq<BookRecord>) -> Option<Seq<u8>> {
    match bincode_bytes(rows_of(catalog)) {
        None => None,
        Some(dados) => if dados.len() == 0 && catalog.len() > 0 {
            None
        } else {
            Some(dados)
        },
    }
}

/// `dados` are the bytes of `catalog`, and bincode reads its rows back from
/// them.
pub open spec fn image_of(catalog: Seq<BookRecord>, dados: Seq<u8>) -> bool {
    &&& stored(catalog) == Some(dados)
    &&& bincode_rows(dados) == Some(rows_of(catalog))
}

/// What a function that ends by saving `catalog` may answer: the image of the
/// catalogue, or `StorageIoFailure` where it has none.
pub open spec fn saved(catalog: Seq<BookRecord>, r: Result<Vec<u8>, Reason>) -> bool {
    match r {
        Ok(dados) => image_of(catalog, dados@),
        Err(e) => e@ == ReasonView::StorageIoFailure && stored(catalog) is None,
    }
}

/// The model of what a function that gives a catalogue answers.
pub open spec fn catalog_outcome(r: Result<Vec<Livro>, Reason>) -> Result<
    Seq<BookRecord>,
    ReasonView,
> {
    match r {
        Ok(livros) => Ok(livros.deep_view()),
        Err(e) => Err(e@),
    }
}

/// Round trip: the image of a catalogue of valid records is loaded as that
/// catalogue, with the same records in the same order.
pub proof fn lemma_load_after_save(catalog: Seq<BookRecord>, dados: Seq<u8>)
    requires
        all_wf(catalog),
        image_of(catalog, dados),
    ensures
        loaded(dados) == Ok::<Seq<BookRecord>, ReasonView>(catalog),
{
    let rows = rows_of(catalog);
    assert forall|i: int| 0 <= i < rows.len() implies record_of(#[trigger] rows[i]) == Some(
        catalog[i],
    ) by {
        assert(catalog[i].wf());
        assert(rows[i] == row_of(catalog[i]));
    }
    assert(records_of(rows) is Some);
    assert(records_of(rows)->0 =~= catalog);
    if dados.len() == 0 {
        assert(catalog =~= Seq::empty());
    }
}

/// The book that a row stands for, if it stands for one.
pub fn book_of_row(row: &Row) -> (r: Option<Livro>)
    ensures
        match r {
            Some(livro) => record_of(row.deep_view()) == Some(livro@) && livro.wf(),
            None => record_of(row.deep_view()) is None,
        },
{
    let genero = match Genero::from_number(row.5) {
        Some(genero) => genero,
        None => return None,
    };
    if validar_string(row.0.as_str(), MAX_TITLE_LEN).is_err() {
        return None;
    }
    if validar_numero(row.1, MIN_PAGES, MAX_PAGES).is_err() {
        return None;
    }
    match check_day(row.2, row.3, row.4) {
        Ok(data) => Some(
            Livro {
                titulo: row.0.clone(),
                numero_paginas: row.1,
                data_publicacao: data,
                genero,
            },
        ),
        Err(_) => None,
    }
}

/// The row that stands for a book.
pub fn row_of_book(livro: &Livro) -> (row: Row)
    ensures
        row.deep_view() == row_of(livro@),
{
    (
        livro.titulo.clone(),
        livro.numero_paginas,
        livro.data_publicacao.year,
        livro.data_publicacao.month,
        livro.data_publicacao.day,
        livro.genero.to_number(),
    )
}

/// The catalogue that a list of rows stands for. One row that stands for no
/// valid book makes the whole list corrupt.
pub fn books_of_rows(rows: &Vec<Row>) -> (r: Result<Vec<Livro>, Reason>)
    ensures
        match r {
            Ok(livros) => {
                &&& records_of(rows.deep_view()) == Some(livros.deep_view())
                &&& all_wf(livros.deep_view())
            },
            Err(e) => records_of(rows.deep_view()) is None && e@ == ReasonView::StorageCorrupt,
        },
{
    let mut livros: Vec<Livro> = Vec::new();
    let mut i: usize = 0;
    while i < rows.len()
        invariant
            i <= rows.len(),
            livros.len() == i,
            forall|k: int|
                0 <= k < i ==> record_of((#[trigger] rows@[k]).deep_view()) == Some(livros@[k]@),
            forall|k: int| 0 <= k < i ==> (#[trigger] livros@[k]).wf(),
        decreases rows.len() - i,
    {
        match book_of_row(&rows[i]) {
            Some(livro) => livros.push(livro),
            None => {
                assert(rows.deep_view()[i as int] == rows@[i as int].deep_view());
                return Err(Reason::StorageCorrupt);
            },
        }
        i = i + 1;
    }
    proof {
        let views = rows.deep_view();
        assert forall|k: int| 0 <= k < views.len() implies record_of(#[trigger] views[k]) is Some by {
            assert(views[k] == rows@[k].deep_view());
        }
        assert(livros.deep_view() =~= records_of(views)->0) by {
            assert forall|k: int| 0 <= k < livros.len() implies livros.deep_view()[k] == record_of(
                views[k],
            )->0 by {
                assert(views[k] == rows@[k].deep_view());
            }
        }
        assert forall|k: int| 0 <= k < livros.len() implies (#[trigger] livros.deep_view()[k]).wf() by {
            assert(livros@[k].wf());
        }
    }
    Ok(livros)
}

/// The rows that stand for a catalogue, in its order.
pub fn rows_of_books(livros: &Vec<Livro>) -> (rows: Vec<Row>)
    ensures
        rows.deep_view() == rows_of(livros.deep_view()),
{
    let mut rows: Vec<Row> = Vec::new();
    let mut i: usize = 0;
    while i < livros.len()
        invariant
            i <= livros.len(),
            rows.len() == i,
            forall|k: int| 0 <= k < i ==> (#[trigger] rows@[k]).deep_view() == row_of(livros@[k]@),
        decreases livros.len() - i,
    {
        rows.push(row_of_book(&livros[i]));
        i = i + 1;
    }
    assert(rows.deep_view() =~= rows_of(livros.deep_view()));
    rows
}

/// Takes the bytes that were made of a list of `count` books as its image,
/// unless there are no bytes at all for a list that has books: a load would
/// take those for a store that was never written, and the books would be
/// lost without a word.
pub fn accept_image(count: usize, dados: Vec<u8>) -> (r: Result<Vec<u8>, Reason>)
    ensures
        r is Ok <==> !(dados@.len() == 0 && count > 0),
        r matches Ok(image) ==> image == dados,
        r matches Err(e) ==> e@ == ReasonView::StorageIoFailure,
{
    if dados.len() == 0 && count > 0 {
        return Err(Reason::StorageIoFailure);
    }
    Ok(dados)
}

/// Reads the catalogue from the bytes of the store. A store that was never
/// written has no bytes and holds no books.
pub fn carregar_livros(dados: &[u8]) -> (r: Result<Vec<Livro>, Reason>)
    ensures
        catalog_outcome(r) == loaded(dados@),
        r matches Ok(livros) ==> all_wf(livros.deep_view()),
        r matches Err(e) ==> e@ == ReasonView::StorageCorrupt,
        dados@.len() == 0 ==> r is Ok,
{
    if dados.len() == 0 {
        let livros: Vec<Livro> = Vec::new();
        assert(livros.deep_view() =~= Seq::empty());
        return Ok(livros);
    }
    match decode_rows(dados) {
        Ok(rows) => books_of_rows(&rows),
        Err(_) => Err(Reason::StorageCorrupt),
    }
}

/// Turns the whole catalogue into the bytes to write to the store.
///
/// The bytes of a catalogue of valid books are read back by
/// [`carregar_livros`] as the same books in the same order.
pub fn salvar_livros(livros: &Vec<Livro>) -> (r: Result<Vec<u8>, Reason>)
    ensures
        saved(livros.deep_view(), r),
        r matches Ok(dados) ==> (all_wf(livros.deep_view()) ==> loaded(dados@) == Ok::<
            Seq<BookRecord>,
            ReasonView,
        >(livros.deep_view())),
{
    let rows = rows_of_books(livros);
    match encode_rows(&rows) {
        Ok(dados) => {
            proof {
                if all_wf(livros.deep_view()) && !(dados@.len() == 0 && livros@.len() > 0) {
                    lemma_load_after_save(livros.deep_view(), dados@);
                }
            }
            accept_image(livros.len(), dados)
        },
        Err(_) => Err(Reason::StorageIoFailure),
    }
}

/// Lists the books of the store, in the order in which they were added.
pub fn listar_livros(dados: &[u8]) -> (r: Result<Vec<Livro>, Reason>)
    ensures
        catalog_outcome(r) == loaded(dados@),
        r matches Ok(livros) ==> all_wf(livros.deep_view()),
{
    carregar_livros(dados)
}

/// Adds a book to the store and gives the bytes to write back.
///
/// The fields are checked before the store is read, so fields that are not
/// valid are turned down whatever the store holds; on any error there is
/// nothing to write and the store stays as it is.
pub fn adicionar_livro(
    dados: &[u8],
    titulo: &str,
    numero_paginas: u32,
    data_publicacao: &str,
    genero: &str,
) -> (r: Result<Vec<u8>, Reason>)
    ensures
        match BookRecord::validated(titulo@, numero_paginas, data_publicacao@, genero@) {
            Err(reason) => r matches Err(e) && e@ == reason,
            Ok(record) => match loaded(dados@) {
                Err(reason) => r matches Err(e) && e@ == reason,
                Ok(catalog) => {
                    &&& saved(catalog.push(record), r)
                    &&& r matches Ok(novos) ==> loaded(novos@) == Ok::<Seq<BookRecord>, ReasonView>(
                        catalog.push(record),
                    )
                },
            },
        },
        numero_paginas < MIN_PAGES || numero_paginas > MAX_PAGES ==> (r matches Err(e) && e@
            is InvalidField),
{
    let livro = Livro::novo(titulo, numero_paginas, data_publicacao, genero)?;
    let mut livros = carregar_livros(dados)?;
    let ghost before = livros.deep_view();
    livros.push(livro);
    assert(livros.deep_view() =~= before.push(livro@));
    salvar_livros(&livros)
}

/// Removes the book at place `escolha`, counted from 1, and gives it back
/// with the bytes to write. The place 0 removes nothing and is no error:
/// there is nothing to write. A place past the end of the list is an error.
pub fn deletar_livro(dados: &[u8], escolha: usize) -> (r: Result<Option<(Livro, Vec<u8>)>, Reason>)
    ensures
        match loaded(dados@) {
            Err(reason) => r matches Err(e) && e@ == reason,
            Ok(catalog) => if escolha == 0 {
                r matches Ok(None)
            } else if escolha > catalog.len() {
                r matches Err(e) && e@ == ReasonView::InvalidPosition
            } else {
                match r {
                    Ok(Some((livro, novos))) => {
                        &&& livro@ == catalog[escolha - 1]
                        &&& image_of(catalog.remove(escolha - 1), novos@)
                        &&& loaded(novos@) == Ok::<Seq<BookRecord>, ReasonView>(
                            catalog.remove(escolha - 1),
                        )
                    },
                    Ok(None) => false,
                    Err(e) => {
                        &&& e@ == ReasonView::StorageIoFailure
                        &&& stored(catalog.remove(escolha - 1)) is None
                    },
                }
            },
        },
{
    let mut livros = carregar_livros(dados)?;
    let ghost before = livros.deep_view();
    match remove_book(&mut livros, escolha) {
        Err(e) => Err(e),
        Ok(None) => Ok(None),
        Ok(Some(livro)) => {
            proof {
                assert(livros.deep_view() =~= before.remove(escolha - 1));
                assert(all_wf(livros.deep_view()));
            }
            match salvar_livros(&livros) {
                Ok(novos) => Ok(Some((livro, novos))),
                Err(e) => Err(e),
            }
        },
    }
}

/// Changes the book at place `escolha`, counted from 1, as `changes` ask, and
/// gives the report on each field with the bytes to write. The place 0
/// changes nothing and is no error: there is nothing to write. A place past
/// the end of the list is an error. A new value that is turned down is named
/// in the report and does not stop the edit.
pub fn alterar_livro(dados: &[u8], escolha: usize, changes: &Changes) -> (r: Result<
    Option<(EditReport, Vec<u8>)>,
    Reason,
>)
    ensures
        match loaded(dados@) {
            Err(reason) => r matches Err(e) && e@ == reason,
            Ok(catalog) => if escolha == 0 {
                r matches Ok(None)
            } else if escolha > catalog.len() {
                r matches Err(e) && e@ == ReasonView::InvalidPosition
            } else {
                let after = edited(catalog[escolha - 1], changes@);
                match r {
                    Ok(Some((report, novos))) => {
                        &&& report@ == after.1
                        &&& image_of(catalog.update(escolha - 1, after.0), novos@)
                        &&& loaded(novos@) == Ok::<Seq<BookRecord>, ReasonView>(
                            catalog.update(escolha - 1, after.0),
                        )
                    },
                    Ok(None) => false,
                    Err(e) => {
                        &&& e@ == ReasonView::StorageIoFailure
                        &&& stored(catalog.update(escolha - 1, after.0)) is None
                    },
                }
            },
        },
{
    let mut livros = carregar_livros(dados)?;
    let ghost before = livros.deep_view();
    match edit_book(&mut livros, escolha, changes) {
        Err(e) => Err(e),
        Ok(None) => Ok(None),
        Ok(Some(report)) => {
            proof {
                lemma_edited_wf(before[escolha - 1], changes@);
                assert(all_wf(livros.deep_view()));
            }
            match salvar_livros(&livros) {
                Ok(novos) => Ok(Some((report, novos))),
                Err(e) => Err(e),
            }
        },
    }
}

} // verus!
