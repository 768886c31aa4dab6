//! What holds of the rules of the catalogue for every input.

use vstd::prelude::*;
use crate::catalog::{ChangesView, FieldOutcomeView, edited};
use crate::models::{BookRecord, Genero, MAX_PAGES, MAX_TITLE_LEN, MIN_PAGES};
use crate::reason::ReasonView;
use crate::text::{blank, lemma_trimmed_not_blank, trimmed};
use crate::utils::{data_validada, string_validada};

verus! {

/// A book with fewer than 1 page or more than 2000 is never built: whatever
/// the other fields are, the answer is that a field is invalid.
pub proof fn law_pages_outside_range(
    titulo: Seq<char>,
    numero_paginas: u32,
    data_publicacao: Seq<char>,
    genero: Seq<char>,
)
    requires
        numero_paginas < MIN_PAGES || numero_paginas > MAX_PAGES,
    ensures
        BookRecord::validated(titulo, numero_paginas, data_publicacao, genero) matches Err(e)
            && e is InvalidField,
{
}

/// With a valid title, a valid date and a known genre, every page count from
/// 1 to 2000 is accepted, and the book holds the fields as they were given.
pub proof fn law_pages_inside_range(
    titulo: Seq<char>,
    numero_paginas: u32,
    data_publicacao: Seq<char>,
    genero: Seq<char>,
)
    requires
        MIN_PAGES <= numero_paginas <= MAX_PAGES,
        string_validada(titulo, MAX_TITLE_LEN) is Ok,
        data_validada(data_publicacao) is Ok,
        !blank(genero),
        Genero::parsed(genero) is Ok,
    ensures
        BookRecord::validated(titulo, numero_paginas, data_publicacao, genero) == Ok::<
            BookRecord,
            ReasonView,
        >(
            BookRecord {
                titulo,
                numero_paginas,
                data_publicacao: data_validada(data_publicacao)->Ok_0,
                genero: Genero::parsed(genero)->Ok_0,
            },
        ),
{
}

/// Every book that is built is valid.
pub proof fn law_validated_is_wf(
    titulo: Seq<char>,
    numero_paginas: u32,
    data_publicacao: Seq<char>,
    genero: Seq<char>,
)
    ensures
        BookRecord::validated(titulo, numero_paginas, data_publicacao, genero) matches Ok(record)
            ==> record.wf(),
{
}

/// An edit that leaves the title out, or gives a blank one, keeps the title.
pub proof fn law_blank_title_is_kept(record: BookRecord, changes: ChangesView)
    requires
        changes.titulo matches Some(titulo) ==> blank(titulo),
    ensures
        edited(record, changes).0.titulo == record.titulo,
        edited(record, changes).1.titulo == FieldOutcomeView::Kept,
{
}

/// An edit that gives a title and nothing else, where the title has at most
/// 100 characters once the white space around it is cut, puts that title in
/// the book and changes no other field.
pub proof fn law_new_title_changes_the_title_only(record: BookRecord, titulo: Seq<char>)
    requires
        !blank(titulo),
        trimmed(titulo).len() <= MAX_TITLE_LEN,
    ensures
        edited(
            record,
            ChangesView {
                titulo: Some(titulo),
                numero_paginas: None,
                data_publicacao: None,
                genero: None,
            },
        ).0 == (BookRecord { titulo: trimmed(titulo), ..record }),
{
    lemma_trimmed_not_blank(titulo);
}

/// An edit that asks for nothing changes nothing.
pub proof fn law_no_changes_change_nothing(record: BookRecord)
    ensures
        edited(
            record,
            ChangesView { titulo: None, numero_paginas: None, data_publicacao: None, genero: None },
        ).0 == record,
{
}

} // verus!
