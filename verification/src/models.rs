//! The records of the catalogue and the values they hold.

use std::str::FromStr;
use vstd::prelude::*;
use crate::calendar::Date;
use crate::outside::lowercase;
use crate::reason::{Detail, Field, Reason, ReasonView, invalid_field, outcome};
use crate::text::blank;
use crate::utils::{data_validada, numero_validado, string_validada, validar_data, validar_numero, validar_obrigatorio, validar_string};

verus! {

/// Longest title, in characters.
pub const MAX_TITLE_LEN: usize = 100;

/// Fewest pages a book may have.
pub const MIN_PAGES: u32 = 1;

/// Most pages a book may have.
pub const MAX_PAGES: u32 = 2000;

/// The genre of a book.
#[derive(Debug, Clone, Copy, PartialEq, Eq, Structural)]
pub enum Genero {
    Ficcao,
    Biografia,
    Poesia,
    Infantil,
    Romance,
    Outro,
}

impl View for Genero {
    type V = Genero;

    open spec fn view(&self) -> Genero {
        *self
    }
}

impl Genero {
    /// The genre that a word in lower case names.
    pub open spec fn named(word: Seq<char>) -> Option<Genero> {
        if word == "ficcao"@ {
            Some(Genero::Ficcao)
        } else if word == "biografia"@ {
            Some(Genero::Biografia)
        } else if word == "poesia"@ {
            Some(Genero::Poesia)
        } else if word == "infantil"@ {
            Some(Genero::Infantil)
        } else if word == "romance"@ {
            Some(Genero::Romance)
        } else if word == "outro"@ {
            Some(Genero::Outro)
        } else {
            None
        }
    }

    /// What `from_str` answers: the genre that the text names once its case
    /// is lowered, or the text itself as the reason.
    pub open spec fn parsed(input: Seq<char>) -> Result<Genero, ReasonView> {
        match Genero::named(lowercase(input)) {
            Some(genero) => Ok(genero),
            None => Err(ReasonView::InvalidGenre { raw_text: input }),
        }
    }

    /// The number that stands for the genre in the store: its place in the
    /// list of genres, from 0.
    pub open spec fn number(self) -> u32 {
        match self {
            Genero::Ficcao => 0,
            Genero::Biografia => 1,
            Genero::Poesia => 2,
            Genero::Infantil => 3,
            Genero::Romance => 4,
            Genero::Outro => 5,
        }
    }

    /// The genre that a number stands for in the store.
    pub open spec fn numbered(n: u32) -> Option<Genero> {
        if n == 0 {
            Some(Genero::Ficcao)
        } else if n == 1 {
            Some(Genero::Biografia)
        } else if n == 2 {
            Some(Genero::Poesia)
        } else if n == 3 {
            Some(Genero::Infantil)
        } else if n == 4 {
            Some(Genero::Romance)
        } else if n == 5 {
            Some(Genero::Outro)
        } else {
            None
        }
    }

    /// Finds the genre that a word in lower case names.
    pub fn from_lowercase(word: &str) -> (r: Option<Genero>)
        ensures
            r == Genero::named(word@),
    {
        if is_word(word, "ficcao") {
            Some(Genero::Ficcao)
        } else if is_word(word, "biografia") {
            Some(Genero::Biografia)
        } else if is_word(word, "poesia") {
            Some(Genero::Poesia)
        } else if is_word(word, "infantil") {
            Some(Genero::Infantil)
        } else if is_word(word, "romance") {
            Some(Genero::Romance)
        } else if is_word(word, "outro") {
            Some(Genero::Outro)
        } else {
            None
        }
    }

    /// The number that stands for the genre in the store.
    pub fn to_number(self) -> (n: u32)
        ensures
            n == self.number(),
            Genero::numbered(n) == Some(self),
    {
        match self {
            Genero::Ficcao => 0,
            Genero::Biografia => 1,
            Genero::Poesia => 2,
            Genero::Infantil => 3,
            Genero::Romance => 4,
            Genero::Outro => 5,
        }
    }

    /// The genre that a number stands for in the store, if it stands for
    /// one.
    pub fn from_number(n: u32) -> (r: Option<Genero>)
        ensures
            r == Genero::numbered(n),
            r matches Some(genero) ==> genero.number() == n,
    {
        if n == 0 {
            Some(Genero::Ficcao)
        } else if n == 1 {
            Some(Genero::Biografia)
        } else if n == 2 {
            Some(Genero::Poesia)
        } else if n == 3 {
            Some(Genero::Infantil)
        } else if n == 4 {
            Some(Genero::Romance)
        } else if n == 5 {
            Some(Genero::Outro)
        } else {
            None
        }
    }
}

impl FromStr for Genero {
    type Err = Reason;

    /// Finds the genre that a text names, whatever its case.
    fn from_str(input: &str) -> (r: Result<Genero, Reason>)
        ensures
            outcome(r) == Genero::parsed(input@),
            r is Ok <==> Genero::named(lowercase(input@)) is Some,
    {
        let lower = input.to_lowercase();
        match Genero::from_lowercase(lower.as_str()) {
            Some(genero) => Ok(genero),
            None => Err(Reason::InvalidGenre { raw_text: input.to_owned() }),
        }
    }
}

/// Tells whether `text` is the short word `word`.
fn is_word(text: &str, word: &str) -> (b: bool)
    ensures
        b == (text@ == word@),
{
    let n: usize = word.unicode_len();
    if text.unicode_len() != n {
        return false;
    }
    let mut i: usize = 0;
    while i < n
        invariant
            i <= n,
            text@.len() == n,
            word@.len() == n,
            forall|k: int| 0 <= k < i ==> text@[k] == word@[k],
        decreases n - i,
    {
        if text.get_char(i) != word.get_char(i) {
            return false;
        }
        i = i + 1;
    }
    assert(text@ =~= word@);
    true
}

/// One book of the catalogue.
#[derive(Debug, PartialEq, Eq)]
pub struct Livro {
    pub titulo: String,
    pub numero_paginas: u32,
    pub data_publicacao: Date,
    pub genero: Genero,
}

/// The mathematical value of a [`Livro`]: the same fields, with the title as a
/// sequence of characters.
pub struct BookRecord {
    pub titulo: Seq<char>,
    pub numero_paginas: u32,
    pub data_publicacao: Date,
    pub genero: Genero,
}

impl BookRecord {
    /// Every field of the record is one that the validators accept.
    pub open spec fn wf(self) -> bool {
        &&& !blank(self.titulo)
        &&& self.titulo.len() <= MAX_TITLE_LEN
        &&& MIN_PAGES <= self.numero_paginas <= MAX_PAGES
        &&& self.data_publicacao.wf()
    }

    /// What [`Livro::novo`] answers. The fields are checked in the order
    /// title, page count, date, genre; the first that fails gives the
    /// reason, and a blank genre fails as a missing field.
    pub open spec fn validated(
        titulo: Seq<char>,
        numero_paginas: u32,
        data_publicacao: Seq<char>,
        genero: Seq<char>,
    ) -> Result<BookRecord, ReasonView> {
        match string_validada(titulo, MAX_TITLE_LEN) {
            Err(e) => Err(e),
            Ok(_) => match numero_validado(numero_paginas, MIN_PAGES, MAX_PAGES) {
                Err(e) => Err(e),
                Ok(_) => match data_validada(data_publicacao) {
                    Err(e) => Err(e),
                    Ok(data) => if blank(genero) {
                        Err(invalid_field(Field::Genre, Detail::Empty))
                    } else {
                        match Genero::parsed(genero) {
                            Err(e) => Err(e),
                            Ok(g) => Ok(
                                BookRecord {
                                    titulo,
                                    numero_paginas,
                                    data_publicacao: data,
                                    genero: g,
                                },
                            ),
                        }
                    },
                },
            },
        }
    }
}

impl View for Livro {
    type V = BookRecord;

    open spec fn view(&self) -> BookRecord {
        BookRecord {
            titulo: self.titulo@,
            numero_paginas: self.numero_paginas,
            data_publicacao: self.data_publicacao,
            genero: self.genero,
        }
    }
}

impl DeepView for Livro {
    type V = BookRecord;

    open spec fn deep_view(&self) -> BookRecord {
        self@
    }
}

impl Clone for Livro {
    fn clone(&self) -> (r: Self)
        ensures
            r == *self,
    {
        Livro {
            titulo: self.titulo.clone(),
            numero_paginas: self.numero_paginas,
            data_publicacao: self.data_publicacao,
            genero: self.genero,
        }
    }
}

impl Livro {
    /// Every field of the book is one that the validators accept.
    pub open spec fn wf(&self) -> bool {
        self@.wf()
    }

    /// Builds a book from its four fields, once each has been checked.
    pub fn novo(titulo: &str, numero_paginas: u32, data_publicacao: &str, genero: &str) -> (r: Result<
        Livro,
        Reason,
    >)
        ensures
            outcome(r) == BookRecord::validated(
                titulo@,
                numero_paginas,
                data_publicacao@,
                genero@,
            ),
            r is Ok <==> {
                &&& string_validada(titulo@, MAX_TITLE_LEN) is Ok
                &&& MIN_PAGES <= numero_paginas <= MAX_PAGES
                &&& data_validada(data_publicacao@) is Ok
                &&& !blank(genero@)
                &&& Genero::parsed(genero@) is Ok
            },
            r matches Ok(livro) ==> livro.wf(),
    {
        validar_string(titulo, MAX_TITLE_LEN)?;
        validar_numero(numero_paginas, MIN_PAGES, MAX_PAGES)?;
        let data = validar_data(data_publicacao)?;
        if validar_obrigatorio(genero).is_err() {
            return Err(Reason::InvalidField { field: Field::Genre, detail: Detail::Empty });
        }
        let genero_enum = Genero::from_str(genero)?;
        Ok(
            Livro {
                titulo: titulo.to_owned(),
                numero_paginas,
                data_publicacao: data,
                genero: genero_enum,
            },
        )
    }
}

} // verus!
