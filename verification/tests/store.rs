use biblioteca::catalog::{append_book, edit_book, edit_record, remove_book, Changes, EditReport, FieldOutcome};
use biblioteca::calendar::Date;
use biblioteca::models::{Genero, Livro};
use biblioteca::reason::{DateFault, Detail, Field, Reason};
use biblioteca::outside::Row;
use biblioteca::store::{
    accept_image, adicionar_livro, alterar_livro, book_of_row, books_of_rows, carregar_livros,
    deletar_livro, listar_livros, row_of_book, rows_of_books, salvar_livros,
};

fn dune() -> Livro {
    Livro {
        titulo: "Dune".to_string(),
        numero_paginas: 412,
        data_publicacao: Date { year: 1965, month: 8, day: 1 },
        genero: Genero::Ficcao,
    }
}

fn three_books() -> Vec<Livro> {
    vec![
        dune(),
        Livro::novo("Dom Casmurro", 256, "1899-01-01", "romance").unwrap(),
        Livro::novo("Mensagem", 100, "1934-12-01", "POESIA").unwrap(),
    ]
}

fn no_changes() -> Changes {
    Changes::default()
}

#[test]
fn the_default_changes_ask_for_nothing() {
    assert_eq!(
        Changes::default(),
        Changes { titulo: None, numero_paginas: None, data_publicacao: None, genero: None }
    );
    let mut livro = dune();
    let report = edit_record(&mut livro, &Changes::default());
    assert_eq!(
        report,
        EditReport {
            titulo: FieldOutcome::Kept,
            numero_paginas: FieldOutcome::Kept,
            data_publicacao: FieldOutcome::Kept,
            genero: FieldOutcome::Kept,
        }
    );
    assert_eq!(livro, dune());
}

#[test]
fn test_adicionar_livro() {
    let dados = adicionar_livro(&[], "Livro 1", 100, "2025-01-01", "Ficcao").unwrap();
    assert_eq!(listar_livros(&dados).unwrap().len(), 1);
}

#[test]
fn empty_store_then_add_dune_then_list() {
    assert_eq!(listar_livros(&[]), Ok(vec![]));
    let dados = adicionar_livro(&[], "Dune", 412, "1965-08-01", "Ficcao").unwrap();
    assert_eq!(listar_livros(&dados), Ok(vec![dune()]));
}

#[test]
fn the_image_of_one_book_is_laid_out_field_by_field() {
    let dados = salvar_livros(&vec![dune()]).unwrap();
    let mut expected: Vec<u8> = Vec::new();
    expected.extend_from_slice(&1u64.to_le_bytes());
    expected.extend_from_slice(&4u64.to_le_bytes());
    expected.extend_from_slice(b"Dune");
    expected.extend_from_slice(&412u32.to_le_bytes());
    expected.extend_from_slice(&1965i32.to_le_bytes());
    expected.extend_from_slice(&8u32.to_le_bytes());
    expected.extend_from_slice(&1u32.to_le_bytes());
    expected.extend_from_slice(&0u32.to_le_bytes());
    assert_eq!(dados, expected);
}

#[test]
fn save_then_load_gives_the_same_books_in_order() {
    for n in 0..=3 {
        let livros: Vec<Livro> = three_books().into_iter().take(n).collect();
        let dados = salvar_livros(&livros).unwrap();
        assert_eq!(carregar_livros(&dados), Ok(livros));
    }
}

#[test]
fn the_empty_catalogue_has_an_image_of_its_own() {
    let dados = salvar_livros(&vec![]).unwrap();
    assert_eq!(dados, 0u64.to_le_bytes().to_vec());
    assert_eq!(carregar_livros(&dados), Ok(vec![]));
}

#[test]
fn bytes_that_are_no_image_are_corrupt() {
    assert_eq!(carregar_livros(&[1]), Err(Reason::StorageCorrupt));
    assert_eq!(carregar_livros(&[0xff; 8]), Err(Reason::StorageCorrupt));
    let mut dados = salvar_livros(&three_books()).unwrap();
    dados.truncate(dados.len() - 1);
    assert_eq!(carregar_livros(&dados), Err(Reason::StorageCorrupt));
    assert_eq!(listar_livros(&dados), Err(Reason::StorageCorrupt));
}

#[test]
fn rows_that_break_a_rule_are_corrupt() {
    let mut genre_six = salvar_livros(&vec![dune()]).unwrap();
    let last = genre_six.len() - 4;
    genre_six[last] = 6;
    assert_eq!(carregar_livros(&genre_six), Err(Reason::StorageCorrupt));

    let mut month_thirteen = salvar_livros(&vec![dune()]).unwrap();
    let month = month_thirteen.len() - 12;
    month_thirteen[month] = 13;
    assert_eq!(carregar_livros(&month_thirteen), Err(Reason::StorageCorrupt));

    let no_pages = Livro { numero_paginas: 0, ..dune() };
    let dados = salvar_livros(&vec![no_pages]).unwrap();
    assert_eq!(carregar_livros(&dados), Err(Reason::StorageCorrupt));

    let no_title = Livro { titulo: " ".to_string(), ..dune() };
    let dados = salvar_livros(&vec![no_title]).unwrap();
    assert_eq!(carregar_livros(&dados), Err(Reason::StorageCorrupt));
}

#[test]
fn add_turns_down_bad_fields_whatever_the_store_holds() {
    let corrupt = [7u8; 3];
    for dados in [&[][..], &corrupt[..]] {
        assert_eq!(
            adicionar_livro(dados, "Dune", 0, "1965-08-01", "Ficcao"),
            Err(Reason::InvalidField {
                field: Field::PageCount,
                detail: Detail::OutOfRange { min: 1, max: 2000 }
            })
        );
        assert_eq!(
            adicionar_livro(dados, "Dune", 2001, "1965-08-01", "Ficcao"),
            Err(Reason::InvalidField {
                field: Field::PageCount,
                detail: Detail::OutOfRange { min: 1, max: 2000 }
            })
        );
    }
    assert_eq!(
        adicionar_livro(&corrupt, "Dune", 412, "1965-08-01", "Ficcao"),
        Err(Reason::StorageCorrupt)
    );
}

#[test]
fn add_appends_at_the_end() {
    let mut dados = Vec::new();
    for livro in three_books() {
        let date = format!(
            "{:04}-{:02}-{:02}",
            livro.data_publicacao.year, livro.data_publicacao.month, livro.data_publicacao.day
        );
        let genero = format!("{:?}", livro.genero);
        dados = adicionar_livro(&dados, &livro.titulo, livro.numero_paginas, &date, &genero).unwrap();
    }
    assert_eq!(listar_livros(&dados), Ok(three_books()));
}

#[test]
fn append_book_leaves_the_list_alone_on_bad_fields() {
    let mut livros = three_books();
    assert_eq!(
        append_book(&mut livros, "Livro", 100, "2023-02-29", "outro"),
        Err(Reason::InvalidDate { detail: DateFault::DayInvalid { day: 29, month: 2 } })
    );
    assert_eq!(livros, three_books());
    assert_eq!(append_book(&mut livros, "Livro", 100, "2024-02-29", "outro"), Ok(()));
    assert_eq!(livros.len(), 4);
    assert_eq!(livros[3].titulo, "Livro");
    assert_eq!(&livros[..3], &three_books()[..]);
}

#[test]
fn remove_zero_cancels() {
    let mut livros = three_books();
    assert_eq!(remove_book(&mut livros, 0), Ok(None));
    assert_eq!(livros, three_books());
    let dados = salvar_livros(&three_books()).unwrap();
    assert_eq!(deletar_livro(&dados, 0), Ok(None));
    assert_eq!(deletar_livro(&[], 0), Ok(None));
}

#[test]
fn remove_past_the_end_is_an_invalid_position() {
    let mut livros = three_books();
    assert_eq!(remove_book(&mut livros, 4), Err(Reason::InvalidPosition));
    assert_eq!(remove_book(&mut livros, usize::MAX), Err(Reason::InvalidPosition));
    assert_eq!(livros, three_books());
    let dados = salvar_livros(&three_books()).unwrap();
    assert_eq!(deletar_livro(&dados, 4), Err(Reason::InvalidPosition));
    assert_eq!(deletar_livro(&[], 1), Err(Reason::InvalidPosition));
}

#[test]
fn remove_gives_back_the_book_and_closes_the_gap() {
    for k in 1..=3usize {
        let mut livros = three_books();
        let removed = remove_book(&mut livros, k).unwrap().unwrap();
        assert_eq!(removed, three_books()[k - 1]);
        let mut rest = three_books();
        rest.remove(k - 1);
        assert_eq!(livros, rest);

        let dados = salvar_livros(&three_books()).unwrap();
        let (removed, novos) = deletar_livro(&dados, k).unwrap().unwrap();
        assert_eq!(removed, three_books()[k - 1]);
        assert_eq!(listar_livros(&novos), Ok(rest));
    }
}

#[test]
fn remove_on_a_corrupt_store_is_corrupt() {
    assert_eq!(deletar_livro(&[9, 9], 0), Err(Reason::StorageCorrupt));
    assert_eq!(deletar_livro(&[9, 9], 1), Err(Reason::StorageCorrupt));
}

#[test]
fn edit_with_a_blank_title_keeps_the_title() {
    for blank in ["", "   ", "\n"] {
        let mut livros = three_books();
        let changes = Changes { titulo: Some(blank.to_string()), ..no_changes() };
        let report = edit_book(&mut livros, 2, &changes).unwrap().unwrap();
        assert_eq!(report.titulo, FieldOutcome::Kept);
        assert_eq!(livros, three_books());
    }
}

#[test]
fn edit_with_a_new_title_changes_the_title_only() {
    let mut livros = three_books();
    let changes = Changes { titulo: Some("New".to_string()), ..no_changes() };
    let report = edit_book(&mut livros, 2, &changes).unwrap().unwrap();
    assert_eq!(
        report,
        EditReport {
            titulo: FieldOutcome::Replaced,
            numero_paginas: FieldOutcome::Kept,
            data_publicacao: FieldOutcome::Kept,
            genero: FieldOutcome::Kept,
        }
    );
    let mut expected = three_books();
    expected[1].titulo = "New".to_string();
    assert_eq!(livros, expected);
}

#[test]
fn edit_stores_texts_without_the_space_around_them() {
    let mut livro = dune();
    let changes = Changes {
        titulo: Some("  Duna \n".to_string()),
        numero_paginas: Some(500),
        data_publicacao: Some(" 1966-01-02\n".to_string()),
        genero: Some(" romance ".to_string()),
    };
    let report = edit_record(&mut livro, &changes);
    assert_eq!(
        report,
        EditReport {
            titulo: FieldOutcome::Replaced,
            numero_paginas: FieldOutcome::Replaced,
            data_publicacao: FieldOutcome::Replaced,
            genero: FieldOutcome::Replaced,
        }
    );
    assert_eq!(
        livro,
        Livro {
            titulo: "Duna".to_string(),
            numero_paginas: 500,
            data_publicacao: Date { year: 1966, month: 1, day: 2 },
            genero: Genero::Romance,
        }
    );
}

#[test]
fn edit_keeps_what_it_turns_down_and_goes_on() {
    let mut livro = dune();
    let changes = Changes {
        titulo: Some("x".repeat(101)),
        numero_paginas: Some(2001),
        data_publicacao: Some("2023-02-29".to_string()),
        genero: Some("Terror".to_string()),
    };
    let report = edit_record(&mut livro, &changes);
    assert_eq!(
        report,
        EditReport {
            titulo: FieldOutcome::Rejected(Reason::InvalidField {
                field: Field::Title,
                detail: Detail::TooLong { max_len: 100 }
            }),
            numero_paginas: FieldOutcome::Rejected(Reason::InvalidField {
                field: Field::PageCount,
                detail: Detail::OutOfRange { min: 1, max: 2000 }
            }),
            data_publicacao: FieldOutcome::Rejected(Reason::InvalidDate {
                detail: DateFault::DayInvalid { day: 29, month: 2 }
            }),
            genero: FieldOutcome::Rejected(Reason::InvalidGenre { raw_text: "Terror".to_string() }),
        }
    );
    assert_eq!(livro, dune());

    let changes = Changes { numero_paginas: Some(0), genero: Some("outro".to_string()), ..no_changes() };
    let report = edit_record(&mut livro, &changes);
    assert!(matches!(report.numero_paginas, FieldOutcome::Rejected(_)));
    assert_eq!(report.genero, FieldOutcome::Replaced);
    assert_eq!(livro, Livro { genero: Genero::Outro, ..dune() });
}

#[test]
fn edit_follows_the_same_rule_of_places_as_remove() {
    let mut livros = three_books();
    let changes = Changes { titulo: Some("New".to_string()), ..no_changes() };
    assert_eq!(edit_book(&mut livros, 0, &changes), Ok(None));
    assert_eq!(edit_book(&mut livros, 4, &changes), Err(Reason::InvalidPosition));
    assert_eq!(livros, three_books());
    let dados = salvar_livros(&three_books()).unwrap();
    assert_eq!(alterar_livro(&dados, 0, &changes), Ok(None));
    assert_eq!(alterar_livro(&dados, 4, &changes), Err(Reason::InvalidPosition));
    assert_eq!(alterar_livro(&[3], 1, &changes), Err(Reason::StorageCorrupt));
}

#[test]
fn edit_in_the_store_changes_one_book() {
    let dados = salvar_livros(&three_books()).unwrap();
    let changes = Changes { titulo: Some("New".to_string()), ..no_changes() };
    let (report, novos) = alterar_livro(&dados, 3, &changes).unwrap().unwrap();
    assert_eq!(report.titulo, FieldOutcome::Replaced);
    let mut expected = three_books();
    expected[2].titulo = "New".to_string();
    assert_eq!(listar_livros(&novos), Ok(expected));

    let changes = Changes { titulo: Some("".to_string()), ..no_changes() };
    let (report, novos) = alterar_livro(&dados, 3, &changes).unwrap().unwrap();
    assert_eq!(report.titulo, FieldOutcome::Kept);
    assert_eq!(listar_livros(&novos), Ok(three_books()));
}

fn dune_row() -> Row {
    ("Dune".to_string(), 412, 1965, 8, 1, 0)
}

#[test]
fn a_row_and_its_book_stand_for_each_other() {
    assert_eq!(row_of_book(&dune()), dune_row());
    assert_eq!(book_of_row(&dune_row()), Some(dune()));
    let romance = Livro::novo("Dom Casmurro", 256, "1899-01-01", "romance").unwrap();
    assert_eq!(row_of_book(&romance), ("Dom Casmurro".to_string(), 256, 1899, 1, 1, 4));
    assert_eq!(rows_of_books(&three_books()).len(), 3);
    assert_eq!(books_of_rows(&rows_of_books(&three_books())), Ok(three_books()));
    assert_eq!(books_of_rows(&vec![]), Ok(vec![]));
}

#[test]
fn a_row_that_breaks_a_rule_stands_for_no_book() {
    let mut row = dune_row();
    row.0 = String::new();
    assert_eq!(book_of_row(&row), None);
    let mut row = dune_row();
    row.0 = "x".repeat(101);
    assert_eq!(book_of_row(&row), None);
    let mut row = dune_row();
    row.1 = 2001;
    assert_eq!(book_of_row(&row), None);
    let mut row = dune_row();
    row.3 = 2;
    row.4 = 30;
    assert_eq!(book_of_row(&row), None);
    let mut row = dune_row();
    row.5 = 6;
    assert_eq!(book_of_row(&row), None);
    assert_eq!(books_of_rows(&vec![dune_row(), row]), Err(Reason::StorageCorrupt));
}

#[test]
fn no_bytes_are_the_image_of_no_books_only() {
    assert_eq!(accept_image(0, vec![]), Ok(vec![]));
    assert_eq!(accept_image(0, vec![0; 8]), Ok(vec![0; 8]));
    assert_eq!(accept_image(3, vec![1, 2, 3]), Ok(vec![1, 2, 3]));
    assert_eq!(accept_image(1, vec![]), Err(Reason::StorageIoFailure));
}
