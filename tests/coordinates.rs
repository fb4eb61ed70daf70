use cetkaik_moves::coord::{decode_coord, encode_coord, Column, Coord, CoordError, Row};

const ROWS: [Row; 9] = [Row::A, Row::E, Row::I, Row::U, Row::O, Row::Y, Row::AI, Row::AU, Row::IA];
const COLUMNS: [Column; 9] = [
    Column::K,
    Column::L,
    Column::N,
    Column::T,
    Column::Z,
    Column::X,
    Column::C,
    Column::M,
    Column::P,
];

fn tokens(a: &str, b: &str) -> Vec<String> {
    vec![a.to_string(), b.to_string()]
}

#[test]
fn every_square_round_trips() {
    for r in ROWS {
        for c in COLUMNS {
            let sq = Coord(r, c);
            assert_eq!(decode_coord(&encode_coord(sq)), Ok(sq));
        }
    }
}

#[test]
fn every_square_decodes_with_tokens_swapped() {
    for r in ROWS {
        for c in COLUMNS {
            let sq = Coord(r, c);
            let t = encode_coord(sq);
            let swapped = vec![t[1].clone(), t[0].clone()];
            assert_eq!(decode_coord(&swapped), Ok(sq));
        }
    }
}

#[test]
fn encoding_puts_the_row_first() {
    assert_eq!(encode_coord(Coord(Row::A, Column::C)), tokens("A", "C"));
    assert_eq!(encode_coord(Coord(Row::IA, Column::P)), tokens("IA", "P"));
    assert_eq!(encode_coord(Coord(Row::AU, Column::K)), tokens("AU", "K"));
}

#[test]
fn unknown_token_is_refused() {
    assert_eq!(decode_coord(&tokens("Q", "A")), Err(CoordError::UnrecognizedToken));
    assert_eq!(decode_coord(&tokens("A", "c")), Err(CoordError::UnrecognizedToken));
    assert_eq!(decode_coord(&tokens("", "K")), Err(CoordError::UnrecognizedToken));
}

#[test]
fn two_rows_miss_a_column() {
    assert_eq!(decode_coord(&tokens("A", "E")), Err(CoordError::MissingColumn));
}

#[test]
fn two_columns_miss_a_row() {
    assert_eq!(decode_coord(&tokens("C", "K")), Err(CoordError::MissingRow));
}

#[test]
fn wrong_number_of_tokens_is_refused() {
    assert_eq!(decode_coord(&[]), Err(CoordError::WrongArity));
    assert_eq!(decode_coord(&["A".to_string()]), Err(CoordError::WrongArity));
    let three = vec!["A".to_string(), "C".to_string(), "K".to_string()];
    assert_eq!(decode_coord(&three), Err(CoordError::WrongArity));
}

#[test]
fn two_letter_rows_are_read() {
    assert_eq!(decode_coord(&tokens("X", "AI")), Ok(Coord(Row::AI, Column::X)));
    assert_eq!(decode_coord(&tokens("AU", "T")), Ok(Coord(Row::AU, Column::T)));
}
