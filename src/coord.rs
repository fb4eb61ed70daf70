use vstd::prelude::*;
use vstd::string::*;

verus! {

/// A row of the board, named by its vowel.
#[derive(Clone, Copy, Debug, PartialEq, Eq, Structural)]
pub enum Row {
    A,
    E,
    I,
    U,
    O,
    Y,
    AI,
    AU,
    IA,
}

/// A column of the board, named by its consonant.
#[derive(Clone, Copy, Debug, PartialEq, Eq, Structural)]
pub enum Column {
    K,
    L,
    N,
    T,
    Z,
    X,
    C,
    M,
    P,
}

/// A square of the board: exactly one row and exactly one column.
#[derive(Clone, Copy, Debug, PartialEq, Eq, Structural)]
pub struct Coord(pub Row, pub Column);

/// A token that names either a row or a column.
#[derive(Clone, Copy, Debug, PartialEq, Eq, Structural)]
pub enum Token {
    OfRow(Row),
    OfColumn(Column),
}

/// Why a pair of tokens does not name a square.
#[derive(Clone, Copy, Debug, PartialEq, Eq, Structural)]
pub enum CoordError {
    WrongArity,
    UnrecognizedToken,
    MissingColumn,
    MissingRow,
}

pub open spec fn row_token(r: Row) -> Seq<char> {
    match r {
        Row::A => "A"@,
        Row::E => "E"@,
        Row::I => "I"@,
        Row::U => "U"@,
        Row::O => "O"@,
        Row::Y => "Y"@,
        Row::AI => "AI"@,
        Row::AU => "AU"@,
        Row::IA => "IA"@,
    }
}

pub open spec fn column_token(c: Column) -> Seq<char> {
    match c {
        Column::K => "K"@,
        Column::L => "L"@,
        Column::N => "N"@,
        Column::T => "T"@,
        Column::Z => "Z"@,
        Column::X => "X"@,
        Column::C => "C"@,
        Column::M => "M"@,
        Column::P => "P"@,
    }
}

/// The token sequence of a square: row first, column second.
pub open spec fn coord_tokens(c: Coord) -> Seq<Seq<char>> {
    seq![row_token(c.0), column_token(c.1)]
}

/// Looks a token up in the row table and the column table.
pub open spec fn parse_token(s: Seq<char>) -> Option<Token> {
    if s == row_token(Row::A) { Some(Token::OfRow(Row::A)) }
    else if s == row_token(Row::E) { Some(Token::OfRow(Row::E)) }
    else if s == row_token(Row::I) { Some(Token::OfRow(Row::I)) }
    else if s == row_token(Row::U) { Some(Token::OfRow(Row::U)) }
    else if s == row_token(Row::O) { Some(Token::OfRow(Row::O)) }
    else if s == row_token(Row::Y) { Some(Token::OfRow(Row::Y)) }
    else if s == row_token(Row::AI) { Some(Token::OfRow(Row::AI)) }
    else if s == row_token(Row::AU) { Some(Token::OfRow(Row::AU)) }
    else if s == row_token(Row::IA) { Some(Token::OfRow(Row::IA)) }
    else if s == column_token(Column::K) { Some(Token::OfColumn(Column::K)) }
    else if s == column_token(Column::L) { Some(Token::OfColumn(Column::L)) }
    else if s == column_token(Column::N) { Some(Token::OfColumn(Column::N)) }
    else if s == column_token(Column::T) { Some(Token::OfColumn(Column::T)) }
    else if s == column_token(Column::Z) { Some(Token::OfColumn(Column::Z)) }
    else if s == column_token(Column::X) { Some(Token::OfColumn(Column::X)) }
    else if s == column_token(Column::C) { Some(Token::OfColumn(Column::C)) }
    else if s == column_token(Column::M) { Some(Token::OfColumn(Column::M)) }
    else if s == column_token(Column::P) { Some(Token::OfColumn(Column::P)) }
    else { None }
}

/// Reads two tokens, in either order, as one row and one column.
pub open spec fn decode_coord_spec(ts: Seq<Seq<char>>) -> Result<Coord, CoordError> {
    if ts.len() != 2 {
        Err(CoordError::WrongArity)
    } else {
        match (parse_token(ts[0]), parse_token(ts[1])) {
            (Some(Token::OfRow(r)), Some(Token::OfColumn(c))) => Ok(Coord(r, c)),
            (Some(Token::OfColumn(c)), Some(Token::OfRow(r))) => Ok(Coord(r, c)),
            (Some(Token::OfRow(_)), Some(Token::OfRow(_))) => Err(CoordError::MissingColumn),
            (Some(Token::OfColumn(_)), Some(Token::OfColumn(_))) => Err(CoordError::MissingRow),
            _ => Err(CoordError::UnrecognizedToken),
        }
    }
}

pub open spec fn strings_view(v: Seq<String>) -> Seq<Seq<char>> {
    v.map_values(|s: String| s@)
}

/// Whether two strings hold the same characters.
pub fn same_text(a: &str, b: &str) -> (r: bool)
    ensures
        r == (a@ == b@),
{
    let n = a.unicode_len();
    if n != b.unicode_len() {
        return false;
    }
    let mut i: usize = 0;
    while i < n
        invariant
            n == a@.len(),
            n == b@.len(),
            i <= n,
            forall|j: int| 0 <= j < i ==> a@[j] == b@[j],
        decreases n - i,
    {
        if a.get_char(i) != b.get_char(i) {
            return false;
        }
        i = i + 1;
    }
    assert(a@ =~= b@);
    true
}

pub fn row_name(r: Row) -> (s: &'static str)
    ensures
        s@ == row_token(r),
{
    match r {
        Row::A => "A",
        Row::E => "E",
        Row::I => "I",
        Row::U => "U",
        Row::O => "O",
        Row::Y => "Y",
        Row::AI => "AI",
        Row::AU => "AU",
        Row::IA => "IA",
    }
}

pub fn column_name(c: Column) -> (s: &'static str)
    ensures
        s@ == column_token(c),
{
    match c {
        Column::K => "K",
        Column::L => "L",
        Column::N => "N",
        Column::T => "T",
        Column::Z => "Z",
        Column::X => "X",
        Column::C => "C",
        Column::M => "M",
        Column::P => "P",
    }
}

/// Classifies a token as a row, a column, or neither.
pub fn classify_token(t: &str) -> (r: Option<Token>)
    ensures
        r == parse_token(t@),
{
    if same_text(t, "A") { Some(Token::OfRow(Row::A)) }
    else if same_text(t, "E") { Some(Token::OfRow(Row::E)) }
    else if same_text(t, "I") { Some(Token::OfRow(Row::I)) }
    else if same_text(t, "U") { Some(Token::OfRow(Row::U)) }
    else if same_text(t, "O") { Some(Token::OfRow(Row::O)) }
    else if same_text(t, "Y") { Some(Token::OfRow(Row::Y)) }
    else if same_text(t, "AI") { Some(Token::OfRow(Row::AI)) }
    else if same_text(t, "AU") { Some(Token::OfRow(Row::AU)) }
    else if same_text(t, "IA") { Some(Token::OfRow(Row::IA)) }
    else if same_text(t, "K") { Some(Token::OfColumn(Column::K)) }
    else if same_text(t, "L") { Some(Token::OfColumn(Column::L)) }
    else if same_text(t, "N") { Some(Token::OfColumn(Column::N)) }
    else if same_text(t, "T") { Some(Token::OfColumn(Column::T)) }
    else if same_text(t, "Z") { Some(Token::OfColumn(Column::Z)) }
    else if same_text(t, "X") { Some(Token::OfColumn(Column::X)) }
    else if same_text(t, "C") { Some(Token::OfColumn(Column::C)) }
    else if same_text(t, "M") { Some(Token::OfColumn(Column::M)) }
    else if same_text(t, "P") { Some(Token::OfColumn(Column::P)) }
    else { None }
}

/// Writes a square as two tokens, the row's first.
pub fn encode_coord(c: Coord) -> (r: Vec<String>)
    ensures
        strings_view(r@) == coord_tokens(c),
{
    let mut r: Vec<String> = Vec::new();
    r.push(row_name(c.0).to_owned());
    r.push(column_name(c.1).to_owned());
    assert(strings_view(r@) =~= coord_tokens(c));
    r
}

/// Reads a square from two tokens given in either order.
pub fn decode_coord(ts: &[String]) -> (r: Result<Coord, CoordError>)
    ensures
        r == decode_coord_spec(strings_view(ts@)),
{
    if ts.len() != 2 {
        return Err(CoordError::WrongArity);
    }
    let first = classify_token(ts[0].as_str());
    let second = classify_token(ts[1].as_str());
    match (first, second) {
        (Some(Token::OfRow(r)), Some(Token::OfColumn(c))) => Ok(Coord(r, c)),
        (Some(Token::OfColumn(c)), Some(Token::OfRow(r))) => Ok(Coord(r, c)),
        (Some(Token::OfRow(_)), Some(Token::OfRow(_))) => Err(CoordError::MissingColumn),
        (Some(Token::OfColumn(_)), Some(Token::OfColumn(_))) => Err(CoordError::MissingRow),
        _ => Err(CoordError::UnrecognizedToken),
    }
}

proof fn lemma_token_letters()
    ensures
        "A"@[0] == 'A', "E"@[0] == 'E', "I"@[0] == 'I', "U"@[0] == 'U', "O"@[0] == 'O',
        "Y"@[0] == 'Y', "AI"@[0] == 'A', "AU"@[0] == 'A', "IA"@[0] == 'I',
        "AI"@[1] == 'I', "AU"@[1] == 'U', "IA"@[1] == 'A',
        "K"@[0] == 'K', "L"@[0] == 'L', "N"@[0] == 'N', "T"@[0] == 'T', "Z"@[0] == 'Z',
        "X"@[0] == 'X', "C"@[0] == 'C', "M"@[0] == 'M', "P"@[0] == 'P',
        "A"@.len() == 1, "E"@.len() == 1, "I"@.len() == 1, "U"@.len() == 1,
        "O"@.len() == 1, "Y"@.len() == 1, "AI"@.len() == 2, "AU"@.len() == 2,
        "IA"@.len() == 2,
{
    reveal_strlit("A"); reveal_strlit("E"); reveal_strlit("I"); reveal_strlit("U");
    reveal_strlit("O"); reveal_strlit("Y"); reveal_strlit("AI"); reveal_strlit("AU");
    reveal_strlit("IA"); reveal_strlit("K"); reveal_strlit("L"); reveal_strlit("N");
    reveal_strlit("T"); reveal_strlit("Z"); reveal_strlit("X"); reveal_strlit("C");
    reveal_strlit("M"); reveal_strlit("P");
}

/// Each row's token reads back as that row, each column's as that column.
pub proof fn lemma_token_round_trip(r: Row, c: Column)
    ensures
        parse_token(row_token(r)) == Some(Token::OfRow(r)),
        parse_token(column_token(c)) == Some(Token::OfColumn(c)),
{
    lemma_token_letters();
}

/// Decoding the tokens of a square gives that square back.
pub proof fn lemma_coord_round_trip(c: Coord)
    ensures
        decode_coord_spec(coord_tokens(c)) == Ok::<Coord, CoordError>(c),
{
    lemma_token_round_trip(c.0, c.1);
}

/// Decoding the tokens of a square in swapped order gives that square back too.
pub proof fn lemma_coord_swapped(c: Coord)
    ensures
        decode_coord_spec(seq![coord_tokens(c)[1], coord_tokens(c)[0]]) == Ok::<Coord, CoordError>(c),
{
    lemma_token_round_trip(c.0, c.1);
}

} // verus!
