use crate::ciurl::Ciurl;
use crate::coord::{decode_coord, decode_coord_spec, encode_coord, coord_tokens, lemma_coord_round_trip, same_text, strings_view, Coord, CoordError};
use vstd::prelude::*;

verus! {

/// The color of a piece.
#[derive(Clone, Copy, Debug, PartialEq, Eq, Structural)]
pub enum Color {
    Kok1,
    Huok2,
}

/// The profession of a piece.
#[derive(Clone, Copy, Debug, PartialEq, Eq, Structural)]
pub enum Profession {
    Nuak1,
    Kauk2,
    Gua2,
    Kaun1,
    Dau2,
    Maun1,
    Kua2,
    Tuk2,
    Uai1,
    Io,
}

/// A move of any piece but the Tam2.
#[derive(Clone, Copy, Debug, PartialEq, Eq, Structural)]
pub enum NonTamMoveDotData {
    FromHand { color: Color, profession: Profession, dest: Coord },
    SrcDst { src: Coord, dest: Coord, water_entry_ciurl: Option<Ciurl> },
    SrcStepDstFinite {
        src: Coord,
        step: Coord,
        dest: Coord,
        water_entry_ciurl: Option<Ciurl>,
    },
}

/// A move of the Tam2, which lands twice; it may pass a stepping square
/// before its first landing, after it, or not at all.
#[derive(Clone, Copy, Debug, PartialEq, Eq, Structural)]
pub enum TamMoveInternal {
    NoStep { src: Coord, first_dest: Coord, second_dest: Coord },
    StepsDuringFormer { src: Coord, step: Coord, first_dest: Coord, second_dest: Coord },
    StepsDuringLatter { src: Coord, step: Coord, first_dest: Coord, second_dest: Coord },
}

/// A move as a player submits it.
#[derive(Clone, Copy, Debug, PartialEq, Eq, Structural)]
pub enum NormalMove {
    NonTamMove { data: NonTamMoveDotData },
    TamMove { flatten: TamMoveInternal },
}

/// The fields of a move payload.
#[derive(Clone, Copy, Debug, PartialEq, Eq, Structural)]
pub enum MoveField {
    Color,
    Profession,
    Src,
    Step,
    Dest,
    FirstDest,
    SecondDest,
}

/// Why a payload does not describe a move.
#[derive(Clone, Copy, Debug, PartialEq, Eq, Structural)]
pub enum MoveError {
    /// The kind or the shape of the move is none of those known.
    UnknownMoveKind,
    /// The shape of the move needs this field and it is absent.
    MissingField(MoveField),
    /// This field holds a name that is not a color or a profession.
    UnknownName(MoveField),
    /// This field holds tokens that do not name a square.
    BadCoord(MoveField, CoordError),
}

/// A move in its wire shape: a kind (`NonTamMove` or `TamMove`), a shape
/// (the inner `type` of an ordinary move, or the `stepStyle` of a Tam2
/// move), and the optional fields that the shapes draw on. Squares are
/// pairs of tokens; colors and professions are written by name.
#[derive(Clone, Debug)]
pub struct MovePayload {
    pub kind: String,
    pub shape: String,
    pub color: Option<String>,
    pub profession: Option<String>,
    pub src: Option<Vec<String>>,
    pub step: Option<Vec<String>>,
    pub dest: Option<Vec<String>>,
    pub first_dest: Option<Vec<String>>,
    pub second_dest: Option<Vec<String>>,
    pub water_entry_ciurl: Option<Ciurl>,
}

/// What a payload holds, as sequences of characters.
pub struct MovePayloadView {
    pub kind: Seq<char>,
    pub shape: Seq<char>,
    pub color: Option<Seq<char>>,
    pub profession: Option<Seq<char>>,
    pub src: Option<Seq<Seq<char>>>,
    pub step: Option<Seq<Seq<char>>>,
    pub dest: Option<Seq<Seq<char>>>,
    pub first_dest: Option<Seq<Seq<char>>>,
    pub second_dest: Option<Seq<Seq<char>>>,
    pub water_entry_ciurl: Option<Ciurl>,
}

pub open spec fn text_view(o: Option<String>) -> Option<Seq<char>> {
    match o {
        Some(s) => Some(s@),
        None => None,
    }
}

pub open spec fn tokens_view(o: Option<Vec<String>>) -> Option<Seq<Seq<char>>> {
    match o {
        Some(v) => Some(strings_view(v@)),
        None => None,
    }
}

impl View for MovePayload {
    type V = MovePayloadView;

    open spec fn view(&self) -> MovePayloadView {
        MovePayloadView {
            kind: self.kind@,
            shape: self.shape@,
            color: text_view(self.color),
            profession: text_view(self.profession),
            src: tokens_view(self.src),
            step: tokens_view(self.step),
            dest: tokens_view(self.dest),
            first_dest: tokens_view(self.first_dest),
            second_dest: tokens_view(self.second_dest),
            water_entry_ciurl: self.water_entry_ciurl,
        }
    }
}

pub open spec fn color_text(c: Color) -> Seq<char> {
    match c {
        Color::Kok1 => "Kok1"@,
        Color::Huok2 => "Huok2"@,
    }
}

pub open spec fn profession_text(p: Profession) -> Seq<char> {
    match p {
        Profession::Nuak1 => "Nuak1"@,
        Profession::Kauk2 => "Kauk2"@,
        Profession::Gua2 => "Gua2"@,
        Profession::Kaun1 => "Kaun1"@,
        Profession::Dau2 => "Dau2"@,
        Profession::Maun1 => "Maun1"@,
        Profession::Kua2 => "Kua2"@,
        Profession::Tuk2 => "Tuk2"@,
        Profession::Uai1 => "Uai1"@,
        Profession::Io => "Io"@,
    }
}

pub open spec fn parse_color(s: Seq<char>) -> Option<Color> {
    if s == color_text(Color::Kok1) { Some(Color::Kok1) }
    else if s == color_text(Color::Huok2) { Some(Color::Huok2) }
    else { None }
}

pub open spec fn parse_profession(s: Seq<char>) -> Option<Profession> {
    if s == profession_text(Profession::Nuak1) { Some(Profession::Nuak1) }
    else if s == profession_text(Profession::Kauk2) { Some(Profession::Kauk2) }
    else if s == profession_text(Profession::Gua2) { Some(Profession::Gua2) }
    else if s == profession_text(Profession::Kaun1) { Some(Profession::Kaun1) }
    else if s == profession_text(Profession::Dau2) { Some(Profession::Dau2) }
    else if s == profession_text(Profession::Maun1) { Some(Profession::Maun1) }
    else if s == profession_text(Profession::Kua2) { Some(Profession::Kua2) }
    else if s == profession_text(Profession::Tuk2) { Some(Profession::Tuk2) }
    else if s == profession_text(Profession::Uai1) { Some(Profession::Uai1) }
    else if s == profession_text(Profession::Io) { Some(Profession::Io) }
    else { None }
}

pub open spec fn color_field(o: Option<Seq<char>>) -> Result<Color, MoveError> {
    match o {
        None => Err(MoveError::MissingField(MoveField::Color)),
        Some(s) => match parse_color(s) {
            Some(c) => Ok(c),
            None => Err(MoveError::UnknownName(MoveField::Color)),
        },
    }
}

pub open spec fn profession_field(o: Option<Seq<char>>) -> Result<Profession, MoveError> {
    match o {
        None => Err(MoveError::MissingField(MoveField::Profession)),
        Some(s) => match parse_profession(s) {
            Some(p) => Ok(p),
            None => Err(MoveError::UnknownName(MoveField::Profession)),
        },
    }
}

pub open spec fn coord_field(o: Option<Seq<Seq<char>>>, f: MoveField) -> Result<Coord, MoveError> {
    match o {
        None => Err(MoveError::MissingField(f)),
        Some(ts) => match decode_coord_spec(ts) {
            Ok(c) => Ok(c),
            Err(e) => Err(MoveError::BadCoord(f, e)),
        },
    }
}


pub open spec fn decode_non_tam_spec(p: MovePayloadView) -> Result<NonTamMoveDotData, MoveError> {
    if p.shape == "FromHand"@ {
        match color_field(p.color) {
            Err(e) => Err(e),
            Ok(color) => match profession_field(p.profession) {
                Err(e) => Err(e),
                Ok(profession) => match coord_field(p.dest, MoveField::Dest) {
                    Err(e) => Err(e),
                    Ok(dest) => Ok(NonTamMoveDotData::FromHand { color, profession, dest }),
                },
            },
        }
    } else if p.shape == "SrcDst"@ {
        match coord_field(p.src, MoveField::Src) {
            Err(e) => Err(e),
            Ok(src) => match coord_field(p.dest, MoveField::Dest) {
                Err(e) => Err(e),
                Ok(dest) => Ok(
                    NonTamMoveDotData::SrcDst { src, dest, water_entry_ciurl: p.water_entry_ciurl },
                ),
            },
        }
    } else if p.shape == "SrcStepDstFinite"@ {
        match coord_field(p.src, MoveField::Src) {
            Err(e) => Err(e),
            Ok(src) => match coord_field(p.step, MoveField::Step) {
                Err(e) => Err(e),
                Ok(step) => match coord_field(p.dest, MoveField::Dest) {
                    Err(e) => Err(e),
                    Ok(dest) => Ok(
                        NonTamMoveDotData::SrcStepDstFinite {
                            src,
                            step,
                            dest,
                            water_entry_ciurl: p.water_entry_ciurl,
                        },
                    ),
                },
            },
        }
    } else {
        Err(MoveError::UnknownMoveKind)
    }
}

/// The three landing squares of a Tam2 move with its optional step, read in
/// the order src, step, first destination, second destination.
pub open spec fn decode_tam_spec(p: MovePayloadView) -> Result<TamMoveInternal, MoveError> {
    if p.shape == "NoStep"@ {
        match coord_field(p.src, MoveField::Src) {
            Err(e) => Err(e),
            Ok(src) => match coord_field(p.first_dest, MoveField::FirstDest) {
                Err(e) => Err(e),
                Ok(first_dest) => match coord_field(p.second_dest, MoveField::SecondDest) {
                    Err(e) => Err(e),
                    Ok(second_dest) => Ok(TamMoveInternal::NoStep { src, first_dest, second_dest }),
                },
            },
        }
    } else if p.shape == "StepsDuringFormer"@ || p.shape == "StepsDuringLatter"@ {
        match coord_field(p.src, MoveField::Src) {
            Err(e) => Err(e),
            Ok(src) => match coord_field(p.step, MoveField::Step) {
                Err(e) => Err(e),
                Ok(step) => match coord_field(p.first_dest, MoveField::FirstDest) {
                    Err(e) => Err(e),
                    Ok(first_dest) => match coord_field(p.second_dest, MoveField::SecondDest) {
                        Err(e) => Err(e),
                        Ok(second_dest) => if p.shape == "StepsDuringFormer"@ {
                            Ok(TamMoveInternal::StepsDuringFormer { src, step, first_dest, second_dest })
                        } else {
                            Ok(TamMoveInternal::StepsDuringLatter { src, step, first_dest, second_dest })
                        },
                    },
                },
            },
        }
    } else {
        Err(MoveError::UnknownMoveKind)
    }
}

/// What a payload decodes to: the kind picks the family of the move, the
/// shape its variant, and each field that the variant needs is read in turn;
/// the first failure is the result.
pub open spec fn decode_move_spec(p: MovePayloadView) -> Result<NormalMove, MoveError> {
    if p.kind == "NonTamMove"@ {
        match decode_non_tam_spec(p) {
            Ok(data) => Ok(NormalMove::NonTamMove { data }),
            Err(e) => Err(e),
        }
    } else if p.kind == "TamMove"@ {
        match decode_tam_spec(p) {
            Ok(flatten) => Ok(NormalMove::TamMove { flatten }),
            Err(e) => Err(e),
        }
    } else {
        Err(MoveError::UnknownMoveKind)
    }
}

/// A payload with the given kind and shape and no field set.
pub open spec fn bare_payload(kind: Seq<char>, shape: Seq<char>) -> MovePayloadView {
    MovePayloadView {
        kind,
        shape,
        color: None,
        profession: None,
        src: None,
        step: None,
        dest: None,
        first_dest: None,
        second_dest: None,
        water_entry_ciurl: None,
    }
}

/// The payload of a move: exactly the fields that its variant has, squares
/// row token first, and no chance record where the move carries none.
pub open spec fn encode_move_spec(m: NormalMove) -> MovePayloadView {
    match m {
        NormalMove::NonTamMove { data } => match data {
            NonTamMoveDotData::FromHand { color, profession, dest } => MovePayloadView {
                color: Some(color_text(color)),
                profession: Some(profession_text(profession)),
                dest: Some(coord_tokens(dest)),
                ..bare_payload("NonTamMove"@, "FromHand"@)
            },
            NonTamMoveDotData::SrcDst { src, dest, water_entry_ciurl } => MovePayloadView {
                src: Some(coord_tokens(src)),
                dest: Some(coord_tokens(dest)),
                water_entry_ciurl,
                ..bare_payload("NonTamMove"@, "SrcDst"@)
            },
            NonTamMoveDotData::SrcStepDstFinite { src, step, dest, water_entry_ciurl } => MovePayloadView {
                src: Some(coord_tokens(src)),
                step: Some(coord_tokens(step)),
                dest: Some(coord_tokens(dest)),
                water_entry_ciurl,
                ..bare_payload("NonTamMove"@, "SrcStepDstFinite"@)
            },
        },
        NormalMove::TamMove { flatten } => match flatten {
            TamMoveInternal::NoStep { src, first_dest, second_dest } => MovePayloadView {
                src: Some(coord_tokens(src)),
                first_dest: Some(coord_tokens(first_dest)),
                second_dest: Some(coord_tokens(second_dest)),
                ..bare_payload("TamMove"@, "NoStep"@)
            },
            TamMoveInternal::StepsDuringFormer { src, step, first_dest, second_dest } => MovePayloadView {
                src: Some(coord_tokens(src)),
                step: Some(coord_tokens(step)),
                first_dest: Some(coord_tokens(first_dest)),
                second_dest: Some(coord_tokens(second_dest)),
                ..bare_payload("TamMove"@, "StepsDuringFormer"@)
            },
            TamMoveInternal::StepsDuringLatter { src, step, first_dest, second_dest } => MovePayloadView {
                src: Some(coord_tokens(src)),
                step: Some(coord_tokens(step)),
                first_dest: Some(coord_tokens(first_dest)),
                second_dest: Some(coord_tokens(second_dest)),
                ..bare_payload("TamMove"@, "StepsDuringLatter"@)
            },
        },
    }
}


pub fn color_name(c: Color) -> (s: &'static str)
    ensures
        s@ == color_text(c),
{
    match c {
        Color::Kok1 => "Kok1",
        Color::Huok2 => "Huok2",
    }
}

pub fn profession_name(p: Profession) -> (s: &'static str)
    ensures
        s@ == profession_text(p),
{
    match p {
        Profession::Nuak1 => "Nuak1",
        Profession::Kauk2 => "Kauk2",
        Profession::Gua2 => "Gua2",
        Profession::Kaun1 => "Kaun1",
        Profession::Dau2 => "Dau2",
        Profession::Maun1 => "Maun1",
        Profession::Kua2 => "Kua2",
        Profession::Tuk2 => "Tuk2",
        Profession::Uai1 => "Uai1",
        Profession::Io => "Io",
    }
}

/// Reads a color from its name.
pub fn color_from_name(s: &str) -> (r: Option<Color>)
    ensures
        r == parse_color(s@),
{
    if same_text(s, "Kok1") { Some(Color::Kok1) }
    else if same_text(s, "Huok2") { Some(Color::Huok2) }
    else { None }
}

/// Reads a profession from its name.
pub fn profession_from_name(s: &str) -> (r: Option<Profession>)
    ensures
        r == parse_profession(s@),
{
    if same_text(s, "Nuak1") { Some(Profession::Nuak1) }
    else if same_text(s, "Kauk2") { Some(Profession::Kauk2) }
    else if same_text(s, "Gua2") { Some(Profession::Gua2) }
    else if same_text(s, "Kaun1") { Some(Profession::Kaun1) }
    else if same_text(s, "Dau2") { Some(Profession::Dau2) }
    else if same_text(s, "Maun1") { Some(Profession::Maun1) }
    else if same_text(s, "Kua2") { Some(Profession::Kua2) }
    else if same_text(s, "Tuk2") { Some(Profession::Tuk2) }
    else if same_text(s, "Uai1") { Some(Profession::Uai1) }
    else if same_text(s, "Io") { Some(Profession::Io) }
    else { None }
}

fn read_color(o: &Option<String>) -> (r: Result<Color, MoveError>)
    ensures
        r == color_field(text_view(*o)),
{
    match o {
        None => Err(MoveError::MissingField(MoveField::Color)),
        Some(s) => match color_from_name(s.as_str()) {
            Some(c) => Ok(c),
            None => Err(MoveError::UnknownName(MoveField::Color)),
        },
    }
}

fn read_profession(o: &Option<String>) -> (r: Result<Profession, MoveError>)
    ensures
        r == profession_field(text_view(*o)),
{
    match o {
        None => Err(MoveError::MissingField(MoveField::Profession)),
        Some(s) => match profession_from_name(s.as_str()) {
            Some(p) => Ok(p),
            None => Err(MoveError::UnknownName(MoveField::Profession)),
        },
    }
}

fn read_coord(o: &Option<Vec<String>>, f: MoveField) -> (r: Result<Coord, MoveError>)
    ensures
        r == coord_field(tokens_view(*o), f),
{
    match o {
        None => Err(MoveError::MissingField(f)),
        Some(ts) => match decode_coord(ts.as_slice()) {
            Ok(c) => Ok(c),
            Err(e) => Err(MoveError::BadCoord(f, e)),
        },
    }
}

fn decode_non_tam(p: &MovePayload) -> (r: Result<NonTamMoveDotData, MoveError>)
    ensures
        r == decode_non_tam_spec(p@),
{
    if same_text(p.shape.as_str(), "FromHand") {
        let color = match read_color(&p.color) {
            Ok(c) => c,
            Err(e) => return Err(e),
        };
        let profession = match read_profession(&p.profession) {
            Ok(x) => x,
            Err(e) => return Err(e),
        };
        let dest = match read_coord(&p.dest, MoveField::Dest) {
            Ok(c) => c,
            Err(e) => return Err(e),
        };
        Ok(NonTamMoveDotData::FromHand { color, profession, dest })
    } else if same_text(p.shape.as_str(), "SrcDst") {
        let src = match read_coord(&p.src, MoveField::Src) {
            Ok(c) => c,
            Err(e) => return Err(e),
        };
        let dest = match read_coord(&p.dest, MoveField::Dest) {
            Ok(c) => c,
            Err(e) => return Err(e),
        };
        Ok(NonTamMoveDotData::SrcDst { src, dest, water_entry_ciurl: p.water_entry_ciurl })
    } else if same_text(p.shape.as_str(), "SrcStepDstFinite") {
        let src = match read_coord(&p.src, MoveField::Src) {
            Ok(c) => c,
            Err(e) => return Err(e),
        };
        let step = match read_coord(&p.step, MoveField::Step) {
            Ok(c) => c,
            Err(e) => return Err(e),
        };
        let dest = match read_coord(&p.dest, MoveField::Dest) {
            Ok(c) => c,
            Err(e) => return Err(e),
        };
        Ok(NonTamMoveDotData::SrcStepDstFinite { src, step, dest, water_entry_ciurl: p.water_entry_ciurl })
    } else {
        Err(MoveError::UnknownMoveKind)
    }
}

fn decode_tam(p: &MovePayload) -> (r: Result<TamMoveInternal, MoveError>)
    ensures
        r == decode_tam_spec(p@),
{
    let no_step = same_text(p.shape.as_str(), "NoStep");
    let former = same_text(p.shape.as_str(), "StepsDuringFormer");
    let latter = same_text(p.shape.as_str(), "StepsDuringLatter");
    if !no_step && !former && !latter {
        return Err(MoveError::UnknownMoveKind);
    }
    let src = match read_coord(&p.src, MoveField::Src) {
        Ok(c) => c,
        Err(e) => return Err(e),
    };
    if no_step {
        let first_dest = match read_coord(&p.first_dest, MoveField::FirstDest) {
            Ok(c) => c,
            Err(e) => return Err(e),
        };
        let second_dest = match read_coord(&p.second_dest, MoveField::SecondDest) {
            Ok(c) => c,
            Err(e) => return Err(e),
        };
        return Ok(TamMoveInternal::NoStep { src, first_dest, second_dest });
    }
    let step = match read_coord(&p.step, MoveField::Step) {
        Ok(c) => c,
        Err(e) => return Err(e),
    };
    let first_dest = match read_coord(&p.first_dest, MoveField::FirstDest) {
        Ok(c) => c,
        Err(e) => return Err(e),
    };
    let second_dest = match read_coord(&p.second_dest, MoveField::SecondDest) {
        Ok(c) => c,
        Err(e) => return Err(e),
    };
    if former {
        Ok(TamMoveInternal::StepsDuringFormer { src, step, first_dest, second_dest })
    } else {
        Ok(TamMoveInternal::StepsDuringLatter { src, step, first_dest, second_dest })
    }
}

/// Reads a move from its payload.
pub fn decode_move(p: &MovePayload) -> (r: Result<NormalMove, MoveError>)
    ensures
        r == decode_move_spec(p@),
{
    if same_text(p.kind.as_str(), "NonTamMove") {
        match decode_non_tam(p) {
            Ok(data) => Ok(NormalMove::NonTamMove { data }),
            Err(e) => Err(e),
        }
    } else if same_text(p.kind.as_str(), "TamMove") {
        match decode_tam(p) {
            Ok(flatten) => Ok(NormalMove::TamMove { flatten }),
            Err(e) => Err(e),
        }
    } else {
        Err(MoveError::UnknownMoveKind)
    }
}

fn blank_payload(kind: &str, shape: &str) -> (r: MovePayload)
    ensures
        r@ == bare_payload(kind@, shape@),
{
    MovePayload {
        kind: kind.to_owned(),
        shape: shape.to_owned(),
        color: None,
        profession: None,
        src: None,
        step: None,
        dest: None,
        first_dest: None,
        second_dest: None,
        water_entry_ciurl: None,
    }
}

/// Writes a move as its payload.
pub fn encode_move(m: &NormalMove) -> (r: MovePayload)
    ensures
        r@ == encode_move_spec(*m),
{
    match *m {
        NormalMove::NonTamMove { data } => match data {
            NonTamMoveDotData::FromHand { color, profession, dest } => {
                let mut r = blank_payload("NonTamMove", "FromHand");
                r.color = Some(color_name(color).to_owned());
                r.profession = Some(profession_name(profession).to_owned());
                r.dest = Some(encode_coord(dest));
                r
            },
            NonTamMoveDotData::SrcDst { src, dest, water_entry_ciurl } => {
                let mut r = blank_payload("NonTamMove", "SrcDst");
                r.src = Some(encode_coord(src));
                r.dest = Some(encode_coord(dest));
                r.water_entry_ciurl = water_entry_ciurl;
                r
            },
            NonTamMoveDotData::SrcStepDstFinite { src, step, dest, water_entry_ciurl } => {
                let mut r = blank_payload("NonTamMove", "SrcStepDstFinite");
                r.src = Some(encode_coord(src));
                r.step = Some(encode_coord(step));
                r.dest = Some(encode_coord(dest));
                r.water_entry_ciurl = water_entry_ciurl;
                r
            },
        },
        NormalMove::TamMove { flatten } => match flatten {
            TamMoveInternal::NoStep { src, first_dest, second_dest } => {
                let mut r = blank_payload("TamMove", "NoStep");
                r.src = Some(encode_coord(src));
                r.first_dest = Some(encode_coord(first_dest));
                r.second_dest = Some(encode_coord(second_dest));
                r
            },
            TamMoveInternal::StepsDuringFormer { src, step, first_dest, second_dest } => {
                let mut r = blank_payload("TamMove", "StepsDuringFormer");
                r.src = Some(encode_coord(src));
                r.step = Some(encode_coord(step));
                r.first_dest = Some(encode_coord(first_dest));
                r.second_dest = Some(encode_coord(second_dest));
                r
            },
            TamMoveInternal::StepsDuringLatter { src, step, first_dest, second_dest } => {
                let mut r = blank_payload("TamMove", "StepsDuringLatter");
                r.src = Some(encode_coord(src));
                r.step = Some(encode_coord(step));
                r.first_dest = Some(encode_coord(first_dest));
                r.second_dest = Some(encode_coord(second_dest));
                r
            },
        },
    }
}


proof fn lemma_names_distinct(c: Color, p: Profession)
    ensures
        parse_color(color_text(c)) == Some(c),
        parse_profession(profession_text(p)) == Some(p),
        "NonTamMove"@ != "TamMove"@,
        "FromHand"@ != "SrcDst"@,
        "FromHand"@ != "SrcStepDstFinite"@,
        "SrcDst"@ != "SrcStepDstFinite"@,
        "NoStep"@ != "StepsDuringFormer"@,
        "NoStep"@ != "StepsDuringLatter"@,
        "StepsDuringFormer"@ != "StepsDuringLatter"@,
{
    reveal_strlit("Kok1");
    reveal_strlit("Huok2");
    reveal_strlit("Nuak1");
    reveal_strlit("Kauk2");
    reveal_strlit("Gua2");
    reveal_strlit("Kaun1");
    reveal_strlit("Dau2");
    reveal_strlit("Maun1");
    reveal_strlit("Kua2");
    reveal_strlit("Tuk2");
    reveal_strlit("Uai1");
    reveal_strlit("Io");
    reveal_strlit("NonTamMove");
    reveal_strlit("TamMove");
    reveal_strlit("FromHand");
    reveal_strlit("SrcDst");
    reveal_strlit("SrcStepDstFinite");
    reveal_strlit("NoStep");
    reveal_strlit("StepsDuringFormer");
    reveal_strlit("StepsDuringLatter");
    assert("Kok1"@[0] != "Huok2"@[0]);
    assert("NonTamMove"@.len() == 10 && "TamMove"@.len() == 7);
    assert("FromHand"@.len() == 8 && "SrcDst"@.len() == 6 && "SrcStepDstFinite"@.len() == 16);
    assert("NoStep"@.len() == 6 && "StepsDuringFormer"@.len() == 17);
    assert("StepsDuringLatter"@.len() == 17);
    assert("StepsDuringFormer"@[11] != "StepsDuringLatter"@[11]);
    assert("Nuak1"@.len() == 5 && "Nuak1"@[0] == 'N' && "Nuak1"@[1] == 'u' && "Nuak1"@[3] == 'k');
    assert("Kauk2"@.len() == 5 && "Kauk2"@[0] == 'K' && "Kauk2"@[1] == 'a' && "Kauk2"@[3] == 'k');
    assert("Gua2"@.len() == 4 && "Gua2"@[0] == 'G' && "Gua2"@[1] == 'u');
    assert("Kaun1"@.len() == 5 && "Kaun1"@[0] == 'K' && "Kaun1"@[1] == 'a' && "Kaun1"@[3] == 'n');
    assert("Dau2"@.len() == 4 && "Dau2"@[0] == 'D' && "Dau2"@[1] == 'a');
    assert("Maun1"@.len() == 5 && "Maun1"@[0] == 'M' && "Maun1"@[1] == 'a' && "Maun1"@[3] == 'n');
    assert("Kua2"@.len() == 4 && "Kua2"@[0] == 'K' && "Kua2"@[1] == 'u');
    assert("Tuk2"@.len() == 4 && "Tuk2"@[0] == 'T' && "Tuk2"@[1] == 'u');
    assert("Uai1"@.len() == 4 && "Uai1"@[0] == 'U' && "Uai1"@[1] == 'a');
    assert("Io"@.len() == 2 && "Io"@[0] == 'I' && "Io"@[1] == 'o');
    match c {
        Color::Kok1 => {},
        Color::Huok2 => {},
    }
    match p {
        Profession::Nuak1 => {},
        Profession::Kauk2 => {},
        Profession::Gua2 => {},
        Profession::Kaun1 => {},
        Profession::Dau2 => {},
        Profession::Maun1 => {},
        Profession::Kua2 => {},
        Profession::Tuk2 => {},
        Profession::Uai1 => {},
        Profession::Io => {},
    }
}

/// Decoding the payload of a move gives that move back, with or without a
/// chance record.
pub proof fn lemma_move_round_trip(m: NormalMove)
    ensures
        decode_move_spec(encode_move_spec(m)) == Ok::<NormalMove, MoveError>(m),
{
    lemma_names_distinct(Color::Kok1, Profession::Io);
    match m {
        NormalMove::NonTamMove { data } => match data {
            NonTamMoveDotData::FromHand { color, profession, dest } => {
                lemma_names_distinct(color, profession);
                lemma_coord_round_trip(dest);
            },
            NonTamMoveDotData::SrcDst { src, dest, .. } => {
                lemma_coord_round_trip(src);
                lemma_coord_round_trip(dest);
            },
            NonTamMoveDotData::SrcStepDstFinite { src, step, dest, .. } => {
                lemma_coord_round_trip(src);
                lemma_coord_round_trip(step);
                lemma_coord_round_trip(dest);
            },
        },
        NormalMove::TamMove { flatten } => match flatten {
            TamMoveInternal::NoStep { src, first_dest, second_dest } => {
                lemma_coord_round_trip(src);
                lemma_coord_round_trip(first_dest);
                lemma_coord_round_trip(second_dest);
            },
            TamMoveInternal::StepsDuringFormer { src, step, first_dest, second_dest } => {
                lemma_coord_round_trip(src);
                lemma_coord_round_trip(step);
                lemma_coord_round_trip(first_dest);
                lemma_coord_round_trip(second_dest);
            },
            TamMoveInternal::StepsDuringLatter { src, step, first_dest, second_dest } => {
                lemma_coord_round_trip(src);
                lemma_coord_round_trip(step);
                lemma_coord_round_trip(first_dest);
                lemma_coord_round_trip(second_dest);
            },
        },
    }
}

} // verus!
