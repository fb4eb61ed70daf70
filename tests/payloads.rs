use cetkaik_moves::ciurl::Ciurl;
use cetkaik_moves::coord::{Column, Coord, CoordError, Row};
use cetkaik_moves::moves::{
    decode_move, encode_move, Color, MoveError, MoveField, MovePayload, NonTamMoveDotData,
    NormalMove, Profession, TamMoveInternal,
};

fn toks(a: &str, b: &str) -> Option<Vec<String>> {
    Some(vec![a.to_string(), b.to_string()])
}

fn payload(kind: &str, shape: &str) -> MovePayload {
    MovePayload {
        kind: kind.to_string(),
        shape: shape.to_string(),
        color: None,
        profession: None,
        src: None,
        step: None,
        dest: None,
        first_dest: None,
        second_dest: None,
        water_entry_ciurl: None,
    }
}

fn samples() -> Vec<NormalMove> {
    let a = Coord(Row::A, Column::C);
    let b = Coord(Row::IA, Column::P);
    let c = Coord(Row::O, Column::N);
    let d = Coord(Row::AU, Column::Z);
    let ciurl = Ciurl::from_outcomes(true, false, true, false, false);
    vec![
        NormalMove::NonTamMove {
            data: NonTamMoveDotData::FromHand { color: Color::Huok2, profession: Profession::Io, dest: b },
        },
        NormalMove::NonTamMove { data: NonTamMoveDotData::SrcDst { src: a, dest: b, water_entry_ciurl: None } },
        NormalMove::NonTamMove {
            data: NonTamMoveDotData::SrcDst { src: a, dest: b, water_entry_ciurl: Some(ciurl) },
        },
        NormalMove::NonTamMove {
            data: NonTamMoveDotData::SrcStepDstFinite { src: a, step: c, dest: d, water_entry_ciurl: None },
        },
        NormalMove::NonTamMove {
            data: NonTamMoveDotData::SrcStepDstFinite { src: a, step: c, dest: d, water_entry_ciurl: Some(ciurl) },
        },
        NormalMove::TamMove { flatten: TamMoveInternal::NoStep { src: a, first_dest: b, second_dest: c } },
        NormalMove::TamMove {
            flatten: TamMoveInternal::StepsDuringFormer { src: a, step: b, first_dest: c, second_dest: d },
        },
        NormalMove::TamMove {
            flatten: TamMoveInternal::StepsDuringLatter { src: a, step: b, first_dest: c, second_dest: d },
        },
    ]
}

#[test]
fn moves_round_trip() {
    for m in samples() {
        assert_eq!(decode_move(&encode_move(&m)), Ok(m));
    }
}

#[test]
fn every_piece_name_round_trips() {
    let colors = [Color::Kok1, Color::Huok2];
    let professions = [
        Profession::Nuak1,
        Profession::Kauk2,
        Profession::Gua2,
        Profession::Kaun1,
        Profession::Dau2,
        Profession::Maun1,
        Profession::Kua2,
        Profession::Tuk2,
        Profession::Uai1,
        Profession::Io,
    ];
    for color in colors {
        for profession in professions {
            let m = NormalMove::NonTamMove {
                data: NonTamMoveDotData::FromHand { color, profession, dest: Coord(Row::E, Column::K) },
            };
            assert_eq!(decode_move(&encode_move(&m)), Ok(m));
        }
    }
}

#[test]
fn absent_chance_record_is_omitted() {
    let m = NormalMove::NonTamMove {
        data: NonTamMoveDotData::SrcDst {
            src: Coord(Row::A, Column::C),
            dest: Coord(Row::E, Column::C),
            water_entry_ciurl: None,
        },
    };
    let p = encode_move(&m);
    assert_eq!(p.water_entry_ciurl, None);
    assert_eq!(p.kind, "NonTamMove");
    assert_eq!(p.shape, "SrcDst");
    assert_eq!(p.src, toks("A", "C"));
    assert_eq!(p.dest, toks("E", "C"));
    assert_eq!(p.step, None);
    assert_eq!(p.color, None);
}

#[test]
fn from_hand_end_to_end() {
    let mut p = payload("NonTamMove", "FromHand");
    p.color = Some("Kok1".to_string());
    p.profession = Some("Kauk2".to_string());
    p.dest = toks("A", "C");
    let m = decode_move(&p).unwrap();
    assert_eq!(
        m,
        NormalMove::NonTamMove {
            data: NonTamMoveDotData::FromHand {
                color: Color::Kok1,
                profession: Profession::Kauk2,
                dest: Coord(Row::A, Column::C),
            },
        }
    );
    let back = encode_move(&m);
    assert_eq!(back.dest, toks("A", "C"));
    assert_eq!(back.color, Some("Kok1".to_string()));
    assert_eq!(back.profession, Some("Kauk2".to_string()));
}

#[test]
fn swapped_tokens_in_a_move() {
    let mut p = payload("TamMove", "NoStep");
    p.src = toks("C", "A");
    p.first_dest = toks("K", "E");
    p.second_dest = toks("I", "L");
    assert_eq!(
        decode_move(&p),
        Ok(NormalMove::TamMove {
            flatten: TamMoveInternal::NoStep {
                src: Coord(Row::A, Column::C),
                first_dest: Coord(Row::E, Column::K),
                second_dest: Coord(Row::I, Column::L),
            },
        })
    );
}

#[test]
fn unknown_kinds_are_refused() {
    assert_eq!(decode_move(&payload("Pass", "SrcDst")), Err(MoveError::UnknownMoveKind));
    assert_eq!(decode_move(&payload("NonTamMove", "Jump")), Err(MoveError::UnknownMoveKind));
    assert_eq!(decode_move(&payload("TamMove", "SrcDst")), Err(MoveError::UnknownMoveKind));
}

#[test]
fn missing_fields_are_named() {
    let mut p = payload("NonTamMove", "SrcDst");
    p.src = toks("A", "C");
    assert_eq!(decode_move(&p), Err(MoveError::MissingField(MoveField::Dest)));
    let q = payload("NonTamMove", "FromHand");
    assert_eq!(decode_move(&q), Err(MoveError::MissingField(MoveField::Color)));
    let mut t = payload("TamMove", "StepsDuringLatter");
    t.src = toks("A", "C");
    t.first_dest = toks("E", "C");
    t.second_dest = toks("I", "C");
    assert_eq!(decode_move(&t), Err(MoveError::MissingField(MoveField::Step)));
}

#[test]
fn unknown_names_are_refused() {
    let mut p = payload("NonTamMove", "FromHand");
    p.color = Some("Red".to_string());
    p.profession = Some("Io".to_string());
    p.dest = toks("A", "C");
    assert_eq!(decode_move(&p), Err(MoveError::UnknownName(MoveField::Color)));
    p.color = Some("Huok2".to_string());
    p.profession = Some("King".to_string());
    assert_eq!(decode_move(&p), Err(MoveError::UnknownName(MoveField::Profession)));
}

#[test]
fn bad_squares_carry_the_field() {
    let mut p = payload("NonTamMove", "SrcStepDstFinite");
    p.src = toks("A", "C");
    p.step = toks("C", "K");
    p.dest = toks("Q", "A");
    assert_eq!(decode_move(&p), Err(MoveError::BadCoord(MoveField::Step, CoordError::MissingRow)));
    p.step = toks("E", "K");
    assert_eq!(decode_move(&p), Err(MoveError::BadCoord(MoveField::Dest, CoordError::UnrecognizedToken)));
}

#[test]
fn chance_record_survives_decoding() {
    let ciurl = Ciurl::from_outcomes(false, true, true, true, false);
    let mut p = payload("NonTamMove", "SrcDst");
    p.src = toks("A", "C");
    p.dest = toks("Y", "C");
    p.water_entry_ciurl = Some(ciurl);
    let m = decode_move(&p).unwrap();
    assert_eq!(
        m,
        NormalMove::NonTamMove {
            data: NonTamMoveDotData::SrcDst {
                src: Coord(Row::A, Column::C),
                dest: Coord(Row::Y, Column::C),
                water_entry_ciurl: Some(ciurl),
            },
        }
    );
}
