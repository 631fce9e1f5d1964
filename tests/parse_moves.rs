use chess_san::{Annotation, CastleType, CheckType, Move, MoveKind, Piece, Position, SanError};

fn assert_all(
    mv: Move,
    src: Position,
    dst: Position,
    piece: Piece,
    promo: Option<Piece>,
    ann: Option<Annotation>,
    check: Option<CheckType>,
    capt: bool,
) {
    match mv.move_kind {
        MoveKind::Normal(s, d) => {
            assert_eq!(s, src);
            assert_eq!(d, dst);
        }
        _ => assert!(false),
    }
    assert_eq!(mv.piece, piece);
    assert_eq!(mv.promotion, promo);
    assert_eq!(mv.annotation, ann);
    assert_eq!(mv.check_type, check);
    assert_eq!(mv.is_capture, capt);
}

fn assert_move(mv: Move, src: Position, dst: Position, piece: Piece) {
    assert_all(mv, src, dst, piece, None, None, None, false);
}

fn assert_capture(mv: Move, src: Position, dst: Position, piece: Piece) {
    assert_all(mv, src, dst, piece, None, None, None, true);
}

#[test]
fn test_castle_short() {
    let m = Move::parse("O-O").unwrap();
    assert_eq!(m.move_kind, MoveKind::Castle(CastleType::Kingside));
    assert_eq!(m.piece, Piece::King);
    assert_eq!(m.promotion, None);
    assert_eq!(m.annotation, None);
    assert_eq!(m.check_type, None);
    assert_eq!(m.is_capture, false);
}

#[test]
fn test_castle_long() {
    let m = Move::parse("O-O-O").unwrap();
    assert_eq!(m.move_kind, MoveKind::Castle(CastleType::Queenside));
    assert_eq!(m.piece, Piece::King);
    assert_eq!(m.promotion, None);
    assert_eq!(m.annotation, None);
    assert_eq!(m.check_type, None);
    assert_eq!(m.is_capture, false);
}

#[test]
fn test_pawn() {
    assert_move(Move::parse("e4").unwrap(), Position::none(), Position::of(4, 4), Piece::Pawn);
}

#[test]
fn test_pawn_long() {
    assert_move(Move::parse("e2e4").unwrap(), Position::of(4, 6), Position::of(4, 4), Piece::Pawn);
}

#[test]
fn test_piece() {
    assert_move(Move::parse("Qe4").unwrap(), Position::none(), Position::of(4, 4), Piece::Queen);
}

#[test]
fn test_piece_file() {
    assert_move(
        Move::parse("Qbe4").unwrap(),
        Position::new(Some(1), None),
        Position::of(4, 4),
        Piece::Queen,
    );
}

#[test]
fn test_piece_rank() {
    assert_move(
        Move::parse("Q1e4").unwrap(),
        Position::new(None, Some(7)),
        Position::of(4, 4),
        Piece::Queen,
    );
}

#[test]
fn test_piece_long() {
    assert_move(Move::parse("Qb1e4").unwrap(), Position::of(1, 7), Position::of(4, 4), Piece::Queen);
}

#[test]
fn test_pawn_capture() {
    assert_capture(
        Move::parse("exd4").unwrap(),
        Position::new(Some(4), None),
        Position::of(3, 4),
        Piece::Pawn,
    );
}

#[test]
fn test_pawn_capture_promotion() {
    assert_all(
        Move::parse("exd8=Q").unwrap(),
        Position::new(Some(4), None),
        Position::of(3, 0),
        Piece::Pawn,
        Some(Piece::Queen),
        None,
        None,
        true,
    );
}

#[test]
fn test_pawn_capture_long() {
    assert_capture(Move::parse("e3xd4").unwrap(), Position::of(4, 5), Position::of(3, 4), Piece::Pawn);
}

#[test]
fn test_piece_capture() {
    assert_capture(Move::parse("Rxh3").unwrap(), Position::none(), Position::of(7, 5), Piece::Rook);
}

#[test]
fn test_piece_capture_file() {
    assert_capture(
        Move::parse("Rexh3").unwrap(),
        Position::new(Some(4), None),
        Position::of(7, 5),
        Piece::Rook,
    );
}

#[test]
fn test_piece_capture_rank() {
    assert_capture(
        Move::parse("R1xh3").unwrap(),
        Position::new(None, Some(7)),
        Position::of(7, 5),
        Piece::Rook,
    );
}

#[test]
fn test_piece_capture_long() {
    assert_capture(Move::parse("Re3xh3").unwrap(), Position::of(4, 5), Position::of(7, 5), Piece::Rook);
}

#[test]
fn test_pawn_promotion() {
    assert_all(
        Move::parse("d8=Q").unwrap(),
        Position::none(),
        Position::of(3, 0),
        Piece::Pawn,
        Some(Piece::Queen),
        None,
        None,
        false,
    );
}

#[test]
fn every_square_reads_as_a_pawn_move() {
    let files = ["a", "b", "c", "d", "e", "f", "g", "h"];
    let ranks = ["1", "2", "3", "4", "5", "6", "7", "8"];
    for (f, file) in files.iter().enumerate() {
        for (r, rank) in ranks.iter().enumerate() {
            let text = format!("{}{}", file, rank);
            let digit = r + 1;
            assert_move(
                Move::parse(&text).unwrap(),
                Position::none(),
                Position::of(f, 8 - digit),
                Piece::Pawn,
            );
        }
    }
}

#[test]
fn piece_letter_and_square_is_never_a_capture_or_disambiguated() {
    let m = Move::parse("Qe4").unwrap();
    assert!(!m.is_capture);
    assert_eq!(m.move_kind, MoveKind::Normal(Position::none(), Position::of(4, 4)));
    assert_move(Move::parse("Nf3").unwrap(), Position::none(), Position::of(5, 5), Piece::Knight);
    assert_move(Move::parse("Ka1").unwrap(), Position::none(), Position::of(0, 7), Piece::King);
    assert_move(Move::parse("Bh8").unwrap(), Position::none(), Position::of(7, 0), Piece::Bishop);
}

#[test]
fn capture_flag_follows_the_x() {
    let with_x = ["exd4", "e3xd4", "exd8=Q", "exd8Q", "Rxh3", "Rexh3", "R1xh3", "Re3xh3", "Nxe5+!"];
    for t in with_x.iter() {
        assert!(Move::parse(t).unwrap().is_capture, "{}", t);
    }
    let without_x = ["O-O", "O-O-O+", "e4", "e2e4", "Qe4", "Qbe4", "Q1e4", "Qb1e4", "d8=Q", "d8N#"];
    for t in without_x.iter() {
        assert!(!Move::parse(t).unwrap().is_capture, "{}", t);
    }
}

#[test]
fn check_marks_and_annotations_are_read() {
    let m = Move::parse("exd8=Q+!").unwrap();
    assert_eq!(m.check_type, Some(CheckType::Check));
    assert_eq!(m.annotation, Some(Annotation::Good));
    assert_eq!(m.promotion, Some(Piece::Queen));
    let m = Move::parse("Qxf7#").unwrap();
    assert_eq!(m.check_type, Some(CheckType::Mate));
    assert_eq!(m.annotation, None);
    let m = Move::parse("O-O-O+?!").unwrap();
    assert_eq!(m.move_kind, MoveKind::Castle(CastleType::Queenside));
    assert_eq!(m.check_type, Some(CheckType::Check));
    assert_eq!(m.annotation, Some(Annotation::Interesting));
    assert_eq!(Move::parse("e4??").unwrap().annotation, Some(Annotation::Blunder));
    assert_eq!(Move::parse("e4?").unwrap().annotation, Some(Annotation::Mistake));
    assert_eq!(Move::parse("e4!!").unwrap().annotation, Some(Annotation::Brilliant));
    assert_eq!(Move::parse("Nf3#??").unwrap().check_type, Some(CheckType::Mate));
}

#[test]
fn promotion_may_omit_the_equals_sign() {
    assert_all(
        Move::parse("d8Q").unwrap(),
        Position::none(),
        Position::of(3, 0),
        Piece::Pawn,
        Some(Piece::Queen),
        None,
        None,
        false,
    );
    let m = Move::parse("e7xd8N#").unwrap();
    assert_eq!(m.promotion, Some(Piece::Knight));
    assert_eq!(m.check_type, Some(CheckType::Mate));
    assert!(m.is_capture);
}

fn exhausted(text: &str) {
    match Move::parse(text) {
        Err(SanError::ExhaustedGrammar(t)) => assert_eq!(t, text),
        other => panic!("{:?} gave {:?}", text, other),
    }
}

#[test]
fn empty_and_unknown_texts_exhaust_the_grammar() {
    exhausted("");
    exhausted("Z9");
}

#[test]
fn malformed_texts_are_refused() {
    for t in ["e9", "i4", "e4 ", "exd8=", "O-O-O-O", "Q9e4", "Pe4", "e4+#", "e4!?", "e4???", "Rxh3=Q", "d"]
        .iter()
    {
        exhausted(t);
    }
}
