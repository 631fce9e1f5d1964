use chess_san::{Annotation, CastleType, CheckType, Move, MoveKind, Piece, Position};

#[test]
fn test_compile() {
    let s = (Move {
        move_kind: MoveKind::Normal(Position::new(Some(4), None), Position::of(3, 0)),
        piece: Piece::Pawn,
        promotion: Some(Piece::Queen),
        annotation: Some(Annotation::Interesting),
        check_type: Some(CheckType::Check),
        is_capture: true,
    })
    .compile();

    assert_eq!(s, "exd8=Q+?!");
}

#[test]
fn compile_castles_and_plain_moves() {
    let mut m = Move::new(Piece::King, MoveKind::Castle(CastleType::Queenside));
    m.check_type = Some(CheckType::Mate);
    assert_eq!(m.compile(), "O-O-O#");
    let m = Move::new(Piece::Knight, MoveKind::Normal(Position::new(None, Some(7)), Position::of(5, 5)));
    assert_eq!(m.compile(), "N1f3");
    let m = Move::new(Piece::Pawn, MoveKind::Normal(Position::none(), Position::of(0, 7)));
    assert_eq!(m.compile(), "a1");
}

#[test]
fn new_move_carries_no_marks() {
    let m = Move::new(Piece::Rook, MoveKind::Normal(Position::none(), Position::of(7, 0)));
    assert_eq!(m.piece, Piece::Rook);
    assert_eq!(m.promotion, None);
    assert_eq!(m.annotation, None);
    assert_eq!(m.check_type, None);
    assert!(!m.is_capture);
}

#[test]
fn position_text() {
    assert_eq!(Position::none().to_string(), "");
    assert_eq!(Position::new(Some(4), None).to_string(), "e");
    assert_eq!(Position::new(None, Some(0)).to_string(), "8");
    assert_eq!(Position::of(0, 7).to_string(), "a1");
    assert_eq!(Position::of(7, 0).to_string(), "h8");
    assert_eq!(Position::of(3, 4), Position { x: Some(3), y: Some(4) });
}

#[test]
fn read_then_write_gives_the_text_back() {
    let texts = [
        "O-O", "O-O-O", "O-O+", "e4", "e2e4", "Qe4", "Qbe4", "Q1e4", "Qb1e4", "exd4", "exd8=Q",
        "e3xd4", "e7xd8=R#", "Rxh3", "Rexh3", "R1xh3", "Re3xh3", "d8=Q", "Nf3+!!", "Kxe2??",
        "b7b8?", "Bc4!",
    ];
    for t in texts.iter() {
        let m = Move::parse(t).unwrap();
        assert_eq!(m.compile(), *t);
        assert_eq!(Move::parse(&m.compile()).unwrap(), m);
    }
}

#[test]
fn promotion_without_equals_sign_is_written_with_it() {
    let m = Move::parse("exd8Q+").unwrap();
    assert_eq!(m.compile(), "exd8=Q+");
    assert_eq!(Move::parse(&m.compile()).unwrap(), m);
    let m = Move::parse("d1N").unwrap();
    assert_eq!(m.compile(), "d1=N");
    assert_eq!(Move::parse(&m.compile()).unwrap(), m);
}
