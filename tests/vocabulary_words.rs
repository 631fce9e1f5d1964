use chess_san::{Annotation, CastleType, CheckType, Piece, SanError, Vocabulary};

#[test]
fn piece_words() {
    let all = [Piece::Pawn, Piece::Bishop, Piece::King, Piece::Knight, Piece::Queen, Piece::Rook];
    let words = ["", "B", "K", "N", "Q", "R"];
    for (p, w) in all.iter().zip(words.iter()) {
        assert_eq!(p.to_str(), *w);
        assert_eq!(Piece::from_str(w).unwrap(), *p);
    }
    assert_eq!(Piece::of_letter('N'), Some(Piece::Knight));
    assert_eq!(Piece::of_letter('P'), None);
    assert_eq!(
        Piece::from_str("X"),
        Err(SanError::InvalidToken(Vocabulary::Piece, "X".to_string()))
    );
    assert_eq!(
        Piece::from_str("QQ"),
        Err(SanError::InvalidToken(Vocabulary::Piece, "QQ".to_string()))
    );
}

#[test]
fn annotation_words() {
    let all = [
        Annotation::Blunder,
        Annotation::Mistake,
        Annotation::Interesting,
        Annotation::Good,
        Annotation::Brilliant,
    ];
    let words = ["??", "?", "?!", "!", "!!"];
    for (a, w) in all.iter().zip(words.iter()) {
        assert_eq!(a.to_str(), *w);
        assert_eq!(Annotation::from_str(w).unwrap(), *a);
    }
    for bad in ["", "!?", "???", "x"].iter() {
        assert_eq!(
            Annotation::from_str(bad),
            Err(SanError::InvalidToken(Vocabulary::Annotation, bad.to_string()))
        );
    }
}

#[test]
fn castle_words() {
    assert_eq!(CastleType::Kingside.to_str(), "O-O");
    assert_eq!(CastleType::Queenside.to_str(), "O-O-O");
    assert_eq!(CastleType::from_str("O-O").unwrap(), CastleType::Kingside);
    assert_eq!(CastleType::from_str("O-O-O").unwrap(), CastleType::Queenside);
    for bad in ["", "O", "O-0", "0-0", "O-O-", "O-O-O-O"].iter() {
        assert_eq!(
            CastleType::from_str(bad),
            Err(SanError::InvalidToken(Vocabulary::CastleType, bad.to_string()))
        );
    }
}

#[test]
fn check_words() {
    assert_eq!(CheckType::Check.to_str(), "+");
    assert_eq!(CheckType::Mate.to_str(), "#");
    assert_eq!(CheckType::from_str("+").unwrap(), CheckType::Check);
    assert_eq!(CheckType::from_str("#").unwrap(), CheckType::Mate);
    assert_eq!(CheckType::of_mark('#'), Some(CheckType::Mate));
    assert_eq!(
        CheckType::from_str("++"),
        Err(SanError::InvalidToken(Vocabulary::CheckType, "++".to_string()))
    );
}
