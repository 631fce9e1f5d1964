//! Reading move text: an ordered table of notation shapes, the first one that
//! matches the whole input deciding the move.
//!
//! Every shape is a fixed run of characters (piece letter, file, rank,
//! capture mark) followed by the closing marks: an optional `+` or `#`, then
//! an optional annotation. Pawn captures may carry a promotion (`=Q` or `Q`)
//! before the closing marks, and a pawn promotion must.

use vstd::prelude::*;
use crate::laws::lemma_round_trip;
use crate::moves::{Move, MoveKind, Position};
use crate::vocabulary::{Annotation, CastleType, CheckType, Piece, SanError};

verus! {

// ----- character classes and coordinates -----

pub open spec fn is_file(c: char) -> bool {
    'a' <= c && c <= 'h'
}

pub open spec fn is_rank(c: char) -> bool {
    '1' <= c && c <= '8'
}

pub open spec fn is_piece_letter(c: char) -> bool {
    Piece::from_letter(c) is Some
}

/// File letters `a` to `h` are coordinates 0 to 7.
pub open spec fn file_of(c: char) -> usize {
    (c as int - 'a' as int) as usize
}

/// Rank digits `1` to `8` are coordinates 7 to 0: the coordinate is `7 - (digit - 1)`.
pub open spec fn rank_of(c: char) -> usize {
    (7 - (c as int - '1' as int)) as usize
}

pub open spec fn square(f: char, r: char) -> Position {
    Position { x: Some(file_of(f)), y: Some(rank_of(r)) }
}

pub open spec fn file_only(f: char) -> Position {
    Position { x: Some(file_of(f)), y: None }
}

pub open spec fn rank_only(r: char) -> Position {
    Position { x: None, y: Some(rank_of(r)) }
}

pub open spec fn unspecified() -> Position {
    Position { x: None, y: None }
}

/// An ordinary move with no marks yet.
pub open spec fn normal(piece: Piece, src: Position, dst: Position, capture: bool) -> Move {
    Move {
        move_kind: MoveKind::Normal(src, dst),
        piece,
        promotion: None,
        annotation: None,
        check_type: None,
        is_capture: capture,
    }
}

// ----- the closing marks -----

/// An optional annotation: `Some(None)` for the empty text.
pub open spec fn annotation_of(t: Seq<char>) -> Option<Option<Annotation>> {
    if t.len() == 0 {
        Some(None)
    } else {
        match Annotation::from_text(t) {
            Some(a) => Some(Some(a)),
            None => None,
        }
    }
}

/// An optional check mark, then an optional annotation, making up all of `t`.
pub open spec fn marks_of(t: Seq<char>) -> Option<(Option<CheckType>, Option<Annotation>)> {
    if t.len() > 0 && CheckType::from_mark(t[0]) is Some {
        match annotation_of(t.drop_first()) {
            Some(a) => Some((CheckType::from_mark(t[0]), a)),
            None => None,
        }
    } else {
        match annotation_of(t) {
            Some(a) => Some((None, a)),
            None => None,
        }
    }
}

/// `m` with the closing marks `t`, if `t` is made of closing marks.
pub open spec fn finish(m: Move, t: Seq<char>) -> Option<Move> {
    match marks_of(t) {
        Some((c, a)) => Some(Move { check_type: c, annotation: a, ..m }),
        None => None,
    }
}

/// `m` with a promotion written `=P` or `P` at the start of `t`, then the closing marks.
pub open spec fn promote(m: Move, t: Seq<char>) -> Option<Move> {
    if t.len() >= 2 && t[0] == '=' && is_piece_letter(t[1]) {
        finish(Move { promotion: Piece::from_letter(t[1]), ..m }, t.skip(2))
    } else if t.len() >= 1 && is_piece_letter(t[0]) {
        finish(Move { promotion: Piece::from_letter(t[0]), ..m }, t.skip(1))
    } else {
        None
    }
}

/// `m` with an optional promotion, then the closing marks.
pub open spec fn maybe_promote(m: Move, t: Seq<char>) -> Option<Move> {
    if promote(m, t) is Some {
        promote(m, t)
    } else {
        finish(m, t)
    }
}

// ----- the shapes, in the order they are tried -----

/// `O-O` or `O-O-O`.
pub open spec fn castle_shape(s: Seq<char>) -> Option<Move> {
    let castle = |t: CastleType|
        Move {
            move_kind: MoveKind::Castle(t),
            piece: Piece::King,
            promotion: None,
            annotation: None,
            check_type: None,
            is_capture: false,
        };
    if s.len() >= 3 && s.take(3) == CastleType::Kingside.text() && finish(
        castle(CastleType::Kingside),
        s.skip(3),
    ) is Some {
        finish(castle(CastleType::Kingside), s.skip(3))
    } else if s.len() >= 5 && s.take(5) == CastleType::Queenside.text() {
        finish(castle(CastleType::Queenside), s.skip(5))
    } else {
        None
    }
}

/// `e4`
pub open spec fn pawn_push_shape(s: Seq<char>) -> Option<Move> {
    if s.len() >= 2 && is_file(s[0]) && is_rank(s[1]) {
        finish(normal(Piece::Pawn, unspecified(), square(s[0], s[1]), false), s.skip(2))
    } else {
        None
    }
}

/// `e2e4`
pub open spec fn pawn_long_shape(s: Seq<char>) -> Option<Move> {
    if s.len() >= 4 && is_file(s[0]) && is_rank(s[1]) && is_file(s[2]) && is_rank(s[3]) {
        finish(normal(Piece::Pawn, square(s[0], s[1]), square(s[2], s[3]), false), s.skip(4))
    } else {
        None
    }
}

/// `Qe4`
pub open spec fn piece_shape(s: Seq<char>) -> Option<Move> {
    if s.len() >= 3 && is_piece_letter(s[0]) && is_file(s[1]) && is_rank(s[2]) {
        finish(
            normal(Piece::from_letter(s[0])->0, unspecified(), square(s[1], s[2]), false),
            s.skip(3),
        )
    } else {
        None
    }
}

/// `Qbe4`
pub open spec fn piece_file_shape(s: Seq<char>) -> Option<Move> {
    if s.len() >= 4 && is_piece_letter(s[0]) && is_file(s[1]) && is_file(s[2]) && is_rank(s[3]) {
        finish(
            normal(Piece::from_letter(s[0])->0, file_only(s[1]), square(s[2], s[3]), false),
            s.skip(4),
        )
    } else {
        None
    }
}

/// `Q1e4`
pub open spec fn piece_rank_shape(s: Seq<char>) -> Option<Move> {
    if s.len() >= 4 && is_piece_letter(s[0]) && is_rank(s[1]) && is_file(s[2]) && is_rank(s[3]) {
        finish(
            normal(Piece::from_letter(s[0])->0, rank_only(s[1]), square(s[2], s[3]), false),
            s.skip(4),
        )
    } else {
        None
    }
}

/// `Qb1e4`
pub open spec fn piece_long_shape(s: Seq<char>) -> Option<Move> {
    if s.len() >= 5 && is_piece_letter(s[0]) && is_file(s[1]) && is_rank(s[2]) && is_file(s[3])
        && is_rank(s[4]) {
        finish(
            normal(Piece::from_letter(s[0])->0, square(s[1], s[2]), square(s[3], s[4]), false),
            s.skip(5),
        )
    } else {
        None
    }
}

/// `exd4`, `exd8=Q`
pub open spec fn pawn_capture_shape(s: Seq<char>) -> Option<Move> {
    if s.len() >= 4 && is_file(s[0]) && s[1] == 'x' && is_file(s[2]) && is_rank(s[3]) {
        maybe_promote(normal(Piece::Pawn, file_only(s[0]), square(s[2], s[3]), true), s.skip(4))
    } else {
        None
    }
}

/// `e3xd4`, `e7xd8=Q`
pub open spec fn pawn_capture_long_shape(s: Seq<char>) -> Option<Move> {
    if s.len() >= 5 && is_file(s[0]) && is_rank(s[1]) && s[2] == 'x' && is_file(s[3]) && is_rank(
        s[4],
    ) {
        maybe_promote(
            normal(Piece::Pawn, square(s[0], s[1]), square(s[3], s[4]), true),
            s.skip(5),
        )
    } else {
        None
    }
}

/// `Rxh3`
pub open spec fn piece_capture_shape(s: Seq<char>) -> Option<Move> {
    if s.len() >= 4 && is_piece_letter(s[0]) && s[1] == 'x' && is_file(s[2]) && is_rank(s[3]) {
        finish(
            normal(Piece::from_letter(s[0])->0, unspecified(), square(s[2], s[3]), true),
            s.skip(4),
        )
    } else {
        None
    }
}

/// `Rexh3`
pub open spec fn piece_capture_file_shape(s: Seq<char>) -> Option<Move> {
    if s.len() >= 5 && is_piece_letter(s[0]) && is_file(s[1]) && s[2] == 'x' && is_file(s[3])
        && is_rank(s[4]) {
        finish(
            normal(Piece::from_letter(s[0])->0, file_only(s[1]), square(s[3], s[4]), true),
            s.skip(5),
        )
    } else {
        None
    }
}

/// `R1xh3`
pub open spec fn piece_capture_rank_shape(s: Seq<char>) -> Option<Move> {
    if s.len() >= 5 && is_piece_letter(s[0]) && is_rank(s[1]) && s[2] == 'x' && is_file(s[3])
        && is_rank(s[4]) {
        finish(
            normal(Piece::from_letter(s[0])->0, rank_only(s[1]), square(s[3], s[4]), true),
            s.skip(5),
        )
    } else {
        None
    }
}

/// `Re3xh3`
pub open spec fn piece_capture_long_shape(s: Seq<char>) -> Option<Move> {
    if s.len() >= 6 && is_piece_letter(s[0]) && is_file(s[1]) && is_rank(s[2]) && s[3] == 'x'
        && is_file(s[4]) && is_rank(s[5]) {
        finish(
            normal(Piece::from_letter(s[0])->0, square(s[1], s[2]), square(s[4], s[5]), true),
            s.skip(6),
        )
    } else {
        None
    }
}

/// `d8=Q`, `d8Q`
pub open spec fn pawn_promotion_shape(s: Seq<char>) -> Option<Move> {
    if s.len() >= 2 && is_file(s[0]) && is_rank(s[1]) {
        promote(normal(Piece::Pawn, unspecified(), square(s[0], s[1]), false), s.skip(2))
    } else {
        None
    }
}

/// The move that `s` writes: the first shape, in table order, that matches all of `s`.
pub open spec fn parse_text(s: Seq<char>) -> Option<Move> {
    if castle_shape(s) is Some {
        castle_shape(s)
    } else if pawn_push_shape(s) is Some {
        pawn_push_shape(s)
    } else if pawn_long_shape(s) is Some {
        pawn_long_shape(s)
    } else if piece_shape(s) is Some {
        piece_shape(s)
    } else if piece_file_shape(s) is Some {
        piece_file_shape(s)
    } else if piece_rank_shape(s) is Some {
        piece_rank_shape(s)
    } else if piece_long_shape(s) is Some {
        piece_long_shape(s)
    } else if pawn_capture_shape(s) is Some {
        pawn_capture_shape(s)
    } else if pawn_capture_long_shape(s) is Some {
        pawn_capture_long_shape(s)
    } else if piece_capture_shape(s) is Some {
        piece_capture_shape(s)
    } else if piece_capture_file_shape(s) is Some {
        piece_capture_file_shape(s)
    } else if piece_capture_rank_shape(s) is Some {
        piece_capture_rank_shape(s)
    } else if piece_capture_long_shape(s) is Some {
        piece_capture_long_shape(s)
    } else {
        pawn_promotion_shape(s)
    }
}

// ----- reading -----

fn is_file_char(c: char) -> (r: bool)
    ensures
        r == is_file(c),
{
    'a' <= c && c <= 'h'
}

fn is_rank_char(c: char) -> (r: bool)
    ensures
        r == is_rank(c),
{
    '1' <= c && c <= '8'
}

fn file_coord(c: char) -> (r: usize)
    requires
        is_file(c),
    ensures
        r == file_of(c),
{
    (c as u32 - 'a' as u32) as usize
}

fn rank_coord(c: char) -> (r: usize)
    requires
        is_rank(c),
    ensures
        r == rank_of(c),
{
    (7 - (c as u32 - '1' as u32)) as usize
}

fn square_of(f: char, r: char) -> (p: Position)
    requires
        is_file(f),
        is_rank(r),
    ensures
        p == square(f, r),
{
    Position::of(file_coord(f), rank_coord(r))
}

/// Reads the closing marks that make up `s` from index `from` on.
fn read_marks(s: &str, n: usize, from: usize) -> (r: Option<(Option<CheckType>, Option<Annotation>)>)
    requires
        n == s@.len(),
        from <= n,
    ensures
        r == marks_of(s@.skip(from as int)),
{
    let ghost t = s@.skip(from as int);
    let mut i = from;
    let mut check: Option<CheckType> = None;
    if i < n {
        check = CheckType::of_mark(s.get_char(i));
        if check.is_some() {
            i = i + 1;
        }
    }
    proof {
        if check is Some {
            assert(s@.skip(i as int) =~= t.drop_first());
        } else {
            assert(s@.skip(i as int) =~= t);
        }
    }
    let ann: Option<Option<Annotation>> = if i == n {
        Some(None)
    } else if n - i > 2 {
        None
    } else {
        match Annotation::from_str(s.substring_char(i, n)) {
            Ok(a) => Some(Some(a)),
            Err(_) => None,
        }
    };
    match ann {
        Some(a) => Some((check, a)),
        None => None,
    }
}

/// `m` closed by the marks from index `from` on.
fn finish_at(s: &str, n: usize, from: usize, m: Move) -> (r: Option<Move>)
    requires
        n == s@.len(),
        from <= n,
    ensures
        r == finish(m, s@.skip(from as int)),
{
    match read_marks(s, n, from) {
        Some((c, a)) => Some(Move { check_type: c, annotation: a, ..m }),
        None => None,
    }
}

/// `m` with the promotion written at index `from`, then its closing marks.
fn promote_at(s: &str, n: usize, from: usize, m: Move) -> (r: Option<Move>)
    requires
        n == s@.len(),
        from <= n,
    ensures
        r == promote(m, s@.skip(from as int)),
{
    let ghost t = s@.skip(from as int);
    if n - from >= 2 && s.get_char(from) == '=' {
        if let Some(p) = Piece::of_letter(s.get_char(from + 1)) {
            assert(s@.skip(from + 2) =~= t.skip(2));
            return finish_at(s, n, from + 2, Move { promotion: Some(p), ..m });
        }
    }
    if n - from >= 1 {
        if let Some(p) = Piece::of_letter(s.get_char(from)) {
            assert(s@.skip(from + 1) =~= t.skip(1));
            return finish_at(s, n, from + 1, Move { promotion: Some(p), ..m });
        }
    }
    None
}

/// `m` with an optional promotion at index `from`, then its closing marks.
fn maybe_promote_at(s: &str, n: usize, from: usize, m: Move) -> (r: Option<Move>)
    requires
        n == s@.len(),
        from <= n,
    ensures
        r == maybe_promote(m, s@.skip(from as int)),
{
    let promoted = promote_at(s, n, from, m);
    if promoted.is_some() {
        promoted
    } else {
        finish_at(s, n, from, m)
    }
}

fn castle_move(t: CastleType) -> (m: Move)
    ensures
        m == (Move {
            move_kind: MoveKind::Castle(t),
            piece: Piece::King,
            promotion: None,
            annotation: None,
            check_type: None,
            is_capture: false,
        }),
{
    Move::new(Piece::King, MoveKind::Castle(t))
}

fn match_castle(s: &str, n: usize) -> (r: Option<Move>)
    requires
        n == s@.len(),
    ensures
        r == castle_shape(s@),
{
    if n >= 3 && s.get_char(0) == 'O' && s.get_char(1) == '-' && s.get_char(2) == 'O' {
        assert(s@.take(3) =~= CastleType::Kingside.text());
        let short = finish_at(s, n, 3, castle_move(CastleType::Kingside));
        if short.is_some() {
            return short;
        }
        if n >= 5 && s.get_char(3) == '-' && s.get_char(4) == 'O' {
            assert(s@.take(5) =~= CastleType::Queenside.text());
            return finish_at(s, n, 5, castle_move(CastleType::Queenside));
        }
    }
    None
}

fn match_pawn_push(s: &str, n: usize) -> (r: Option<Move>)
    requires
        n == s@.len(),
    ensures
        r == pawn_push_shape(s@),
{
    if n >= 2 {
        let (f, r) = (s.get_char(0), s.get_char(1));
        if is_file_char(f) && is_rank_char(r) {
            let m = Move::new(Piece::Pawn, MoveKind::Normal(Position::none(), square_of(f, r)));
            return finish_at(s, n, 2, m);
        }
    }
    None
}

fn match_pawn_long(s: &str, n: usize) -> (r: Option<Move>)
    requires
        n == s@.len(),
    ensures
        r == pawn_long_shape(s@),
{
    if n >= 4 {
        let (f0, r0, f1, r1) = (s.get_char(0), s.get_char(1), s.get_char(2), s.get_char(3));
        if is_file_char(f0) && is_rank_char(r0) && is_file_char(f1) && is_rank_char(r1) {
            let m = Move::new(
                Piece::Pawn,
                MoveKind::Normal(square_of(f0, r0), square_of(f1, r1)),
            );
            return finish_at(s, n, 4, m);
        }
    }
    None
}

fn match_piece(s: &str, n: usize) -> (r: Option<Move>)
    requires
        n == s@.len(),
    ensures
        r == piece_shape(s@),
{
    if n >= 3 {
        if let Some(p) = Piece::of_letter(s.get_char(0)) {
            let (f, r) = (s.get_char(1), s.get_char(2));
            if is_file_char(f) && is_rank_char(r) {
                let m = Move::new(p, MoveKind::Normal(Position::none(), square_of(f, r)));
                return finish_at(s, n, 3, m);
            }
        }
    }
    None
}

fn match_piece_file(s: &str, n: usize) -> (r: Option<Move>)
    requires
        n == s@.len(),
    ensures
        r == piece_file_shape(s@),
{
    if n >= 4 {
        if let Some(p) = Piece::of_letter(s.get_char(0)) {
            let (d, f, r) = (s.get_char(1), s.get_char(2), s.get_char(3));
            if is_file_char(d) && is_file_char(f) && is_rank_char(r) {
                let src = Position::new(Some(file_coord(d)), None);
                let m = Move::new(p, MoveKind::Normal(src, square_of(f, r)));
                return finish_at(s, n, 4, m);
            }
        }
    }
    None
}

fn match_piece_rank(s: &str, n: usize) -> (r: Option<Move>)
    requires
        n == s@.len(),
    ensures
        r == piece_rank_shape(s@),
{
    if n >= 4 {
        if let Some(p) = Piece::of_letter(s.get_char(0)) {
            let (d, f, r) = (s.get_char(1), s.get_char(2), s.get_char(3));
            if is_rank_char(d) && is_file_char(f) && is_rank_char(r) {
                let src = Position::new(None, Some(rank_coord(d)));
                let m = Move::new(p, MoveKind::Normal(src, square_of(f, r)));
                return finish_at(s, n, 4, m);
            }
        }
    }
    None
}

fn match_piece_long(s: &str, n: usize) -> (r: Option<Move>)
    requires
        n == s@.len(),
    ensures
        r == piece_long_shape(s@),
{
    if n >= 5 {
        if let Some(p) = Piece::of_letter(s.get_char(0)) {
            let (f0, r0, f1, r1) = (s.get_char(1), s.get_char(2), s.get_char(3), s.get_char(4));
            if is_file_char(f0) && is_rank_char(r0) && is_file_char(f1) && is_rank_char(r1) {
                let m = Move::new(p, MoveKind::Normal(square_of(f0, r0), square_of(f1, r1)));
                return finish_at(s, n, 5, m);
            }
        }
    }
    None
}

fn match_pawn_capture(s: &str, n: usize) -> (r: Option<Move>)
    requires
        n == s@.len(),
    ensures
        r == pawn_capture_shape(s@),
{
    if n >= 4 {
        let (d, x, f, r) = (s.get_char(0), s.get_char(1), s.get_char(2), s.get_char(3));
        if is_file_char(d) && x == 'x' && is_file_char(f) && is_rank_char(r) {
            let src = Position::new(Some(file_coord(d)), None);
            let mut m = Move::new(Piece::Pawn, MoveKind::Normal(src, square_of(f, r)));
            m.is_capture = true;
            return maybe_promote_at(s, n, 4, m);
        }
    }
    None
}

fn match_pawn_capture_long(s: &str, n: usize) -> (r: Option<Move>)
    requires
        n == s@.len(),
    ensures
        r == pawn_capture_long_shape(s@),
{
    if n >= 5 {
        let (f0, r0, x) = (s.get_char(0), s.get_char(1), s.get_char(2));
        let (f1, r1) = (s.get_char(3), s.get_char(4));
        if is_file_char(f0) && is_rank_char(r0) && x == 'x' && is_file_char(f1) && is_rank_char(
            r1,
        ) {
            let mut m = Move::new(
                Piece::Pawn,
                MoveKind::Normal(square_of(f0, r0), square_of(f1, r1)),
            );
            m.is_capture = true;
            return maybe_promote_at(s, n, 5, m);
        }
    }
    None
}

fn match_piece_capture(s: &str, n: usize) -> (r: Option<Move>)
    requires
        n == s@.len(),
    ensures
        r == piece_capture_shape(s@),
{
    if n >= 4 {
        if let Some(p) = Piece::of_letter(s.get_char(0)) {
            let (x, f, r) = (s.get_char(1), s.get_char(2), s.get_char(3));
            if x == 'x' && is_file_char(f) && is_rank_char(r) {
                let mut m = Move::new(p, MoveKind::Normal(Position::none(), square_of(f, r)));
                m.is_capture = true;
                return finish_at(s, n, 4, m);
            }
        }
    }
    None
}

fn match_piece_capture_file(s: &str, n: usize) -> (r: Option<Move>)
    requires
        n == s@.len(),
    ensures
        r == piece_capture_file_shape(s@),
{
    if n >= 5 {
        if let Some(p) = Piece::of_letter(s.get_char(0)) {
            let (d, x, f, r) = (s.get_char(1), s.get_char(2), s.get_char(3), s.get_char(4));
            if is_file_char(d) && x == 'x' && is_file_char(f) && is_rank_char(r) {
                let src = Position::new(Some(file_coord(d)), None);
                let mut m = Move::new(p, MoveKind::Normal(src, square_of(f, r)));
                m.is_capture = true;
                return finish_at(s, n, 5, m);
            }
        }
    }
    None
}

fn match_piece_capture_rank(s: &str, n: usize) -> (r: Option<Move>)
    requires
        n == s@.len(),
    ensures
        r == piece_capture_rank_shape(s@),
{
    if n >= 5 {
        if let Some(p) = Piece::of_letter(s.get_char(0)) {
            let (d, x, f, r) = (s.get_char(1), s.get_char(2), s.get_char(3), s.get_char(4));
            if is_rank_char(d) && x == 'x' && is_file_char(f) && is_rank_char(r) {
                let src = Position::new(None, Some(rank_coord(d)));
                let mut m = Move::new(p, MoveKind::Normal(src, square_of(f, r)));
                m.is_capture = true;
                return finish_at(s, n, 5, m);
            }
        }
    }
    None
}

fn match_piece_capture_long(s: &str, n: usize) -> (r: Option<Move>)
    requires
        n == s@.len(),
    ensures
        r == piece_capture_long_shape(s@),
{
    if n >= 6 {
        if let Some(p) = Piece::of_letter(s.get_char(0)) {
            let (f0, r0, x) = (s.get_char(1), s.get_char(2), s.get_char(3));
            let (f1, r1) = (s.get_char(4), s.get_char(5));
            if is_file_char(f0) && is_rank_char(r0) && x == 'x' && is_file_char(f1)
                && is_rank_char(r1) {
                let mut m = Move::new(p, MoveKind::Normal(square_of(f0, r0), square_of(f1, r1)));
                m.is_capture = true;
                return finish_at(s, n, 6, m);
            }
        }
    }
    None
}

fn match_pawn_promotion(s: &str, n: usize) -> (r: Option<Move>)
    requires
        n == s@.len(),
    ensures
        r == pawn_promotion_shape(s@),
{
    if n >= 2 {
        let (f, r) = (s.get_char(0), s.get_char(1));
        if is_file_char(f) && is_rank_char(r) {
            let m = Move::new(Piece::Pawn, MoveKind::Normal(Position::none(), square_of(f, r)));
            return promote_at(s, n, 2, m);
        }
    }
    None
}

impl Move {
    /// Reads a move from its text.
    ///
    /// The shapes are tried in table order and the first that matches the
    /// whole text gives the move; when none does, the error carries the text.
    pub fn parse(value: &str) -> (r: Result<Move, SanError>)
        ensures
            match parse_text(value@) {
                Some(m) => r == Ok::<Move, SanError>(m),
                None => r matches Err(SanError::ExhaustedGrammar(t)) && t@ == value@,
            },
            r matches Ok(m) ==> m.wf(),
    {
        proof {
            if parse_text(value@) is Some {
                lemma_round_trip(value@);
            }
        }
        let n = value.unicode_len();
        if let Some(m) = match_castle(value, n) {
            return Ok(m);
        }
        if let Some(m) = match_pawn_push(value, n) {
            return Ok(m);
        }
        if let Some(m) = match_pawn_long(value, n) {
            return Ok(m);
        }
        if let Some(m) = match_piece(value, n) {
            return Ok(m);
        }
        if let Some(m) = match_piece_file(value, n) {
            return Ok(m);
        }
        if let Some(m) = match_piece_rank(value, n) {
            return Ok(m);
        }
        if let Some(m) = match_piece_long(value, n) {
            return Ok(m);
        }
        if let Some(m) = match_pawn_capture(value, n) {
            return Ok(m);
        }
        if let Some(m) = match_pawn_capture_long(value, n) {
            return Ok(m);
        }
        if let Some(m) = match_piece_capture(value, n) {
            return Ok(m);
        }
        if let Some(m) = match_piece_capture_file(value, n) {
            return Ok(m);
        }
        if let Some(m) = match_piece_capture_rank(value, n) {
            return Ok(m);
        }
        if let Some(m) = match_piece_capture_long(value, n) {
            return Ok(m);
        }
        if let Some(m) = match_pawn_promotion(value, n) {
            return Ok(m);
        }
        Err(SanError::ExhaustedGrammar(value.to_owned()))
    }
}

} // verus!
