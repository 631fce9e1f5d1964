//! What holds of reading and writing moves, over every input.

use vstd::prelude::*;
use crate::moves::{
    annotation_text, check_text, file_char, promotion_text, rank_char, Move, MoveKind, Position,
};
use crate::parser::{
    annotation_of, castle_shape, file_of, file_only, finish, is_file, is_piece_letter, is_rank,
    marks_of, normal, parse_text, pawn_capture_long_shape, pawn_capture_shape, pawn_long_shape,
    pawn_promotion_shape, pawn_push_shape, piece_capture_file_shape, piece_capture_long_shape,
    piece_capture_rank_shape, piece_capture_shape, piece_file_shape, piece_long_shape,
    piece_rank_shape, piece_shape, promote, rank_of, rank_only, square, unspecified,
};
use crate::vocabulary::{Annotation, CastleType, CheckType, Piece};

verus! {

/// A character that may close a move: a check mark or part of an annotation.
spec fn is_mark(c: char) -> bool {
    c == '+' || c == '#' || c == '?' || c == '!'
}

proof fn lemma_letter_text(c: char)
    requires
        is_piece_letter(c),
    ensures
        Piece::from_letter(c)->0.text() == seq![c],
{
}

proof fn lemma_file_round_trip(c: char)
    requires
        is_file(c),
    ensures
        file_of(c) < 8,
        file_char(file_of(c) as int) == c,
{
}

proof fn lemma_rank_round_trip(c: char)
    requires
        is_rank(c),
    ensures
        rank_of(c) < 8,
        rank_char(rank_of(c) as int) == c,
{
}

proof fn lemma_annotation_text(t: Seq<char>)
    requires
        annotation_of(t) is Some,
    ensures
        annotation_text(annotation_of(t)->0) == t,
        forall|j: int| 0 <= j < t.len() ==> is_mark(#[trigger] t[j]),
{
    if t.len() != 0 {
        let a = Annotation::from_text(t)->0;
        assert(a.text() == t);
        match a {
            Annotation::Blunder => assert(t =~= seq!['?', '?']),
            Annotation::Mistake => assert(t =~= seq!['?']),
            Annotation::Interesting => assert(t =~= seq!['?', '!']),
            Annotation::Good => assert(t =~= seq!['!']),
            Annotation::Brilliant => assert(t =~= seq!['!', '!']),
        }
    } else {
        assert(annotation_text(None) =~= t);
    }
}

/// The closing marks read from `t` write `t` back, and are all marks.
proof fn lemma_marks_text(t: Seq<char>)
    requires
        marks_of(t) is Some,
    ensures
        marks_of(t) matches Some((c, a)) && check_text(c) + annotation_text(a) == t,
        forall|j: int| 0 <= j < t.len() ==> is_mark(#[trigger] t[j]),
{
    if t.len() > 0 && CheckType::from_mark(t[0]) is Some {
        let u = t.drop_first();
        lemma_annotation_text(u);
        assert(check_text(CheckType::from_mark(t[0])) =~= seq![t[0]]);
        assert(seq![t[0]] + u =~= t);
        assert forall|j: int| 0 <= j < t.len() implies is_mark(#[trigger] t[j]) by {
            if j > 0 {
                assert(t[j] == u[j - 1]);
            }
        }
    } else {
        lemma_annotation_text(t);
        assert(check_text(None) + t =~= t);
    }
}

/// Any file letter followed by any rank digit reads as a pawn moving to that
/// square (file `f - 'a'`, rank `8 - r`), with its origin unspecified.
pub proof fn lemma_pawn_square(f: char, r: char)
    requires
        'a' <= f <= 'h',
        '1' <= r <= '8',
    ensures
        parse_text(seq![f, r]) == Some(
            Move {
                move_kind: MoveKind::Normal(
                    Position { x: None, y: None },
                    Position {
                        x: Some((f as int - 'a' as int) as usize),
                        y: Some((8 - (r as int - '0' as int)) as usize),
                    },
                ),
                piece: Piece::Pawn,
                promotion: None,
                annotation: None,
                check_type: None,
                is_capture: false,
            },
        ),
{
    let s = seq![f, r];
    assert(s.skip(2) =~= Seq::<char>::empty());
    assert(marks_of(s.skip(2)) == Some((None::<CheckType>, None::<Annotation>)));
}

/// A piece letter followed by a square reads as that piece moving to the square
/// from an unspecified origin: never as a capture or a disambiguated move.
pub proof fn lemma_piece_to_square(p: char, f: char, r: char)
    requires
        is_piece_letter(p),
        is_file(f),
        is_rank(r),
    ensures
        parse_text(seq![p, f, r]) == Some(
            normal(Piece::from_letter(p)->0, unspecified(), square(f, r), false),
        ),
{
    let s = seq![p, f, r];
    assert(s.skip(3) =~= Seq::<char>::empty());
    assert(marks_of(s.skip(3)) == Some((None::<CheckType>, None::<Annotation>)));
}

/// No `x` stands in `s` when none stands before `k` and closing marks make up the rest.
proof fn lemma_no_x(s: Seq<char>, k: int)
    requires
        0 <= k <= s.len(),
        forall|i: int| 0 <= i < k ==> s[i] != 'x',
        marks_of(s.skip(k)) is Some,
    ensures
        !s.contains('x'),
{
    let t = s.skip(k);
    lemma_marks_text(t);
    assert forall|i: int| 0 <= i < s.len() implies s[i] != 'x' by {
        if i >= k {
            assert(s[i] == t[i - k]);
        }
    }
}

/// No `x` stands in `s` when none stands before `k` and a promotion with its
/// closing marks makes up the rest.
proof fn lemma_no_x_promoted(s: Seq<char>, k: int, m: Move)
    requires
        0 <= k <= s.len(),
        forall|i: int| 0 <= i < k ==> s[i] != 'x',
        promote(m, s.skip(k)) is Some,
    ensures
        !s.contains('x'),
{
    let t = s.skip(k);
    if t.len() >= 2 && t[0] == '=' && is_piece_letter(t[1]) {
        assert(s.skip(k + 2) =~= t.skip(2));
        assert(s[k] == t[0] && s[k + 1] == t[1]);
        lemma_no_x(s, k + 2);
    } else {
        assert(s.skip(k + 1) =~= t.skip(1));
        assert(s[k] == t[0]);
        lemma_no_x(s, k + 1);
    }
}

/// A move read from text is a capture exactly when the text holds an `x`.
pub proof fn lemma_capture_iff_x(s: Seq<char>)
    requires
        parse_text(s) is Some,
    ensures
        parse_text(s)->0.is_capture <==> s.contains('x'),
{
    if castle_shape(s) is Some {
        if s.len() >= 3 && s.take(3) == seq!['O', '-', 'O'] && finish(
            parse_text(s)->0,
            s.skip(3),
        ) is Some {
            assert(s[0] == s.take(3)[0] && s[1] == s.take(3)[1] && s[2] == s.take(3)[2]);
            lemma_no_x(s, 3);
        } else {
            assert(s.take(5) == seq!['O', '-', 'O', '-', 'O']);
            assert(s[0] == s.take(5)[0] && s[1] == s.take(5)[1] && s[2] == s.take(5)[2]);
            assert(s[3] == s.take(5)[3] && s[4] == s.take(5)[4]);
            lemma_no_x(s, 5);
        }
    } else if pawn_push_shape(s) is Some {
        lemma_no_x(s, 2);
    } else if pawn_long_shape(s) is Some {
        lemma_no_x(s, 4);
    } else if piece_shape(s) is Some {
        lemma_no_x(s, 3);
    } else if piece_file_shape(s) is Some {
        lemma_no_x(s, 4);
    } else if piece_rank_shape(s) is Some {
        lemma_no_x(s, 4);
    } else if piece_long_shape(s) is Some {
        lemma_no_x(s, 5);
    } else if pawn_capture_shape(s) is Some || piece_capture_shape(s) is Some {
        assert(s[1] == 'x');
    } else if pawn_capture_long_shape(s) is Some || piece_capture_file_shape(s) is Some
        || piece_capture_rank_shape(s) is Some {
        assert(s[2] == 'x');
    } else if piece_capture_long_shape(s) is Some {
        assert(s[3] == 'x');
    } else {
        lemma_no_x_promoted(s, 2, normal(Piece::Pawn, unspecified(), square(s[0], s[1]), false));
    }
}

/// A closing run that starts with anything but a mark is no closing run.
proof fn lemma_not_marks(t: Seq<char>)
    requires
        t.len() > 0,
        !is_mark(t[0]),
    ensures
        marks_of(t) is None,
{
    if marks_of(t) is Some {
        lemma_marks_text(t);
    }
}

proof fn lemma_square_text(f: char, r: char)
    requires
        is_file(f),
        is_rank(r),
    ensures
        square(f, r).wf(),
        square(f, r).text() == seq![f, r],
        file_only(f).wf(),
        file_only(f).text() == seq![f],
        rank_only(r).wf(),
        rank_only(r).text() == seq![r],
        unspecified().wf(),
        unspecified().text() == Seq::<char>::empty(),
{
    lemma_file_round_trip(f);
    lemma_rank_round_trip(r);
    assert(square(f, r).text() =~= seq![f, r]);
    assert(file_only(f).text() =~= seq![f]);
    assert(rank_only(r).text() =~= seq![r]);
    assert(unspecified().text() =~= Seq::<char>::empty());
}

/// A move whose body and promotion are written by the first `k` characters,
/// closed by the marks after them, writes `s` back.
proof fn lemma_finish_text(base: Move, s: Seq<char>, k: int)
    requires
        0 <= k <= s.len(),
        base.body_text() + promotion_text(base.promotion) == s.take(k),
        finish(base, s.skip(k)) is Some,
    ensures
        finish(base, s.skip(k))->0.text() == s,
{
    let t = s.skip(k);
    lemma_marks_text(t);
    let m = finish(base, t)->0;
    assert(m.body_text() == base.body_text());
    assert(s.take(k) + t =~= s);
    assert(m.text() =~= s.take(k) + t);
}

/// The promoted move that a promotion written at `k` gives.
spec fn promoted_at(base: Move, s: Seq<char>, k: int) -> Move {
    if s[k] == '=' {
        Move { promotion: Piece::from_letter(s[k + 1]), ..base }
    } else {
        Move { promotion: Piece::from_letter(s[k]), ..base }
    }
}

/// Where the promotion is written, and what is read from it.
proof fn lemma_promote_cases(base: Move, s: Seq<char>, k: int)
    requires
        0 <= k <= s.len(),
        promote(base, s.skip(k)) is Some,
    ensures
        s[k] == '=' ==> k + 2 <= s.len() && is_piece_letter(s[k + 1]) && promote(base, s.skip(k))
            == finish(promoted_at(base, s, k), s.skip(k + 2)),
        s[k] != '=' ==> k + 1 <= s.len() && is_piece_letter(s[k]) && promote(base, s.skip(k))
            == finish(promoted_at(base, s, k), s.skip(k + 1)),
{
    let t = s.skip(k);
    assert(t[0] == s[k]);
    if t.len() >= 2 && t[0] == '=' && is_piece_letter(t[1]) {
        assert(t[1] == s[k + 1]);
        assert(t.skip(2) =~= s.skip(k + 2));
    } else {
        assert(t.skip(1) =~= s.skip(k + 1));
    }
}

/// A promotion written with `=` writes `s` back.
proof fn lemma_promote_with_sign(base: Move, s: Seq<char>, k: int)
    requires
        0 <= k < s.len(),
        s[k] == '=',
        base.promotion is None,
        base.body_text() == s.take(k),
        promote(base, s.skip(k)) is Some,
    ensures
        promote(base, s.skip(k))->0.text() == s,
        promote(base, s.skip(k))->0.promotion is Some,
{
    lemma_promote_cases(base, s, k);
    let pm = promoted_at(base, s, k);
    lemma_letter_text(s[k + 1]);
    assert(pm.body_text() + promotion_text(pm.promotion) =~= s.take(k + 2));
    lemma_finish_text(pm, s, k + 2);
}

/// A promotion written without `=` writes `s` with the `=` put in; no `=`
/// and no `x` stands from `k` on.
proof fn lemma_promote_bare(base: Move, s: Seq<char>, k: int)
    requires
        0 <= k < s.len(),
        s[k] != '=',
        base.promotion is None,
        base.body_text() == s.take(k),
        promote(base, s.skip(k)) is Some,
    ensures
        promote(base, s.skip(k))->0.text() == s.take(k) + seq!['='] + s.skip(k),
        promote(base, s.skip(k))->0.promotion is Some,
        forall|i: int| k <= i < s.len() ==> #[trigger] s[i] != '=' && s[i] != 'x',
{
    lemma_promote_cases(base, s, k);
    let pm = promoted_at(base, s, k);
    let c = s.take(k) + seq!['='] + s.skip(k);
    lemma_letter_text(s[k]);
    assert(pm.body_text() + promotion_text(pm.promotion) =~= c.take(k + 2));
    assert(c.skip(k + 2) =~= s.skip(k + 1));
    lemma_finish_text(pm, c, k + 2);
    let u = s.skip(k + 1);
    lemma_marks_text(u);
    assert forall|i: int| k <= i < s.len() implies #[trigger] s[i] != '=' && s[i] != 'x' by {
        if i > k {
            assert(s[i] == u[i - k - 1]);
        }
    }
}

/// Castling and pawn moves without capture write their text back.
proof fn lemma_plain_pawn_text(s: Seq<char>)
    ensures
        castle_shape(s) is Some ==> castle_shape(s)->0.wf() && castle_shape(s)->0.text() == s,
        pawn_push_shape(s) is Some ==> pawn_push_shape(s)->0.wf() && pawn_push_shape(s)->0.text()
            == s,
        pawn_long_shape(s) is Some ==> pawn_long_shape(s)->0.wf() && pawn_long_shape(s)->0.text()
            == s,
{
    if castle_shape(s) is Some {
        let king = |t: CastleType|
            Move {
                move_kind: MoveKind::Castle(t),
                piece: Piece::King,
                promotion: None,
                annotation: None,
                check_type: None,
                is_capture: false,
            };
        if s.len() >= 3 && s.take(3) == CastleType::Kingside.text() && finish(
            king(CastleType::Kingside),
            s.skip(3),
        ) is Some {
            let base = king(CastleType::Kingside);
            assert(base.body_text() + promotion_text(base.promotion) =~= s.take(3));
            lemma_finish_text(base, s, 3);
        } else {
            let base = king(CastleType::Queenside);
            assert(base.body_text() + promotion_text(base.promotion) =~= s.take(5));
            lemma_finish_text(base, s, 5);
        }
    }
    if pawn_push_shape(s) is Some {
        lemma_square_text(s[0], s[1]);
        let base = normal(Piece::Pawn, unspecified(), square(s[0], s[1]), false);
        assert(base.body_text() + promotion_text(base.promotion) =~= s.take(2));
        lemma_finish_text(base, s, 2);
    }
    if pawn_long_shape(s) is Some {
        lemma_square_text(s[0], s[1]);
        lemma_square_text(s[2], s[3]);
        let base = normal(Piece::Pawn, square(s[0], s[1]), square(s[2], s[3]), false);
        assert(base.body_text() + promotion_text(base.promotion) =~= s.take(4));
        lemma_finish_text(base, s, 4);
    }
}

/// Piece moves without capture write their text back.
proof fn lemma_piece_move_text(s: Seq<char>)
    ensures
        piece_shape(s) is Some ==> piece_shape(s)->0.wf() && piece_shape(s)->0.text() == s,
        piece_file_shape(s) is Some ==> piece_file_shape(s)->0.wf()
            && piece_file_shape(s)->0.text() == s,
        piece_rank_shape(s) is Some ==> piece_rank_shape(s)->0.wf()
            && piece_rank_shape(s)->0.text() == s,
        piece_long_shape(s) is Some ==> piece_long_shape(s)->0.wf()
            && piece_long_shape(s)->0.text() == s,
{
    if s.len() > 0 && is_piece_letter(s[0]) {
        let p = Piece::from_letter(s[0])->0;
        lemma_letter_text(s[0]);
        if piece_shape(s) is Some {
            lemma_square_text(s[1], s[2]);
            let base = normal(p, unspecified(), square(s[1], s[2]), false);
            assert(base.body_text() + promotion_text(base.promotion) =~= s.take(3));
            lemma_finish_text(base, s, 3);
        }
        if piece_file_shape(s) is Some {
            lemma_square_text(s[1], s[3]);
            lemma_square_text(s[2], s[3]);
            let base = normal(p, file_only(s[1]), square(s[2], s[3]), false);
            assert(base.body_text() + promotion_text(base.promotion) =~= s.take(4));
            lemma_finish_text(base, s, 4);
        }
        if piece_rank_shape(s) is Some {
            lemma_square_text(s[2], s[1]);
            lemma_square_text(s[2], s[3]);
            let base = normal(p, rank_only(s[1]), square(s[2], s[3]), false);
            assert(base.body_text() + promotion_text(base.promotion) =~= s.take(4));
            lemma_finish_text(base, s, 4);
        }
        if piece_long_shape(s) is Some {
            lemma_square_text(s[1], s[2]);
            lemma_square_text(s[3], s[4]);
            let base = normal(p, square(s[1], s[2]), square(s[3], s[4]), false);
            assert(base.body_text() + promotion_text(base.promotion) =~= s.take(5));
            lemma_finish_text(base, s, 5);
        }
    }
}

/// Piece captures write their text back.
proof fn lemma_piece_capture_text(s: Seq<char>)
    ensures
        piece_capture_shape(s) is Some ==> piece_capture_shape(s)->0.wf()
            && piece_capture_shape(s)->0.text() == s,
        piece_capture_file_shape(s) is Some ==> piece_capture_file_shape(s)->0.wf()
            && piece_capture_file_shape(s)->0.text() == s,
        piece_capture_rank_shape(s) is Some ==> piece_capture_rank_shape(s)->0.wf()
            && piece_capture_rank_shape(s)->0.text() == s,
        piece_capture_long_shape(s) is Some ==> piece_capture_long_shape(s)->0.wf()
            && piece_capture_long_shape(s)->0.text() == s,
{
    if s.len() > 0 && is_piece_letter(s[0]) {
        let p = Piece::from_letter(s[0])->0;
        lemma_letter_text(s[0]);
        if piece_capture_shape(s) is Some {
            lemma_square_text(s[2], s[3]);
            let base = normal(p, unspecified(), square(s[2], s[3]), true);
            assert(base.body_text() + promotion_text(base.promotion) =~= s.take(4));
            lemma_finish_text(base, s, 4);
        }
        if piece_capture_file_shape(s) is Some {
            lemma_square_text(s[1], s[4]);
            lemma_square_text(s[3], s[4]);
            let base = normal(p, file_only(s[1]), square(s[3], s[4]), true);
            assert(base.body_text() + promotion_text(base.promotion) =~= s.take(5));
            lemma_finish_text(base, s, 5);
        }
        if piece_capture_rank_shape(s) is Some {
            lemma_square_text(s[3], s[1]);
            lemma_square_text(s[3], s[4]);
            let base = normal(p, rank_only(s[1]), square(s[3], s[4]), true);
            assert(base.body_text() + promotion_text(base.promotion) =~= s.take(5));
            lemma_finish_text(base, s, 5);
        }
        if piece_capture_long_shape(s) is Some {
            lemma_square_text(s[1], s[2]);
            lemma_square_text(s[4], s[5]);
            let base = normal(p, square(s[1], s[2]), square(s[4], s[5]), true);
            assert(base.body_text() + promotion_text(base.promotion) =~= s.take(6));
            lemma_finish_text(base, s, 6);
        }
    }
}

/// `m`, read from `s`, is on the board and writes `s` back, or else it is a
/// promotion that `s` writes without any `=` and its own text reads as `m`.
spec fn reads_back(s: Seq<char>, m: Move) -> bool {
    &&& m.wf()
    &&& m.text() == s || (m.promotion is Some && !s.contains('=') && parse_text(m.text())
        == Some(m))
}

/// A pawn move whose body is the first `k` characters and which may carry a
/// promotion after them: what it writes, where the promotion has no `=`.
proof fn lemma_promotion_written(base: Move, s: Seq<char>, k: int, m: Move)
    requires
        0 <= k <= s.len(),
        base.promotion is None,
        base.body_text() == s.take(k),
        forall|i: int| 0 <= i < k ==> #[trigger] s[i] != '=',
        promote(base, s.skip(k)) == Some(m),
    ensures
        m.promotion is Some,
        m.text() == s || (!s.contains('=') && m.text() == s.take(k) + seq!['='] + s.skip(k)
            && promote(base, (s.take(k) + seq!['='] + s.skip(k)).skip(k)) == Some(m)),
{
    lemma_promote_cases(base, s, k);
    if s[k] == '=' {
        lemma_promote_with_sign(base, s, k);
    } else {
        lemma_promote_bare(base, s, k);
        let c = s.take(k) + seq!['='] + s.skip(k);
        assert(c.skip(k).skip(2) =~= s.skip(k + 1));
        assert(c.skip(k)[0] == '=' && c.skip(k)[1] == s[k]);
        assert(is_piece_letter(c.skip(k)[1]));
    }
}

/// `exd4`, `exd8=Q`, `exd8Q` read back.
proof fn lemma_pawn_capture_text(s: Seq<char>)
    requires
        pawn_capture_shape(s) is Some,
    ensures
        reads_back(s, pawn_capture_shape(s)->0),
{
    let m = pawn_capture_shape(s)->0;
    lemma_square_text(s[0], s[3]);
    lemma_square_text(s[2], s[3]);
    let base = normal(Piece::Pawn, file_only(s[0]), square(s[2], s[3]), true);
    assert(base.body_text() + promotion_text(base.promotion) =~= s.take(4));
    if promote(base, s.skip(4)) is Some {
        lemma_promotion_written(base, s, 4, m);
        if m.text() != s {
            let c = s.take(4) + seq!['='] + s.skip(4);
            assert(c[0] == s[0] && c[1] == s[1] && c[2] == s[2] && c[3] == s[3]);
            assert(c.take(3)[0] == c[0]);
            assert(c.take(5)[0] == c[0]);
            assert(pawn_capture_shape(c) == Some(m));
        }
    } else {
        lemma_finish_text(base, s, 4);
    }
}

/// `e3xd4`, `e7xd8=Q`, `e7xd8Q` read back.
proof fn lemma_pawn_capture_long_text(s: Seq<char>)
    requires
        pawn_capture_long_shape(s) is Some,
    ensures
        reads_back(s, pawn_capture_long_shape(s)->0),
{
    let m = pawn_capture_long_shape(s)->0;
    lemma_square_text(s[0], s[1]);
    lemma_square_text(s[3], s[4]);
    let base = normal(Piece::Pawn, square(s[0], s[1]), square(s[3], s[4]), true);
    assert(base.body_text() + promotion_text(base.promotion) =~= s.take(5));
    if promote(base, s.skip(5)) is Some {
        lemma_promotion_written(base, s, 5, m);
        if m.text() != s {
            let c = s.take(5) + seq!['='] + s.skip(5);
            assert(c[0] == s[0] && c[1] == s[1] && c[2] == s[2] && c[3] == s[3] && c[4] == s[4]);
            assert(c.take(3)[0] == c[0]);
            assert(c.take(5)[0] == c[0]);
            assert(c.skip(2)[0] == 'x');
            lemma_not_marks(c.skip(2));
            assert(pawn_capture_long_shape(c) == Some(m));
        }
    } else {
        lemma_finish_text(base, s, 5);
    }
}

/// `d8=Q`, `d8Q` read back.
proof fn lemma_pawn_promotion_text(s: Seq<char>)
    requires
        pawn_promotion_shape(s) is Some,
    ensures
        reads_back(s, pawn_promotion_shape(s)->0),
{
    let m = pawn_promotion_shape(s)->0;
    lemma_square_text(s[0], s[1]);
    let base = normal(Piece::Pawn, unspecified(), square(s[0], s[1]), false);
    assert(base.body_text() + promotion_text(base.promotion) =~= s.take(2));
    lemma_promotion_written(base, s, 2, m);
    if m.text() != s {
        let c = s.take(2) + seq!['='] + s.skip(2);
        assert(c[0] == s[0] && c[1] == s[1] && c[2] == '=');
        assert(c.take(3)[0] == c[0]);
        if c.len() >= 5 {
            assert(c.take(5)[0] == c[0]);
        }
        assert(c.skip(2)[0] == '=');
        lemma_not_marks(c.skip(2));
        assert(pawn_promotion_shape(c) == Some(m));
    }
}

/// Reading a text and writing the move back gives a text that reads as the
/// same move: the same piece, origin (partial or full, as given), destination,
/// capture, promotion, check mark and annotation. Where the text writes its
/// promotion with `=`, or has none, the text written is the text read.
pub proof fn lemma_round_trip(s: Seq<char>)
    requires
        parse_text(s) is Some,
    ensures
        parse_text(s)->0.wf(),
        parse_text(parse_text(s)->0.text()) == parse_text(s),
        parse_text(s)->0.promotion is None || s.contains('=') ==> parse_text(s)->0.text() == s,
{
    let m = parse_text(s)->0;
    lemma_plain_pawn_text(s);
    lemma_piece_move_text(s);
    lemma_piece_capture_text(s);
    if castle_shape(s) is Some || pawn_push_shape(s) is Some || pawn_long_shape(s) is Some
        || piece_shape(s) is Some || piece_file_shape(s) is Some || piece_rank_shape(s) is Some
        || piece_long_shape(s) is Some {
    } else if pawn_capture_shape(s) is Some {
        lemma_pawn_capture_text(s);
    } else if pawn_capture_long_shape(s) is Some {
        lemma_pawn_capture_long_text(s);
    } else if piece_capture_shape(s) is Some || piece_capture_file_shape(s) is Some
        || piece_capture_rank_shape(s) is Some || piece_capture_long_shape(s) is Some {
    } else {
        lemma_pawn_promotion_text(s);
    }
    assert(reads_back(s, m));
}

/// Each word list maps both ways: a word's text reads back as the word, and a
/// text that reads as a word is that word's text.
pub proof fn lemma_vocabulary_round_trip(
    p: Piece,
    a: Annotation,
    c: CastleType,
    k: CheckType,
    t: Seq<char>,
)
    ensures
        Piece::from_text(p.text()) == Some(p),
        Annotation::from_text(a.text()) == Some(a),
        CastleType::from_text(c.text()) == Some(c),
        CheckType::from_text(k.text()) == Some(k),
        Piece::from_text(t) matches Some(q) ==> q.text() == t,
        Annotation::from_text(t) matches Some(b) ==> b.text() == t,
        CastleType::from_text(t) matches Some(d) ==> d.text() == t,
        CheckType::from_text(t) matches Some(l) ==> l.text() == t,
{
    assert(Annotation::Mistake.text().len() == 1 && Annotation::Good.text().len() == 1);
    assert(Annotation::Blunder.text().len() == 2 && Annotation::Interesting.text().len() == 2);
    assert(Annotation::Brilliant.text().len() == 2);
    assert(Annotation::Mistake.text()[0] != Annotation::Good.text()[0]);
    assert(Annotation::Interesting.text()[1] != Annotation::Blunder.text()[1]);
    assert(Annotation::Brilliant.text()[0] != Annotation::Blunder.text()[0]);
    assert(Annotation::Brilliant.text()[0] != Annotation::Interesting.text()[0]);
    assert(CastleType::Kingside.text().len() != CastleType::Queenside.text().len());
    if t.len() == 1 {
        assert(t =~= seq![t[0]]);
    }
    if t.len() == 0 {
        assert(t =~= Seq::<char>::empty());
    }
}

} // verus!
