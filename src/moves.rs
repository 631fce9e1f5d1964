//! Squares, moves, and the assembly of a move back into text.

use vstd::prelude::*;
use crate::vocabulary::{Annotation, CastleType, CheckType, Piece};

verus! {

/// A square of the board, each axis optional.
///
/// `x` is the file (0 is file `a`), `y` the rank counted from the top
/// (0 is rank `8`, 7 is rank `1`). A missing axis was not given by the notation.
#[derive(Debug, Clone, Copy, PartialEq, Eq, Structural)]
pub struct Position {
    pub x: Option<usize>,
    pub y: Option<usize>,
}

/// The letter of file `x` (0 to 7 give `a` to `h`).
pub open spec fn file_char(x: int) -> char {
    (('a' as int) + x) as char
}

/// The digit of rank `y` counted from the top (0 to 7 give `8` to `1`).
pub open spec fn rank_char(y: int) -> char {
    (('8' as int) - y) as char
}

/// Both axes, where given, are on the board.
pub open spec fn axis_ok(a: Option<usize>) -> bool {
    a matches Some(v) ==> v < 8
}

impl Position {
    pub open spec fn wf(self) -> bool {
        axis_ok(self.x) && axis_ok(self.y)
    }

    /// The file letter if the file is given, then the rank digit if the rank is given.
    pub open spec fn text(self) -> Seq<char> {
        (match self.x {
            Some(x) => seq![file_char(x as int)],
            None => seq![],
        }) + (match self.y {
            Some(y) => seq![rank_char(y as int)],
            None => seq![],
        })
    }

    /// The origin that the notation leaves entirely unspecified.
    pub fn none() -> (r: Position)
        ensures
            r == (Position { x: None, y: None }),
    {
        Position { x: None, y: None }
    }

    pub fn new(x: Option<usize>, y: Option<usize>) -> (r: Position)
        ensures
            r == (Position { x, y }),
    {
        Position { x, y }
    }

    pub fn of(x: usize, y: usize) -> (r: Position)
        ensures
            r == (Position { x: Some(x), y: Some(y) }),
    {
        Position { x: Some(x), y: Some(y) }
    }

    pub fn to_string(&self) -> (r: String)
        requires
            self.wf(),
        ensures
            r@ == self.text(),
    {
        let mut res = String::new();
        if let Some(x) = self.x {
            res.append(file_str(x));
        }
        if let Some(y) = self.y {
            res.append(rank_str(y));
        }
        proof {
            assert(res@ =~= self.text());
        }
        res
    }
}

/// The file letter of `x` as text.
fn file_str(x: usize) -> (r: &'static str)
    requires
        x < 8,
    ensures
        r@ == seq![file_char(x as int)],
{
    match x {
        0 => {
            proof { reveal_strlit("a"); }
            "a"
        },
        1 => {
            proof { reveal_strlit("b"); }
            "b"
        },
        2 => {
            proof { reveal_strlit("c"); }
            "c"
        },
        3 => {
            proof { reveal_strlit("d"); }
            "d"
        },
        4 => {
            proof { reveal_strlit("e"); }
            "e"
        },
        5 => {
            proof { reveal_strlit("f"); }
            "f"
        },
        6 => {
            proof { reveal_strlit("g"); }
            "g"
        },
        _ => {
            proof { reveal_strlit("h"); }
            "h"
        },
    }
}

/// The rank digit of `y` as text.
fn rank_str(y: usize) -> (r: &'static str)
    requires
        y < 8,
    ensures
        r@ == seq![rank_char(y as int)],
{
    match y {
        0 => {
            proof { reveal_strlit("8"); }
            "8"
        },
        1 => {
            proof { reveal_strlit("7"); }
            "7"
        },
        2 => {
            proof { reveal_strlit("6"); }
            "6"
        },
        3 => {
            proof { reveal_strlit("5"); }
            "5"
        },
        4 => {
            proof { reveal_strlit("4"); }
            "4"
        },
        5 => {
            proof { reveal_strlit("3"); }
            "3"
        },
        6 => {
            proof { reveal_strlit("2"); }
            "2"
        },
        _ => {
            proof { reveal_strlit("1"); }
            "1"
        },
    }
}

/// What a move does: an ordinary move from an origin to a destination, or castling.
#[derive(Debug, Clone, Copy, PartialEq, Eq, Structural)]
pub enum MoveKind {
    /// Origin, then destination.
    Normal(Position, Position),
    Castle(CastleType),
}

/// One move as the notation records it.
#[derive(Debug, Clone, Copy, PartialEq, Eq, Structural)]
pub struct Move {
    pub move_kind: MoveKind,
    pub piece: Piece,
    pub promotion: Option<Piece>,
    pub annotation: Option<Annotation>,
    pub check_type: Option<CheckType>,
    pub is_capture: bool,
}

/// `=` and the piece letter of a promotion, if there is one.
pub open spec fn promotion_text(p: Option<Piece>) -> Seq<char> {
    match p {
        Some(p) => seq!['='] + p.text(),
        None => seq![],
    }
}

pub open spec fn check_text(c: Option<CheckType>) -> Seq<char> {
    match c {
        Some(c) => c.text(),
        None => seq![],
    }
}

pub open spec fn annotation_text(a: Option<Annotation>) -> Seq<char> {
    match a {
        Some(a) => a.text(),
        None => seq![],
    }
}

impl Move {
    /// Every square of an ordinary move is on the board where it is given.
    pub open spec fn wf(self) -> bool {
        self.move_kind matches MoveKind::Normal(src, dst) ==> src.wf() && dst.wf()
    }

    /// The part of the text that says what moves where.
    pub open spec fn body_text(self) -> Seq<char> {
        match self.move_kind {
            MoveKind::Castle(t) => t.text(),
            MoveKind::Normal(src, dst) => self.piece.text() + src.text() + (if self.is_capture {
                seq!['x']
            } else {
                seq![]
            }) + dst.text(),
        }
    }

    /// The check mark and the annotation that close the text.
    pub open spec fn suffix_text(self) -> Seq<char> {
        check_text(self.check_type) + annotation_text(self.annotation)
    }

    /// The canonical text of the move.
    pub open spec fn text(self) -> Seq<char> {
        self.body_text() + promotion_text(self.promotion) + self.suffix_text()
    }

    /// A move with nothing but its piece and kind: no promotion, annotation,
    /// check or capture.
    pub fn new(piece: Piece, move_kind: MoveKind) -> (r: Move)
        ensures
            r == (Move {
                move_kind,
                piece,
                promotion: None,
                annotation: None,
                check_type: None,
                is_capture: false,
            }),
    {
        Move {
            move_kind,
            piece,
            promotion: None,
            annotation: None,
            check_type: None,
            is_capture: false,
        }
    }

    /// The move written out as text.
    pub fn compile(&self) -> (r: String)
        requires
            self.wf(),
        ensures
            r@ == self.text(),
    {
        let mut res = self.body_string();
        if let Some(p) = &self.promotion {
            proof { reveal_strlit("="); }
            res.append("=");
            res.append(p.to_str());
        }
        let ghost head = res@;
        assert(head =~= self.body_text() + promotion_text(self.promotion));
        if let Some(c) = &self.check_type {
            res.append(c.to_str());
        }
        assert(res@ =~= head + check_text(self.check_type));
        if let Some(a) = &self.annotation {
            res.append(a.to_str());
        }
        assert(res@ =~= head + check_text(self.check_type) + annotation_text(self.annotation));
        assert(res@ =~= self.text());
        res
    }

    /// The part of the text that says what moves where.
    fn body_string(&self) -> (r: String)
        requires
            self.wf(),
        ensures
            r@ == self.body_text(),
    {
        match &self.move_kind {
            MoveKind::Castle(t) => String::from_str(t.to_str()),
            MoveKind::Normal(src, dst) => {
                let mut res = String::from_str(self.piece.to_str());
                let s = src.to_string();
                res.append(s.as_str());
                if self.is_capture {
                    proof { reveal_strlit("x"); }
                    res.append("x");
                }
                let d = dst.to_string();
                res.append(d.as_str());
                res
            },
        }
    }
}

} // verus!
