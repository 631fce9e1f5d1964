//! The closed word lists of the notation: pieces, castle sides, check markers
//! and move-quality annotations, each with a fixed text in both directions.

use vstd::prelude::*;

verus! {

/// Which word list a token was looked up in.
#[derive(Debug, Clone, Copy, PartialEq, Eq, Structural)]
pub enum Vocabulary {
    Piece,
    Annotation,
    CastleType,
    CheckType,
}

/// Why a move text could not be read.
#[derive(Debug, PartialEq, Eq)]
pub enum SanError {
    /// A token is not a word of the given list; the token is carried as it was.
    InvalidToken(Vocabulary, String),
    /// No notation shape matches the whole input; the input is carried as it was.
    ExhaustedGrammar(String),
}

/// True of the error that `value` is not a word of `vocabulary`.
pub open spec fn is_invalid_token(e: SanError, vocabulary: Vocabulary, value: Seq<char>) -> bool {
    &&& e matches SanError::InvalidToken(v, t)
    &&& v == vocabulary
    &&& t@ == value
}

#[derive(Debug, Clone, Copy, PartialEq, Eq, Structural)]
pub enum Piece {
    Pawn,
    Bishop,
    King,
    Knight,
    Queen,
    Rook,
}

impl Piece {
    /// The letter of a piece; a pawn has none.
    pub open spec fn text(self) -> Seq<char> {
        match self {
            Piece::Pawn => seq![],
            Piece::Bishop => seq!['B'],
            Piece::King => seq!['K'],
            Piece::Knight => seq!['N'],
            Piece::Queen => seq!['Q'],
            Piece::Rook => seq!['R'],
        }
    }

    /// The piece that a one-letter code names.
    pub open spec fn from_letter(c: char) -> Option<Piece> {
        if c == 'B' {
            Some(Piece::Bishop)
        } else if c == 'K' {
            Some(Piece::King)
        } else if c == 'N' {
            Some(Piece::Knight)
        } else if c == 'Q' {
            Some(Piece::Queen)
        } else if c == 'R' {
            Some(Piece::Rook)
        } else {
            None
        }
    }

    /// The piece whose text is `s`: the empty text is a pawn.
    pub open spec fn from_text(s: Seq<char>) -> Option<Piece> {
        if s.len() == 0 {
            Some(Piece::Pawn)
        } else if s.len() == 1 {
            Piece::from_letter(s[0])
        } else {
            None
        }
    }

    pub fn to_str(&self) -> (r: &'static str)
        ensures
            r@ == self.text(),
    {
        match self {
            Piece::Pawn => {
                proof { reveal_strlit(""); }
                ""
            },
            Piece::Bishop => {
                proof { reveal_strlit("B"); }
                "B"
            },
            Piece::King => {
                proof { reveal_strlit("K"); }
                "K"
            },
            Piece::Knight => {
                proof { reveal_strlit("N"); }
                "N"
            },
            Piece::Queen => {
                proof { reveal_strlit("Q"); }
                "Q"
            },
            Piece::Rook => {
                proof { reveal_strlit("R"); }
                "R"
            },
        }
    }

    /// The piece named by a one-letter code, if any.
    pub fn of_letter(c: char) -> (r: Option<Piece>)
        ensures
            r == Piece::from_letter(c),
    {
        if c == 'B' {
            Some(Piece::Bishop)
        } else if c == 'K' {
            Some(Piece::King)
        } else if c == 'N' {
            Some(Piece::Knight)
        } else if c == 'Q' {
            Some(Piece::Queen)
        } else if c == 'R' {
            Some(Piece::Rook)
        } else {
            None
        }
    }

    pub fn from_str(value: &str) -> (r: Result<Piece, SanError>)
        ensures
            match Piece::from_text(value@) {
                Some(p) => r == Ok::<Piece, SanError>(p),
                None => r matches Err(e) && is_invalid_token(e, Vocabulary::Piece, value@),
            },
    {
        let n = value.unicode_len();
        let found = if n == 0 {
            Some(Piece::Pawn)
        } else if n == 1 {
            Piece::of_letter(value.get_char(0))
        } else {
            None
        };
        match found {
            Some(p) => Ok(p),
            None => Err(SanError::InvalidToken(Vocabulary::Piece, value.to_owned())),
        }
    }
}

/// A move-quality mark written after the move.
#[derive(Debug, Clone, Copy, PartialEq, Eq, Structural)]
pub enum Annotation {
    Blunder,
    Mistake,
    Interesting,
    Good,
    Brilliant,
}

impl Annotation {
    pub open spec fn text(self) -> Seq<char> {
        match self {
            Annotation::Blunder => seq!['?', '?'],
            Annotation::Mistake => seq!['?'],
            Annotation::Interesting => seq!['?', '!'],
            Annotation::Good => seq!['!'],
            Annotation::Brilliant => seq!['!', '!'],
        }
    }

    /// The annotation whose text is `s`.
    pub open spec fn from_text(s: Seq<char>) -> Option<Annotation> {
        if s == Annotation::Blunder.text() {
            Some(Annotation::Blunder)
        } else if s == Annotation::Mistake.text() {
            Some(Annotation::Mistake)
        } else if s == Annotation::Interesting.text() {
            Some(Annotation::Interesting)
        } else if s == Annotation::Good.text() {
            Some(Annotation::Good)
        } else if s == Annotation::Brilliant.text() {
            Some(Annotation::Brilliant)
        } else {
            None
        }
    }

    pub fn to_str(&self) -> (r: &'static str)
        ensures
            r@ == self.text(),
    {
        match self {
            Annotation::Blunder => {
                proof { reveal_strlit("??"); }
                "??"
            },
            Annotation::Mistake => {
                proof { reveal_strlit("?"); }
                "?"
            },
            Annotation::Interesting => {
                proof { reveal_strlit("?!"); }
                "?!"
            },
            Annotation::Good => {
                proof { reveal_strlit("!"); }
                "!"
            },
            Annotation::Brilliant => {
                proof { reveal_strlit("!!"); }
                "!!"
            },
        }
    }

    pub fn from_str(value: &str) -> (r: Result<Annotation, SanError>)
        ensures
            match Annotation::from_text(value@) {
                Some(a) => r == Ok::<Annotation, SanError>(a),
                None => r matches Err(e) && is_invalid_token(e, Vocabulary::Annotation, value@),
            },
    {
        let n = value.unicode_len();
        let found = if n == 1 {
            let c = value.get_char(0);
            proof {
                assert(value@ =~= seq![c]);
            }
            if c == '?' {
                Some(Annotation::Mistake)
            } else if c == '!' {
                Some(Annotation::Good)
            } else {
                None
            }
        } else if n == 2 {
            let c0 = value.get_char(0);
            let c1 = value.get_char(1);
            proof {
                assert(value@ =~= seq![c0, c1]);
            }
            if c0 == '?' && c1 == '?' {
                Some(Annotation::Blunder)
            } else if c0 == '?' && c1 == '!' {
                Some(Annotation::Interesting)
            } else if c0 == '!' && c1 == '!' {
                Some(Annotation::Brilliant)
            } else {
                None
            }
        } else {
            None
        };
        match found {
            Some(a) => Ok(a),
            None => Err(SanError::InvalidToken(Vocabulary::Annotation, value.to_owned())),
        }
    }
}

/// The side a king castles to.
#[derive(Debug, Clone, Copy, PartialEq, Eq, Structural)]
pub enum CastleType {
    Kingside,
    Queenside,
}

impl CastleType {
    pub open spec fn text(self) -> Seq<char> {
        match self {
            CastleType::Kingside => seq!['O', '-', 'O'],
            CastleType::Queenside => seq!['O', '-', 'O', '-', 'O'],
        }
    }

    /// The castle side whose text is `s`.
    pub open spec fn from_text(s: Seq<char>) -> Option<CastleType> {
        if s == CastleType::Kingside.text() {
            Some(CastleType::Kingside)
        } else if s == CastleType::Queenside.text() {
            Some(CastleType::Queenside)
        } else {
            None
        }
    }

    pub fn to_str(&self) -> (r: &'static str)
        ensures
            r@ == self.text(),
    {
        match self {
            CastleType::Kingside => {
                proof { reveal_strlit("O-O"); }
                "O-O"
            },
            CastleType::Queenside => {
                proof { reveal_strlit("O-O-O"); }
                "O-O-O"
            },
        }
    }

    pub fn from_str(value: &str) -> (r: Result<CastleType, SanError>)
        ensures
            match CastleType::from_text(value@) {
                Some(t) => r == Ok::<CastleType, SanError>(t),
                None => r matches Err(e) && is_invalid_token(e, Vocabulary::CastleType, value@),
            },
    {
        let n = value.unicode_len();
        let found = if n == 3 || n == 5 {
            let mut ok = true;
            let mut i: usize = 0;
            while i < n
                invariant
                    n == value@.len(),
                    i <= n,
                    ok == (forall|j: int| 0 <= j < i ==> value@[j] == (if j % 2 == 0 { 'O' } else { '-' })),
                decreases n - i,
            {
                let want = if i % 2 == 0 { 'O' } else { '-' };
                if value.get_char(i) != want {
                    ok = false;
                }
                i = i + 1;
            }
            if !ok {
                None
            } else if n == 3 {
                proof {
                    assert(value@ =~= CastleType::Kingside.text());
                }
                Some(CastleType::Kingside)
            } else {
                proof {
                    assert(value@ =~= CastleType::Queenside.text());
                }
                Some(CastleType::Queenside)
            }
        } else {
            None
        };
        match found {
            Some(t) => Ok(t),
            None => Err(SanError::InvalidToken(Vocabulary::CastleType, value.to_owned())),
        }
    }
}

/// The check or mate mark written after the move.
#[derive(Debug, Clone, Copy, PartialEq, Eq, Structural)]
pub enum CheckType {
    Check,
    Mate,
}

impl CheckType {
    /// The one-character mark of a check or a mate.
    pub open spec fn mark(self) -> char {
        match self {
            CheckType::Check => '+',
            CheckType::Mate => '#',
        }
    }

    pub open spec fn text(self) -> Seq<char> {
        seq![self.mark()]
    }

    /// The check type whose mark is `c`.
    pub open spec fn from_mark(c: char) -> Option<CheckType> {
        if c == '+' {
            Some(CheckType::Check)
        } else if c == '#' {
            Some(CheckType::Mate)
        } else {
            None
        }
    }

    /// The check type whose text is `s`.
    pub open spec fn from_text(s: Seq<char>) -> Option<CheckType> {
        if s.len() == 1 {
            CheckType::from_mark(s[0])
        } else {
            None
        }
    }

    pub fn to_str(&self) -> (r: &'static str)
        ensures
            r@ == self.text(),
    {
        match self {
            CheckType::Check => {
                proof { reveal_strlit("+"); }
                "+"
            },
            CheckType::Mate => {
                proof { reveal_strlit("#"); }
                "#"
            },
        }
    }

    /// The check type marked by `c`, if any.
    pub fn of_mark(c: char) -> (r: Option<CheckType>)
        ensures
            r == CheckType::from_mark(c),
    {
        if c == '+' {
            Some(CheckType::Check)
        } else if c == '#' {
            Some(CheckType::Mate)
        } else {
            None
        }
    }

    pub fn from_str(value: &str) -> (r: Result<CheckType, SanError>)
        ensures
            match CheckType::from_text(value@) {
                Some(t) => r == Ok::<CheckType, SanError>(t),
                None => r matches Err(e) && is_invalid_token(e, Vocabulary::CheckType, value@),
            },
    {
        let found = if value.unicode_len() == 1 {
            CheckType::of_mark(value.get_char(0))
        } else {
            None
        };
        match found {
            Some(t) => Ok(t),
            None => Err(SanError::InvalidToken(Vocabulary::CheckType, value.to_owned())),
        }
    }
}

} // verus!
