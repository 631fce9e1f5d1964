//! Parsing and compiling of chess moves written in standard algebraic notation
//! (and its long form), with every step stated and proved.

pub mod laws;
pub mod moves;
pub mod parser;
pub mod vocabulary;

pub use moves::{Move, MoveKind, Position};
pub use vocabulary::{Annotation, CastleType, CheckType, Piece, SanError, Vocabulary};
