//! A chess position, held as the FEN text that the engine writes for it.

use crate::engine::{
    advance, can_count, cell_glyph, clocks, engine_verdict, fen_after, fen_reading, glyph_at,
    has_move_shape, initial_fen, initial_position, is_movers_piece, is_position, move_clocks,
    moved_glyph, names_squares, read_fen, verdict, FenError, Verdict,
};
use crate::fen::{reads_white_to_move, white_to_move};
use vstd::prelude::*;
use vstd::string::StrSliceExecFns;
use vstd::utf8::is_ascii_chars;

verus! {

/// The character the engine shows for board square `(file, rank)` of the
/// position `fen`: a piece letter, upper case for White, or `.` where the
/// square is empty. Rank 0 is the first rank; the engine counts from the
/// eighth.
pub open spec fn glyph_on(fen: Seq<char>, file: int, rank: int) -> char {
    cell_glyph(fen, file, 7 - rank)
}

/// Whether the move text `uci` can be put to the engine in the position
/// `fen`: it is ASCII, and where it names two squares, the engine can count
/// the move. Only a move that would carry a full counter past its limit is
/// held back: a quiet move of a piece at a full half-move counter, and a
/// move of Black at a full move number.
pub open spec fn can_ask(fen: Seq<char>, uci: Seq<char>) -> bool {
    is_ascii_chars(uci) && (names_squares(uci) ==> can_count(fen, uci))
}

/// The position that the move `uci` leads to from `fen`, where the move can
/// be put to the engine and the engine finds it legal.
pub open spec fn successor(fen: Seq<char>, uci: Seq<char>) -> Option<Seq<char>> {
    if can_ask(fen, uci) {
        fen_after(fen, uci)
    } else {
        None
    }
}

/// A position that the engine accepts. Its view is its FEN text.
pub struct Position {
    fen: String,
}

impl View for Position {
    type V = Seq<char>;

    closed spec fn view(&self) -> Seq<char> {
        self.fen@
    }
}

impl Clone for Position {
    fn clone(&self) -> (copy: Self)
        ensures
            copy@ == self@,
    {
        proof {
            use_type_invariant(self);
        }
        Position { fen: self.fen.clone() }
    }
}

impl Position {
    #[verifier::type_invariant]
    closed spec fn well_formed(&self) -> bool {
        is_position(self.fen@)
    }

    /// The initial position of a game.
    pub fn initial() -> (start: Position)
        ensures
            start@ == initial_position(),
    {
        Position { fen: initial_fen() }
    }

    /// Reads a position from a FEN text. Succeeds exactly where the engine
    /// reads the text, and then holds the engine's own rendering of it.
    pub fn from_fen(text: &str) -> (reading: Result<Position, FenError>)
        ensures
            match fen_reading(text@) {
                Ok(fen) => reading matches Ok(position) && position@ == fen,
                Err(e) => reading matches Err(refusal) && refusal == e,
            },
    {
        match read_fen(text) {
            Ok(fen) => Ok(Position { fen }),
            Err(e) => Err(e),
        }
    }

    /// The FEN text of the position, which the engine reads back unchanged.
    pub fn as_fen(&self) -> (fen: String)
        ensures
            fen@ == self@,
            is_position(fen@),
    {
        proof {
            use_type_invariant(self);
        }
        self.fen.clone()
    }

    /// The character on board square `(file, rank)`.
    pub fn glyph(&self, file: u8, rank: u8) -> (glyph: char)
        requires
            file < 8,
            rank < 8,
        ensures
            glyph == glyph_on(self@, file as int, rank as int),
    {
        proof {
            use_type_invariant(self);
        }
        glyph_at(self.fen.as_str(), file, 7 - rank)
    }

    /// Whether White is to move: read off the second field of the FEN text.
    pub fn white_to_move(&self) -> (white: bool)
        ensures
            white == white_to_move(self@),
    {
        reads_white_to_move(self.fen.as_str())
    }

    /// Tells, in a position with a full counter, whether the engine can
    /// still count the move that `uci` names.
    fn counts(&self, uci: &str, half_moves: u16, moves: u16) -> (ok: bool)
        requires
            is_ascii_chars(uci@),
            (half_moves, moves) == move_clocks(self@),
        ensures
            ok == (names_squares(uci@) ==> can_count(self@, uci@)),
    {
        proof {
            use_type_invariant(self);
        }
        if uci.unicode_len() < 4 {
            return true;
        }
        let start_file = uci.get_ascii(0);
        let start_rank = uci.get_ascii(1);
        let end_file = uci.get_ascii(2);
        let end_rank = uci.get_ascii(3);
        let first_file = 'a' as u8;
        let last_file = 'h' as u8;
        let first_rank = '1' as u8;
        let last_rank = '8' as u8;
        if start_file < first_file || start_file > last_file || start_rank < first_rank
            || start_rank > last_rank || end_file < first_file || end_file > last_file
            || end_rank < first_rank || end_rank > last_rank {
            return true;
        }
        let fen = self.fen.as_str();
        let moved = glyph_at(fen, start_file - first_file, last_rank - start_rank);
        let target = glyph_at(fen, end_file - first_file, last_rank - end_rank);
        let resets = moved == 'P' || moved == 'p' || target != '.';
        (half_moves < u16::MAX || resets) && (moves < u16::MAX || reads_white_to_move(fen))
    }

    /// Plays the move that `uci` names, if the engine finds it legal here.
    /// A text that is not ASCII names no move. Where a counter of the engine
    /// is full, a move that would raise it is not played; a move that leaves
    /// it alone or starts it again is. The position itself stays as it is;
    /// the new position has the other side to move. A move is only ever
    /// played with a piece of the side to move.
    pub fn play(&self, uci: &str) -> (next: Option<Position>)
        ensures
            match successor(self@, uci@) {
                Some(fen) => next matches Some(position) && position@ == fen,
                None => next is None,
            },
            next matches Some(position) ==> white_to_move(position@) != white_to_move(self@),
            next is Some ==> has_move_shape(uci@),
            next is Some ==> is_movers_piece(self@, moved_glyph(self@, uci@)),
    {
        proof {
            use_type_invariant(self);
        }
        if !uci.is_ascii() {
            return None;
        }
        let (half_moves, moves) = clocks(self.fen.as_str());
        if (half_moves == u16::MAX || moves == u16::MAX) && !self.counts(uci, half_moves, moves) {
            return None;
        }
        match advance(self.fen.as_str(), uci) {
            Some(fen) => Some(Position { fen }),
            None => None,
        }
    }

    /// The engine's report on whether the game has ended in this position.
    pub fn outcome(&self) -> (report: Option<Verdict>)
        ensures
            report == engine_verdict(self@),
    {
        proof {
            use_type_invariant(self);
        }
        verdict(self.fen.as_str())
    }
}

} // verus!
