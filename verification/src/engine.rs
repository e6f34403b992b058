//! The boundary to the chess engine.
//!
//! A position crosses this boundary as its FEN text. Everything the engine
//! computes is stated here as a function of that text, and believed: the
//! functions of this file are not verified against the engine, and the rest
//! of the crate is verified against what they state.

use crate::fen::white_to_move;
use owlchess::board::FenParseError;
use owlchess::{Board, Color, DrawReason, File, Move, Outcome, Rank};
use vstd::prelude::*;

verus! {

/// Why a FEN text is refused.
#[derive(Clone, Copy, Debug, PartialEq, Eq, Structural)]
pub enum FenError {
    /// The text does not follow the notation.
    Malformed,
    /// The text follows the notation and describes no legal position.
    IllegalPosition,
}

/// How the engine says a game has ended.
#[derive(Clone, Copy, Debug, PartialEq, Eq, Structural)]
pub enum Verdict {
    /// White has won.
    WhiteWins,
    /// Black has won.
    BlackWins,
    /// A draw: the side to move has no legal move and is not in check.
    Stalemate,
    /// A draw: neither side has the material to give mate.
    InsufficientMaterial,
    /// A draw that is mandatory: 75 moves without a capture or a pawn move.
    SeventyFiveMoves,
    /// A draw that is mandatory: the position has occurred five times.
    FivefoldRepetition,
    /// A draw that may be claimed: 50 moves without a capture or a pawn move.
    FiftyMoves,
    /// A draw that may be claimed: the position has occurred three times.
    ThreefoldRepetition,
    /// A draw for a reason that has no name of its own here.
    OtherDraw,
}

/// What `Board::from_fen` makes of `text`: the FEN that the engine renders
/// for the board it read, or the reason for which it read none.
pub uninterp spec fn fen_reading(text: Seq<char>) -> Result<Seq<char>, FenError>;

/// The character that `Cell::as_char` gives for the square that `Board::get2`
/// finds at the engine's file and rank indices on the board of `fen`. The
/// engine counts ranks from the eighth: its rank index 0 is rank 8.
pub uninterp spec fn cell_glyph(fen: Seq<char>, file: int, rank_index: int) -> char;

/// The half-move counter and the move number that `Board::raw` shows on the
/// board of `fen`.
pub uninterp spec fn move_clocks(fen: Seq<char>) -> (u16, u16);

/// The FEN of the board that `Board::make_move` returns for the move that
/// `Move::from_uci_legal` reads from `uci` on the board of `fen`; `None`
/// where either of the two refuses.
pub uninterp spec fn fen_after(fen: Seq<char>, uci: Seq<char>) -> Option<Seq<char>>;

/// What `Board::calc_outcome` reports on the board of `fen`.
pub uninterp spec fn engine_verdict(fen: Seq<char>) -> Option<Verdict>;

/// A FEN text as the engine itself writes it: the engine reads it, and
/// renders what it read with the same text.
pub open spec fn is_position(fen: Seq<char>) -> bool {
    fen_reading(fen) == Ok::<Seq<char>, FenError>(fen)
}

/// The FEN of the initial position.
pub open spec fn initial_position() -> Seq<char> {
    "rnbqkbnr/pppppppp/8/8/8/8/PPPPPPPP/RNBQKBNR w KQkq - 0 1"@
}

/// The letters by which a move text names the piece a pawn promotes to.
pub open spec fn is_promotion_letter(c: char) -> bool {
    c == 'n' || c == 'b' || c == 'r' || c == 'q'
}

/// The lengths a move text can have, and the letter that a longer one ends in.
pub open spec fn has_move_shape(uci: Seq<char>) -> bool {
    uci.len() == 4 || (uci.len() == 5 && is_promotion_letter(uci[4]))
}

/// The letters that `Cell::as_char` gives to White's pieces.
pub open spec fn is_white_piece(glyph: char) -> bool {
    glyph == 'P' || glyph == 'K' || glyph == 'N' || glyph == 'B' || glyph == 'R' || glyph == 'Q'
}

/// The letters that `Cell::as_char` gives to Black's pieces.
pub open spec fn is_black_piece(glyph: char) -> bool {
    glyph == 'p' || glyph == 'k' || glyph == 'n' || glyph == 'b' || glyph == 'r' || glyph == 'q'
}

/// Whether `glyph` shows a piece of the side that is to move in `fen`.
pub open spec fn is_movers_piece(fen: Seq<char>, glyph: char) -> bool {
    if white_to_move(fen) {
        is_white_piece(glyph)
    } else {
        is_black_piece(glyph)
    }
}

/// The character on the square that a move text starts on: its first
/// character names the file, from `a`, and its second the rank, from `1`.
pub open spec fn moved_glyph(fen: Seq<char>, uci: Seq<char>) -> char {
    cell_glyph(fen, uci[0] as int - 'a' as int, '8' as int - uci[1] as int)
}

/// Whether a move text begins with the names of two squares: a file
/// letter and a rank digit for the start, and again for the end.
pub open spec fn names_squares(uci: Seq<char>) -> bool {
    &&& uci.len() >= 4
    &&& 'a' <= uci[0] <= 'h'
    &&& '1' <= uci[1] <= '8'
    &&& 'a' <= uci[2] <= 'h'
    &&& '1' <= uci[3] <= '8'
}

/// The character on the square that a move text ends on.
pub open spec fn target_glyph(fen: Seq<char>, uci: Seq<char>) -> char {
    cell_glyph(fen, uci[2] as int - 'a' as int, '8' as int - uci[3] as int)
}

/// Whether the engine can count the move `uci` on the board of `fen`. Both
/// of its counters are 16 bits wide. It adds one to the half-move counter
/// unless a pawn moves or the target square is occupied, in which case the
/// counter starts again at 0; and it adds one to the move number after a
/// move of Black.
pub open spec fn can_count(fen: Seq<char>, uci: Seq<char>) -> bool {
    &&& (move_clocks(fen).0 < u16::MAX || moved_glyph(fen, uci) == 'P' || moved_glyph(fen, uci)
        == 'p' || target_glyph(fen, uci) != '.')
    &&& (move_clocks(fen).1 < u16::MAX || white_to_move(fen))
}

/// `Board::initial`, rendered by `Board::as_fen`. Claims that the rendering
/// is the standard text of the initial position, and that the engine reads
/// that text back unchanged.
#[verifier::external_body]
pub(crate) fn initial_fen() -> (fen: String)
    ensures
        fen@ == initial_position(),
        is_position(fen@),
{
    Board::initial().as_fen()
}

/// `Board::from_fen`, its board rendered by `Board::as_fen`. Claims that the
/// outcome is the one named `fen_reading`, with the engine's two kinds of
/// refusal told apart, and that the engine reads its own rendering back
/// unchanged.
#[verifier::external_body]
pub(crate) fn read_fen(text: &str) -> (reading: Result<String, FenError>)
    ensures
        match reading {
            Ok(fen) => fen_reading(text@) == Ok::<Seq<char>, FenError>(fen@) && is_position(fen@),
            Err(e) => fen_reading(text@) == Err::<Seq<char>, FenError>(e),
        },
{
    match Board::from_fen(text) {
        Ok(board) => Ok(board.as_fen()),
        Err(FenParseError::Fen(_)) => Err(FenError::Malformed),
        Err(FenParseError::Valid(_)) => Err(FenError::IllegalPosition),
    }
}

/// `Board::get2` and `Cell::as_char` on the board of `fen`. Claims only that
/// the character is the one named `cell_glyph`. The indices must be below 8:
/// `File::from_index` and `Rank::from_index` panic otherwise.
#[verifier::external_body]
pub(crate) fn glyph_at(fen: &str, file: u8, rank_index: u8) -> (glyph: char)
    requires
        is_position(fen@),
        file < 8,
        rank_index < 8,
    ensures
        glyph == cell_glyph(fen@, file as int, rank_index as int),
{
    let board = Board::from_fen(fen).unwrap();
    board.get2(File::from_index(file as usize), Rank::from_index(rank_index as usize)).as_char()
}

/// The two counters of `Board::raw` on the board of `fen`. Claims only that
/// they are the pair named `move_clocks`.
#[verifier::external_body]
pub(crate) fn clocks(fen: &str) -> (pair: (u16, u16))
    requires
        is_position(fen@),
    ensures
        pair == move_clocks(fen@),
{
    let board = Board::from_fen(fen).unwrap();
    (board.raw().move_counter, board.raw().move_number)
}

/// `Move::from_uci_legal` and then `Board::make_move` on the board of `fen`,
/// the new board rendered by `Board::as_fen`. Claims that the outcome is the
/// one named `fen_after`; that the engine reads the new text back unchanged;
/// that the side to move has changed; that the move text had four
/// characters, or five with a promotion letter last; and that the square it
/// started on held a piece of the side to move. The text must be ASCII,
/// since the engine slices it by bytes; and where it names two squares, the
/// engine must be able to count the move, since it adds to its counters
/// without a test. A text that names no two squares is refused before
/// anything is counted.
#[verifier::external_body]
pub(crate) fn advance(fen: &str, uci: &str) -> (next: Option<String>)
    requires
        is_position(fen@),
        vstd::utf8::is_ascii_chars(uci@),
        names_squares(uci@) ==> can_count(fen@, uci@),
    ensures
        match next {
            Some(after) => {
                &&& fen_after(fen@, uci@) == Some(after@)
                &&& is_position(after@)
                &&& white_to_move(after@) != white_to_move(fen@)
                &&& has_move_shape(uci@)
                &&& is_movers_piece(fen@, moved_glyph(fen@, uci@))
            },
            None => fen_after(fen@, uci@) is None,
        },
{
    let board = Board::from_fen(fen).unwrap();
    let legal = Move::from_uci_legal(uci, &board).ok()?;
    Some(board.make_move(legal).ok()?.as_fen())
}

/// `Board::calc_outcome` on the board of `fen`, each of the engine's outcomes
/// given its own name. Claims only that the report is the one named
/// `engine_verdict`.
#[verifier::external_body]
pub(crate) fn verdict(fen: &str) -> (report: Option<Verdict>)
    requires
        is_position(fen@),
    ensures
        report == engine_verdict(fen@),
{
    Some(match Board::from_fen(fen).unwrap().calc_outcome()? {
        Outcome::Win { side: Color::White, .. } => Verdict::WhiteWins,
        Outcome::Win { side: Color::Black, .. } => Verdict::BlackWins,
        Outcome::Draw(DrawReason::Stalemate) => Verdict::Stalemate,
        Outcome::Draw(DrawReason::InsufficientMaterial) => Verdict::InsufficientMaterial,
        Outcome::Draw(DrawReason::Moves75) => Verdict::SeventyFiveMoves,
        Outcome::Draw(DrawReason::Repeat5) => Verdict::FivefoldRepetition,
        Outcome::Draw(DrawReason::Moves50) => Verdict::FiftyMoves,
        Outcome::Draw(DrawReason::Repeat3) => Verdict::ThreefoldRepetition,
        Outcome::Draw(_) => Verdict::OtherDraw,
    })
}

} // verus!
