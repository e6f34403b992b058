//! A game session: one position, the orientation in which it is shown, and
//! the submission of moves in two steps.
//!
//! A front end submits a move as two squares. Where the move has the shape
//! of a pawn reaching its last rank, nothing is played yet: the answer hands
//! the squares back, the front end asks which piece the pawn becomes, and
//! submits again with that piece. Every other move goes to the engine at
//! once, and is played if and only if the engine finds it legal.

use crate::coords::{display_to_board, move_text, move_uci, on_axis, square_of_cell};
use crate::engine::{
    can_count, engine_verdict, fen_after, fen_reading, has_move_shape, initial_position,
    is_movers_piece, is_promotion_letter, moved_glyph, FenError, Verdict,
};
use crate::fen::white_to_move;
use crate::position::{glyph_on, successor, Position};
use vstd::prelude::*;
use vstd::string::StringExecFns;
use vstd::utf8::is_ascii_chars;

verus! {

/// A move that waits for the choice of a promotion piece: the squares it
/// starts and ends on.
#[derive(Clone, Copy, Debug, PartialEq, Eq, Structural)]
pub struct PendingPromotion {
    pub start_file: u8,
    pub start_rank: u8,
    pub end_file: u8,
    pub end_rank: u8,
}

/// The answer to a submitted move.
#[derive(Clone, Copy, Debug, PartialEq, Eq, Structural)]
pub enum MoveResult {
    /// The move was legal and has been played.
    Done,
    /// The move has the shape of a promotion; nothing has been played.
    IsPromotion(PendingPromotion),
    /// The move was refused; the position is as it was.
    Failure,
}

/// How a game has ended.
#[derive(Clone, Copy, Debug, PartialEq, Eq, Structural)]
pub enum Outcome {
    /// White has given mate.
    WhiteWon,
    /// Black has given mate.
    BlackWon,
    /// A draw: the side to move has no legal move and is not in check.
    Stalemate,
    /// A draw: the position has occurred three times.
    ThreeFoldRepetitionDraw,
    /// A draw: neither side has the material to give mate.
    InsufficientMaterialDraw,
    /// A draw: fifty moves have passed without a capture or a pawn move.
    FiftyMovesRuleDraw,
}

/// What a game session holds: the FEN text of its position, and whether
/// the board is shown reversed.
pub struct GameView {
    pub fen: Seq<char>,
    pub reversed: bool,
}

/// A game session.
pub struct Game {
    position: Position,
    reversed: bool,
}

impl View for Game {
    type V = GameView;

    closed spec fn view(&self) -> GameView {
        GameView { fen: self.position@, reversed: self.reversed }
    }
}

/// The two squares of a move submitted with four coordinates.
pub open spec fn squares(start_file: u8, start_rank: u8, end_file: u8, end_rank: u8)
    -> PendingPromotion {
    PendingPromotion { start_file, start_rank, end_file, end_rank }
}

/// Whether both squares of a move lie on the board.
pub open spec fn on_board(m: PendingPromotion) -> bool {
    on_axis(m.start_file as int) && on_axis(m.start_rank as int) && on_axis(m.end_file as int)
        && on_axis(m.end_rank as int)
}

/// The character on the square that the move `m` starts on.
pub open spec fn moved_piece(fen: Seq<char>, m: PendingPromotion) -> char {
    glyph_on(fen, m.start_file as int, m.start_rank as int)
}

/// The text that asks the engine for the move `m`.
pub open spec fn text_of(m: PendingPromotion) -> Seq<char> {
    move_text(m.start_file as int, m.start_rank as int, m.end_file as int, m.end_rank as int)
}

/// The shape of a promotion: a black pawn that leaves rank index 1 for rank
/// index 0, or a white pawn that leaves rank index 6 for rank index 7. Only
/// the piece on the starting square and the two ranks count; the files do
/// not, nor does what stands in the way, nor whose turn it is.
pub open spec fn is_promotion_shape(glyph: char, start_rank: int, end_rank: int) -> bool {
    ||| glyph == 'p' && start_rank == 1 && end_rank == 0
    ||| glyph == 'P' && start_rank == 6 && end_rank == 7
}

/// Whether the move `m` has the shape of a promotion in the position `fen`.
pub open spec fn asks_for_piece(fen: Seq<char>, m: PendingPromotion) -> bool {
    is_promotion_shape(moved_piece(fen, m), m.start_rank as int, m.end_rank as int)
}

/// Whether `kind` names a piece that a pawn can become: it is the single
/// letter `q`, `r`, `b` or `n`.
pub open spec fn names_promotion_piece(kind: Seq<char>) -> bool {
    kind.len() == 1 && is_promotion_letter(kind[0])
}

/// What asking the engine for the move text `uci` does to a game at `fen`:
/// the answer, and the position the game is left in. The move is played
/// where the engine finds it legal, and refused otherwise.
pub open spec fn asked(fen: Seq<char>, uci: Seq<char>) -> (MoveResult, Seq<char>) {
    match successor(fen, uci) {
        Some(next) => (MoveResult::Done, next),
        None => (MoveResult::Failure, fen),
    }
}

/// What submitting the move `m` does to a game at `fen`: the answer, and the
/// position the game is left in.
pub open spec fn submitted(fen: Seq<char>, m: PendingPromotion) -> (MoveResult, Seq<char>) {
    if !on_board(m) {
        (MoveResult::Failure, fen)
    } else if asks_for_piece(fen, m) {
        (MoveResult::IsPromotion(m), fen)
    } else {
        asked(fen, text_of(m))
    }
}

/// What resolving the pending move `m` with the piece `kind` does to a game
/// at `fen`: the answer, and the position the game is left in.
pub open spec fn resolved(fen: Seq<char>, m: PendingPromotion, kind: Seq<char>) -> (
    MoveResult,
    Seq<char>,
) {
    if on_board(m) && kind.len() == 1 {
        asked(fen, text_of(m) + kind)
    } else {
        (MoveResult::Failure, fen)
    }
}

/// A move on the board that has not the shape of a promotion, that the
/// engine finds legal and that it can count, is played: the game goes to
/// the position that the engine gives. The engine can count every move
/// while its counters are not full, and at a full counter still every move
/// that leaves that counter alone or starts it again.
pub proof fn lemma_legal_move_is_played(fen: Seq<char>, m: PendingPromotion)
    requires
        on_board(m),
        !asks_for_piece(fen, m),
        can_count(fen, text_of(m)),
        fen_after(fen, text_of(m)) is Some,
    ensures
        submitted(fen, m) == (MoveResult::Done, fen_after(fen, text_of(m))->Some_0),
{
    assert(is_ascii_chars(text_of(m)));
}

/// A move of a white pawn, with White to move, that has not the shape of a
/// promotion and that the engine finds legal is played whatever the
/// engine's counters hold.
pub proof fn lemma_white_pawn_move_is_played(fen: Seq<char>, m: PendingPromotion)
    requires
        on_board(m),
        moved_piece(fen, m) == 'P',
        white_to_move(fen),
        !asks_for_piece(fen, m),
        fen_after(fen, text_of(m)) is Some,
    ensures
        submitted(fen, m) == (MoveResult::Done, fen_after(fen, text_of(m))->Some_0),
{
    assert(moved_glyph(fen, text_of(m)) == moved_piece(fen, m));
    lemma_legal_move_is_played(fen, m);
}

/// A move that has not the shape of a promotion, and that the engine does
/// not find legal, is refused, and the position stays as it is.
pub proof fn lemma_illegal_move_changes_nothing(fen: Seq<char>, m: PendingPromotion)
    requires
        !asks_for_piece(fen, m),
        on_board(m) ==> fen_after(fen, text_of(m)) is None,
    ensures
        submitted(fen, m) == (MoveResult::Failure, fen),
{
}

/// A white pawn that leaves rank index 6 for rank index 7 is never played
/// at once, whatever the files and whatever the engine would say: the
/// answer asks for a piece and hands the squares back.
pub proof fn lemma_white_pawn_on_seventh_asks_for_piece(fen: Seq<char>, m: PendingPromotion)
    requires
        on_board(m),
        moved_piece(fen, m) == 'P',
        m.start_rank == 6,
        m.end_rank == 7,
    ensures
        submitted(fen, m) == (MoveResult::IsPromotion(m), fen),
{
}

/// Only a played move changes the position: under any other answer the
/// position is as it was. Resolving a promotion never asks for a piece
/// again.
pub proof fn lemma_only_a_played_move_changes_the_position(
    fen: Seq<char>,
    m: PendingPromotion,
    kind: Seq<char>,
)
    ensures
        submitted(fen, m).0 != MoveResult::Done ==> submitted(fen, m).1 == fen,
        resolved(fen, m, kind).0 != MoveResult::Done ==> resolved(fen, m, kind).1 == fen,
        !(resolved(fen, m, kind).0 is IsPromotion),
{
}

/// How each report of the engine is classified. The mandatory draws by 75
/// moves and by fivefold repetition, and draws the engine cannot name, end no
/// game here.
pub open spec fn outcome_of(report: Option<Verdict>) -> Option<Outcome> {
    match report {
        Some(Verdict::WhiteWins) => Some(Outcome::WhiteWon),
        Some(Verdict::BlackWins) => Some(Outcome::BlackWon),
        Some(Verdict::Stalemate) => Some(Outcome::Stalemate),
        Some(Verdict::InsufficientMaterial) => Some(Outcome::InsufficientMaterialDraw),
        Some(Verdict::FiftyMoves) => Some(Outcome::FiftyMovesRuleDraw),
        Some(Verdict::ThreefoldRepetition) => Some(Outcome::ThreeFoldRepetitionDraw),
        _ => None,
    }
}

/// The text shown in display cell `(row, col)`: the one character of the
/// square that the cell shows.
pub open spec fn cell_text(game: GameView, row: int, col: int) -> Seq<char> {
    let square = square_of_cell(row, col, game.reversed);
    seq![glyph_on(game.fen, square.0, square.1)]
}

/// Whether `grid` is the display of `game`: eight rows of eight cells, each
/// with the text of its square.
pub open spec fn shows(grid: Seq<Vec<String>>, game: GameView) -> bool {
    &&& grid.len() == 8
    &&& forall|row: int| 0 <= row < 8 ==> (#[trigger] grid[row])@.len() == 8
    &&& forall|row: int, col: int|
        0 <= row < 8 && 0 <= col < 8 ==> (#[trigger] grid[row]@[col])@ == cell_text(game, row, col)
}

/// Classifies a report of the engine.
pub fn classify(report: Option<Verdict>) -> (outcome: Option<Outcome>)
    ensures
        outcome == outcome_of(report),
{
    match report {
        Some(Verdict::WhiteWins) => Some(Outcome::WhiteWon),
        Some(Verdict::BlackWins) => Some(Outcome::BlackWon),
        Some(Verdict::Stalemate) => Some(Outcome::Stalemate),
        Some(Verdict::InsufficientMaterial) => Some(Outcome::InsufficientMaterialDraw),
        Some(Verdict::FiftyMoves) => Some(Outcome::FiftyMovesRuleDraw),
        Some(Verdict::ThreefoldRepetition) => Some(Outcome::ThreeFoldRepetitionDraw),
        _ => None,
    }
}

impl Clone for Game {
    fn clone(&self) -> (copy: Self)
        ensures
            copy@ == self@,
    {
        Game { position: self.position.clone(), reversed: self.reversed }
    }
}

impl Game {
    /// A game at the initial position, shown from White's side.
    pub fn default() -> (game: Self)
        ensures
            game@.fen == initial_position(),
            !game@.reversed,
    {
        let board = Position::initial();
        Self { position: board, reversed: false }
    }

    /// A game at the position that `input_fen` describes, shown from White's
    /// side. Fails exactly where the engine refuses the text, with the
    /// engine's reason.
    pub fn new(input_fen: String) -> (made: Result<Self, FenError>)
        ensures
            match fen_reading(input_fen@) {
                Ok(fen) => made matches Ok(game) && game@.fen == fen && !game@.reversed,
                Err(e) => made matches Err(refusal) && refusal == e,
            },
    {
        match Position::from_fen(input_fen.as_str()) {
            Ok(board) => Ok(Self { position: board, reversed: false }),
            Err(e) => Err(e),
        }
    }

    /// The position of the game.
    pub fn get_board(&self) -> (board: &Position)
        ensures
            board@ == self@.fen,
    {
        &self.position
    }

    /// Whether the board is shown reversed.
    pub fn is_reversed(&self) -> (reversed: bool)
        ensures
            reversed == self@.reversed,
    {
        self.reversed
    }

    /// Chooses the orientation in which the board is shown. The position
    /// does not change.
    pub fn set_reversed(&mut self, reversed: bool)
        ensures
            final(self)@.fen == old(self)@.fen,
            final(self)@.reversed == reversed,
    {
        self.reversed = reversed;
    }

    /// The display of the board: eight rows from the top of the grid, each
    /// of eight cells from the left, each cell the one-character text of the
    /// square it shows.
    pub fn get_pieces(&self) -> (grid: Vec<Vec<String>>)
        ensures
            shows(grid@, self@),
    {
        let mut result: Vec<Vec<String>> = Vec::new();
        let mut row: u8 = 0;
        while row < 8
            invariant
                row <= 8,
                result@.len() == row,
                forall|r: int| 0 <= r < row ==> (#[trigger] result@[r])@.len() == 8,
                forall|r: int, c: int|
                    0 <= r < row && 0 <= c < 8 ==> (#[trigger] result@[r]@[c])@ == cell_text(
                        self@,
                        r,
                        c,
                    ),
            decreases 8 - row,
        {
            let mut line_result: Vec<String> = Vec::new();
            let mut col: u8 = 0;
            while col < 8
                invariant
                    row < 8,
                    col <= 8,
                    line_result@.len() == col,
                    forall|c: int|
                        0 <= c < col ==> (#[trigger] line_result@[c])@ == cell_text(
                            self@,
                            row as int,
                            c,
                        ),
                decreases 8 - col,
            {
                let (file, rank) = display_to_board(row, col, self.reversed);
                let current_piece = self.position.glyph(file, rank);
                let mut new_string = String::new();
                new_string.push(current_piece);
                assert(new_string@ =~= cell_text(self@, row as int, col as int));
                line_result.push(new_string);
                col = col + 1;
            }
            result.push(line_result);
            row = row + 1;
        }
        result
    }

    /// Whether White is to move.
    pub fn is_white_turn(&self) -> (white: bool)
        ensures
            white == white_to_move(self@.fen),
    {
        self.position.white_to_move()
    }

    /// Asks the engine for the move that `uci` names and plays it if the
    /// engine finds it legal.
    fn commit(&mut self, uci: &str) -> (result: MoveResult)
        ensures
            final(self)@.reversed == old(self)@.reversed,
            (result, final(self)@.fen) == asked(old(self)@.fen, uci@),
            result == MoveResult::Done ==> {
                &&& white_to_move(final(self)@.fen) != white_to_move(old(self)@.fen)
                &&& has_move_shape(uci@)
                &&& is_movers_piece(old(self)@.fen, moved_glyph(old(self)@.fen, uci@))
            },
    {
        match self.position.play(uci) {
            Some(board) => {
                self.position = board;
                MoveResult::Done
            },
            None => MoveResult::Failure,
        }
    }

    /// Submits the move from square `(start_file, start_rank)` to square
    /// `(end_file, end_rank)`, in board coordinates.
    ///
    /// A move with a coordinate off the board is refused. A move with the
    /// shape of a promotion is handed back, unplayed and unjudged. Any other
    /// move is played if the engine finds it legal, and refused otherwise.
    /// A played move passes the turn to the other side, and was made with a
    /// piece of the side that was to move; nothing else changes the
    /// position.
    pub fn try_making_move(
        &mut self,
        start_file: u8,
        start_rank: u8,
        end_file: u8,
        end_rank: u8,
    ) -> (result: MoveResult)
        ensures
            final(self)@.reversed == old(self)@.reversed,
            (result, final(self)@.fen) == submitted(
                old(self)@.fen,
                squares(start_file, start_rank, end_file, end_rank),
            ),
            result == MoveResult::Done ==> {
                &&& white_to_move(final(self)@.fen) != white_to_move(old(self)@.fen)
                &&& is_movers_piece(
                    old(self)@.fen,
                    moved_piece(old(self)@.fen, squares(start_file, start_rank, end_file, end_rank)),
                )
            },
    {
        if start_file >= 8 || start_rank >= 8 || end_file >= 8 || end_rank >= 8 {
            return MoveResult::Failure;
        }
        let moved_piece = self.position.glyph(start_file, start_rank);
        let is_promotion_move = (moved_piece == 'p' && start_rank == 1 && end_rank == 0)
            || (moved_piece == 'P' && start_rank == 6 && end_rank == 7);
        if is_promotion_move {
            MoveResult::IsPromotion(PendingPromotion { start_file, start_rank, end_file, end_rank })
        } else {
            let move_to_apply_uci = move_uci(start_file, start_rank, end_file, end_rank);
            self.commit(move_to_apply_uci.as_str())
        }
    }

    /// Submits a complete move text, promotion letter included if there is
    /// one, and plays the move if the engine finds it legal; then the other
    /// side is to move. A refused text leaves the position as it was. A
    /// played text has four characters, or five of which the last is `q`,
    /// `r`, `b` or `n`, and moved a piece of the side that was to move.
    pub fn try_commiting_promotion(&mut self, move_uci: String) -> (result: MoveResult)
        ensures
            final(self)@.reversed == old(self)@.reversed,
            (result, final(self)@.fen) == asked(old(self)@.fen, move_uci@),
            result == MoveResult::Done ==> {
                &&& white_to_move(final(self)@.fen) != white_to_move(old(self)@.fen)
                &&& has_move_shape(move_uci@)
                &&& is_movers_piece(old(self)@.fen, moved_glyph(old(self)@.fen, move_uci@))
            },
    {
        self.commit(move_uci.as_str())
    }

    /// Completes the pending promotion with the piece that `kind` names.
    ///
    /// The move is judged by the engine now, for the first time: with a
    /// `kind` of one character and both squares on the board, it is played
    /// if the engine finds it legal. It is refused otherwise, and always
    /// where `kind` is not one of `q`, `r`, `b` and `n`. A played move
    /// passes the turn to the other side.
    pub fn resolve_promotion(&mut self, pending: PendingPromotion, kind: &str) -> (result:
        MoveResult)
        ensures
            final(self)@.reversed == old(self)@.reversed,
            (result, final(self)@.fen) == resolved(old(self)@.fen, pending, kind@),
            !names_promotion_piece(kind@) ==> {
                &&& result == MoveResult::Failure
                &&& final(self)@ == old(self)@
            },
            result == MoveResult::Done ==> white_to_move(final(self)@.fen) != white_to_move(
                old(self)@.fen,
            ),
    {
        if pending.start_file >= 8 || pending.start_rank >= 8 || pending.end_file >= 8
            || pending.end_rank >= 8 || kind.unicode_len() != 1 {
            return MoveResult::Failure;
        }
        let mut move_to_apply_uci = move_uci(
            pending.start_file,
            pending.start_rank,
            pending.end_file,
            pending.end_rank,
        );
        move_to_apply_uci.append(kind);
        self.commit(move_to_apply_uci.as_str())
    }

    /// How the game has ended, if it has: the engine's report on the
    /// position, classified.
    pub fn get_outcome(&self) -> (outcome: Option<Outcome>)
        ensures
            outcome == outcome_of(engine_verdict(self@.fen)),
    {
        classify(self.position.outcome())
    }
}

} // verus!
