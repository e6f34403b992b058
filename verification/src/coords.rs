//! Squares of the board, cells of the displayed grid, and the text of a move.
//!
//! A board square is a pair `(file, rank)`: file 0 to 7 stands for `a` to `h`,
//! rank 0 to 7 for the first to the eighth rank. A display cell is a pair
//! `(row, col)`: row 0 is the top line of the grid as it is drawn, column 0 its
//! left edge. Unreversed, the grid shows the eighth rank on top and the `a` file
//! on the left; reversed, both axes are mirrored.

use vstd::prelude::*;

verus! {

/// Whether `i` is a valid file, rank, row or column index.
pub open spec fn on_axis(i: int) -> bool {
    0 <= i < 8
}

/// The board square shown in display cell `(row, col)`.
pub open spec fn square_of_cell(row: int, col: int, reversed: bool) -> (int, int) {
    if reversed {
        (7 - col, row)
    } else {
        (col, 7 - row)
    }
}

/// The display cell that shows board square `(file, rank)`.
pub open spec fn cell_of_square(file: int, rank: int, reversed: bool) -> (int, int) {
    if reversed {
        (rank, 7 - file)
    } else {
        (7 - rank, file)
    }
}

/// Translates a display cell into the board square it shows.
pub fn display_to_board(row: u8, col: u8, reversed: bool) -> (square: (u8, u8))
    requires
        on_axis(row as int),
        on_axis(col as int),
    ensures
        (square.0 as int, square.1 as int) == square_of_cell(row as int, col as int, reversed),
        on_axis(square.0 as int),
        on_axis(square.1 as int),
{
    if reversed {
        (7 - col, row)
    } else {
        (col, 7 - row)
    }
}

/// Translates a board square into the display cell that shows it.
pub fn board_to_display(file: u8, rank: u8, reversed: bool) -> (cell: (u8, u8))
    requires
        on_axis(file as int),
        on_axis(rank as int),
    ensures
        (cell.0 as int, cell.1 as int) == cell_of_square(file as int, rank as int, reversed),
        on_axis(cell.0 as int),
        on_axis(cell.1 as int),
{
    if reversed {
        (rank, 7 - file)
    } else {
        (7 - rank, file)
    }
}

/// Showing a square and reading the cell back gives the square again, under
/// either orientation.
pub proof fn lemma_square_round_trip(file: int, rank: int, reversed: bool)
    requires
        on_axis(file),
        on_axis(rank),
    ensures
        ({
            let cell = cell_of_square(file, rank, reversed);
            &&& on_axis(cell.0)
            &&& on_axis(cell.1)
            &&& square_of_cell(cell.0, cell.1, reversed) == (file, rank)
        }),
{
}

/// Reading a cell and showing the square again gives the cell, under either
/// orientation.
pub proof fn lemma_cell_round_trip(row: int, col: int, reversed: bool)
    requires
        on_axis(row),
        on_axis(col),
    ensures
        ({
            let square = square_of_cell(row, col, reversed);
            &&& on_axis(square.0)
            &&& on_axis(square.1)
            &&& cell_of_square(square.0, square.1, reversed) == (row, col)
        }),
{
}

/// The letter that names file `file` in a move text.
pub open spec fn file_letter(file: int) -> char {
    seq!['a', 'b', 'c', 'd', 'e', 'f', 'g', 'h'][file]
}

/// The digit that names rank `rank` in a move text.
pub open spec fn rank_digit(rank: int) -> char {
    seq!['1', '2', '3', '4', '5', '6', '7', '8'][rank]
}

/// The text that asks the engine for a move between two squares: the name
/// of the square it starts on, then the name of the square it ends on.
pub open spec fn move_text(
    start_file: int,
    start_rank: int,
    end_file: int,
    end_rank: int,
) -> Seq<char> {
    seq![
        file_letter(start_file),
        rank_digit(start_rank),
        file_letter(end_file),
        rank_digit(end_rank),
    ]
}

/// `String::push` of std: the character is appended at the end, and nothing
/// else changes.
pub assume_specification[ String::push ](text: &mut String, c: char)
    ensures
        final(text)@ == old(text)@.push(c),
;

fn file_char(file: u8) -> (c: char)
    requires
        file < 8,
    ensures
        c == file_letter(file as int),
{
    ('a' as u8 + file) as char
}

fn rank_char(rank: u8) -> (c: char)
    requires
        rank < 8,
    ensures
        c == rank_digit(rank as int),
{
    ('1' as u8 + rank) as char
}

/// Writes the move text for a move between two squares of the board.
pub fn move_uci(start_file: u8, start_rank: u8, end_file: u8, end_rank: u8) -> (text: String)
    requires
        on_axis(start_file as int),
        on_axis(start_rank as int),
        on_axis(end_file as int),
        on_axis(end_rank as int),
    ensures
        text@ == move_text(
            start_file as int,
            start_rank as int,
            end_file as int,
            end_rank as int,
        ),
{
    let mut text = String::new();
    text.push(file_char(start_file));
    text.push(rank_char(start_rank));
    text.push(file_char(end_file));
    text.push(rank_char(end_rank));
    assert(text@ =~= move_text(
        start_file as int,
        start_rank as int,
        end_file as int,
        end_rank as int,
    ));
    text
}

} // verus!
