//! Reading the blank-separated fields of a FEN text.
//!
//! A FEN text names the side to move in its second field. The fields are
//! found as in any text: runs of ASCII white space separate them, and leading
//! or trailing white space counts for nothing.

use vstd::prelude::*;

verus! {

/// ASCII white space: space, tab, line feed, form feed, carriage return.
pub open spec fn is_blank(c: char) -> bool {
    c == ' ' || c == '\t' || c == '\n' || c == '\x0C' || c == '\r'
}

/// The first position at or after `from` that holds no blank; the length of
/// `s` where only blanks follow.
pub open spec fn skip_blanks(s: Seq<char>, from: int) -> int
    decreases s.len() - from,
{
    if 0 <= from < s.len() && is_blank(s[from]) {
        skip_blanks(s, from + 1)
    } else {
        from
    }
}

/// The first position at or after `from` that holds a blank; the length of
/// `s` where none follows.
pub open spec fn skip_word(s: Seq<char>, from: int) -> int
    decreases s.len() - from,
{
    if 0 <= from < s.len() && !is_blank(s[from]) {
        skip_word(s, from + 1)
    } else {
        from
    }
}

/// The word of `s` that comes after `n` others, counting from position
/// `from`; `None` where `s` has too few words.
pub open spec fn word(s: Seq<char>, from: int, n: nat) -> Option<Seq<char>>
    decreases n,
{
    let start = skip_blanks(s, from);
    let end = skip_word(s, start);
    if !(0 <= start < s.len()) {
        None
    } else if n == 0 {
        Some(s.subrange(start, end))
    } else {
        word(s, end, (n - 1) as nat)
    }
}

/// Field `n` of a FEN text, counting from 0.
pub open spec fn field(fen: Seq<char>, n: nat) -> Option<Seq<char>> {
    word(fen, 0, n)
}

/// Whether the text names White as the side to move: its second field is
/// the single letter `w`.
pub open spec fn white_to_move(fen: Seq<char>) -> bool {
    field(fen, 1) == Some(seq!['w'])
}

/// Tells whether `c` is ASCII white space.
pub fn blank(c: char) -> (b: bool)
    ensures
        b == is_blank(c),
{
    c == ' ' || c == '\t' || c == '\n' || c == '\x0C' || c == '\r'
}

/// Walks over the blanks that start at `from`.
fn past_blanks(s: &str, len: usize, from: usize) -> (at: usize)
    requires
        len == s@.len(),
        from <= len,
    ensures
        at == skip_blanks(s@, from as int),
        from <= at <= len,
{
    let mut at: usize = from;
    while at < len && blank(s.get_char(at))
        invariant
            len == s@.len(),
            from <= at <= len,
            skip_blanks(s@, at as int) == skip_blanks(s@, from as int),
        decreases len - at,
    {
        at = at + 1;
    }
    at
}

/// Walks over the word that starts at `from`.
fn past_word(s: &str, len: usize, from: usize) -> (at: usize)
    requires
        len == s@.len(),
        from <= len,
    ensures
        at == skip_word(s@, from as int),
        from <= at <= len,
{
    let mut at: usize = from;
    while at < len && !blank(s.get_char(at))
        invariant
            len == s@.len(),
            from <= at <= len,
            skip_word(s@, at as int) == skip_word(s@, from as int),
        decreases len - at,
    {
        at = at + 1;
    }
    at
}

/// Reads the side to move off a FEN text.
pub fn reads_white_to_move(fen: &str) -> (white: bool)
    ensures
        white == white_to_move(fen@),
{
    let len = fen.unicode_len();
    let first = past_blanks(fen, len, 0);
    if first >= len {
        return false;
    }
    let first_end = past_word(fen, len, first);
    let second = past_blanks(fen, len, first_end);
    if second >= len {
        assert(word(fen@, first_end as int, 0) is None);
        return false;
    }
    let second_end = past_word(fen, len, second);
    let c = fen.get_char(second);
    proof {
        let w = fen@.subrange(second as int, second_end as int);
        assert(word(fen@, first_end as int, 0) == Some(w));
        assert(field(fen@, 1) == Some(w));
        if second_end - second == 1 && c == 'w' {
            assert(w =~= seq!['w']);
        } else if second_end - second == 1 {
            assert(w[0] != seq!['w'][0]);
        } else {
            assert(w.len() != seq!['w'].len());
        }
    }
    second_end - second == 1 && c == 'w'
}

} // verus!
