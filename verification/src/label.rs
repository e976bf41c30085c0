//! Square labels: a rank digit followed by a file letter, as in `2c`.

use vstd::prelude::*;
use vstd::string::StrSliceExecFns;
use crate::board::Board;
use crate::piece::ChessError;

verus! {

/// The characters that count as white space around a label, which are those
/// with the Unicode property White_Space: the controls U+0009 to U+000D, the
/// space, U+0085, the no-break space U+00A0, U+1680, the spaces U+2000 to
/// U+200A, the line and paragraph separators U+2028 and U+2029, U+202F, U+205F
/// and the ideographic space U+3000.
pub open spec fn is_white_space(c: char) -> bool {
    let n = c as int;
    ||| 0x09 <= n <= 0x0D
    ||| n == 0x20
    ||| n == 0x85
    ||| n == 0xA0
    ||| n == 0x1680
    ||| 0x2000 <= n <= 0x200A
    ||| n == 0x2028
    ||| n == 0x2029
    ||| n == 0x202F
    ||| n == 0x205F
    ||| n == 0x3000
}

/// `s` without its leading white space.
pub open spec fn trim_start(s: Seq<char>) -> Seq<char>
    decreases s.len(),
{
    if s.len() > 0 && is_white_space(s.first()) {
        trim_start(s.drop_first())
    } else {
        s
    }
}

/// `s` without its trailing white space.
pub open spec fn trim_end(s: Seq<char>) -> Seq<char>
    decreases s.len(),
{
    if s.len() > 0 && is_white_space(s.last()) {
        trim_end(s.drop_last())
    } else {
        s
    }
}

/// `s` without its leading and trailing white space.
pub open spec fn trimmed(s: Seq<char>) -> Seq<char> {
    trim_end(trim_start(s))
}

/// Not proved, but taken from the documentation of `str::trim`: it returns
/// the slice that is left when the leading and the trailing white space is
/// taken away, where white space is what has Unicode's White_Space property.
pub assume_specification[ str::trim ](s: &str) -> (t: &str)
    ensures
        t@ == trimmed(s@),
;

/// A rank digit, `1` to `8`.
pub open spec fn is_rank(c: char) -> bool {
    '1' <= c <= '8'
}

/// A file letter, `a` to `h` in either case.
pub open spec fn is_file(c: char) -> bool {
    'a' <= c <= 'h' || 'A' <= c <= 'H'
}

/// The row that a rank digit names: `1` is row 0.
pub open spec fn rank_row(c: char) -> int {
    c as int - '1' as int
}

/// The column that a file letter names: `a` and `A` are column 0.
pub open spec fn file_col(c: char) -> int {
    if 'a' <= c {
        c as int - 'a' as int
    } else {
        c as int - 'A' as int
    }
}

/// The row and column that a label names, if it is a label: after trimming,
/// exactly a rank digit followed by a file letter.
pub open spec fn parse_square(label: Seq<char>) -> Option<(int, int)> {
    let t = trimmed(label);
    if t.len() == 2 && is_rank(t[0]) && is_file(t[1]) {
        Some((rank_row(t[0]), file_col(t[1])))
    } else {
        None
    }
}

/// The digit that names `row`: row 0 is rank `1`.
pub open spec fn rank_digit(row: int) -> char {
    ('1' as int + row) as char
}

/// The small letter that names `col`: column 0 is file `a`.
pub open spec fn file_letter(col: int) -> char {
    ('a' as int + col) as char
}

/// The capital letter that names `col`: column 0 is file `A`.
pub open spec fn file_capital(col: int) -> char {
    ('A' as int + col) as char
}

/// Every element of `s` is white space.
pub open spec fn all_white_space(s: Seq<char>) -> bool {
    forall|i: int| 0 <= i < s.len() ==> is_white_space(#[trigger] s[i])
}

proof fn lemma_trim_start_padding(pad: Seq<char>, rest: Seq<char>)
    requires
        all_white_space(pad),
        rest.len() > 0 && !is_white_space(rest.first()),
    ensures
        trim_start(pad + rest) == rest,
    decreases pad.len(),
{
    if pad.len() > 0 {
        assert((pad + rest).drop_first() =~= pad.drop_first() + rest);
        lemma_trim_start_padding(pad.drop_first(), rest);
    }
}

proof fn lemma_trim_end_padding(rest: Seq<char>, pad: Seq<char>)
    requires
        all_white_space(pad),
        rest.len() > 0 && !is_white_space(rest.last()),
    ensures
        trim_end(rest + pad) == rest,
    decreases pad.len(),
{
    if pad.len() > 0 {
        assert((rest + pad).drop_last() =~= rest + pad.drop_last());
        lemma_trim_end_padding(rest, pad.drop_last());
    }
}

proof fn lemma_trim_shortens(s: Seq<char>)
    ensures
        trim_start(s).len() <= s.len(),
        trim_end(s).len() <= s.len(),
        trim_start(s).len() == s.len() ==> trim_start(s) == s,
        trim_end(s).len() == s.len() ==> trim_end(s) == s,
    decreases s.len(),
{
    if s.len() > 0 {
        lemma_trim_shortens(s.drop_first());
        lemma_trim_shortens(s.drop_last());
    }
}

/// Trimming leaves a text alone or makes it shorter.
pub proof fn trimmed_is_no_longer(s: Seq<char>)
    ensures
        trimmed(s).len() <= s.len(),
        trimmed(s).len() == s.len() ==> trimmed(s) == s,
{
    lemma_trim_shortens(s);
    lemma_trim_shortens(trim_start(s));
}

/// The label of every square is read back as that square: the rank digit of
/// `row` followed by the letter of `col`, small or capital, with any white
/// space `lead` before it and `trail` after it, names (`row`, `col`).
pub proof fn parse_reads_every_label(lead: Seq<char>, row: int, col: int, trail: Seq<char>)
    requires
        all_white_space(lead),
        all_white_space(trail),
        0 <= row < 8,
        0 <= col < 8,
    ensures
        parse_square(lead + seq![rank_digit(row), file_letter(col)] + trail) == Some((row, col)),
        parse_square(lead + seq![rank_digit(row), file_capital(col)] + trail) == Some((row, col)),
{
    let small = seq![rank_digit(row), file_letter(col)];
    let capital = seq![rank_digit(row), file_capital(col)];
    lemma_trim_start_padding(lead, small + trail);
    lemma_trim_end_padding(small, trail);
    assert(lead + small + trail =~= lead + (small + trail));
    lemma_trim_start_padding(lead, capital + trail);
    lemma_trim_end_padding(capital, trail);
    assert(lead + capital + trail =~= lead + (capital + trail));
}

/// A text of two characters is a label only if the first is a rank digit and
/// the second a file letter. In particular the file may not come first.
pub proof fn parse_rejects_other_pairs(first: char, second: char)
    ensures
        parse_square(seq![first, second]) is Some <==> is_rank(first) && is_file(second),
        is_file(first) && is_rank(second) ==> parse_square(seq![first, second]) is None,
{
    trimmed_is_no_longer(seq![first, second]);
}

/// A text that does not trim to exactly two characters is no label.
pub proof fn parse_rejects_other_lengths(label: Seq<char>)
    requires
        trimmed(label).len() != 2,
    ensures
        parse_square(label) is None,
{
}

/// A label names a square of the board.
pub proof fn parsed_square_is_on_board(label: Seq<char>)
    requires
        parse_square(label) is Some,
    ensures
        0 <= parse_square(label).unwrap().0 < 8,
        0 <= parse_square(label).unwrap().1 < 8,
{
}

impl Board {
    /// Converts a square label into a row and a column of the board.
    pub fn convert_square_number(number: &str) -> (result: Result<(usize, usize), ChessError>)
        ensures
            result is Ok <==> parse_square(number@) is Some,
            result matches Ok((row, col)) ==> parse_square(number@) == Some(
                (row as int, col as int),
            ),
            result matches Err(e) ==> e == ChessError::InvalidSquare,
    {
        let number = number.trim();

        if number.unicode_len() == 2 {
            let row = number.get_char(0);
            let col = number.get_char(1);
            match (row, col) {
                ('1'..='8', 'a'..='h') => {
                    Ok(((row as u8 - '1' as u8) as usize, (col as u8 - 'a' as u8) as usize))
                },
                ('1'..='8', 'A'..='H') => {
                    Ok(((row as u8 - '1' as u8) as usize, (col as u8 - 'A' as u8) as usize))
                },
                _ => Err(ChessError::InvalidSquare),
            }
        } else {
            Err(ChessError::InvalidSquare)
        }
    }
}

} // verus!
