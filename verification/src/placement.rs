//! The first field of a position record: which piece stands on which square.
//!
//! The text lists the ranks from the eighth down to the first, with a stroke
//! between neighbours. Within a rank a letter stands for a piece and a digit
//! from 1 to 8 for that many empty squares.

use crate::board::{lemma_piece_letter, Piece};
use crate::decimal::{char_of_digit, digit_char, digit_of, digit_value, lemma_digit_char};
use crate::text::{free_of, join, lemma_split_join, split, split_text, texts, Separator};
use vstd::prelude::*;

verus! {

/// The squares of one rank, or of the whole board.
pub type Cells = Seq<Option<Piece>>;

/// `n` empty squares.
pub open spec fn empties(n: nat) -> Cells {
    Seq::new(n, |i: int| None::<Piece>)
}

/// The squares that one character of a rank stands for.
pub open spec fn cell_run(c: char) -> Option<Cells> {
    match Piece::of_letter(c) {
        Some(p) => Some(seq![Some(p)]),
        None => if '1' <= c && c <= '8' {
            Some(empties(digit_value(c)))
        } else {
            None
        },
    }
}

/// The squares that a text of letters and digits stands for.
pub open spec fn expand(s: Seq<char>) -> Option<Cells>
    decreases s.len(),
{
    if s.len() == 0 {
        Some(Seq::<Option<Piece>>::empty())
    } else {
        match (expand(s.drop_last()), cell_run(s.last())) {
            (Some(a), Some(b)) => Some(a + b),
            _ => None,
        }
    }
}

/// The eight squares of a rank as its text gives them.
pub open spec fn parse_row(s: Seq<char>) -> Option<Cells> {
    match expand(s) {
        Some(row) => if row.len() == 8 {
            Some(row)
        } else {
            None
        },
        None => None,
    }
}

/// The 64 squares as the placement text gives them, the square of file `f`
/// and rank `r` at place `f + 8 * r`.
pub open spec fn parse_placement(s: Seq<char>) -> Option<Cells> {
    let rows = split(s, Separator::Char('/'));
    if rows.len() == 8 && (forall|i: int| 0 <= i < 8 ==> (#[trigger] parse_row(rows[i])) is Some) {
        Some(Seq::new(64, |k: int| parse_row(rows[7 - k / 8])->0[k % 8]))
    } else {
        None
    }
}

/// How many squares from `from` on are empty before the next piece or the
/// end of the row.
pub open spec fn run_length(row: Cells, from: int) -> nat
    decreases row.len() - from,
{
    if 0 <= from < row.len() && row[from] is None {
        1 + run_length(row, from + 1)
    } else {
        0
    }
}

/// The text of a row from square `from` on, every run of empty squares
/// written as one digit.
pub open spec fn row_text(row: Cells, from: int) -> Seq<char>
    decreases (if from < row.len() { row.len() - from } else { 0 }),
{
    if from < 0 || from >= row.len() {
        Seq::<char>::empty()
    } else {
        let n = run_length(row, from);
        if row[from] is Some {
            seq![row[from]->0.letter()] + row_text(row, from + 1)
        } else if n >= 1 {
            seq![digit_char(n)] + row_text(row, from + n)
        } else {
            Seq::<char>::empty()
        }
    }
}

/// The eight squares of rank `rank`.
pub open spec fn row_of(cells: Cells, rank: int) -> Cells {
    cells.subrange(8 * rank, 8 * rank + 8)
}

/// The texts of the eight ranks, the eighth first.
pub open spec fn row_texts(cells: Cells) -> Seq<Seq<char>> {
    Seq::new(8, |i: int| row_text(row_of(cells, 7 - i), 0))
}

/// The placement text of 64 squares.
pub open spec fn placement_text(cells: Cells) -> Seq<char> {
    join(row_texts(cells), '/')
}

/// A character that may stand in a placement text.
pub open spec fn placement_char(c: char) -> bool {
    Piece::of_letter(c) is Some || ('1' <= c && c <= '8') || c == '/'
}

pub proof fn lemma_expand_concat(a: Seq<char>, b: Seq<char>)
    ensures
        expand(a + b) == match (expand(a), expand(b)) {
            (Some(x), Some(y)) => Some(x + y),
            _ => None,
        },
    decreases b.len(),
{
    if b.len() == 0 {
        assert(a + b =~= a);
        if expand(a) is Some {
            assert(expand(a)->0 + Seq::<Option<Piece>>::empty() =~= expand(a)->0);
        }
    } else {
        lemma_expand_concat(a, b.drop_last());
        assert((a + b).drop_last() =~= a + b.drop_last());
        assert((a + b).last() == b.last());
        match (expand(a), expand(b.drop_last()), cell_run(b.last())) {
            (Some(x), Some(y), Some(z)) => {
                assert((x + y) + z =~= x + (y + z));
            },
            _ => {},
        }
    }
}

pub proof fn lemma_expand_one(c: char)
    ensures
        expand(seq![c]) == cell_run(c),
{
    let s = seq![c];
    assert(s.drop_last() =~= Seq::<char>::empty());
    assert(s.last() == c);
    assert(expand(Seq::<char>::empty()) == Some(Seq::<Option<Piece>>::empty()));
    if cell_run(c) is Some {
        assert(Seq::<Option<Piece>>::empty() + cell_run(c)->0 =~= cell_run(c)->0);
    }
}

/// A text stands for squares only if each of its beginnings does.
pub proof fn lemma_expand_prefix(s: Seq<char>, k: int)
    requires
        0 <= k < s.len(),
        expand(s) is Some,
    ensures
        expand(s.take(k)) is Some,
        cell_run(s[k]) is Some,
    decreases s.len() - k,
{
    if k == s.len() - 1 {
        assert(s.take(k) =~= s.drop_last());
    } else {
        lemma_expand_prefix(s, k + 1);
        assert(s.take(k + 1).drop_last() =~= s.take(k));
        assert(s.take(k + 1).last() == s[k]);
    }
}

pub proof fn lemma_run_length(row: Cells, from: int)
    requires
        0 <= from <= row.len(),
    ensures
        from + run_length(row, from) <= row.len(),
        forall|j: int| from <= j < from + run_length(row, from) ==> (#[trigger] row[j]) is None,
        from < row.len() && row[from] is None ==> run_length(row, from) >= 1,
    decreases row.len() - from,
{
    if from < row.len() && row[from] is None {
        lemma_run_length(row, from + 1);
    }
}

/// The text of a row is made of piece letters and digits from 1 to 8, and
/// reading it gives the squares back.
pub proof fn lemma_row_text(row: Cells, from: int)
    requires
        0 <= from <= row.len() <= 8,
    ensures
        expand(row_text(row, from)) == Some(row.skip(from)),
        forall|i: int|
            0 <= i < row_text(row, from).len() ==> placement_char(#[trigger] row_text(row, from)[i])
                && row_text(row, from)[i] != '/',
        from < row.len() ==> row_text(row, from).len() > 0,
    decreases row.len() - from,
{
    let t = row_text(row, from);
    if from >= row.len() {
        assert(row.skip(from) =~= Seq::<Option<Piece>>::empty());
    } else {
        match row[from] {
            Some(p) => {
                let rest = row_text(row, from + 1);
                lemma_row_text(row, from + 1);
                lemma_piece_letter(p);
                lemma_expand_one(p.letter());
                lemma_expand_concat(seq![p.letter()], rest);
                assert(seq![Some(p)] + row.skip(from + 1) =~= row.skip(from));
                assert forall|i: int| 0 <= i < t.len() implies placement_char(#[trigger] t[i])
                    && t[i] != '/' by {
                    if i > 0 {
                        assert(t[i] == rest[i - 1]);
                    }
                }
            },
            None => {
                let n = run_length(row, from);
                lemma_run_length(row, from);
                let rest = row_text(row, from + n);
                lemma_row_text(row, from + n);
                let d = digit_char(n);
                lemma_digit_char(n);
                assert(Piece::of_letter(d) is None);
                assert('1' <= d && d <= '8');
                lemma_expand_one(d);
                lemma_expand_concat(seq![d], rest);
                assert(empties(n) + row.skip(from + n) =~= row.skip(from));
                assert forall|i: int| 0 <= i < t.len() implies placement_char(#[trigger] t[i])
                    && t[i] != '/' by {
                    if i > 0 {
                        assert(t[i] == rest[i - 1]);
                    }
                }
            },
        }
    }
}

/// Each rank text reads back as its rank and holds no stroke.
pub proof fn lemma_row_texts(cells: Cells)
    requires
        cells.len() == 64,
    ensures
        row_texts(cells).len() == 8,
        forall|i: int|
            0 <= i < 8 ==> free_of(#[trigger] row_texts(cells)[i], Separator::Char('/'))
                && parse_row(row_texts(cells)[i]) == Some(row_of(cells, 7 - i))
                && row_texts(cells)[i].len() > 0,
        forall|i: int, j: int|
            0 <= i < 8 && 0 <= j < row_texts(cells)[i].len() ==> placement_char(
                #[trigger] row_texts(cells)[i][j],
            ),
{
    let rows = row_texts(cells);
    assert forall|i: int| 0 <= i < 8 implies free_of(#[trigger] rows[i], Separator::Char('/'))
        && parse_row(rows[i]) == Some(row_of(cells, 7 - i)) && rows[i].len() > 0 && (forall|
        j: int,
    | 0 <= j < rows[i].len() ==> placement_char(#[trigger] rows[i][j])) by {
        let row = row_of(cells, 7 - i);
        lemma_row_text(row, 0);
        assert(row.skip(0) =~= row);
    }
}

/// Reading the placement text of 64 squares gives the squares back.
pub proof fn lemma_placement_round_trip(cells: Cells)
    requires
        cells.len() == 64,
    ensures
        parse_placement(placement_text(cells)) == Some(cells),
        placement_text(cells).len() > 0,
        forall|i: int|
            0 <= i < placement_text(cells).len() ==> placement_char(
                #[trigger] placement_text(cells)[i],
            ),
{
    let rows = row_texts(cells);
    lemma_row_texts(cells);
    lemma_split_join(rows, '/', Separator::Char('/'));
    lemma_join_chars(rows, '/');
    lemma_assemble(cells, rows);
}

/// Rows that read back as the ranks of a board assemble to that board.
proof fn lemma_assemble(cells: Cells, rows: Seq<Seq<char>>)
    requires
        cells.len() == 64,
        rows.len() == 8,
        forall|i: int| 0 <= i < 8 ==> parse_row(#[trigger] rows[i]) == Some(row_of(cells, 7 - i)),
    ensures
        Seq::new(64, |k: int| parse_row(rows[7 - k / 8])->0[k % 8]) == cells,
{
    let got = Seq::new(64, |k: int| parse_row(rows[7 - k / 8])->0[k % 8]);
    assert forall|k: int| 0 <= k < 64 implies got[k] == cells[k] by {
        let r = k / 8;
        let i = 7 - r;
        assert(0 <= i < 8);
        assert(parse_row(rows[i]) == Some(row_of(cells, 7 - i)));
        assert(row_of(cells, r)[k % 8] == cells[8 * r + k % 8]);
    }
    assert(got =~= cells);
}

/// A joined text is not empty where its first part is not, and each of its
/// characters is the separator or a character of a part.
pub proof fn lemma_join_chars(parts: Seq<Seq<char>>, c: char)
    requires
        parts.len() >= 1,
        parts[0].len() > 0,
        placement_char(c),
        forall|i: int, j: int|
            0 <= i < parts.len() && 0 <= j < parts[i].len() ==> placement_char(
                #[trigger] parts[i][j],
            ),
    ensures
        join(parts, c).len() > 0,
        forall|i: int| 0 <= i < join(parts, c).len() ==> placement_char(#[trigger] join(parts, c)[i]),
    decreases parts.len(),
{
    if parts.len() > 1 {
        let head = parts.drop_last();
        assert forall|i: int, j: int|
            0 <= i < head.len() && 0 <= j < head[i].len() implies placement_char(
            #[trigger] head[i][j],
        ) by {
            assert(head[i] == parts[i]);
        }
        assert(head[0] == parts[0]);
        lemma_join_chars(head, c);
        let a = join(head, c).push(c);
        let t = join(parts, c);
        assert forall|i: int| 0 <= i < t.len() implies placement_char(#[trigger] t[i]) by {
            if i < a.len() - 1 {
                assert(t[i] == join(head, c)[i]);
            } else if i == a.len() - 1 {
                assert(t[i] == c);
            } else {
                assert(t[i] == parts.last()[i - a.len()]);
            }
        }
    }
}

/// Reads the eight squares of a rank from its text.
pub fn read_row(s: &Vec<char>) -> (r: Option<Vec<Option<Piece>>>)
    ensures
        match r {
            Some(row) => parse_row(s@) == Some(row@),
            None => parse_row(s@) is None,
        },
{
    let mut row: Vec<Option<Piece>> = Vec::new();
    let mut i: usize = 0;
    assert(s@.take(0) =~= Seq::<char>::empty());
    while i < s.len()
        invariant
            i <= s.len(),
            expand(s@.take(i as int)) == Some(row@),
        decreases s.len() - i,
    {
        let c = s[i];
        let ghost before = row@;
        assert(s@.take(i + 1).drop_last() =~= s@.take(i as int));
        assert(s@.take(i + 1).last() == c);
        match Piece::from_char(c) {
            Some(p) => {
                row.push(Some(p));
                assert(row@ =~= before + seq![Some(p)]);
            },
            None => {
                let d: u8 = match digit_of(c) {
                    Some(d) => d,
                    None => 0,
                };
                if d < 1 || d > 8 {
                    proof {
                        assert(cell_run(c) is None);
                        if expand(s@) is Some {
                            lemma_expand_prefix(s@, i as int);
                        }
                    }
                    return None;
                }
                let mut k: u8 = 0;
                assert(before + empties(0) =~= before);
                while k < d
                    invariant
                        k <= d,
                        row@ == before + empties(k as nat),
                    decreases d - k,
                {
                    row.push(None);
                    assert(row@ =~= before + empties((k + 1) as nat));
                    k += 1;
                }
            },
        }
        i += 1;
    }
    assert(s@.take(s.len() as int) =~= s@);
    if row.len() == 8 {
        Some(row)
    } else {
        None
    }
}

/// Reads the 64 squares of a board from the placement text.
pub fn read_placement(s: &Vec<char>) -> (r: Option<Vec<Option<Piece>>>)
    ensures
        match r {
            Some(cells) => parse_placement(s@) == Some(cells@),
            None => parse_placement(s@) is None,
        },
        r matches Some(cells) ==> cells@.len() == 64,
{
    let parts = split_text(s, Separator::Char('/'));
    if parts.len() != 8 {
        return None;
    }
    let ghost rows = split(s@, Separator::Char('/'));
    let mut parsed: Vec<Vec<Option<Piece>>> = Vec::new();
    let mut i: usize = 0;
    while i < 8
        invariant
            i <= 8,
            parts.len() == 8,
            rows == texts(parts@),
            rows == split(s@, Separator::Char('/')),
            parsed.len() == i,
            forall|j: int| 0 <= j < i ==> parse_row(rows[j]) == Some(#[trigger] parsed@[j]@),
        decreases 8 - i,
    {
        match read_row(&parts[i]) {
            None => {
                assert(parse_row(rows[i as int]) is None);
                return None;
            },
            Some(row) => {
                parsed.push(row);
            },
        }
        i += 1;
    }
    assert forall|j: int| 0 <= j < 8 implies (#[trigger] parse_row(rows[j])) is Some by {
        assert(parse_row(rows[j]) == Some(parsed@[j]@));
    }
    let ghost want = parse_placement(s@)->0;
    let mut cells: Vec<Option<Piece>> = Vec::new();
    let mut k: usize = 0;
    while k < 64
        invariant
            k <= 64,
            parsed.len() == 8,
            rows.len() == 8,
            forall|j: int| 0 <= j < 8 ==> parse_row(rows[j]) == Some(#[trigger] parsed@[j]@),
            want == Seq::new(64, |k: int| parse_row(rows[7 - k / 8])->0[k % 8]),
            cells@ == want.take(k as int),
        decreases 64 - k,
    {
        let r: usize = 7 - k / 8;
        assert(parse_row(rows[r as int]) == Some(parsed@[r as int]@));
        let cell = parsed[r][k % 8];
        cells.push(cell);
        assert(cells@ =~= want.take(k + 1));
        k += 1;
    }
    assert(want.take(64) =~= want);
    Some(cells)
}

/// Appends the text of rank `rank` to `out`.
fn write_row(cells: &Vec<Option<Piece>>, rank: usize, out: &mut String)
    requires
        cells.len() == 64,
        rank < 8,
    ensures
        final(out)@ == old(out)@ + row_text(row_of(cells@, rank as int), 0),
{
    let ghost row = row_of(cells@, rank as int);
    let mut f: usize = 0;
    assert(old(out)@ + Seq::<char>::empty() =~= old(out)@);
    while f < 8
        invariant
            f <= 8,
            cells.len() == 64,
            rank < 8,
            row == row_of(cells@, rank as int),
            exists|done: Seq<char>|
                out@ == old(out)@ + done && done + row_text(row, f as int) == row_text(row, 0),
        decreases 8 - f,
    {
        let ghost done = choose|done: Seq<char>|
            out@ == old(out)@ + done && done + row_text(row, f as int) == row_text(row, 0);
        assert(row[f as int] == cells@[8 * rank + f]);
        match cells[8 * rank + f] {
            Some(p) => {
                out.push(p.char());
                proof {
                    let next = done.push(p.letter());
                    assert(out@ =~= old(out)@ + next);
                    assert(next + row_text(row, f + 1) =~= done + row_text(row, f as int));
                }
                f += 1;
            },
            None => {
                let mut k: usize = f + 1;
                assert(run_length(row, f as int) == 1 + run_length(row, f + 1));
                while k < 8 && cells[8 * rank + k].is_none()
                    invariant
                        f < k <= 8,
                        cells.len() == 64,
                        rank < 8,
                        row == row_of(cells@, rank as int),
                        run_length(row, f as int) == (k - f) + run_length(row, k as int),
                    decreases 8 - k,
                {
                    assert(row[k as int] == cells@[8 * rank + k]);
                    k += 1;
                }
                proof {
                    if k < 8 {
                        assert(row[k as int] == cells@[8 * rank + k]);
                    }
                    assert(run_length(row, k as int) == 0);
                }
                let n: u8 = (k - f) as u8;
                out.push(char_of_digit(n));
                proof {
                    let next = done.push(digit_char(n as nat));
                    assert(out@ =~= old(out)@ + next);
                    assert(next + row_text(row, k as int) =~= done + row_text(row, f as int));
                }
                f = k;
            },
        }
    }
    proof {
        let done = choose|done: Seq<char>|
            out@ == old(out)@ + done && done + row_text(row, f as int) == row_text(row, 0);
        assert(done + row_text(row, 8) =~= done);
    }
}

/// Appends the placement text of a board to `out`.
pub fn write_placement(cells: &Vec<Option<Piece>>, out: &mut String)
    requires
        cells.len() == 64,
    ensures
        final(out)@ == old(out)@ + placement_text(cells@),
{
    let ghost rows = row_texts(cells@);
    write_row(cells, 7, out);
    assert(rows.take(1) =~= seq![rows[0]]);
    let mut i: usize = 1;
    while i < 8
        invariant
            1 <= i <= 8,
            cells.len() == 64,
            rows == row_texts(cells@),
            out@ == old(out)@ + join(rows.take(i as int), '/'),
        decreases 8 - i,
    {
        out.push('/');
        write_row(cells, 7 - i, out);
        proof {
            let now = rows.take(i + 1);
            assert(now.drop_last() =~= rows.take(i as int));
            assert(now.last() == row_text(row_of(cells@, 7 - i), 0));
            assert(out@ =~= old(out)@ + join(now, '/'));
        }
        i += 1;
    }
    assert(rows.take(8) =~= rows);
}

} // verus!
