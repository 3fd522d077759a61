//! Large box-drawing digits, laid side by side.

use vstd::prelude::*;
use crate::text::{chars_of, push_char};

verus! {

/// The glyph of the digit `0`.
pub const GLYPH_ZERO: &'static str = "\n╔═══╗\n║╔═╗║\n║║ ║║\n║║ ║║\n║╚═╝║\n╚═══╝\n";

/// The glyph of the digit `1`.
pub const GLYPH_ONE: &'static str = "\n  ╔╗ \n ╔╝║ \n ╚╗║ \n  ║║ \n ╔╝╚╗\n ╚══╝\n";

/// The glyph of the digit `2`.
pub const GLYPH_TWO: &'static str = "\n╔═══╗\n║╔═╗║\n╚╝╔╝║\n╔═╝╔╝\n║║╚═╗\n╚═══╝\n";

/// The glyph of the digit `3`.
pub const GLYPH_THREE: &'static str = "\n╔═══╗\n║╔═╗║\n╚╝╔╝║\n╔╗╚╗║\n║╚═╝║\n╚═══╝\n";

/// The glyph of the digit `4`.
pub const GLYPH_FOUR: &'static str = "\n╔╗ ╔╗\n║║ ║║\n║╚═╝║\n╚══╗║\n   ║║\n   ╚╝\n\n";

/// The glyph of the digit `5`.
pub const GLYPH_FIVE: &'static str = "\n╔═══╗\n║╔══╝\n║╚══╗\n╚══╗║\n╔══╝║\n╚═══╝\n\n";

/// The glyph of the digit `6`.
pub const GLYPH_SIX: &'static str = "\n╔═══╗\n║╔══╝\n║╚══╗\n║╔═╗║\n║╚═╝║\n╚═══╝\n\n";

/// The glyph of the digit `7`.
pub const GLYPH_SEVEN: &'static str = "\n╔═══╗\n║╔═╗║\n╚╝╔╝║\n  ║╔╝\n  ║║ \n  ╚╝ \n\n";

/// The glyph of the digit `8`.
pub const GLYPH_EIGHT: &'static str = "\n╔═══╗\n║╔═╗║\n║╚═╝║\n║╔═╗║\n║╚═╝║\n╚═══╝\n\n";

/// The glyph of the digit `9`.
pub const GLYPH_NINE: &'static str = "\n╔═══╗\n║╔═╗║\n║╚═╝║\n╚══╗║\n╔══╝║\n╚═══╝\n\n";

/// What is drawn for a character that is not a digit.
pub const GLYPH_OTHER: &'static str = "NONE";

/// The glyph drawn for a character.
pub open spec fn glyph(c: char) -> Seq<char> {
    if c == '0' {
        GLYPH_ZERO@
    } else if c == '1' {
        GLYPH_ONE@
    } else if c == '2' {
        GLYPH_TWO@
    } else if c == '3' {
        GLYPH_THREE@
    } else if c == '4' {
        GLYPH_FOUR@
    } else if c == '5' {
        GLYPH_FIVE@
    } else if c == '6' {
        GLYPH_SIX@
    } else if c == '7' {
        GLYPH_SEVEN@
    } else if c == '8' {
        GLYPH_EIGHT@
    } else if c == '9' {
        GLYPH_NINE@
    } else {
        GLYPH_OTHER@
    }
}

/// The pieces of `s` between its `'\n'` characters (one more piece than there are newlines).
pub open spec fn split_newlines(s: Seq<char>) -> Seq<Seq<char>>
    decreases s.len(),
{
    if s.len() == 0 {
        seq![seq![]]
    } else {
        let p = split_newlines(s.drop_last());
        if s.last() == '\n' {
            p.push(seq![])
        } else {
            p.update(p.len() - 1, p.last().push(s.last()))
        }
    }
}

/// There is always at least one piece.
proof fn lemma_split_newlines_nonempty(s: Seq<char>)
    ensures
        split_newlines(s).len() > 0,
    decreases s.len(),
{
    if s.len() > 0 {
        lemma_split_newlines_nonempty(s.drop_last());
    }
}

/// A line without the `'\r'` that ended it, if any.
pub open spec fn strip_cr(line: Seq<char>) -> Seq<char> {
    if line.len() > 0 && line.last() == '\r' {
        line.drop_last()
    } else {
        line
    }
}

/// The lines of `s` as `str::lines` gives them: split at `'\n'`, a `'\r'`
/// before a `'\n'` removed, and no empty line after a final `'\n'`.
pub open spec fn lines(s: Seq<char>) -> Seq<Seq<char>> {
    if s.len() == 0 {
        seq![]
    } else if s.last() == '\n' {
        split_newlines(s.drop_last()).map_values(|l: Seq<char>| strip_cr(l))
    } else {
        let p = split_newlines(s);
        p.drop_last().map_values(|l: Seq<char>| strip_cr(l)).push(p.last())
    }
}

/// The rows of the glyph of a character.
pub open spec fn glyph_rows(c: char) -> Seq<Seq<char>> {
    lines(glyph(c))
}

/// Row `k` of the drawing of the first `n` characters of `number`: their
/// glyphs' rows `k`, side by side.
pub open spec fn drawn_row(number: Seq<char>, k: int, n: nat) -> Seq<char>
    decreases n,
{
    if n == 0 {
        seq![]
    } else {
        drawn_row(number, k, (n - 1) as nat) + glyph_rows(number[n - 1])[k]
    }
}

/// The number of rows drawn: that of the first character's glyph.
pub open spec fn drawn_height(number: Seq<char>) -> nat {
    glyph_rows(number[0]).len()
}

/// The first `h` rows of the drawing.
pub open spec fn drawn_rows(number: Seq<char>, h: nat) -> Seq<Seq<char>> {
    Seq::new(h, |k: int| drawn_row(number, k, number.len()))
}

/// Lines joined with `'\n'` between them.
pub open spec fn joined(rows: Seq<Seq<char>>) -> Seq<char>
    decreases rows.len(),
{
    if rows.len() == 0 {
        seq![]
    } else if rows.len() == 1 {
        rows[0]
    } else {
        joined(rows.drop_last()) + seq!['\n'] + rows.last()
    }
}

/// The whole drawing: its rows joined with `'\n'`, and a final `'\n'`.
pub open spec fn drawing(number: Seq<char>) -> Seq<char> {
    joined(drawn_rows(number, drawn_height(number))) + seq!['\n']
}

/// The drawing is defined: there is a character, and every glyph has at least
/// as many rows as the first one.
pub open spec fn drawable(number: Seq<char>) -> bool {
    &&& number.len() > 0
    &&& forall|i: int| 0 <= i < number.len() ==> #[trigger] glyph_rows(number[i]).len() >= drawn_height(number)
}

/// Draws strings of digits in large glyphs.
pub struct NumberDrawer;

/// The pieces between newlines of the first `upto` characters of `s`.
fn split_newlines_exec(s: &Vec<char>, upto: usize) -> (res: Vec<Vec<char>>)
    requires
        upto <= s@.len(),
    ensures
        res@.len() == split_newlines(s@.subrange(0, upto as int)).len(),
        forall|k: int| 0 <= k < res@.len() ==> #[trigger] res@[k]@ == split_newlines(s@.subrange(0, upto as int))[k],
{
    let mut res: Vec<Vec<char>> = Vec::new();
    res.push(Vec::new());
    assert(s@.subrange(0, 0) =~= Seq::<char>::empty());
    let mut i: usize = 0;
    while i < upto
        invariant
            upto <= s@.len(),
            i <= upto,
            res@.len() == split_newlines(s@.subrange(0, i as int)).len(),
            res@.len() > 0,
            forall|k: int| 0 <= k < res@.len() ==> #[trigger] res@[k]@ == split_newlines(s@.subrange(0, i as int))[k],
        decreases upto - i,
    {
        let c = s[i];
        let ghost pre = s@.subrange(0, i as int);
        let ghost post = s@.subrange(0, i + 1);
        let ghost before = res@;
        assert(post.drop_last() =~= pre);
        assert(post.last() == c);
        if c == '\n' {
            res.push(Vec::new());
            assert forall|k: int| 0 <= k < res@.len() implies #[trigger] res@[k]@ == split_newlines(post)[k] by {
                if k < before.len() {
                    assert(res@[k] == before[k]);
                }
            }
        } else {
            let mut line = res.pop().unwrap();
            line.push(c);
            res.push(line);
            assert forall|k: int| 0 <= k < res@.len() implies #[trigger] res@[k]@ == split_newlines(post)[k] by {
                if k < before.len() - 1 {
                    assert(res@[k] == before[k]);
                }
            }
        }
        i = i + 1;
    }
    res
}

/// Removes a final `'\r'`.
fn strip_cr_exec(line: &mut Vec<char>)
    ensures
        final(line)@ == strip_cr(old(line)@),
{
    let n = line.len();
    if n > 0 && line[n - 1] == '\r' {
        line.pop();
    }
}

/// The lines of a string, as `str::lines` gives them.
pub fn lines_of(s: &str) -> (res: Vec<Vec<char>>)
    ensures
        res@.len() == lines(s@).len(),
        forall|k: int| 0 <= k < res@.len() ==> #[trigger] res@[k]@ == lines(s@)[k],
{
    let cs = chars_of(s);
    let n = cs.len();
    if n == 0 {
        return Vec::new();
    }
    let ends_with_newline = cs[n - 1] == '\n';
    let upto = if ends_with_newline { n - 1 } else { n };
    let pieces = split_newlines_exec(&cs, upto);
    let ghost p = split_newlines(cs@.subrange(0, upto as int));
    proof {
        lemma_split_newlines_nonempty(cs@.subrange(0, upto as int));
    }
    proof {
        if ends_with_newline {
            assert(cs@.subrange(0, upto as int) =~= s@.drop_last());
        } else {
            assert(cs@.subrange(0, upto as int) =~= s@);
        }
    }
    let m = pieces.len();
    let strip_upto = if ends_with_newline { m } else { m - 1 };
    let mut res: Vec<Vec<char>> = Vec::new();
    let mut k: usize = 0;
    while k < m
        invariant
            m == pieces@.len(),
            m == p.len(),
            m > 0,
            strip_upto <= m,
            ends_with_newline ==> strip_upto == m,
            !ends_with_newline ==> strip_upto == m - 1,
            forall|j: int| 0 <= j < m ==> #[trigger] pieces@[j]@ == p[j],
            k <= m,
            res@.len() == k,
            forall|j: int| 0 <= j < k ==> #[trigger] res@[j]@ == (if j < strip_upto { strip_cr(p[j]) } else { p[j] }),
        decreases m - k,
    {
        let mut line = pieces[k].clone();
        assert(line@ == p[k as int]);
        if k < strip_upto {
            strip_cr_exec(&mut line);
        }
        res.push(line);
        k = k + 1;
    }
    proof {
        let l = lines(s@);
        assert(l.len() == m);
        assert forall|j: int| 0 <= j < res@.len() implies #[trigger] res@[j]@ == l[j] by {
            if ends_with_newline {
                assert(l[j] == strip_cr(p[j]));
            } else {
                if j < m - 1 {
                    assert(l[j] == p.drop_last().map_values(|x: Seq<char>| strip_cr(x))[j]);
                } else {
                    assert(l[j] == p.last());
                }
            }
        }
    }
    res
}


/// `big` holds, for each of the first `i` characters of `number`, the rows of its glyph.
spec fn glyph_rows_loaded(big: Seq<Vec<Vec<char>>>, number: Seq<char>, i: int) -> bool {
    &&& big.len() == i
    &&& forall|j: int| 0 <= j < i ==> (#[trigger] big[j])@.len() == glyph_rows(number[j]).len()
    &&& forall|j: int, r: int| 0 <= j < i && 0 <= r < big[j]@.len() ==> (#[trigger] big[j]@[r])@ == glyph_rows(number[j])[r]
}

impl NumberDrawer {
    /// Draws the characters of `number` side by side, each as its glyph, one
    /// text line per glyph row; as many rows as the first glyph has.
    pub fn draw(number: &str) -> (res: String)
        requires
            drawable(number@),
        ensures
            res@ == drawing(number@),
    {
        let digits = chars_of(number);
        let n = digits.len();
        let mut big: Vec<Vec<Vec<char>>> = Vec::new();
        let mut i: usize = 0;
        while i < n
            invariant
                n == number@.len(),
                digits@ == number@,
                i <= n,
                glyph_rows_loaded(big@, number@, i as int),
            decreases n - i,
        {
            let big_number = Self::enlarge(&digits[i]);
            let rows = lines_of(big_number.as_str());
            let ghost before = big@;
            big.push(rows);
            assert(big@[i as int] == rows);
            assert forall|j: int, r: int| 0 <= j < i + 1 && 0 <= r < big@[j]@.len() implies (#[trigger] big@[j]@[r])@ == glyph_rows(number@[j])[r] by {
                if j < i {
                    assert(big@[j] == before[j]);
                }
            }
            assert forall|j: int| 0 <= j < i + 1 implies (#[trigger] big@[j])@.len() == glyph_rows(number@[j]).len() by {
                if j < i {
                    assert(big@[j] == before[j]);
                }
            }
            i = i + 1;
        }
        let height = big[0].len();
        assert(height == drawn_height(number@));
        let mut out = String::new();
        let mut k: usize = 0;
        while k < height
            invariant
                n == number@.len(),
                drawable(number@),
                glyph_rows_loaded(big@, number@, n as int),
                height == drawn_height(number@),
                k <= height,
                out@ == joined(drawn_rows(number@, k as nat)),
            decreases height - k,
        {
            let ghost prefix = out@;
            if k > 0 {
                push_char(&mut out, '\n');
            }
            let ghost base = out@;
            let mut d: usize = 0;
            while d < n
                invariant
                    n == number@.len(),
                    drawable(number@),
                    glyph_rows_loaded(big@, number@, n as int),
                    height == drawn_height(number@),
                    k < height,
                    d <= n,
                    out@ == base + drawn_row(number@, k as int, d as nat),
                decreases n - d,
            {
                assert(glyph_rows(number@[d as int]).len() >= height);
                let row = &big[d][k];
                assert(row@ == glyph_rows(number@[d as int])[k as int]);
                let ghost mid = out@;
                let w = row.len();
                let mut c: usize = 0;
                while c < w
                    invariant
                        w == row@.len(),
                        c <= w,
                        out@ == mid + row@.subrange(0, c as int),
                    decreases w - c,
                {
                    push_char(&mut out, row[c]);
                    c = c + 1;
                    assert(out@ =~= mid + row@.subrange(0, c as int));
                }
                assert(row@.subrange(0, w as int) =~= row@);
                d = d + 1;
                assert(out@ =~= base + drawn_row(number@, k as int, d as nat));
            }
            proof {
                let rows_next = drawn_rows(number@, (k + 1) as nat);
                assert(rows_next.drop_last() =~= drawn_rows(number@, k as nat));
                assert(rows_next.last() == drawn_row(number@, k as int, n as nat));
                assert(out@ =~= joined(rows_next));
            }
            k = k + 1;
        }
        push_char(&mut out, '\n');
        out
    }

    /// Whether `draw` can draw the string: it is not empty, and no glyph has
    /// fewer rows than the first one.
    pub fn can_draw(number: &str) -> (res: bool)
        ensures
            res == drawable(number@),
    {
        let digits = chars_of(number);
        let n = digits.len();
        if n == 0 {
            return false;
        }
        let first = Self::enlarge(&digits[0]);
        let height = lines_of(first.as_str()).len();
        let mut i: usize = 0;
        while i < n
            invariant
                n == number@.len(),
                digits@ == number@,
                n > 0,
                height == drawn_height(number@),
                i <= n,
                forall|j: int| 0 <= j < i ==> #[trigger] glyph_rows(number@[j]).len() >= height,
            decreases n - i,
        {
            let g = Self::enlarge(&digits[i]);
            if lines_of(g.as_str()).len() < height {
                assert(glyph_rows(number@[i as int]).len() < drawn_height(number@));
                return false;
            }
            i = i + 1;
        }
        true
    }

    /// The glyph of a character: the large digit for `'0'` to `'9'`, `"NONE"` otherwise.
    pub fn enlarge(digit: &char) -> (res: String)
        ensures
            res@ == glyph(*digit),
    {
        match digit {
            '0' => String::from_str(GLYPH_ZERO),
            '1' => String::from_str(GLYPH_ONE),
            '2' => String::from_str(GLYPH_TWO),
            '3' => String::from_str(GLYPH_THREE),
            '4' => String::from_str(GLYPH_FOUR),
            '5' => String::from_str(GLYPH_FIVE),
            '6' => String::from_str(GLYPH_SIX),
            '7' => String::from_str(GLYPH_SEVEN),
            '8' => String::from_str(GLYPH_EIGHT),
            '9' => String::from_str(GLYPH_NINE),
            _ => String::from_str(GLYPH_OTHER),
        }
    }
}

} // verus!

verus! {

/// The rows of the glyph of `0`.
pub open spec fn rows_zero() -> Seq<Seq<char>> {
    seq![
        seq![],
        seq!['╔', '═', '═', '═', '╗'],
        seq!['║', '╔', '═', '╗', '║'],
        seq!['║', '║', ' ', '║', '║'],
        seq!['║', '║', ' ', '║', '║'],
        seq!['║', '╚', '═', '╝', '║'],
        seq!['╚', '═', '═', '═', '╝'],
    ]
}

/// The rows of the glyph of `1`.
pub open spec fn rows_one() -> Seq<Seq<char>> {
    seq![
        seq![],
        seq![' ', ' ', '╔', '╗', ' '],
        seq![' ', '╔', '╝', '║', ' '],
        seq![' ', '╚', '╗', '║', ' '],
        seq![' ', ' ', '║', '║', ' '],
        seq![' ', '╔', '╝', '╚', '╗'],
        seq![' ', '╚', '═', '═', '╝'],
    ]
}

/// The rows of the glyph of `2`.
pub open spec fn rows_two() -> Seq<Seq<char>> {
    seq![
        seq![],
        seq!['╔', '═', '═', '═', '╗'],
        seq!['║', '╔', '═', '╗', '║'],
        seq!['╚', '╝', '╔', '╝', '║'],
        seq!['╔', '═', '╝', '╔', '╝'],
        seq!['║', '║', '╚', '═', '╗'],
        seq!['╚', '═', '═', '═', '╝'],
    ]
}

/// The rows of the glyph of `3`.
pub open spec fn rows_three() -> Seq<Seq<char>> {
    seq![
        seq![],
        seq!['╔', '═', '═', '═', '╗'],
        seq!['║', '╔', '═', '╗', '║'],
        seq!['╚', '╝', '╔', '╝', '║'],
        seq!['╔', '╗', '╚', '╗', '║'],
        seq!['║', '╚', '═', '╝', '║'],
        seq!['╚', '═', '═', '═', '╝'],
    ]
}

/// The rows of the glyph of `4`.
pub open spec fn rows_four() -> Seq<Seq<char>> {
    seq![
        seq![],
        seq!['╔', '╗', ' ', '╔', '╗'],
        seq!['║', '║', ' ', '║', '║'],
        seq!['║', '╚', '═', '╝', '║'],
        seq!['╚', '═', '═', '╗', '║'],
        seq![' ', ' ', ' ', '║', '║'],
        seq![' ', ' ', ' ', '╚', '╝'],
        seq![],
    ]
}

/// The rows of the glyph of `5`.
pub open spec fn rows_five() -> Seq<Seq<char>> {
    seq![
        seq![],
        seq!['╔', '═', '═', '═', '╗'],
        seq!['║', '╔', '═', '═', '╝'],
        seq!['║', '╚', '═', '═', '╗'],
        seq!['╚', '═', '═', '╗', '║'],
        seq!['╔', '═', '═', '╝', '║'],
        seq!['╚', '═', '═', '═', '╝'],
        seq![],
    ]
}

/// The rows of the glyph of `6`.
pub open spec fn rows_six() -> Seq<Seq<char>> {
    seq![
        seq![],
        seq!['╔', '═', '═', '═', '╗'],
        seq!['║', '╔', '═', '═', '╝'],
        seq!['║', '╚', '═', '═', '╗'],
        seq!['║', '╔', '═', '╗', '║'],
        seq!['║', '╚', '═', '╝', '║'],
        seq!['╚', '═', '═', '═', '╝'],
        seq![],
    ]
}

/// The rows of the glyph of `7`.
pub open spec fn rows_seven() -> Seq<Seq<char>> {
    seq![
        seq![],
        seq!['╔', '═', '═', '═', '╗'],
        seq!['║', '╔', '═', '╗', '║'],
        seq!['╚', '╝', '╔', '╝', '║'],
        seq![' ', ' ', '║', '╔', '╝'],
        seq![' ', ' ', '║', '║', ' '],
        seq![' ', ' ', '╚', '╝', ' '],
        seq![],
    ]
}

/// The rows of the glyph of `8`.
pub open spec fn rows_eight() -> Seq<Seq<char>> {
    seq![
        seq![],
        seq!['╔', '═', '═', '═', '╗'],
        seq!['║', '╔', '═', '╗', '║'],
        seq!['║', '╚', '═', '╝', '║'],
        seq!['║', '╔', '═', '╗', '║'],
        seq!['║', '╚', '═', '╝', '║'],
        seq!['╚', '═', '═', '═', '╝'],
        seq![],
    ]
}

/// The rows of the glyph of `9`.
pub open spec fn rows_nine() -> Seq<Seq<char>> {
    seq![
        seq![],
        seq!['╔', '═', '═', '═', '╗'],
        seq!['║', '╔', '═', '╗', '║'],
        seq!['║', '╚', '═', '╝', '║'],
        seq!['╚', '═', '═', '╗', '║'],
        seq!['╔', '═', '═', '╝', '║'],
        seq!['╚', '═', '═', '═', '╝'],
        seq![],
    ]
}

/// The rows of the glyph of a digit.
pub open spec fn digit_rows(c: char) -> Seq<Seq<char>> {
    if c == '0' {
        rows_zero()
    } else if c == '1' {
        rows_one()
    } else if c == '2' {
        rows_two()
    } else if c == '3' {
        rows_three()
    } else if c == '4' {
        rows_four()
    } else if c == '5' {
        rows_five()
    } else if c == '6' {
        rows_six()
    } else if c == '7' {
        rows_seven()
    } else if c == '8' {
        rows_eight()
    } else if c == '9' {
        rows_nine()
    } else {
        seq![]
    }
}

/// A character is a decimal digit.
pub open spec fn is_digit(c: char) -> bool {
    '0' <= c && c <= '9'
}

/// Rows that hold neither `'\n'` nor `'\r'`, and at least one row.
pub open spec fn plain_rows(r: Seq<Seq<char>>) -> bool {
    &&& r.len() >= 1
    &&& forall|i: int, j: int| 0 <= i < r.len() && 0 <= j < r[i].len() ==> #[trigger] r[i][j] != '\n' && r[i][j] != '\r'
}

/// Appending characters that hold no newline extends the last piece.
proof fn lemma_split_append_plain(s: Seq<char>, t: Seq<char>)
    requires
        forall|j: int| 0 <= j < t.len() ==> #[trigger] t[j] != '\n',
    ensures
        split_newlines(s + t) == split_newlines(s).update(
            split_newlines(s).len() - 1,
            split_newlines(s).last() + t,
        ),
    decreases t.len(),
{
    lemma_split_newlines_nonempty(s);
    if t.len() == 0 {
        assert(s + t =~= s);
        assert(split_newlines(s).last() + t =~= split_newlines(s).last());
        assert(split_newlines(s).update(split_newlines(s).len() - 1, split_newlines(s).last()) =~= split_newlines(s));
    } else {
        let t1 = t.drop_last();
        lemma_split_append_plain(s, t1);
        assert((s + t).drop_last() =~= s + t1);
        assert((s + t).last() == t.last());
        let p = split_newlines(s);
        assert(t[t.len() - 1] != '\n');
        let q = split_newlines(s + t1);
        assert(q.len() == p.len());
        assert(q.last() == p.last() + t1);
        assert((p.last() + t1).push(t.last()) =~= p.last() + t);
        assert(split_newlines(s + t) =~= p.update(p.len() - 1, p.last() + t));
    }
}

/// Splitting rows joined with newlines gives the rows back.
proof fn lemma_split_joined(r: Seq<Seq<char>>)
    requires
        plain_rows(r),
    ensures
        split_newlines(joined(r)) == r,
    decreases r.len(),
{
    if r.len() == 1 {
        assert(r[0] =~= Seq::<char>::empty() + r[0]);
        assert forall|j: int| 0 <= j < r[0].len() implies #[trigger] r[0][j] != '\n' by {
            assert(r[0][j] != '\n' && r[0][j] != '\r');
        }
        lemma_split_append_plain(Seq::<char>::empty(), r[0]);
        assert(split_newlines(Seq::<char>::empty()) =~= seq![seq![]]);
        assert(split_newlines(r[0]) =~= r);
    } else {
        let r1 = r.drop_last();
        assert forall|i: int, j: int| 0 <= i < r1.len() && 0 <= j < r1[i].len() implies #[trigger] r1[i][j] != '\n' && r1[i][j] != '\r' by {
            assert(r1[i] == r[i]);
            assert(r[i][j] != '\n' && r[i][j] != '\r');
        }
        lemma_split_joined(r1);
        let s = joined(r1) + seq!['\n'];
        assert(s.drop_last() =~= joined(r1));
        assert(split_newlines(s) == r1.push(seq![]));
        assert forall|j: int| 0 <= j < r.last().len() implies #[trigger] r.last()[j] != '\n' by {
            assert(r[r.len() - 1][j] != '\n' && r[r.len() - 1][j] != '\r');
        }
        lemma_split_append_plain(s, r.last());
        assert(joined(r) == s + r.last());
        assert(split_newlines(joined(r)) =~= r);
    }
}

/// The lines of rows joined with newlines and ended with one are the rows.
pub proof fn lemma_lines_of_joined(r: Seq<Seq<char>>)
    requires
        plain_rows(r),
    ensures
        lines(joined(r) + seq!['\n']) == r,
{
    let s = joined(r) + seq!['\n'];
    assert(s.drop_last() =~= joined(r));
    lemma_split_joined(r);
    assert forall|i: int| 0 <= i < r.len() implies strip_cr(#[trigger] r[i]) == r[i] by {
        if r[i].len() > 0 {
            assert(r[i][r[i].len() - 1] != '\r');
        }
    }
    assert(lines(s) =~= r);
}

/// The glyph of `0` is its rows, each ended by a newline.
proof fn lemma_glyph_zero()
    ensures
        glyph('0') == joined(rows_zero()) + seq!['\n'],
        plain_rows(rows_zero()),
        rows_zero().len() == 7,
{
    reveal_strlit("\n╔═══╗\n║╔═╗║\n║║ ║║\n║║ ║║\n║╚═╝║\n╚═══╝\n");
    reveal_with_fuel(joined, 8);
    assert(glyph('0') =~= joined(rows_zero()) + seq!['\n']);
}

/// The glyph of `1` is its rows, each ended by a newline.
proof fn lemma_glyph_one()
    ensures
        glyph('1') == joined(rows_one()) + seq!['\n'],
        plain_rows(rows_one()),
        rows_one().len() == 7,
{
    reveal_strlit("\n  ╔╗ \n ╔╝║ \n ╚╗║ \n  ║║ \n ╔╝╚╗\n ╚══╝\n");
    reveal_with_fuel(joined, 8);
    assert(glyph('1') =~= joined(rows_one()) + seq!['\n']);
}

/// The glyph of `2` is its rows, each ended by a newline.
proof fn lemma_glyph_two()
    ensures
        glyph('2') == joined(rows_two()) + seq!['\n'],
        plain_rows(rows_two()),
        rows_two().len() == 7,
{
    reveal_strlit("\n╔═══╗\n║╔═╗║\n╚╝╔╝║\n╔═╝╔╝\n║║╚═╗\n╚═══╝\n");
    reveal_with_fuel(joined, 8);
    assert(glyph('2') =~= joined(rows_two()) + seq!['\n']);
}

/// The glyph of `3` is its rows, each ended by a newline.
proof fn lemma_glyph_three()
    ensures
        glyph('3') == joined(rows_three()) + seq!['\n'],
        plain_rows(rows_three()),
        rows_three().len() == 7,
{
    reveal_strlit("\n╔═══╗\n║╔═╗║\n╚╝╔╝║\n╔╗╚╗║\n║╚═╝║\n╚═══╝\n");
    reveal_with_fuel(joined, 8);
    assert(glyph('3') =~= joined(rows_three()) + seq!['\n']);
}

/// The glyph of `4` is its rows, each ended by a newline.
proof fn lemma_glyph_four()
    ensures
        glyph('4') == joined(rows_four()) + seq!['\n'],
        plain_rows(rows_four()),
        rows_four().len() == 8,
{
    reveal_strlit("\n╔╗ ╔╗\n║║ ║║\n║╚═╝║\n╚══╗║\n   ║║\n   ╚╝\n\n");
    reveal_with_fuel(joined, 9);
    assert(glyph('4') =~= joined(rows_four()) + seq!['\n']);
}

/// The glyph of `5` is its rows, each ended by a newline.
proof fn lemma_glyph_five()
    ensures
        glyph('5') == joined(rows_five()) + seq!['\n'],
        plain_rows(rows_five()),
        rows_five().len() == 8,
{
    reveal_strlit("\n╔═══╗\n║╔══╝\n║╚══╗\n╚══╗║\n╔══╝║\n╚═══╝\n\n");
    reveal_with_fuel(joined, 9);
    assert(glyph('5') =~= joined(rows_five()) + seq!['\n']);
}

/// The glyph of `6` is its rows, each ended by a newline.
proof fn lemma_glyph_six()
    ensures
        glyph('6') == joined(rows_six()) + seq!['\n'],
        plain_rows(rows_six()),
        rows_six().len() == 8,
{
    reveal_strlit("\n╔═══╗\n║╔══╝\n║╚══╗\n║╔═╗║\n║╚═╝║\n╚═══╝\n\n");
    reveal_with_fuel(joined, 9);
    assert(glyph('6') =~= joined(rows_six()) + seq!['\n']);
}

/// The glyph of `7` is its rows, each ended by a newline.
proof fn lemma_glyph_seven()
    ensures
        glyph('7') == joined(rows_seven()) + seq!['\n'],
        plain_rows(rows_seven()),
        rows_seven().len() == 8,
{
    reveal_strlit("\n╔═══╗\n║╔═╗║\n╚╝╔╝║\n  ║╔╝\n  ║║ \n  ╚╝ \n\n");
    reveal_with_fuel(joined, 9);
    assert(glyph('7') =~= joined(rows_seven()) + seq!['\n']);
}

/// The glyph of `8` is its rows, each ended by a newline.
proof fn lemma_glyph_eight()
    ensures
        glyph('8') == joined(rows_eight()) + seq!['\n'],
        plain_rows(rows_eight()),
        rows_eight().len() == 8,
{
    reveal_strlit("\n╔═══╗\n║╔═╗║\n║╚═╝║\n║╔═╗║\n║╚═╝║\n╚═══╝\n\n");
    reveal_with_fuel(joined, 9);
    assert(glyph('8') =~= joined(rows_eight()) + seq!['\n']);
}

/// The glyph of `9` is its rows, each ended by a newline.
proof fn lemma_glyph_nine()
    ensures
        glyph('9') == joined(rows_nine()) + seq!['\n'],
        plain_rows(rows_nine()),
        rows_nine().len() == 8,
{
    reveal_strlit("\n╔═══╗\n║╔═╗║\n║╚═╝║\n╚══╗║\n╔══╝║\n╚═══╝\n\n");
    reveal_with_fuel(joined, 9);
    assert(glyph('9') =~= joined(rows_nine()) + seq!['\n']);
}

/// The glyph of a digit is its rows, each ended by a newline, and its rows are its lines.
pub proof fn lemma_digit_glyph(c: char)
    requires
        is_digit(c),
    ensures
        glyph(c) == joined(digit_rows(c)) + seq!['\n'],
        plain_rows(digit_rows(c)),
        glyph_rows(c) == digit_rows(c),
        glyph_rows(c).len() == (if c <= '3' { 7nat } else { 8nat }),
{
    if c == '0' {
        lemma_glyph_zero();
    } else if c == '1' {
        lemma_glyph_one();
    } else if c == '2' {
        lemma_glyph_two();
    } else if c == '3' {
        lemma_glyph_three();
    } else if c == '4' {
        lemma_glyph_four();
    } else if c == '5' {
        lemma_glyph_five();
    } else if c == '6' {
        lemma_glyph_six();
    } else if c == '7' {
        lemma_glyph_seven();
    } else if c == '8' {
        lemma_glyph_eight();
    } else if c == '9' {
        lemma_glyph_nine();
    }
    lemma_lines_of_joined(digit_rows(c));
}

/// Any other character is drawn as the single row `NONE`.
pub proof fn lemma_other_glyph(c: char)
    requires
        !is_digit(c),
    ensures
        glyph_rows(c) == seq![GLYPH_OTHER@],
{
    reveal_strlit("NONE");
    let s = GLYPH_OTHER@;
    assert(s.last() != '\n');
    assert forall|j: int| 0 <= j < s.len() implies #[trigger] s[j] != '\n' by {}
    lemma_split_append_plain(Seq::<char>::empty(), s);
    assert(Seq::<char>::empty() + s =~= s);
    assert(split_newlines(Seq::<char>::empty()) =~= seq![seq![]]);
    assert(split_newlines(s) =~= seq![s]);
    assert(lines(s) =~= seq![s]);
}

} // verus!
