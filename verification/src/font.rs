//! Glyph tables of bitmap fonts. A font file holds one glyph per line, as
//! comma-separated fields: the character (a single digit that is also its
//! id), then its x, y, width, height, x offset, y offset and x advance.

use vstd::prelude::*;

verus! {

broadcast use vstd::string::group_string_axioms;

/// Where a character sits in a font texture and how it is laid out.
#[derive(Clone, Copy, Debug, PartialEq, Eq)]
pub struct Glyph {
    pub character: char,
    pub x: i32,
    pub y: i32,
    pub width: i32,
    pub height: i32,
    pub xoffset: i32,
    pub yoffset: i32,
    pub xadvance: i32,
}

/// The pieces of `s` between occurrences of `sep`, as `str::split` yields
/// them: one more piece than there are separators.
pub open spec fn split_on(s: Seq<char>, sep: char) -> Seq<Seq<char>>
    decreases s.len(),
{
    if s.len() == 0 {
        seq![Seq::empty()]
    } else {
        let rest = split_on(s.drop_last(), sep);
        if s.last() == sep {
            rest.push(Seq::empty())
        } else {
            rest.update(rest.len() - 1, rest.last().push(s.last()))
        }
    }
}

pub open spec fn is_digit(c: char) -> bool {
    '0' <= c <= '9'
}

pub open spec fn all_digits(s: Seq<char>) -> bool {
    forall|i: int| 0 <= i < s.len() ==> is_digit(#[trigger] s[i])
}

/// The decimal value of a string of digits.
pub open spec fn digits_value(s: Seq<char>) -> int
    decreases s.len(),
{
    if s.len() == 0 {
        0
    } else {
        10 * digits_value(s.drop_last()) + (s.last() as int - '0' as int)
    }
}

/// What `i32::from_str` gives for `s`: an optional sign followed by at least
/// one decimal digit, with a value inside the range of `i32`.
pub open spec fn parse_i32(s: Seq<char>) -> Option<i32> {
    let negative = s.len() > 0 && s[0] == '-';
    let digits = if s.len() > 0 && (s[0] == '+' || s[0] == '-') {
        s.drop_first()
    } else {
        s
    };
    let value = if negative {
        -digits_value(digits)
    } else {
        digits_value(digits)
    };
    if digits.len() > 0 && all_digits(digits) && i32::MIN <= value <= i32::MAX {
        Some(value as i32)
    } else {
        None
    }
}

/// The glyph a line describes, when both `usize` and `char` parse its first
/// field (so it is a single digit) and `i32` parses the next seven.
pub open spec fn glyph_of_line(line: Seq<char>) -> Option<Glyph> {
    let c = split_on(line, ',');
    if c.len() >= 8 && c[0].len() == 1 && is_digit(c[0][0]) && parse_i32(c[1]) is Some
        && parse_i32(c[2]) is Some && parse_i32(c[3]) is Some && parse_i32(c[4]) is Some
        && parse_i32(c[5]) is Some && parse_i32(c[6]) is Some && parse_i32(c[7]) is Some {
        Some(
            Glyph {
                character: c[0][0],
                x: parse_i32(c[1])->0,
                y: parse_i32(c[2])->0,
                width: parse_i32(c[3])->0,
                height: parse_i32(c[4])->0,
                xoffset: parse_i32(c[5])->0,
                yoffset: parse_i32(c[6])->0,
                xadvance: parse_i32(c[7])->0,
            },
        )
    } else {
        None
    }
}

/// The glyph table after reading the first `n` lines: each glyph is stored
/// at the code of its character, a later line replacing an earlier one.
pub open spec fn table_after(lines: Seq<Seq<char>>, n: nat) -> Seq<Option<Glyph>>
    decreases n,
{
    if n == 0 {
        Seq::new(256, |i: int| None)
    } else {
        let glyph = glyph_of_line(lines[n - 1])->0;
        table_after(lines, (n - 1) as nat).update(glyph.character as int, Some(glyph))
    }
}

/// The glyph table of a whole font file.
pub open spec fn glyph_table(contents: Seq<char>) -> Seq<Option<Glyph>> {
    let lines = split_on(contents, '\n');
    table_after(lines, lines.len())
}

/// Every line of the file describes a glyph.
pub open spec fn valid_font_file(contents: Seq<char>) -> bool {
    let lines = split_on(contents, '\n');
    forall|k: int| 0 <= k < lines.len() ==> #[trigger] glyph_of_line(lines[k]) is Some
}

proof fn lemma_split_on_nonempty(s: Seq<char>, sep: char)
    ensures
        split_on(s, sep).len() >= 1,
    decreases s.len(),
{
    if s.len() > 0 {
        lemma_split_on_nonempty(s.drop_last(), sep);
    }
}

/// The value of a string of digits never falls below that of its prefixes.
proof fn lemma_digits_value_grows(s: Seq<char>, k: int)
    requires
        0 <= k <= s.len(),
        all_digits(s),
    ensures
        0 <= digits_value(s.take(k)) <= digits_value(s),
    decreases s.len() - k,
{
    if k < s.len() {
        lemma_digits_value_grows(s, k + 1);
        assert(s.take(k + 1).drop_last() =~= s.take(k));
        assert(is_digit(s[k]));
    } else {
        assert(s.take(k) =~= s);
        lemma_digits_value_nonneg(s);
    }
}

proof fn lemma_digits_value_nonneg(s: Seq<char>)
    requires
        all_digits(s),
    ensures
        digits_value(s) >= 0,
    decreases s.len(),
{
    if s.len() > 0 {
        assert(all_digits(s.drop_last())) by {
            assert forall|i: int| 0 <= i < s.drop_last().len() implies is_digit(
                #[trigger] s.drop_last()[i],
            ) by {
                assert(s.drop_last()[i] == s[i]);
            }
        }
        lemma_digits_value_nonneg(s.drop_last());
        assert(is_digit(s[s.len() - 1]));
    }
}

/// The characters of `line`, in order.
fn chars_of(line: &str) -> (res: Vec<char>)
    ensures
        res@ == line@,
{
    let mut out: Vec<char> = Vec::new();
    for c in it: line.chars()
        invariant
            out@ == it.history(),
    {
        out.push(c);
    }
    out
}

/// The pieces of `s` between occurrences of `sep`.
fn split_chars(s: &Vec<char>, sep: char) -> (pieces: Vec<Vec<char>>)
    ensures
        pieces@.len() == split_on(s@, sep).len(),
        forall|k: int| 0 <= k < pieces@.len() ==> #[trigger] pieces@[k]@ == split_on(s@, sep)[k],
{
    let mut done: Vec<Vec<char>> = Vec::new();
    let mut current: Vec<char> = Vec::new();
    let mut i: usize = 0;
    while i < s.len()
        invariant
            i <= s@.len(),
            split_on(s@.take(i as int), sep).len() == done@.len() + 1,
            forall|k: int| 0 <= k < done@.len() ==> #[trigger] done@[k]@ == split_on(s@.take(i as int), sep)[k],
            current@ == split_on(s@.take(i as int), sep).last(),
        decreases s@.len() - i,
    {
        let c = s[i];
        proof {
            assert(s@.take(i as int + 1).drop_last() =~= s@.take(i as int));
            assert(s@.take(i as int + 1).last() == c);
            lemma_split_on_nonempty(s@.take(i as int), sep);
        }
        if c == sep {
            done.push(current);
            current = Vec::new();
        } else {
            current.push(c);
        }
        i = i + 1;
    }
    assert(s@.take(s@.len() as int) =~= s@);
    done.push(current);
    done
}

/// Parses a field the way `i32::from_str` does.
fn parse_i32_field(s: &Vec<char>) -> (res: Option<i32>)
    ensures
        res == parse_i32(s@),
{
    let len = s.len();
    let negative = len > 0 && s[0] == '-';
    let start: usize = if len > 0 && (s[0] == '+' || s[0] == '-') { 1 } else { 0 };
    let ghost digits = if s@.len() > 0 && (s@[0] == '+' || s@[0] == '-') {
        s@.drop_first()
    } else {
        s@
    };
    if start >= len {
        return None;
    }
    let mut value: i64 = 0;
    let mut i: usize = start;
    while i < len
        invariant
            start <= i <= len,
            len == s@.len(),
            start < len,
            digits == (if s@.len() > 0 && (s@[0] == '+' || s@[0] == '-') {
                s@.drop_first()
            } else {
                s@
            }),
            start == s@.len() - digits.len(),
            negative == (s@.len() > 0 && s@[0] == '-'),
            all_digits(digits.take(i - start)),
            value == digits_value(digits.take(i - start)),
            0 <= value <= 2147483648,
        decreases len - i,
    {
        let c = s[i];
        proof {
            assert(digits.take(i - start + 1).drop_last() =~= digits.take(i - start));
            assert(digits.take(i - start + 1).last() == c);
        }
        if !('0' <= c && c <= '9') {
            proof {
                assert(digits[i - start] == c);
                assert(!is_digit(digits[i - start]));
            }
            return None;
        }
        let d = (c as u32 - '0' as u32) as i64;
        value = value * 10 + d;
        proof {
            assert(all_digits(digits.take(i - start + 1))) by {
                assert forall|j: int| 0 <= j < digits.take(i - start + 1).len() implies is_digit(
                    #[trigger] digits.take(i - start + 1)[j],
                ) by {
                    if j < i - start {
                        assert(digits.take(i - start + 1)[j] == digits.take(i - start)[j]);
                    }
                }
            }
        }
        if value > 2147483648 {
            proof {
                if all_digits(digits) {
                    lemma_digits_value_grows(digits, i - start + 1);
                }
            }
            return None;
        }
        i = i + 1;
    }
    assert(digits.take(len - start) =~= digits);
    if negative {
        Some((-value) as i32)
    } else if value <= 2147483647 {
        Some(value as i32)
    } else {
        None
    }
}

impl Glyph {
    /// The glyph a font line describes, or `None` when the line is not one.
    pub fn try_from_line(line: &str) -> (res: Option<Glyph>)
        ensures
            res == glyph_of_line(line@),
    {
        let chars = chars_of(line);
        Glyph::try_from_chars(&chars)
    }

    /// The glyph that a line, given as its characters, describes.
    fn try_from_chars(chars: &Vec<char>) -> (res: Option<Glyph>)
        ensures
            res == glyph_of_line(chars@),
    {
        let columns = split_chars(chars, ',');
        if columns.len() < 8 {
            return None;
        }
        if columns[0].len() != 1 || !('0' <= columns[0][0] && columns[0][0] <= '9') {
            return None;
        }
        let character = columns[0][0];
        let x = parse_i32_field(&columns[1]);
        let y = parse_i32_field(&columns[2]);
        let width = parse_i32_field(&columns[3]);
        let height = parse_i32_field(&columns[4]);
        let xoffset = parse_i32_field(&columns[5]);
        let yoffset = parse_i32_field(&columns[6]);
        let xadvance = parse_i32_field(&columns[7]);
        match (x, y, width, height, xoffset, yoffset, xadvance) {
            (Some(x), Some(y), Some(width), Some(height), Some(xoffset), Some(yoffset), Some(xadvance)) => {
                Some(Glyph { character, x, y, width, height, xoffset, yoffset, xadvance })
            },
            _ => None,
        }
    }

    /// The glyph a font line describes.
    pub fn from_line(line: &str) -> (glyph: Glyph)
        requires
            glyph_of_line(line@) is Some,
        ensures
            Some(glyph) == glyph_of_line(line@),
    {
        match Glyph::try_from_line(line) {
            Some(glyph) => glyph,
            None => {
                assert(false);
                Glyph { character: '0', x: 0, y: 0, width: 0, height: 0, xoffset: 0, yoffset: 0, xadvance: 0 }
            },
        }
    }

    /// The glyph table of a font file's contents, or `None` when some line
    /// does not describe a glyph.
    pub fn try_from_csv_contents(contents: &str) -> (res: Option<[Option<Glyph>; 256]>)
        ensures
            res is Some <==> valid_font_file(contents@),
            res matches Some(glyphs) ==> glyphs@ == glyph_table(contents@),
    {
        let chars = chars_of(contents);
        let lines = split_chars(&chars, '\n');
        let ghost spec_lines = split_on(contents@, '\n');
        let mut glyphs: [Option<Glyph>; 256] = [None; 256];
        assert(glyphs@ =~= table_after(spec_lines, 0));
        let mut k: usize = 0;
        while k < lines.len()
            invariant
                k <= lines@.len(),
                spec_lines == split_on(contents@, '\n'),
                lines@.len() == spec_lines.len(),
                forall|j: int| 0 <= j < lines@.len() ==> #[trigger] lines@[j]@ == spec_lines[j],
                forall|j: int| 0 <= j < k ==> #[trigger] glyph_of_line(spec_lines[j]) is Some,
                glyphs@ == table_after(spec_lines, k as nat),
            decreases lines@.len() - k,
        {
            let glyph = match Glyph::try_from_chars(&lines[k]) {
                Some(g) => g,
                None => {
                    assert(!valid_font_file(contents@)) by {
                        assert(glyph_of_line(spec_lines[k as int]) is None);
                    }
                    return None;
                },
            };
            let index = glyph.character as usize;
            glyphs[index] = Some(glyph);
            k = k + 1;
        }
        Some(glyphs)
    }

    /// The glyph table of a font file's contents: each line's glyph stored at
    /// the code of its character.
    pub fn from_csv_contents(contents: &str) -> (glyphs: [Option<Glyph>; 256])
        requires
            valid_font_file(contents@),
        ensures
            glyphs@ == glyph_table(contents@),
    {
        match Glyph::try_from_csv_contents(contents) {
            Some(glyphs) => glyphs,
            None => {
                assert(false);
                [None; 256]
            },
        }
    }
}

/// Every glyph of a table built from valid lines is stored at the code of
/// its own character, and only digits are stored.
pub proof fn lemma_table_entries_at_own_code(lines: Seq<Seq<char>>, n: nat)
    requires
        n <= lines.len(),
        forall|k: int| 0 <= k < lines.len() ==> #[trigger] glyph_of_line(lines[k]) is Some,
    ensures
        table_after(lines, n).len() == 256,
        forall|i: int|
            0 <= i < 256 ==> (#[trigger] table_after(lines, n)[i] matches Some(g) ==> g.character as int == i
                && is_digit(g.character)),
    decreases n,
{
    if n > 0 {
        lemma_table_entries_at_own_code(lines, (n - 1) as nat);
        assert(glyph_of_line(lines[n - 1]) is Some);
    }
}

/// The last line that describes a character decides its glyph: a line's
/// glyph is in the table unless a later line describes the same character.
pub proof fn lemma_last_line_wins(lines: Seq<Seq<char>>, n: nat, k: int)
    requires
        n <= lines.len(),
        0 <= k < n,
        forall|j: int| 0 <= j < lines.len() ==> #[trigger] glyph_of_line(lines[j]) is Some,
        forall|j: int|
            k < j < n ==> (#[trigger] glyph_of_line(lines[j]))->0.character != glyph_of_line(
                lines[k],
            )->0.character,
    ensures
        table_after(lines, n)[glyph_of_line(lines[k])->0.character as int] == glyph_of_line(lines[k]),
    decreases n,
{
    lemma_table_entries_at_own_code(lines, n);
    if n - 1 > k {
        lemma_last_line_wins(lines, (n - 1) as nat, k);
        assert(glyph_of_line(lines[n - 1]) is Some);
        lemma_table_entries_at_own_code(lines, (n - 1) as nat);
    } else {
        lemma_table_entries_at_own_code(lines, (n - 1) as nat);
    }
}

} // verus!
