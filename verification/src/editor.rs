//! The command language of the GIFT coordinate editor.
//!
//! A command is one line of text:
//!
//! ```text
//! help | ?
//! show [IDX | IDX : IDX]
//! set IDX (X, Y, Z)
//! light IDX
//! save [FILENAME] | saveraw [FILENAME]
//! ```
//!
//! where an index is a decimal number that fits in a `u16`, the coordinates are decimal floating
//! point numbers, and a filename is either quoted with `"` or `'` or runs to the next whitespace.
//! [`parse_command`] reads a command from the start of a line and returns the text that follows
//! it along with the command.

use crate::frame::{only_light, single_light_colours, Driver, FrameType, FrameView};
use std::ops::RangeInclusive;
use vstd::prelude::*;
use vstd::std_specs::range::RangeInclusiveView;

verus! {

/// The whitespace that may separate the parts of a command: space, tab, carriage return and line
/// feed.
pub open spec fn is_multispace(c: char) -> bool {
    c == ' ' || c == '\t' || c == '\r' || c == '\n'
}

/// Is this character an ASCII decimal digit?
pub open spec fn is_digit(c: char) -> bool {
    '0' <= c <= '9'
}

/// The end of the run of separating whitespace that starts at `i`.
pub open spec fn ws_end(s: Seq<char>, i: int) -> int
    decreases s.len() - i,
{
    if 0 <= i < s.len() && is_multispace(s[i]) {
        ws_end(s, i + 1)
    } else {
        i
    }
}

/// The end of the run of digits that starts at `i`.
pub open spec fn digits_end(s: Seq<char>, i: int) -> int
    decreases s.len() - i,
{
    if 0 <= i < s.len() && is_digit(s[i]) {
        digits_end(s, i + 1)
    } else {
        i
    }
}

/// The value of the digits `s[i..j]`, read in base 10.
pub open spec fn digits_value(s: Seq<char>, i: int, j: int) -> nat
    decreases j - i,
{
    if j <= i {
        0
    } else {
        digits_value(s, i, j - 1) * 10 + (s[j - 1] as nat - '0' as nat) as nat
    }
}

/// An index at `i`: the longest run of digits there, which must not be empty and whose value must
/// fit in a `u16`. The result is the end of the digits and their value.
pub open spec fn index_at(s: Seq<char>, i: int) -> Option<(int, u16)> {
    let j = digits_end(s, i);
    if j > i && digits_value(s, i, j) <= u16::MAX {
        Some((j, digits_value(s, i, j) as u16))
    } else {
        None
    }
}

/// Does `s` hold `word` at `i`?
pub open spec fn has_word(s: Seq<char>, i: int, word: Seq<char>) -> bool {
    0 <= i && i + word.len() <= s.len() && s.subrange(i, i + word.len()) == word
}

/// The index of the first `c` at or after `i`, or the length of `s` if there is none.
pub open spec fn find_char(s: Seq<char>, i: int, c: char) -> int
    decreases s.len() - i,
{
    if 0 <= i < s.len() && s[i] != c {
        find_char(s, i + 1, c)
    } else {
        i
    }
}

/// Whether a character has the Unicode `White_Space` property (as listed in the Unicode
/// Character Database's PropList.txt): the ASCII controls tab to carriage return, space, next
/// line, no-break space, ogham space mark, the spaces from en quad to hair space, line and
/// paragraph separator, narrow no-break space, medium mathematical space and ideographic space.
pub open spec fn white_space(c: char) -> bool {
    ||| '\u{9}' <= c <= '\u{d}'
    ||| c == ' '
    ||| c == '\u{85}'
    ||| c == '\u{a0}'
    ||| c == '\u{1680}'
    ||| '\u{2000}' <= c <= '\u{200a}'
    ||| c == '\u{2028}'
    ||| c == '\u{2029}'
    ||| c == '\u{202f}'
    ||| c == '\u{205f}'
    ||| c == '\u{3000}'
}

/// The end of the run of characters without the `White_Space` property that starts at `i`.
pub open spec fn name_end(s: Seq<char>, i: int) -> int
    decreases s.len() - i,
{
    if 0 <= i < s.len() && !white_space(s[i]) {
        name_end(s, i + 1)
    } else {
        i
    }
}

/// A plus or minus sign.
pub open spec fn is_sign(c: char) -> bool {
    c == '+' || c == '-'
}

/// Where the mantissa of a decimal float at the start of `t` ends: after an optional sign, either
/// digits, optionally followed by `.` and more optional digits, or `.` followed by digits.
pub open spec fn mantissa_end(t: Seq<char>) -> Option<int> {
    let i: int = if t.len() > 0 && is_sign(t[0]) {
        1
    } else {
        0
    };
    let d = digits_end(t, i);
    if d > i {
        if d < t.len() && t[d] == '.' {
            Some(digits_end(t, d + 1))
        } else {
            Some(d)
        }
    } else if i < t.len() && t[i] == '.' && digits_end(t, i + 1) > i + 1 {
        Some(digits_end(t, i + 1))
    } else {
        None
    }
}

/// Does `t` start with the three letters of `lower` (whose capitals are `upper`), in either
/// case?
pub open spec fn starts_with_letters(t: Seq<char>, lower: Seq<char>, upper: Seq<char>) -> bool {
    &&& t.len() >= 3
    &&& forall|k: int| 0 <= k < 3 ==> t[k] == lower[k] || t[k] == upper[k]
}

/// The length of the decimal float at the start of `t`, if there is one: a mantissa followed by
/// an optional exponent (`e` or `E`, an optional sign and digits); an exponent mark not followed
/// by digits makes the whole float malformed. Without a mantissa, the words `nan` and `inf` (in
/// any case) are floats too.
pub open spec fn float_token_len(t: Seq<char>) -> Option<int> {
    match mantissa_end(t) {
        Some(j) => if j < t.len() && (t[j] == 'e' || t[j] == 'E') {
            let k = if j + 1 < t.len() && is_sign(t[j + 1]) {
                j + 2
            } else {
                j + 1
            };
            if digits_end(t, k) > k {
                Some(digits_end(t, k))
            } else {
                None
            }
        } else {
            Some(j)
        },
        None => if starts_with_letters(t, seq!['n', 'a', 'n'], seq!['N', 'A', 'N'])
            || starts_with_letters(t, seq!['i', 'n', 'f'], seq!['I', 'N', 'F']) {
            Some(3)
        } else {
            None
        },
    }
}

/// The end of the float at `i`, if there is one.
pub open spec fn float_at(s: Seq<char>, i: int) -> Option<int> {
    match float_token_len(s.subrange(i, s.len() as int)) {
        Some(n) => Some(i + n),
        None => None,
    }
}

/// Separating whitespace, then the character `c`: the position after `c`.
pub open spec fn punct_at(s: Seq<char>, i: int, c: char) -> Option<int> {
    let j = ws_end(s, i);
    if j < s.len() && s[j] == c {
        Some(j + 1)
    } else {
        None
    }
}

/// Separating whitespace, then a float: where the float starts and ends.
pub open spec fn float_after(s: Seq<char>, i: int) -> Option<(int, int)> {
    let j = ws_end(s, i);
    match float_at(s, j) {
        Some(e) => Some((j, e)),
        None => None,
    }
}

/// Where each coordinate of a point lies in the text, and where the point ends.
pub struct PointSpans {
    pub x: (int, int),
    pub y: (int, int),
    pub z: (int, int),
    pub end: int,
}

/// A point `(X, Y, Z)` at `i`, with separating whitespace allowed inside the brackets.
pub open spec fn point_at(s: Seq<char>, i: int) -> Option<PointSpans> {
    if 0 <= i < s.len() && s[i] == '(' {
        match float_after(s, i + 1) {
            Some(x) => match punct_at(s, x.1, ',') {
                Some(a) => match float_after(s, a) {
                    Some(y) => match punct_at(s, y.1, ',') {
                        Some(b) => match float_after(s, b) {
                            Some(z) => match punct_at(s, z.1, ')') {
                                Some(end) => Some(PointSpans { x, y, z, end }),
                                None => None,
                            },
                            None => None,
                        },
                        None => None,
                    },
                    None => None,
                },
                None => None,
            },
            None => None,
        }
    } else {
        None
    }
}

/// The closing quote of a quoted filename whose opening quote is at `j`: the filename must not
/// be empty.
pub open spec fn closing_quote(s: Seq<char>, j: int) -> Option<int> {
    let p = find_char(s, j + 1, s[j]);
    if p < s.len() && p > j + 1 {
        Some(p)
    } else {
        None
    }
}

/// A filename after at least one separating whitespace character at `i`: where the name starts,
/// where it ends, and where the text after it starts. A name is quoted with `"` or `'`, or else
/// runs up to the next whitespace.
pub open spec fn filename_at(s: Seq<char>, i: int) -> Option<(int, int, int)> {
    let j = ws_end(s, i);
    if j == i || j >= s.len() {
        None
    } else if (s[j] == '"' || s[j] == '\'') && closing_quote(s, j) is Some {
        let p = closing_quote(s, j)->0;
        Some((j + 1, p, p + 1))
    } else if name_end(s, j) > j {
        Some((j, name_end(s, j), name_end(s, j)))
    } else {
        None
    }
}

/// The arguments of `show` at `i`: `A : B` (with optional separating whitespace around the
/// colon) or a single index `A`, giving the end and the inclusive range.
pub open spec fn show_args_at(s: Seq<char>, i: int) -> Option<(int, u16, u16)> {
    match index_at(s, i) {
        Some((j, a)) => match punct_at(s, j, ':') {
            Some(k) => match index_at(s, ws_end(s, k)) {
                Some((e, b)) => Some((e, a, b)),
                None => Some((j, a, a)),
            },
            None => Some((j, a, a)),
        },
        None => None,
    }
}

/// A command, as mathematical values.
pub enum CommandView {
    Help,
    Show(Option<RangeInclusiveView<usize>>),
    SetPoint(usize, (Seq<char>, Seq<char>, Seq<char>)),
    Light(usize),
    Save(Option<Seq<char>>, bool),
}

/// An inclusive range of light indices, as it is made.
pub open spec fn index_range(a: u16, b: u16) -> RangeInclusiveView<usize> {
    RangeInclusiveView { start: a as usize, end: b as usize, exhausted: false }
}

/// `set IDX (X, Y, Z)`, with the word `set` at the start of `s`.
pub open spec fn set_at(s: Seq<char>) -> Option<(int, CommandView)> {
    let j = ws_end(s, 3);
    if j > 3 {
        match index_at(s, j) {
            Some((k, idx)) => {
                let m = ws_end(s, k);
                if m > k {
                    match point_at(s, m) {
                        Some(p) => Some(
                            (
                                p.end,
                                CommandView::SetPoint(
                                    idx as usize,
                                    (
                                        s.subrange(p.x.0, p.x.1),
                                        s.subrange(p.y.0, p.y.1),
                                        s.subrange(p.z.0, p.z.1),
                                    ),
                                ),
                            ),
                        ),
                        None => None,
                    }
                } else {
                    None
                }
            },
            None => None,
        }
    } else {
        None
    }
}

/// `light IDX`, with the word `light` at the start of `s`.
pub open spec fn light_at(s: Seq<char>) -> Option<(int, CommandView)> {
    let j = ws_end(s, 5);
    if j > 5 {
        match index_at(s, j) {
            Some((k, idx)) => Some((k, CommandView::Light(idx as usize))),
            None => None,
        }
    } else {
        None
    }
}

/// `save` or `saveraw` (ending at `i`), then an optional filename.
pub open spec fn save_at(s: Seq<char>, i: int, raw: bool) -> (int, CommandView) {
    match filename_at(s, i) {
        Some((a, b, e)) => (e, CommandView::Save(Some(s.subrange(a, b)), raw)),
        None => (i, CommandView::Save(None, raw)),
    }
}

/// The command at the start of `s`, and where it ends; `None` if there is no command there.
pub open spec fn parse_command_spec(s: Seq<char>) -> Option<(int, CommandView)> {
    if has_word(s, 0, seq!['h', 'e', 'l', 'p']) {
        Some((4, CommandView::Help))
    } else if has_word(s, 0, seq!['?']) {
        Some((1, CommandView::Help))
    } else if has_word(s, 0, seq!['s', 'h', 'o', 'w']) {
        let i = ws_end(s, 4);
        match show_args_at(s, i) {
            Some((e, a, b)) => Some((e, CommandView::Show(Some(index_range(a, b))))),
            None => Some((i, CommandView::Show(None))),
        }
    } else if has_word(s, 0, seq!['s', 'e', 't']) {
        set_at(s)
    } else if has_word(s, 0, seq!['l', 'i', 'g', 'h', 't']) {
        light_at(s)
    } else if has_word(s, 0, seq!['s', 'a', 'v', 'e', 'r', 'a', 'w']) {
        Some(save_at(s, 7, true))
    } else if has_word(s, 0, seq!['s', 'a', 'v', 'e']) {
        Some(save_at(s, 4, false))
    } else {
        None
    }
}

/// A command of the editor.
#[derive(Debug, PartialEq)]
pub enum Command<'a> {
    /// Show the available commands.
    Help,
    /// Show the coordinates of all lights, or of a range of lights.
    Show(Option<RangeInclusive<usize>>),
    /// Set the coordinates of one light; the coordinates are given as the text of decimal floats.
    SetPoint(usize, (&'a str, &'a str, &'a str)),
    /// Light up the light at this index.
    Light(usize),
    /// Save the coordinates back to the original file or to a new one. The bool says whether the
    /// coordinates are saved raw.
    Save(Option<&'a str>, bool),
}

impl<'a> View for Command<'a> {
    type V = CommandView;

    open spec fn view(&self) -> CommandView {
        match self {
            Command::Help => CommandView::Help,
            Command::Show(r) => CommandView::Show(
                match r {
                    Some(r) => Some(r@),
                    None => None,
                },
            ),
            Command::SetPoint(idx, (x, y, z)) => CommandView::SetPoint(*idx, (x@, y@, z@)),
            Command::Light(idx) => CommandView::Light(*idx),
            Command::Save(name, raw) => CommandView::Save(
                match name {
                    Some(n) => Some(n@),
                    None => None,
                },
                *raw,
            ),
        }
    }
}

/// A line holds no command that the editor understands.
#[derive(Clone, Copy, Debug, PartialEq, Eq, Structural)]
pub enum CommandParseError {
    /// The line does not start with a command.
    UnknownCommand,
}

/// Whether `c` has the Unicode `White_Space` property, as `char::is_whitespace` answers.
fn is_whitespace(c: char) -> (r: bool)
    ensures
        r == white_space(c),
{
    ('\u{9}' <= c && c <= '\u{d}') || c == ' ' || c == '\u{85}' || c == '\u{a0}' || c
        == '\u{1680}' || ('\u{2000}' <= c && c <= '\u{200a}') || c == '\u{2028}' || c
        == '\u{2029}' || c == '\u{202f}' || c == '\u{205f}' || c == '\u{3000}'
}

/// `nom::number::complete::recognize_float_or_exceptions`, the recognizer behind nom's `float`
/// parser: the contract claims that it takes from the start of `input` exactly the float that
/// [`float_token_len`] describes, and fails where that is `None`.
#[verifier::external_body]
fn recognize_float(input: &str) -> (r: Option<&str>)
    ensures
        match float_token_len(input@) {
            Some(n) => r matches Some(tok) && tok@ == input@.subrange(0, n),
            None => r is None,
        },
{
    match nom::number::complete::recognize_float_or_exceptions::<&str, nom::error::Error<&str>>(
        input,
    ) {
        Ok((_rest, token)) => Some(token),
        Err(_) => None,
    }
}

proof fn lemma_ws_end_bounds(s: Seq<char>, i: int)
    requires
        0 <= i <= s.len(),
    ensures
        i <= ws_end(s, i) <= s.len(),
        forall|k: int| i <= k < ws_end(s, i) ==> is_multispace(#[trigger] s[k]),
        ws_end(s, i) < s.len() ==> !is_multispace(s[ws_end(s, i)]),
    decreases s.len() - i,
{
    if i < s.len() && is_multispace(s[i]) {
        lemma_ws_end_bounds(s, i + 1);
    }
}

proof fn lemma_digits_end_bounds(s: Seq<char>, i: int)
    requires
        0 <= i <= s.len(),
    ensures
        i <= digits_end(s, i) <= s.len(),
        forall|k: int| i <= k < digits_end(s, i) ==> is_digit(#[trigger] s[k]),
        digits_end(s, i) < s.len() ==> !is_digit(s[digits_end(s, i)]),
    decreases s.len() - i,
{
    if i < s.len() && is_digit(s[i]) {
        lemma_digits_end_bounds(s, i + 1);
    }
}

/// The value of a run of digits does not shrink as the run grows.
proof fn lemma_digits_value_grows(s: Seq<char>, i: int, k: int, j: int)
    requires
        i <= k <= j,
        forall|m: int| i <= m < j ==> is_digit(#[trigger] s[m]),
    ensures
        digits_value(s, i, k) <= digits_value(s, i, j),
    decreases j - k,
{
    if k < j {
        lemma_digits_value_grows(s, i, k, j - 1);
    }
}

proof fn lemma_find_char_bounds(s: Seq<char>, i: int, c: char)
    requires
        0 <= i <= s.len(),
    ensures
        i <= find_char(s, i, c) <= s.len(),
        forall|k: int| i <= k < find_char(s, i, c) ==> #[trigger] s[k] != c,
        find_char(s, i, c) < s.len() ==> s[find_char(s, i, c)] == c,
    decreases s.len() - i,
{
    if i < s.len() && s[i] != c {
        lemma_find_char_bounds(s, i + 1, c);
    }
}

proof fn lemma_name_end_bounds(s: Seq<char>, i: int)
    requires
        0 <= i <= s.len(),
    ensures
        i <= name_end(s, i) <= s.len(),
    decreases s.len() - i,
{
    if i < s.len() && !white_space(s[i]) {
        lemma_name_end_bounds(s, i + 1);
    }
}

/// A float is never empty and never longer than the text it is taken from.
proof fn lemma_float_token_len_bounds(t: Seq<char>)
    ensures
        float_token_len(t) matches Some(n) ==> 0 < n <= t.len(),
{
    let i: int = if t.len() > 0 && is_sign(t[0]) {
        1
    } else {
        0
    };
    lemma_digits_end_bounds(t, i);
    if i < t.len() {
        lemma_digits_end_bounds(t, i + 1);
    }
    let d = digits_end(t, i);
    if d < t.len() {
        lemma_digits_end_bounds(t, d + 1);
    }
    if let Some(j) = mantissa_end(t) {
        if j < t.len() {
            lemma_digits_end_bounds(t, j + 1);
            if j + 1 < t.len() {
                lemma_digits_end_bounds(t, j + 2);
            }
        }
    }
}

/// Does `s` hold `word` at `i`?
fn has_word_at(s: &Vec<char>, i: usize, word: &[char]) -> (r: bool)
    requires
        i <= s.len(),
    ensures
        r == has_word(s@, i as int, word@),
{
    if word.len() > s.len() - i {
        return false;
    }
    let mut k: usize = 0;
    while k < word.len()
        invariant
            k <= word.len(),
            i + word.len() <= s.len(),
            forall|m: int| 0 <= m < k ==> s@[i + m] == word@[m],
        decreases word.len() - k,
    {
        if s[i + k] != word[k] {
            proof {
                assert(s@.subrange(i as int, i + word.len())[k as int] != word@[k as int]);
            }
            return false;
        }
        k = k + 1;
    }
    proof {
        assert(s@.subrange(i as int, i + word.len()) =~= word@);
    }
    true
}

/// Find the first `c` at or after `i`.
fn find_char_from(s: &Vec<char>, i: usize, c: char) -> (r: usize)
    requires
        i <= s.len(),
    ensures
        r == find_char(s@, i as int, c),
{
    proof {
        lemma_find_char_bounds(s@, i as int, c);
    }
    let mut j = i;
    while j < s.len() && s[j] != c
        invariant
            i <= j <= s.len(),
            find_char(s@, j as int, c) == find_char(s@, i as int, c),
        decreases s.len() - j,
    {
        j = j + 1;
    }
    j
}

/// Find the end of the name that starts at `i`.
fn name_end_from(s: &Vec<char>, i: usize) -> (r: usize)
    requires
        i <= s.len(),
    ensures
        r == name_end(s@, i as int),
{
    proof {
        lemma_name_end_bounds(s@, i as int);
    }
    let mut j = i;
    while j < s.len() && !is_whitespace(s[j])
        invariant
            i <= j <= s.len(),
            name_end(s@, j as int) == name_end(s@, i as int),
        decreases s.len() - j,
    {
        j = j + 1;
    }
    j
}

/// The end of the float at `i`, if there is one.
fn read_float(input: &str, s: &Vec<char>, i: usize) -> (r: Option<usize>)
    requires
        s@ == input@,
        i <= s.len(),
    ensures
        match r {
            Some(e) => float_at(s@, i as int) == Some(e as int) && e <= s.len(),
            None => float_at(s@, i as int) is None,
        },
{
    let rest = input.substring_char(i, s.len());
    proof {
        lemma_float_token_len_bounds(rest@);
    }
    match recognize_float(rest) {
        Some(token) => Some(i + token.unicode_len()),
        None => None,
    }
}

/// Separating whitespace, then the character `c`.
fn read_punct(s: &Vec<char>, i: usize, c: char) -> (r: Option<usize>)
    requires
        i <= s.len(),
    ensures
        match r {
            Some(e) => punct_at(s@, i as int, c) == Some(e as int) && e <= s.len(),
            None => punct_at(s@, i as int, c) is None,
        },
{
    let j = skip_ws(s, i);
    if j < s.len() && s[j] == c {
        Some(j + 1)
    } else {
        None
    }
}

/// Separating whitespace, then a float.
fn read_float_after(input: &str, s: &Vec<char>, i: usize) -> (r: Option<(usize, usize)>)
    requires
        s@ == input@,
        i <= s.len(),
    ensures
        match r {
            Some((a, e)) => float_after(s@, i as int) == Some((a as int, e as int)) && a <= e
                <= s.len(),
            None => float_after(s@, i as int) is None,
        },
{
    let j = skip_ws(s, i);
    match read_float(input, s, j) {
        Some(e) => {
            proof {
                lemma_float_token_len_bounds(s@.subrange(j as int, s@.len() as int));
            }
            Some((j, e))
        },
        None => None,
    }
}

/// A point `(X, Y, Z)` at `i`: where each coordinate lies, and where the point ends.
fn read_point(input: &str, s: &Vec<char>, i: usize) -> (r: Option<
    ((usize, usize), (usize, usize), (usize, usize), usize),
>)
    requires
        s@ == input@,
        i <= s.len(),
    ensures
        match r {
            Some((x, y, z, end)) => {
                &&& point_at(s@, i as int) == Some(
                    PointSpans {
                        x: (x.0 as int, x.1 as int),
                        y: (y.0 as int, y.1 as int),
                        z: (z.0 as int, z.1 as int),
                        end: end as int,
                    },
                )
                &&& x.0 <= x.1 <= s.len() && y.0 <= y.1 <= s.len() && z.0 <= z.1 <= s.len()
                &&& end <= s.len()
            },
            None => point_at(s@, i as int) is None,
        },
{
    if !(i < s.len() && s[i] == '(') {
        return None;
    }
    let x = match read_float_after(input, s, i + 1) {
        Some(x) => x,
        None => return None,
    };
    let a = match read_punct(s, x.1, ',') {
        Some(a) => a,
        None => return None,
    };
    let y = match read_float_after(input, s, a) {
        Some(y) => y,
        None => return None,
    };
    let b = match read_punct(s, y.1, ',') {
        Some(b) => b,
        None => return None,
    };
    let z = match read_float_after(input, s, b) {
        Some(z) => z,
        None => return None,
    };
    let end = match read_punct(s, z.1, ')') {
        Some(end) => end,
        None => return None,
    };
    Some((x, y, z, end))
}

/// A filename after separating whitespace at `i`: where the name starts and ends, and where
/// the text after it starts.
fn read_filename(s: &Vec<char>, i: usize) -> (r: Option<(usize, usize, usize)>)
    requires
        i <= s.len(),
    ensures
        match r {
            Some((a, b, e)) => filename_at(s@, i as int) == Some((a as int, b as int, e as int))
                && a <= b <= e <= s.len(),
            None => filename_at(s@, i as int) is None,
        },
{
    let j = skip_ws(s, i);
    if j == i || j >= s.len() {
        return None;
    }
    if s[j] == '"' || s[j] == '\'' {
        let p = find_char_from(s, j + 1, s[j]);
        proof {
            lemma_find_char_bounds(s@, j + 1, s@[j as int]);
        }
        if p < s.len() && p > j + 1 {
            return Some((j + 1, p, p + 1));
        }
    }
    let e = name_end_from(s, j);
    proof {
        lemma_name_end_bounds(s@, j as int);
    }
    if e > j {
        Some((j, e, e))
    } else {
        None
    }
}

/// The arguments of `show` at `i`.
fn read_show_args(s: &Vec<char>, i: usize) -> (r: Option<(usize, u16, u16)>)
    requires
        i <= s.len(),
    ensures
        match r {
            Some((e, a, b)) => show_args_at(s@, i as int) == Some((e as int, a, b)) && e <= s.len(),
            None => show_args_at(s@, i as int) is None,
        },
{
    proof {
        lemma_digits_end_bounds(s@, i as int);
    }
    match read_index(s, i) {
        Some((j, a)) => {
            match read_punct(s, j, ':') {
                Some(k) => {
                    let m = skip_ws(s, k);
                    proof {
                        lemma_digits_end_bounds(s@, m as int);
                    }
                    match read_index(s, m) {
                        Some((e, b)) => Some((e, a, b)),
                        None => Some((j, a, a)),
                    }
                },
                None => Some((j, a, a)),
            }
        },
        None => None,
    }
}

/// The filename after `save` or `saveraw` (which ends at `i`), if any.
fn read_save<'a>(input: &'a str, s: &Vec<char>, i: usize, raw: bool) -> (r: (usize, Command<'a>))
    requires
        s@ == input@,
        i <= s.len(),
    ensures
        r.0 <= s.len(),
        (r.0 as int, r.1@) == save_at(s@, i as int, raw),
{
    match read_filename(s, i) {
        Some((a, b, e)) => (e, Command::Save(Some(input.substring_char(a, b)), raw)),
        None => (i, Command::Save(None, raw)),
    }
}

/// Read the command at the start of `input`: the result is the rest of the line after the
/// command, and the command.
///
/// A line that should hold nothing but a command is understood only if the rest is empty.
pub fn parse_command<'a>(input: &'a str) -> (r: Result<(&'a str, Command<'a>), CommandParseError>)
    ensures
        match parse_command_spec(input@) {
            Some((n, c)) => r matches Ok((rest, cmd)) && rest@ == input@.subrange(n, input@.len() as int)
                && cmd@ == c,
            None => r == Err::<(&'a str, Command<'a>), CommandParseError>(
                CommandParseError::UnknownCommand,
            ),
        },
{
    let s = chars_of(input);
    let len = s.len();
    let help = ['h', 'e', 'l', 'p'];
    let question = ['?'];
    let show = ['s', 'h', 'o', 'w'];
    let set = ['s', 'e', 't'];
    let light = ['l', 'i', 'g', 'h', 't'];
    let saveraw = ['s', 'a', 'v', 'e', 'r', 'a', 'w'];
    let save = ['s', 'a', 'v', 'e'];
    proof {
        assert(help@ =~= seq!['h', 'e', 'l', 'p']);
        assert(question@ =~= seq!['?']);
        assert(show@ =~= seq!['s', 'h', 'o', 'w']);
        assert(set@ =~= seq!['s', 'e', 't']);
        assert(light@ =~= seq!['l', 'i', 'g', 'h', 't']);
        assert(saveraw@ =~= seq!['s', 'a', 'v', 'e', 'r', 'a', 'w']);
        assert(save@ =~= seq!['s', 'a', 'v', 'e']);
    }
    let found: Option<(usize, Command<'a>)> = if has_word_at(&s, 0, &help) {
        Some((4, Command::Help))
    } else if has_word_at(&s, 0, &question) {
        Some((1, Command::Help))
    } else if has_word_at(&s, 0, &show) {
        let i = skip_ws(&s, 4);
        match read_show_args(&s, i) {
            Some((e, a, b)) => Some((e, Command::Show(Some(RangeInclusive::new(a as usize, b as usize))))),
            None => Some((i, Command::Show(None))),
        }
    } else if has_word_at(&s, 0, &set) {
        read_set(input, &s)
    } else if has_word_at(&s, 0, &light) {
        read_light(&s)
    } else if has_word_at(&s, 0, &saveraw) {
        Some(read_save(input, &s, 7, true))
    } else if has_word_at(&s, 0, &save) {
        Some(read_save(input, &s, 4, false))
    } else {
        None
    };
    match found {
        Some((n, cmd)) => Ok((input.substring_char(n, len), cmd)),
        None => Err(CommandParseError::UnknownCommand),
    }
}

/// `set IDX (X, Y, Z)`, with the word `set` at the start.
fn read_set<'a>(input: &'a str, s: &Vec<char>) -> (r: Option<(usize, Command<'a>)>)
    requires
        s@ == input@,
        has_word(s@, 0, seq!['s', 'e', 't']),
    ensures
        match r {
            Some((n, c)) => set_at(s@) == Some((n as int, c@)) && n <= s.len(),
            None => set_at(s@) is None,
        },
{
    let j = skip_ws(s, 3);
    if j == 3 {
        return None;
    }
    proof {
        lemma_digits_end_bounds(s@, j as int);
    }
    let (k, idx) = match read_index(s, j) {
        Some(v) => v,
        None => return None,
    };
    let m = skip_ws(s, k);
    if m == k {
        return None;
    }
    match read_point(input, s, m) {
        Some((x, y, z, end)) => Some(
            (
                end,
                Command::SetPoint(
                    idx as usize,
                    (
                        input.substring_char(x.0, x.1),
                        input.substring_char(y.0, y.1),
                        input.substring_char(z.0, z.1),
                    ),
                ),
            ),
        ),
        None => None,
    }
}

/// `light IDX`, with the word `light` at the start.
fn read_light<'a>(s: &Vec<char>) -> (r: Option<(usize, Command<'a>)>)
    requires
        has_word(s@, 0, seq!['l', 'i', 'g', 'h', 't']),
    ensures
        match r {
            Some((n, c)) => light_at(s@) == Some((n as int, c@)) && n <= s.len(),
            None => light_at(s@) is None,
        },
{
    let j = skip_ws(s, 5);
    if j == 5 {
        return None;
    }
    proof {
        lemma_digits_end_bounds(s@, j as int);
    }
    match read_index(s, j) {
        Some((k, idx)) => Some((k, Command::Light(idx as usize))),
        None => None,
    }
}

/// The help text before the line about `light`.
pub const HELP_TEXT_COMMANDS: &'static str = r#"Use the following commands to edit the GIFT coordinates in the provided file:

    help  -  Show this help text
    ?     -  Same as help

    show        -  Show all the coordinates in the file
    show 10     -  Show the light at index 10
    show 10:20  -  Show the lights between index 10 and index 20 (inclusive)

    set 10 (0.234, -0.567, 2.345)  -  Set the light at index 10 to have the given coordinate

"#;

/// The line of the help text about `light`, shown only where a driver for the lights is enabled.
pub const HELP_TEXT_LIGHT: &'static str = "    light 10  -  Light up the light at index 10\n\n";

/// The help text after the line about `light`.
pub const HELP_TEXT_SAVING: &'static str = r#"    save             -  Save the new coordinates back to the original file
    save "filename"  -  Save the new coordinates to a given file

    saveraw             -  Save the new coordinates back to the original file without renormalizing them
    saveraw "filename"  -  Save the new coordinates to a given file without renormalizing them

When saving the coordinates to a file, they get re-normalized to fit
within the GIFT coordinate format.

GIFT coordinates are (x, y, z) with z being vertical, going positively
upwards with 0 at the lowest light. x and y are both between -1 and 1
with (0, 0, z) being a point on the trunk of the tree. Positive x is in
the direction of "east" relative to the tree, and positive y is in the
direction of "north" relative to the tree.

Use Ctrl+D with an empty prompt to quit."#;

/// The help text of the editor, which mentions `light` only where a driver for the lights is
/// enabled.
pub fn get_help_text(with_driver: bool) -> (r: String)
    ensures
        r@ == HELP_TEXT_COMMANDS@ + (if with_driver {
            HELP_TEXT_LIGHT@
        } else {
            Seq::empty()
        }) + HELP_TEXT_SAVING@,
{
    let mut text = String::from_str(HELP_TEXT_COMMANDS);
    if with_driver {
        text.append(HELP_TEXT_LIGHT);
    }
    text.append(HELP_TEXT_SAVING);
    proof {
        if !with_driver {
            assert(HELP_TEXT_COMMANDS@ + Seq::<char>::empty() =~= HELP_TEXT_COMMANDS@);
        }
    }
    text
}

/// Does the name end with `.raw`?
pub open spec fn ends_with_raw(name: Seq<char>) -> bool {
    name.len() >= 4 && name.subrange(name.len() - 4, name.len() as int) == seq!['.', 'r', 'a', 'w']
}

/// The file that `save` or `saveraw` writes to: the given name, or else the original file's; raw
/// coordinates go to a name that ends with `.raw` (added if it is missing), normalised ones to a
/// name without it (taken off if it is there).
pub open spec fn save_filename_spec(new_filename: Option<Seq<char>>, original: Seq<char>, raw: bool) -> Seq<
    char,
> {
    let name = match new_filename {
        Some(n) => n,
        None => original,
    };
    if raw {
        if ends_with_raw(name) {
            name
        } else {
            name + seq!['.', 'r', 'a', 'w']
        }
    } else if ends_with_raw(name) {
        name.subrange(0, name.len() - 4)
    } else {
        name
    }
}

/// The file that `save` (or, with `raw`, `saveraw`) writes to.
pub fn save_filename(new_filename: Option<&str>, original_filename: &str, raw: bool) -> (r: String)
    ensures
        r@ == save_filename_spec(
            match new_filename {
                Some(n) => Some(n@),
                None => None,
            },
            original_filename@,
            raw,
        ),
{
    let name: &str = match new_filename {
        Some(n) => n,
        None => original_filename,
    };
    let chars = chars_of(name);
    let n = chars.len();
    let has_raw = n >= 4 && chars[n - 4] == '.' && chars[n - 3] == 'r' && chars[n - 2] == 'a'
        && chars[n - 1] == 'w';
    proof {
        if n >= 4 {
            assert(has_raw == (name@.subrange(n - 4, n as int) =~= seq!['.', 'r', 'a', 'w']));
        }
    }
    if raw {
        let mut filename = String::from_str(name);
        if !has_raw {
            let suffix = ".raw";
            proof {
                reveal_strlit(".raw");
            }
            filename.append(suffix);
        }
        filename
    } else if has_raw {
        String::from_str(name.substring_char(0, n - 4))
    } else {
        String::from_str(name)
    }
}

/// A light that the user asked for does not exist.
#[derive(Clone, Copy, Debug, PartialEq, Eq, Structural)]
pub struct LightIndexError {
    /// The index that was asked for.
    pub idx: usize,
    /// The number of lights there are.
    pub total_lights: usize,
}

/// The driver for the editor, which lights up single lights on request.
pub struct EditorDriver<D: Driver> {
    /// The driver of the lights.
    pub inner: D,
}

impl<D: Driver> EditorDriver<D> {
    /// An editor driver that shows its frames with `inner`.
    pub fn new(inner: D) -> (r: Self)
        ensures
            r.inner == inner,
    {
        EditorDriver { inner }
    }

    /// Light up the light at `idx` of `total_lights`, at full brightness (100%), and turn every
    /// other light off. An index out of bounds is an error, and then nothing is displayed.
    pub fn enable_one_light(&mut self, idx: usize, total_lights: usize) -> (r: Result<
        (),
        LightIndexError,
    >)
        ensures
            idx >= total_lights ==> r == Err::<(), LightIndexError>(
                LightIndexError { idx, total_lights },
            ) && final(self).inner == old(self).inner,
            idx < total_lights ==> r is Ok,
            final(self).inner.records_frames() == old(self).inner.records_frames(),
            final(self).inner.lights() == old(self).inner.lights(),
            idx < total_lights && old(self).inner.records_frames() ==> final(self).inner.displayed()
                == old(self).inner.displayed().push(
                FrameView::RawData(only_light(total_lights as nat, idx as int)),
            ),
            idx < total_lights && old(self).inner.records_frames()
                ==> final(self).inner.brightnesses() == old(self).inner.brightnesses().push(100),
    {
        if idx >= total_lights {
            return Err(LightIndexError { idx, total_lights });
        }
        let colours = single_light_colours(total_lights, idx);
        self.inner.display_frame_with_brightness(FrameType::RawData(colours), 100);
        Ok(())
    }
}

/// The characters of a string, in order.
fn chars_of(input: &str) -> (r: Vec<char>)
    ensures
        r@ == input@,
{
    let mut r: Vec<char> = Vec::new();
    for c in it: input.chars()
        invariant
            r@ == it.seq().take(it.index() as int),
            it.seq() == input@,
    {
        r.push(c);
    }
    r
}

/// Skip the separating whitespace at `i`.
fn skip_ws(s: &Vec<char>, i: usize) -> (r: usize)
    requires
        i <= s.len(),
    ensures
        r == ws_end(s@, i as int),
        i <= r <= s.len(),
{
    proof {
        lemma_ws_end_bounds(s@, i as int);
    }
    let mut j = i;
    while j < s.len() && (s[j] == ' ' || s[j] == '\t' || s[j] == '\r' || s[j] == '\n')
        invariant
            i <= j <= s.len(),
            ws_end(s@, j as int) == ws_end(s@, i as int),
        decreases s.len() - j,
    {
        j = j + 1;
    }
    j
}

/// Read the index at `i`.
fn read_index(s: &Vec<char>, i: usize) -> (r: Option<(usize, u16)>)
    requires
        i <= s.len(),
    ensures
        r matches Some((e, v)) ==> index_at(s@, i as int) == Some((e as int, v)),
        r is None ==> index_at(s@, i as int) is None,
{
    proof {
        lemma_digits_end_bounds(s@, i as int);
    }
    let mut j = i;
    let mut value: u32 = 0;
    let mut overflow = false;
    while j < s.len() && '0' <= s[j] && s[j] <= '9'
        invariant
            i <= j <= s.len(),
            forall|m: int| i <= m < j ==> is_digit(#[trigger] s@[m]),
            digits_end(s@, j as int) == digits_end(s@, i as int),
            !overflow ==> value == digits_value(s@, i as int, j as int),
            !overflow ==> value <= u16::MAX,
            overflow ==> digits_value(s@, i as int, j as int) > u16::MAX,
        decreases s.len() - j,
    {
        let d = s[j] as u32 - '0' as u32;
        if !overflow {
            value = value * 10 + d;
            if value > 65535 {
                overflow = true;
            }
        } else {
            proof {
                lemma_digits_value_grows(s@, i as int, j as int, j + 1);
            }
        }
        j = j + 1;
    }
    if j == i || overflow {
        proof {
            if overflow {
                lemma_digits_value_grows(s@, i as int, j as int, digits_end(s@, i as int));
            }
        }
        None
    } else {
        Some((j, value as u16))
    }
}

/// A command is known by the word it starts with: `help` and `?` ask for help and are read alone;
/// a range to show only follows `show`, a point only follows `set`, a light only follows `light`,
/// and a save is raw exactly when it is written `saveraw`. A line that starts with none of these
/// words holds no command.
pub proof fn law_command_word_decides_command(s: Seq<char>)
    ensures
        has_word(s, 0, seq!['h', 'e', 'l', 'p']) ==> parse_command_spec(s) == Some(
            (4int, CommandView::Help),
        ),
        has_word(s, 0, seq!['?']) ==> parse_command_spec(s) == Some((1int, CommandView::Help)),
        parse_command_spec(s) matches Some((_, CommandView::Help)) ==> has_word(
            s,
            0,
            seq!['h', 'e', 'l', 'p'],
        ) || has_word(s, 0, seq!['?']),
        parse_command_spec(s) matches Some((_, CommandView::Show(_))) ==> has_word(
            s,
            0,
            seq!['s', 'h', 'o', 'w'],
        ),
        has_word(s, 0, seq!['s', 'h', 'o', 'w']) ==> parse_command_spec(s) matches Some(
            (_, CommandView::Show(_)),
        ),
        parse_command_spec(s) matches Some((_, CommandView::SetPoint(_, _))) ==> has_word(
            s,
            0,
            seq!['s', 'e', 't'],
        ),
        parse_command_spec(s) matches Some((_, CommandView::Light(_))) ==> has_word(
            s,
            0,
            seq!['l', 'i', 'g', 'h', 't'],
        ),
        parse_command_spec(s) matches Some((_, CommandView::Save(_, raw))) ==> has_word(
            s,
            0,
            seq!['s', 'a', 'v', 'e'],
        ) && (raw <==> has_word(s, 0, seq!['s', 'a', 'v', 'e', 'r', 'a', 'w'])),
        !has_word(s, 0, seq!['h', 'e', 'l', 'p']) && !has_word(s, 0, seq!['?']) && !has_word(
            s,
            0,
            seq!['s', 'h', 'o', 'w'],
        ) && !has_word(s, 0, seq!['s', 'e', 't']) && !has_word(
            s,
            0,
            seq!['l', 'i', 'g', 'h', 't'],
        ) && !has_word(s, 0, seq!['s', 'a', 'v', 'e']) ==> parse_command_spec(s) is None,
{
    let help = seq!['h', 'e', 'l', 'p'];
    let q = seq!['?'];
    let show = seq!['s', 'h', 'o', 'w'];
    let set = seq!['s', 'e', 't'];
    let light = seq!['l', 'i', 'g', 'h', 't'];
    let saveraw = seq!['s', 'a', 'v', 'e', 'r', 'a', 'w'];
    let save = seq!['s', 'a', 'v', 'e'];
    if has_word(s, 0, saveraw) {
        assert(s.subrange(0, 4) =~= save) by {
            assert(s.subrange(0, 7)[0] == 's' && s.subrange(0, 7)[1] == 'a');
            assert(s.subrange(0, 7)[2] == 'v' && s.subrange(0, 7)[3] == 'e');
        }
    }
    if has_word(s, 0, help) {
        assert(s.subrange(0, 4)[0] == 'h');
    }
    if has_word(s, 0, q) {
        assert(s.subrange(0, 1)[0] == '?');
    }
    if has_word(s, 0, show) {
        assert(s.subrange(0, 4)[0] == 's' && s.subrange(0, 4)[1] == 'h');
    }
    if has_word(s, 0, set) {
        assert(s.subrange(0, 3)[0] == 's' && s.subrange(0, 3)[1] == 'e');
    }
    if has_word(s, 0, light) {
        assert(s.subrange(0, 5)[0] == 'l');
    }
    if has_word(s, 0, save) {
        assert(s.subrange(0, 4)[0] == 's' && s.subrange(0, 4)[1] == 'a');
    }
    if has_word(s, 0, saveraw) {
        assert(s.subrange(0, 7)[0] == 's' && s.subrange(0, 7)[1] == 'a');
    }
}

/// Saving raw and saving normalised coordinates pick files that go together: a raw file is named
/// after the normalised one with `.raw` added, and saving raw to a name that is already a raw
/// file's name keeps that name.
pub proof fn law_raw_file_names(name: Seq<char>, original: Seq<char>)
    requires
        !ends_with_raw(name),
    ensures
        save_filename_spec(Some(name), original, true) == name + seq!['.', 'r', 'a', 'w'],
        save_filename_spec(Some(save_filename_spec(Some(name), original, true)), original, false)
            == name,
        save_filename_spec(Some(save_filename_spec(Some(name), original, true)), original, true)
            == save_filename_spec(Some(name), original, true),
{
    let raw = name + seq!['.', 'r', 'a', 'w'];
    assert(raw.subrange(raw.len() - 4, raw.len() as int) =~= seq!['.', 'r', 'a', 'w']);
    assert(raw.subrange(0, raw.len() - 4) =~= name);
}

} // verus!
