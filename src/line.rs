//! The grammar of one source line:
//! `[label:] [mnemonic [op1 [, op2 [, op3]]]] [# comment]`, with whitespace
//! free around every part.

use vstd::prelude::*;

verus! {

/// Unicode's `White_Space` property.
pub open spec fn space_char(c: char) -> bool {
    ('\u{9}' <= c && c <= '\u{d}') || c == ' ' || c == '\u{85}' || c == '\u{a0}'
        || c == '\u{1680}' || ('\u{2000}' <= c && c <= '\u{200a}') || c == '\u{2028}'
        || c == '\u{2029}' || c == '\u{202f}' || c == '\u{205f}' || c == '\u{3000}'
}

/// Membership in the Unicode word class (`\w`).
pub uninterp spec fn word_char(c: char) -> bool;

pub open spec fn ascii_letter(c: char) -> bool {
    ('a' <= c && c <= 'z') || ('A' <= c && c <= 'Z')
}

pub open spec fn label_start(c: char) -> bool {
    ascii_letter(c) || c == '_'
}

pub open spec fn mnemonic_char(c: char) -> bool {
    ascii_letter(c) || c == '.'
}

/// The end of the run of whitespace that starts at `i`.
pub open spec fn space_end(s: Seq<char>, i: int) -> int
    decreases s.len() - i,
{
    if 0 <= i < s.len() && space_char(s[i]) { space_end(s, i + 1) } else { i }
}

/// The end of the run of word characters that starts at `i`.
pub open spec fn word_end(s: Seq<char>, i: int) -> int
    decreases s.len() - i,
{
    if 0 <= i < s.len() && word_char(s[i]) { word_end(s, i + 1) } else { i }
}

/// The end of the run of mnemonic characters that starts at `i`.
pub open spec fn mnemonic_end(s: Seq<char>, i: int) -> int
    decreases s.len() - i,
{
    if 0 <= i < s.len() && mnemonic_char(s[i]) { mnemonic_end(s, i + 1) } else { i }
}

/// A label at `p`: an identifier, optional whitespace and a colon. Gives the
/// identifier's bounds and where the text after the colon's whitespace starts.
pub open spec fn label_at(s: Seq<char>, p: int) -> Option<(int, int, int)> {
    if 0 <= p < s.len() && label_start(s[p]) {
        let e = word_end(s, p + 1);
        let q = space_end(s, e);
        if q < s.len() && s[q] == ':' {
            Some((p, e, space_end(s, q + 1)))
        } else {
            None
        }
    } else {
        None
    }
}

/// The first operand: at least one whitespace character, then a word.
pub open spec fn first_operand(s: Seq<char>, i: int) -> Option<(int, int)> {
    let q = space_end(s, i);
    if q > i && q < s.len() && word_char(s[q]) {
        Some((q, word_end(s, q + 1)))
    } else {
        None
    }
}

/// A further operand: a comma with optional whitespace around it, then a word.
pub open spec fn next_operand(s: Seq<char>, i: int) -> Option<(int, int)> {
    let q = space_end(s, i);
    if q < s.len() && s[q] == ',' {
        let r = space_end(s, q + 1);
        if r < s.len() && word_char(s[r]) {
            Some((r, word_end(s, r + 1)))
        } else {
            None
        }
    } else {
        None
    }
}

/// Up to three operands after position `i`, and where they end.
pub open spec fn operands_from(s: Seq<char>, i: int) -> (Seq<Seq<char>>, int) {
    match first_operand(s, i) {
        None => (seq![], i),
        Some((a, b)) => match next_operand(s, b) {
            None => (seq![s.subrange(a, b)], b),
            Some((c, d)) => match next_operand(s, d) {
                None => (seq![s.subrange(a, b), s.subrange(c, d)], d),
                Some((e, f)) => (seq![s.subrange(a, b), s.subrange(c, d), s.subrange(e, f)], f),
            },
        },
    }
}

/// What may close a line: whitespace, then nothing or a comment.
pub open spec fn tail_ok(s: Seq<char>, i: int) -> bool {
    let q = space_end(s, i);
    q == s.len() || (q < s.len() && s[q] == '#' && forall|k: int| q < k < s.len() ==> s[k] != '\n')
}

/// The parts of a line that matched the grammar.
pub struct LineModel {
    pub label: Option<Seq<char>>,
    pub mnemonic: Option<Seq<char>>,
    pub operands: Seq<Seq<char>>,
}

/// The parts of a line, or `None` where it does not match the grammar.
pub open spec fn scan_line(s: Seq<char>) -> Option<LineModel> {
    let start = space_end(s, 0);
    let label = match label_at(s, start) {
        Some((a, b, _)) => Some(s.subrange(a, b)),
        None => None,
    };
    let p = match label_at(s, start) {
        Some((_, _, n)) => n,
        None => start,
    };
    if p < s.len() && mnemonic_char(s[p]) {
        let m = mnemonic_end(s, p);
        let ops = operands_from(s, m);
        if tail_ok(s, ops.1) {
            Some(LineModel { label, mnemonic: Some(s.subrange(p, m)), operands: ops.0 })
        } else {
            None
        }
    } else if tail_ok(s, p) {
        Some(LineModel { label, mnemonic: None, operands: seq![] })
    } else {
        None
    }
}

/// Relies on `regex_syntax::is_word_character`: membership in the Unicode
/// `\w` class. With the crate's default `unicode-perl` feature it does not
/// panic.
#[verifier::external_body]
fn is_word_char(c: char) -> (r: bool)
    ensures
        r == word_char(c),
{
    regex_syntax::is_word_character(c)
}

fn is_space_char(c: char) -> (r: bool)
    ensures
        r == space_char(c),
{
    ('\u{9}' <= c && c <= '\u{d}') || c == ' ' || c == '\u{85}' || c == '\u{a0}'
        || c == '\u{1680}' || ('\u{2000}' <= c && c <= '\u{200a}') || c == '\u{2028}'
        || c == '\u{2029}' || c == '\u{202f}' || c == '\u{205f}' || c == '\u{3000}'
}

fn is_ascii_letter(c: char) -> (r: bool)
    ensures
        r == ascii_letter(c),
{
    ('a' <= c && c <= 'z') || ('A' <= c && c <= 'Z')
}

fn skip_spaces(s: &Vec<char>, i: usize) -> (r: usize)
    requires
        i <= s@.len(),
    ensures
        r as int == space_end(s@, i as int),
        i <= r <= s@.len(),
{
    let mut j = i;
    while j < s.len() && is_space_char(s[j])
        invariant
            i <= j <= s@.len(),
            space_end(s@, i as int) == space_end(s@, j as int),
        decreases s@.len() - j,
    {
        j = j + 1;
    }
    j
}

fn skip_word(s: &Vec<char>, i: usize) -> (r: usize)
    requires
        i <= s@.len(),
    ensures
        r as int == word_end(s@, i as int),
        i <= r <= s@.len(),
{
    let mut j = i;
    while j < s.len() && is_word_char(s[j])
        invariant
            i <= j <= s@.len(),
            word_end(s@, i as int) == word_end(s@, j as int),
        decreases s@.len() - j,
    {
        j = j + 1;
    }
    j
}

fn skip_mnemonic(s: &Vec<char>, i: usize) -> (r: usize)
    requires
        i <= s@.len(),
    ensures
        r as int == mnemonic_end(s@, i as int),
        i <= r <= s@.len(),
{
    let mut j = i;
    while j < s.len() && (is_ascii_letter(s[j]) || s[j] == '.')
        invariant
            i <= j <= s@.len(),
            mnemonic_end(s@, i as int) == mnemonic_end(s@, j as int),
        decreases s@.len() - j,
    {
        j = j + 1;
    }
    j
}

fn find_label(s: &Vec<char>, p: usize) -> (r: Option<(usize, usize, usize)>)
    requires
        p <= s@.len(),
    ensures
        match r {
            Some((a, b, n)) => label_at(s@, p as int) == Some((a as int, b as int, n as int))
                && a <= b <= n <= s@.len(),
            None => label_at(s@, p as int) is None,
        },
{
    if p < s.len() && (is_ascii_letter(s[p]) || s[p] == '_') {
        let e = skip_word(s, p + 1);
        let q = skip_spaces(s, e);
        if q < s.len() && s[q] == ':' {
            let n = skip_spaces(s, q + 1);
            return Some((p, e, n));
        }
    }
    None
}

fn find_first_operand(s: &Vec<char>, i: usize) -> (r: Option<(usize, usize)>)
    requires
        i <= s@.len(),
    ensures
        match r {
            Some((a, b)) => first_operand(s@, i as int) == Some((a as int, b as int))
                && i <= a <= b <= s@.len(),
            None => first_operand(s@, i as int) is None,
        },
{
    let q = skip_spaces(s, i);
    if q > i && q < s.len() && is_word_char(s[q]) {
        Some((q, skip_word(s, q + 1)))
    } else {
        None
    }
}

fn find_next_operand(s: &Vec<char>, i: usize) -> (r: Option<(usize, usize)>)
    requires
        i <= s@.len(),
    ensures
        match r {
            Some((a, b)) => next_operand(s@, i as int) == Some((a as int, b as int))
                && i <= a <= b <= s@.len(),
            None => next_operand(s@, i as int) is None,
        },
{
    let q = skip_spaces(s, i);
    if q < s.len() && s[q] == ',' {
        let r = skip_spaces(s, q + 1);
        if r < s.len() && is_word_char(s[r]) {
            return Some((r, skip_word(s, r + 1)));
        }
    }
    None
}

fn check_tail(s: &Vec<char>, i: usize) -> (r: bool)
    requires
        i <= s@.len(),
    ensures
        r == tail_ok(s@, i as int),
{
    let q = skip_spaces(s, i);
    if q == s.len() {
        return true;
    }
    if s[q] != '#' {
        return false;
    }
    let mut k = q + 1;
    while k < s.len()
        invariant
            q < k <= s@.len(),
            q as int == space_end(s@, i as int),
            forall|j: int| q < j < k ==> s@[j] != '\n',
        decreases s@.len() - k,
    {
        if s[k] == '\n' {
            assert(q < k as int && s@[k as int] == '\n');
            return false;
        }
        k = k + 1;
    }
    true
}

/// The characters of a string, one by one.
pub fn chars_of(text: &str) -> (r: Vec<char>)
    ensures
        r@ == text@,
{
    let n = text.unicode_len();
    let mut out: Vec<char> = Vec::new();
    let mut i: usize = 0;
    while i < n
        invariant
            n == text@.len(),
            i <= n,
            out@ == text@.subrange(0, i as int),
        decreases n - i,
    {
        out.push(text.get_char(i));
        assert(text@.subrange(0, i + 1) == text@.subrange(0, i as int).push(text@[i as int]));
        i = i + 1;
    }
    assert(text@ == text@.subrange(0, n as int));
    out
}

/// The text of a line between two character positions.
fn piece(text: &str, a: usize, b: usize) -> (r: String)
    requires
        a <= b <= text@.len(),
    ensures
        r@ == text@.subrange(a as int, b as int),
{
    String::from_str(text.substring_char(a, b))
}

/// The parts of a line that matched the grammar.
#[derive(Clone, Debug)]
pub struct ParsedLine {
    pub label: Option<String>,
    pub mnemonic: Option<String>,
    pub operands: Vec<String>,
}

pub open spec fn opt_view(o: Option<String>) -> Option<Seq<char>> {
    match o {
        Some(s) => Some(s@),
        None => None,
    }
}

impl View for ParsedLine {
    type V = LineModel;

    open spec fn view(&self) -> LineModel {
        LineModel {
            label: opt_view(self.label),
            mnemonic: opt_view(self.mnemonic),
            operands: self.operands@.map_values(|o: String| o@),
        }
    }
}

/// Splits a line into label, mnemonic and operands; `None` where the line
/// does not match the grammar.
pub fn parse_line(line: &str) -> (r: Option<ParsedLine>)
    ensures
        match r {
            Some(p) => scan_line(line@) == Some(p@),
            None => scan_line(line@) is None,
        },
{
    let s = chars_of(line);
    let start = skip_spaces(&s, 0);
    let found = find_label(&s, start);
    let mut label: Option<String> = None;
    let mut p = start;
    if let Some((a, b, n)) = found {
        label = Some(piece(line, a, b));
        p = n;
    }
    assert(opt_view(label) == match label_at(s@, start as int) {
        Some((a, b, _)) => Some(s@.subrange(a, b)),
        None => None::<Seq<char>>,
    });
    if p < s.len() && (is_ascii_letter(s[p]) || s[p] == '.') {
        let m = skip_mnemonic(&s, p);
        let mnemonic = piece(line, p, m);
        let mut operands: Vec<String> = Vec::new();
        let mut end = m;
        if let Some((a, b)) = find_first_operand(&s, m) {
            operands.push(piece(line, a, b));
            end = b;
            if let Some((c, d)) = find_next_operand(&s, b) {
                operands.push(piece(line, c, d));
                end = d;
                if let Some((e, f)) = find_next_operand(&s, d) {
                    operands.push(piece(line, e, f));
                    end = f;
                }
            }
        }
        let ghost ops = operands_from(s@, m as int);
        assert(operands@.map_values(|o: String| o@) == ops.0);
        assert(end as int == ops.1);
        if check_tail(&s, end) {
            Some(ParsedLine { label, mnemonic: Some(mnemonic), operands })
        } else {
            None
        }
    } else if check_tail(&s, p) {
        let r = ParsedLine { label, mnemonic: None, operands: Vec::new() };
        assert(r@.operands =~= seq![]);
        Some(r)
    } else {
        None
    }
}

} // verus!
