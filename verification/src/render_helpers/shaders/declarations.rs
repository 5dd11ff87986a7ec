//! Declarations of GLES-dialect shaders that have no place in Vulkan GLSL.

use vstd::prelude::*;

use crate::utils::text::{
    after_first_line, drop_whitespace, find_line_end, first_line, is_whitespace, lemma_line_len,
    line_len, lines, skip_whitespace, starts_with, to_chars, trim_end, trim_start, whitespace,
};

verus! {

/// What comes first in the code of a line.
pub enum Scan<N> {
    /// A semicolon at this index.
    Semicolon(N),
    /// An opening brace.
    Brace,
    /// The end of the line, inside a block comment or not.
    End(bool),
}

/// Whether the two characters stand at the index.
pub open spec fn pair_at(line: Seq<char>, i: int, a: char, b: char) -> bool {
    0 <= i && i + 1 < line.len() && line[i] == a && line[i + 1] == b
}

/// The code of a line from an index on, where each block comment that starts there counts as a
/// space, and whether a block comment is open after it. `open` says whether one is open before.
pub open spec fn code_from(line: Seq<char>, from: int, open: bool) -> (Seq<char>, bool)
    decreases line.len() - from,
{
    if from >= line.len() {
        (Seq::empty(), open)
    } else if open {
        if pair_at(line, from, '*', '/') {
            code_from(line, from + 2, false)
        } else {
            code_from(line, from + 1, true)
        }
    } else if pair_at(line, from, '/', '/') {
        (Seq::empty(), false)
    } else if pair_at(line, from, '/', '*') {
        let rest = code_from(line, from + 2, true);
        (seq![' '] + rest.0, rest.1)
    } else {
        let rest = code_from(line, from + 1, false);
        (seq![line[from]] + rest.0, rest.1)
    }
}

/// The code of a line: what stands outside comments. Also tells whether a block comment is open
/// after the line; `open` says whether one is open before it.
pub open spec fn code_of(line: Seq<char>, open: bool) -> (Seq<char>, bool) {
    code_from(line, 0, open)
}

/// What comes first in the code of a line from an index on: a semicolon, an opening brace or the
/// end.
pub open spec fn scan(line: Seq<char>, from: int, open: bool) -> Scan<int>
    decreases line.len() - from,
{
    if from >= line.len() {
        Scan::End(open)
    } else if open {
        if pair_at(line, from, '*', '/') {
            scan(line, from + 2, false)
        } else {
            scan(line, from + 1, true)
        }
    } else if pair_at(line, from, '/', '/') {
        Scan::End(false)
    } else if pair_at(line, from, '/', '*') {
        scan(line, from + 2, true)
    } else if line[from] == ';' {
        Scan::Semicolon(from)
    } else if line[from] == '{' {
        Scan::Brace
    } else {
        scan(line, from + 1, false)
    }
}

/// Index after the end of the block comment that is open at an index of the line.
pub open spec fn comment_end(line: Seq<char>, from: int) -> Option<int>
    decreases line.len() - from,
{
    if from >= line.len() {
        None
    } else if pair_at(line, from, '*', '/') {
        Some(from + 2)
    } else {
        comment_end(line, from + 1)
    }
}

/// Whether a text begins with a word, followed by whitespace or by the end of the line.
pub open spec fn begins_with_word(text: Seq<char>, word: Seq<char>) -> bool {
    word.is_prefix_of(text) && (text.len() == word.len() || is_whitespace(text[word.len() as int]))
}

/// Whether code begins with a uniform, varying or precision declaration.
pub open spec fn begins_declaration(code: Seq<char>) -> bool {
    let trimmed = trim_start(code);
    ||| begins_with_word(trimmed, "uniform"@)
    ||| begins_with_word(trimmed, "varying"@)
    ||| begins_with_word(trimmed, "precision"@)
}

/// Whether a line outside a comment begins a uniform, varying or precision declaration.
pub open spec fn starts_declaration(line: Seq<char>) -> bool {
    begins_declaration(code_of(line, false).0)
}

/// Whether a line outside a comment is a version or an extension directive.
pub open spec fn is_directive(line: Seq<char>) -> bool {
    let trimmed = trim_start(line);
    "#version"@.is_prefix_of(trimmed) || "#extension"@.is_prefix_of(trimmed)
}

/// Whether a text ends in a semicolon, before whitespace.
pub open spec fn ends_in_semicolon(text: Seq<char>) -> bool {
    trim_end(text).len() > 0 && trim_end(text).last() == ';'
}

/// Whether a line that begins a declaration without an end is stripped: each varying and precision
/// line, and uniform lines that end in a semicolon, with or without the comments.
pub open spec fn is_loose_declaration(line: Seq<char>) -> bool {
    let trimmed = trim_start(line);
    ||| "precision "@.is_prefix_of(trimmed)
    ||| "varying "@.is_prefix_of(trimmed)
    ||| "uniform "@.is_prefix_of(trimmed) && (ends_in_semicolon(line) || ends_in_semicolon(
        code_of(line, false).0,
    ))
}

/// Whether a line outside a comment holds neither code nor the start of a comment that goes on.
pub open spec fn is_blank(line: Seq<char>) -> bool {
    trim_start(code_of(line, false).0).len() == 0 && !code_of(line, false).1
}

/// Where the declaration ends that goes on in the given lines: the line and the index in it of the
/// first semicolon outside comments. A declaration that comes to an opening brace first has no end.
pub open spec fn declaration_end(source: Seq<Seq<char>>, open: bool) -> Option<(int, int)>
    decreases source.len(),
{
    if source.len() == 0 {
        None
    } else {
        match scan(source.first(), 0, open) {
            Scan::Semicolon(i) => Some((0, i)),
            Scan::Brace => None,
            Scan::End(open) => match declaration_end(source.drop_first(), open) {
                Some((n, i)) => Some((n + 1, i)),
                None => None,
            },
        }
    }
}

/// What follows a declaration: the rest of the line of its end, unless that is blank, and the lines
/// after it.
pub open spec fn after_declaration(source: Seq<Seq<char>>, end: (int, int)) -> Seq<Seq<char>> {
    let rest = source[end.0].skip(end.1 + 1);
    if is_blank(rest) {
        source.skip(end.0 + 1)
    } else {
        seq![rest] + source.skip(end.0 + 1)
    }
}

/// The lines that remain when declarations and directives are stripped. `open` says whether a block
/// comment is open before the first line.
///
/// A line that begins inside a block comment begins nothing, but a declaration may follow where the
/// comment ends. No line is stripped that leaves a comment open.
pub open spec fn kept_lines(source: Seq<Seq<char>>, open: bool) -> Seq<Seq<char>>
    decreases
            source.len(),
            (if source.len() > 0 {
                source.first().len()
            } else {
                0
            }),
{
    if source.len() == 0 {
        Seq::empty()
    } else {
        let line = source.first();
        let others = source.drop_first();
        let after = code_of(line, open).1;
        let kept = seq![line] + kept_lines(others, after);
        if open {
            match comment_end(line, 0) {
                Some(end) if starts_declaration(line.skip(end)) => {
                    proof {
                        lemma_comment_end(line, 0);
                    }
                    seq![line.take(end)] + kept_lines(seq![line.skip(end)] + others, false)
                },
                _ => kept,
            }
        } else if starts_declaration(line) {
            match declaration_end(source, false) {
                Some(end) => {
                    proof {
                        lemma_declaration_end(source, false);
                    }
                    kept_lines(after_declaration(source, end), false)
                },
                None => if is_loose_declaration(line) && !after {
                    kept_lines(others, false)
                } else {
                    kept
                },
            }
        } else if is_directive(line) && !after {
            kept_lines(others, false)
        } else {
            kept
        }
    }
}

pub proof fn lemma_comment_end(line: Seq<char>, from: int)
    requires
        0 <= from,
    ensures
        comment_end(line, from) matches Some(end) ==> from + 2 <= end <= line.len(),
    decreases line.len() - from,
{
    if from < line.len() && !pair_at(line, from, '*', '/') {
        lemma_comment_end(line, from + 1);
    }
}

pub proof fn lemma_scan(line: Seq<char>, from: int, open: bool)
    requires
        0 <= from,
    ensures
        scan(line, from, open) matches Scan::Semicolon(i) ==> from <= i < line.len() && line[i]
            == ';',
    decreases line.len() - from,
{
    if from < line.len() {
        lemma_scan(line, from + 1, open);
        if from + 1 < line.len() {
            lemma_scan(line, from + 2, !open);
        }
    }
}

pub proof fn lemma_declaration_end(source: Seq<Seq<char>>, open: bool)
    ensures
        declaration_end(source, open) matches Some((n, i)) ==> 0 <= n < source.len() && 0 <= i
            < source[n].len(),
    decreases source.len(),
{
    if source.len() > 0 {
        lemma_scan(source.first(), 0, open);
        if let Scan::End(open) = scan(source.first(), 0, open) {
            lemma_declaration_end(source.drop_first(), open);
        }
    }
}

/// The given lines, each ended by a line feed.
pub open spec fn joined(source: Seq<Seq<char>>) -> Seq<char>
    decreases source.len(),
{
    if source.len() == 0 {
        Seq::empty()
    } else {
        source.first().push('\n') + joined(source.drop_first())
    }
}

/// The given lines without the declarations, each ended by a line feed.
pub open spec fn without_declarations(source: Seq<Seq<char>>) -> Seq<char> {
    joined(kept_lines(source, false))
}

/// Whether the two characters stand at `i`, before `to`.
fn has_pair(chars: &Vec<char>, i: usize, to: usize, a: char, b: char) -> (has: bool)
    requires
        i < to <= chars.len(),
    ensures
        has == (i + 1 < to && chars@[i as int] == a && chars@[i + 1] == b),
{
    to - i > 1 && chars[i] == a && chars[i + 1] == b
}

/// The code of the line from `start` up to `to`, and whether a block comment is open after it.
fn line_code(chars: &Vec<char>, start: usize, to: usize, open_before: bool) -> (code: (
    Vec<char>,
    bool,
))
    requires
        start <= to <= chars.len(),
    ensures
        (code.0@, code.1) == code_of(chars@.subrange(start as int, to as int), open_before),
{
    let ghost line = chars@.subrange(start as int, to as int);
    let mut code: Vec<char> = Vec::new();
    let mut open: bool = open_before;
    let mut i: usize = start;
    assert(code@ + code_from(line, 0, open).0 == code_from(line, 0, open).0);
    while i < to
        invariant
            start <= i <= to <= chars.len(),
            line == chars@.subrange(start as int, to as int),
            code@ + code_from(line, i - start, open).0 == code_of(line, open_before).0,
            code_from(line, i - start, open).1 == code_of(line, open_before).1,
        decreases to - i,
    {
        let ghost rest = code_from(line, i - start, open);
        let ghost before = code@;
        if open {
            if has_pair(chars, i, to, '*', '/') {
                open = false;
                i = i + 2;
            } else {
                i = i + 1;
            }
        } else if has_pair(chars, i, to, '/', '/') {
            assert(code@ + rest.0 == code@);
            return (code, false);
        } else if has_pair(chars, i, to, '/', '*') {
            code.push(' ');
            open = true;
            i = i + 2;
            assert(before + rest.0 == code@ + code_from(line, i - start, open).0);
        } else {
            code.push(chars[i]);
            i = i + 1;
            assert(before + rest.0 == code@ + code_from(line, i - start, open).0);
        }
    }
    assert(code@ + code_from(line, i - start, open).0 == code@);
    (code, open)
}

/// What comes first in the code of the line from `start` up to `to`.
fn scan_line(chars: &Vec<char>, start: usize, to: usize, open_before: bool) -> (found: Scan<usize>)
    requires
        start <= to <= chars.len(),
    ensures
        ({
            let line = chars@.subrange(start as int, to as int);
            match found {
                Scan::Semicolon(i) => start <= i < to && scan(line, 0, open_before)
                    == Scan::<int>::Semicolon(i - start),
                Scan::Brace => scan(line, 0, open_before) == Scan::<int>::Brace,
                Scan::End(open) => scan(line, 0, open_before) == Scan::<int>::End(open),
            }
        }),
{
    let ghost line = chars@.subrange(start as int, to as int);
    let mut open: bool = open_before;
    let mut i: usize = start;
    while i < to
        invariant
            start <= i <= to <= chars.len(),
            line == chars@.subrange(start as int, to as int),
            scan(line, i - start, open) == scan(line, 0, open_before),
        decreases to - i,
    {
        if open {
            if has_pair(chars, i, to, '*', '/') {
                open = false;
                i = i + 2;
            } else {
                i = i + 1;
            }
        } else if has_pair(chars, i, to, '/', '/') {
            return Scan::End(false);
        } else if has_pair(chars, i, to, '/', '*') {
            open = true;
            i = i + 2;
        } else if chars[i] == ';' {
            return Scan::Semicolon(i);
        } else if chars[i] == '{' {
            return Scan::Brace;
        } else {
            i = i + 1;
        }
    }
    Scan::End(open)
}

/// Index after the end of the block comment that is open at `start`, if it ends before `to`.
fn find_comment_end(chars: &Vec<char>, start: usize, to: usize) -> (end: Option<usize>)
    requires
        start <= to <= chars.len(),
    ensures
        ({
            let line = chars@.subrange(start as int, to as int);
            match end {
                Some(end) => start < end <= to && comment_end(line, 0) == Some(end - start),
                None => comment_end(line, 0) is None,
            }
        }),
{
    let ghost line = chars@.subrange(start as int, to as int);
    let mut i: usize = start;
    while i < to
        invariant
            start <= i <= to <= chars.len(),
            line == chars@.subrange(start as int, to as int),
            comment_end(line, i - start) == comment_end(line, 0),
        decreases to - i,
    {
        if has_pair(chars, i, to, '*', '/') {
            return Some(i + 2);
        }
        i = i + 1;
    }
    None
}

/// Whether code begins with a word from `start` on.
fn has_word(code: &Vec<char>, start: usize, word: &str) -> (has: bool)
    requires
        start <= code.len(),
    ensures
        has == begins_with_word(code@.skip(start as int), word@),
{
    assert(code@.subrange(start as int, code@.len() as int) == code@.skip(start as int));
    if !starts_with(code, start, code.len(), word) {
        return false;
    }
    let len: usize = word.unicode_len();
    code.len() - start == len || whitespace(code[start + len])
}

/// Whether code begins with a uniform, varying or precision declaration.
fn declares(code: &Vec<char>) -> (declares: bool)
    ensures
        declares == begins_declaration(code@),
{
    let start: usize = skip_whitespace(code, 0, code.len());
    assert(code@.subrange(0, code@.len() as int) == code@);
    assert(code@.subrange(start as int, code@.len() as int) == code@.skip(start as int));
    has_word(code, start, "uniform") || has_word(code, start, "varying") || has_word(
        code,
        start,
        "precision",
    )
}

/// Whether the line from `from` up to `to` is a version or an extension directive.
fn directive(chars: &Vec<char>, from: usize, to: usize) -> (directive: bool)
    requires
        from <= to <= chars.len(),
    ensures
        directive == is_directive(chars@.subrange(from as int, to as int)),
{
    let start: usize = skip_whitespace(chars, from, to);
    starts_with(chars, start, to, "#version") || starts_with(chars, start, to, "#extension")
}

/// Whether the characters from `from` up to `to` end in a semicolon, before whitespace.
fn semicolon_at_end(chars: &Vec<char>, from: usize, to: usize) -> (ends: bool)
    requires
        from <= to <= chars.len(),
    ensures
        ends == ends_in_semicolon(chars@.subrange(from as int, to as int)),
{
    let end: usize = drop_whitespace(chars, from, to);
    assert(end > from ==> chars@.subrange(from as int, end as int).last() == chars@[end - 1]);
    end > from && chars[end - 1] == ';'
}

/// Whether the line from `from` up to `to` is stripped if it begins a declaration without an end.
fn loose_declaration(chars: &Vec<char>, from: usize, to: usize) -> (loose: bool)
    requires
        from <= to <= chars.len(),
    ensures
        loose == is_loose_declaration(chars@.subrange(from as int, to as int)),
{
    let start: usize = skip_whitespace(chars, from, to);
    let (code, _) = line_code(chars, from, to, false);
    assert(code@.subrange(0, code@.len() as int) == code@);
    starts_with(chars, start, to, "precision ") || starts_with(chars, start, to, "varying ") || (
    starts_with(chars, start, to, "uniform ") && (semicolon_at_end(chars, from, to)
        || semicolon_at_end(&code, 0, code.len())))
}

/// Whether the line from `from` up to `to` holds neither code nor the start of a comment that goes
/// on.
fn blank(chars: &Vec<char>, from: usize, to: usize) -> (blank: bool)
    requires
        from <= to <= chars.len(),
    ensures
        blank == is_blank(chars@.subrange(from as int, to as int)),
{
    let (code, open) = line_code(chars, from, to, false);
    let start: usize = skip_whitespace(&code, 0, code.len());
    assert(code@.subrange(0, code@.len() as int) == code@);
    assert(code@.subrange(start as int, code@.len() as int).len() == code@.len() - start);
    start == code.len() && !open
}

proof fn lemma_rest_of_line_len(text: Seq<char>, k: int)
    requires
        0 <= k <= line_len(text),
    ensures
        line_len(text.skip(k)) == line_len(text) - k,
    decreases k,
{
    if k == 0 {
        assert(text.skip(0) == text);
    } else {
        lemma_line_len(text);
        lemma_rest_of_line_len(text.drop_first(), k - 1);
        assert(text.drop_first().skip(k - 1) == text.skip(k));
    }
}

/// A text without the beginning of its first line has the same lines but for that beginning.
proof fn lemma_rest_of_line(text: Seq<char>, k: int)
    requires
        0 <= k <= first_line(text).len(),
        k < text.len(),
    ensures
        lines(text.skip(k)) == seq![first_line(text).skip(k)] + lines(text).drop_first(),
{
    lemma_line_len(text);
    lemma_rest_of_line_len(text, k);
    assert(first_line(text.skip(k)) == first_line(text).skip(k));
    assert(after_first_line(text.skip(k)) == after_first_line(text));
    assert(lines(text).drop_first() == lines(after_first_line(text)));
}

/// Where the lines of a text end: that of the first line, without and with its line ending.
fn first_line_ends(chars: &Vec<char>, from: usize) -> (ends: (usize, usize))
    requires
        from < chars.len(),
    ensures
        from <= ends.0 <= ends.1 <= chars.len(),
        from < ends.1,
        chars@.subrange(from as int, ends.0 as int) == lines(chars@.skip(from as int)).first(),
        lines(chars@.skip(ends.1 as int)) == lines(chars@.skip(from as int)).drop_first(),
        lines(chars@.skip(from as int)).len() > 0,
{
    let ghost text = chars@.skip(from as int);
    let end: usize = find_line_end(chars, from);
    // A carriage return before the line feed belongs to the line ending.
    let line_end: usize = if end > from && end < chars.len() && chars[end - 1] == '\r' {
        end - 1
    } else {
        end
    };
    let next: usize = if end < chars.len() {
        end + 1
    } else {
        end
    };
    proof {
        lemma_line_len(text);
        assert(chars@.subrange(from as int, line_end as int) == first_line(text));
        assert(chars@.skip(next as int) == after_first_line(text));
        assert(lines(text).first() == first_line(text));
        assert(lines(text).drop_first() == lines(after_first_line(text)));
    }
    (line_end, next)
}

/// Where a declaration ends: the index after its semicolon, the end of that line, and the start of
/// the next.
struct DeclarationEnd {
    after: usize,
    line_end: usize,
    next: usize,
}

/// Finds the end of the declaration that begins at `from`, if it has one.
fn find_declaration_end(chars: &Vec<char>, from: usize) -> (end: Option<DeclarationEnd>)
    requires
        from <= chars.len(),
    ensures
        ({
            let source = lines(chars@.skip(from as int));
            match (end, declaration_end(source, false)) {
                (Some(end), Some((n, i))) => {
                    &&& from < end.after <= end.line_end <= end.next <= chars.len()
                    &&& 0 <= n < source.len()
                    &&& chars@.subrange(end.after as int, end.line_end as int) == source[n].skip(
                        i + 1,
                    )
                    &&& lines(chars@.skip(end.next as int)) == source.skip(n + 1)
                    &&& end.after < chars.len() ==> lines(chars@.skip(end.after as int)) == seq![
                        source[n].skip(i + 1),
                    ] + source.skip(n + 1)
                },
                (None, None) => true,
                _ => false,
            }
        }),
{
    let ghost source = lines(chars@.skip(from as int));
    let ghost mut passed: int = 0;
    let mut pos: usize = from;
    let mut open: bool = false;
    assert(source.skip(0) == source);
    while pos < chars.len()
        invariant
            from <= pos <= chars.len(),
            0 <= passed <= source.len(),
            source == lines(chars@.skip(from as int)),
            lines(chars@.skip(pos as int)) == source.skip(passed),
            declaration_end(source, false) == match declaration_end(source.skip(passed), open) {
                Some((n, i)) => Some((n + passed, i)),
                None => None,
            },
        decreases chars.len() - pos,
    {
        let ghost text = chars@.skip(pos as int);
        let (line_end, next) = first_line_ends(chars, pos);
        proof {
            assert(source.skip(passed).drop_first() == source.skip(passed + 1));
            assert(source[passed] == source.skip(passed).first());
        }
        match scan_line(chars, pos, line_end, open) {
            Scan::Semicolon(i) => {
                proof {
                    let k = i + 1 - pos;
                    assert(chars@.subrange(i + 1, line_end as int) == source[passed].skip(k));
                    if i + 1 < chars@.len() {
                        assert(lines(text).first() == first_line(text));
                        lemma_rest_of_line(text, k);
                        assert(text.skip(k) == chars@.skip(i + 1));
                    }
                }
                return Some(DeclarationEnd { after: i + 1, line_end, next });
            },
            Scan::Brace => {
                return None;
            },
            Scan::End(open_after) => {
                proof {
                    passed = passed + 1;
                }
                open = open_after;
                pos = next;
            },
        }
    }
    assert(chars@.skip(pos as int) == Seq::<char>::empty());
    None
}

proof fn lemma_empty_starts_nothing()
    ensures
        !starts_declaration(Seq::empty()),
{
    reveal_strlit("uniform");
    reveal_strlit("varying");
    reveal_strlit("precision");
}

/// Appends a line, with a line feed, to the text.
fn append_line(out: &mut String, line: &str)
    ensures
        final(out)@ == old(out)@ + line@.push('\n'),
{
    out.append(line);
    out.append("\n");
    proof {
        reveal_strlit("\n");
        assert("\n"@ == seq!['\n']);
    }
}

proof fn lemma_joined_after(before: Seq<char>, line: Seq<char>, others: Seq<Seq<char>>)
    ensures
        before + joined(seq![line] + others) == (before + line.push('\n')) + joined(others),
{
    assert((seq![line] + others).drop_first() == others);
}

/// Appends the source without its declarations and directives to the text.
pub fn append_without_declarations(out: &mut String, src: &str)
    ensures
        final(out)@ == old(out)@ + without_declarations(lines(src@)),
{
    let ghost head = out@;
    let chars: Vec<char> = to_chars(src);
    let mut pos: usize = 0;
    let mut open: bool = false;
    assert(chars@.skip(0) == chars@);
    while pos < chars.len()
        invariant
            pos <= chars.len(),
            chars@ == src@,
            out@ + joined(kept_lines(lines(chars@.skip(pos as int)), open)) == head
                + without_declarations(lines(src@)),
        decreases chars.len() - pos,
    {
        let ghost text = chars@.skip(pos as int);
        let ghost source = lines(text);
        let ghost before = out@;
        let (line_end, next) = first_line_ends(&chars, pos);
        let (code, after) = line_code(&chars, pos, line_end, open);
        if open {
            if let Some(end) = find_comment_end(&chars, pos, line_end) {
                let (rest, _) = line_code(&chars, end, line_end, false);
                proof {
                    assert(chars@.subrange(end as int, line_end as int) == source.first().skip(
                        end - pos,
                    ));
                }
                if declares(&rest) {
                    proof {
                        lemma_empty_starts_nothing();
                        if end == line_end {
                            assert(source.first().skip(end - pos) == Seq::<char>::empty());
                        }
                        assert(source.first() == first_line(text));
                        lemma_rest_of_line(text, end - pos);
                        assert(text.skip(end - pos) == chars@.skip(end as int));
                        assert(chars@.subrange(pos as int, end as int) == source.first().take(
                            end - pos,
                        ));
                        lemma_joined_after(
                            before,
                            source.first().take(end - pos),
                            kept_lines(lines(chars@.skip(end as int)), false),
                        );
                    }
                    append_line(out, src.substring_char(pos, end));
                    pos = end;
                    open = false;
                    continue;
                }
            }
        } else if declares(&code) {
            match find_declaration_end(&chars, pos) {
                Some(end) => {
                    if blank(&chars, end.after, end.line_end) {
                        pos = end.next;
                    } else {
                        pos = end.after;
                    }
                    continue;
                },
                None => {
                    if loose_declaration(&chars, pos, line_end) && !after {
                        pos = next;
                        continue;
                    }
                },
            }
        } else if directive(&chars, pos, line_end) && !after {
            pos = next;
            continue;
        }
        proof {
            lemma_joined_after(before, source.first(), kept_lines(source.drop_first(), after));
        }
        append_line(out, src.substring_char(pos, line_end));
        pos = next;
        open = after;
    }
    assert(out@ + joined(kept_lines(lines(chars@.skip(pos as int)), open)) == out@);
}

/// Whether a line can be told from its neighbours again once lines are put together: it holds
/// neither a line feed nor a carriage return.
spec fn is_plain_line(line: Seq<char>) -> bool {
    forall|i: int| 0 <= i < line.len() ==> line[i] != '\n' && line[i] != '\r'
}

proof fn lemma_lines_are_plain(text: Seq<char>)
    requires
        forall|i: int| 0 <= i < text.len() ==> text[i] != '\r',
    ensures
        forall|k: int| 0 <= k < lines(text).len() ==> is_plain_line(#[trigger] lines(text)[k]),
    decreases text.len(),
{
    if text.len() > 0 {
        lemma_line_len(text);
        let rest = after_first_line(text);
        assert forall|i: int| 0 <= i < rest.len() implies rest[i] != '\r' by {
            assert(rest[i] == text[line_len(text) + 1 + i]);
        }
        lemma_lines_are_plain(rest);
        assert forall|k: int| 0 <= k < lines(text).len() implies is_plain_line(
            #[trigger] lines(text)[k],
        ) by {
            if k > 0 {
                assert(lines(text)[k] == lines(rest)[k - 1]);
            }
        }
    }
}

proof fn lemma_first_line_of(line: Seq<char>, rest: Seq<char>)
    requires
        is_plain_line(line),
    ensures
        lines(line.push('\n') + rest) == seq![line] + lines(rest),
{
    let text = line.push('\n') + rest;
    lemma_line_len_of(line, rest);
    assert(first_line(text) == line);
    assert(after_first_line(text) == rest);
}

proof fn lemma_line_len_of(line: Seq<char>, rest: Seq<char>)
    requires
        is_plain_line(line),
    ensures
        line_len(line.push('\n') + rest) == line.len(),
    decreases line.len(),
{
    let text = line.push('\n') + rest;
    if line.len() > 0 {
        let shorter = line.drop_first();
        assert forall|i: int| 0 <= i < shorter.len() implies shorter[i] != '\n' && shorter[i]
            != '\r' by {
            assert(shorter[i] == line[i + 1]);
        }
        lemma_line_len_of(shorter, rest);
        assert(text.drop_first() == shorter.push('\n') + rest);
    }
}

proof fn lemma_joined_lines(source: Seq<Seq<char>>)
    requires
        forall|k: int| 0 <= k < source.len() ==> is_plain_line(#[trigger] source[k]),
    ensures
        lines(joined(source)) == source,
    decreases source.len(),
{
    if source.len() > 0 {
        let rest = source.drop_first();
        lemma_joined_lines(rest);
        lemma_first_line_of(source.first(), joined(rest));
        assert(seq![source.first()] + rest == source);
    }
}

/// Whether a block comment is open before a line; `open` says whether one is open before the first.
pub open spec fn comment_before(source: Seq<Seq<char>>, open: bool, k: int) -> bool
    decreases source.len(),
{
    if k <= 0 || source.len() == 0 {
        open
    } else {
        comment_before(source.drop_first(), code_of(source.first(), open).1, k - 1)
    }
}

/// Whether a line begins, outside comments, with one of the words of declarations and directives.
pub open spec fn begins_with_keyword(line: Seq<char>, open: bool) -> bool {
    if open {
        comment_end(line, 0) matches Some(end) && starts_declaration(line.skip(end))
    } else {
        starts_declaration(line) || is_directive(line)
    }
}

/// Whether no line begins, outside comments, with one of the words of declarations and directives.
pub open spec fn is_free_of_keywords(source: Seq<Seq<char>>, open: bool) -> bool {
    forall|k: int|
        0 <= k < source.len() ==> !begins_with_keyword(
            #[trigger] source[k],
            comment_before(source, open, k),
        )
}

proof fn lemma_kept_before(before: Seq<Seq<char>>, source: Seq<Seq<char>>, open: bool)
    requires
        is_free_of_keywords(before, open),
    ensures
        kept_lines(before + source, open) == before + kept_lines(
            source,
            comment_before(before, open, before.len() as int),
        ),
    decreases before.len(),
{
    if before.len() == 0 {
        assert(before + source == source);
        assert(before + kept_lines(source, open) == kept_lines(source, open));
    } else {
        let line = before.first();
        let rest = before.drop_first();
        let after = code_of(line, open).1;
        assert(!begins_with_keyword(before[0], comment_before(before, open, 0)));
        assert forall|k: int| 0 <= k < rest.len() implies !begins_with_keyword(
            #[trigger] rest[k],
            comment_before(rest, after, k),
        ) by {
            assert(rest[k] == before[k + 1]);
        }
        lemma_kept_before(rest, source, after);
        assert((before + source).first() == line);
        assert((before + source).drop_first() == rest + source);
        let kept = kept_lines(source, comment_before(rest, after, rest.len() as int));
        assert(seq![line] + (rest + kept) == before + kept);
    }
}

/// A source is kept as it is where no line of it begins, outside comments, with one of the words of
/// declarations and directives.
pub proof fn law_other_sources_are_kept(source: Seq<Seq<char>>)
    requires
        is_free_of_keywords(source, false),
    ensures
        kept_lines(source, false) == source,
{
    lemma_kept_before(source, Seq::empty(), false);
    assert(source + Seq::empty() == source);
}

/// A uniform, varying or precision declaration that has an end is stripped up to its semicolon, over
/// as many lines as it takes. What stands before it is kept as it is, where it holds no other
/// declaration, and what follows is stripped of declarations in turn.
pub proof fn law_declarations_are_stripped(before: Seq<Seq<char>>, source: Seq<Seq<char>>)
    requires
        is_free_of_keywords(before, false),
        !comment_before(before, false, before.len() as int),
        source.len() > 0,
        starts_declaration(source.first()),
        declaration_end(source, false) is Some,
    ensures
        kept_lines(before + source, false) == before + kept_lines(
            after_declaration(source, declaration_end(source, false)->0),
            false,
        ),
{
    lemma_kept_before(before, source, false);
}

/// Whether a line outside a comment holds one declaration and nothing else but comments.
pub open spec fn is_whole_declaration(line: Seq<char>) -> bool {
    scan(line, 0, false) matches Scan::Semicolon(i) && is_blank(line.skip(i + 1))
}

/// Of a source that has each declaration on a line of its own, and no comment over several lines,
/// exactly the lines of declarations and directives are stripped.
pub proof fn law_declarations_on_lines_of_their_own(source: Seq<Seq<char>>)
    requires
        forall|k: int|
            0 <= k < source.len() ==> !code_of(#[trigger] source[k], false).1 && (
            starts_declaration(source[k]) ==> is_whole_declaration(source[k])),
    ensures
        kept_lines(source, false) == source.filter(
            |line: Seq<char>| !starts_declaration(line) && !is_directive(line),
        ),
    decreases source.len(),
{
    let keep = |line: Seq<char>| !starts_declaration(line) && !is_directive(line);
    if source.len() == 0 {
        assert(source.filter(keep).len() == 0) by {
            reveal(Seq::filter);
        }
    } else {
        let line = source.first();
        let rest = source.drop_first();
        assert(line == source[0]);
        assert forall|k: int| 0 <= k < rest.len() implies !code_of(#[trigger] rest[k], false).1 && (
        starts_declaration(rest[k]) ==> is_whole_declaration(rest[k])) by {
            assert(rest[k] == source[k + 1]);
        }
        law_declarations_on_lines_of_their_own(rest);
        assert(source.skip(1) == rest);
        assert(source == seq![line] + rest);
        Seq::filter_distributes_over_add(seq![line], rest, keep);
        assert(seq![line].filter(keep) == if keep(line) {
            seq![line]
        } else {
            Seq::<Seq<char>>::empty()
        }) by {
            reveal_with_fuel(Seq::filter, 2);
            assert(seq![line].drop_last() == Seq::<Seq<char>>::empty());
        }
    }
}

/// Whether a line is part of a line of the source.
pub open spec fn is_part_of(line: Seq<char>, source: Seq<Seq<char>>) -> bool {
    exists|i: int, from: int, to: int|
        0 <= i < source.len() && 0 <= from <= to <= source[i].len() && line
            == #[trigger] source[i].subrange(from, to)
}

/// Whether each of the lines is part of a line of the source.
spec fn are_parts_of(parts: Seq<Seq<char>>, source: Seq<Seq<char>>) -> bool {
    forall|k: int| 0 <= k < parts.len() ==> is_part_of(#[trigger] parts[k], source)
}

proof fn lemma_part(source: Seq<Seq<char>>, i: int, from: int, to: int)
    requires
        0 <= i < source.len(),
        0 <= from <= to <= source[i].len(),
    ensures
        is_part_of(source[i].subrange(from, to), source),
{
}

proof fn lemma_lines_are_parts(source: Seq<Seq<char>>, n: int)
    requires
        0 <= n <= source.len(),
    ensures
        are_parts_of(source.skip(n), source),
{
    assert forall|k: int| 0 <= k < source.skip(n).len() implies is_part_of(
        #[trigger] source.skip(n)[k],
        source,
    ) by {
        let line = source[n + k];
        lemma_part(source, n + k, 0, line.len() as int);
        assert(line.subrange(0, line.len() as int) == line);
    }
}

/// Parts of parts of lines are parts of lines.
proof fn lemma_parts_of_parts(
    parts: Seq<Seq<char>>,
    middle: Seq<Seq<char>>,
    source: Seq<Seq<char>>,
)
    requires
        are_parts_of(parts, middle),
        are_parts_of(middle, source),
    ensures
        are_parts_of(parts, source),
{
    assert forall|k: int| 0 <= k < parts.len() implies is_part_of(#[trigger] parts[k], source) by {
        assert(is_part_of(parts[k], middle));
        let (i, from, to) = choose|i: int, from: int, to: int|
            0 <= i < middle.len() && 0 <= from <= to <= middle[i].len() && parts[k]
                == #[trigger] middle[i].subrange(from, to);
        assert(is_part_of(middle[i], source));
        let (j, a, b) = choose|j: int, a: int, b: int|
            0 <= j < source.len() && 0 <= a <= b <= source[j].len() && middle[i]
                == #[trigger] source[j].subrange(a, b);
        lemma_part(source, j, a + from, a + to);
        assert(source[j].subrange(a, b).subrange(from, to) == source[j].subrange(a + from, a + to));
    }
}

proof fn lemma_kept_are_parts(source: Seq<Seq<char>>, open: bool)
    ensures
        are_parts_of(kept_lines(source, open), source),
    decreases
            source.len(),
            (if source.len() > 0 {
                source.first().len()
            } else {
                0
            }),
{
    if source.len() > 0 {
        let line = source.first();
        let others = source.drop_first();
        let after = code_of(line, open).1;
        assert(others == source.skip(1));
        lemma_part(source, 0, 0, line.len() as int);
        assert(line.subrange(0, line.len() as int) == line);
        lemma_lines_are_parts(source, 1);
        lemma_kept_are_parts(others, after);
        lemma_parts_of_parts(kept_lines(others, after), others, source);
        lemma_kept_are_parts(others, false);
        lemma_parts_of_parts(kept_lines(others, false), others, source);
        if open {
            if let Some(end) = comment_end(line, 0) {
                lemma_comment_end(line, 0);
                let rest = seq![line.skip(end)] + others;
                lemma_part(source, 0, 0, end);
                assert(line.take(end) == line.subrange(0, end));
                lemma_part(source, 0, end, line.len() as int);
                assert(line.skip(end) == line.subrange(end, line.len() as int));
                lemma_kept_are_parts(rest, false);
                lemma_parts_of_parts(kept_lines(rest, false), rest, source);
            }
        } else if starts_declaration(line) {
            if let Some((n, i)) = declaration_end(source, false) {
                lemma_declaration_end(source, false);
                let rest = after_declaration(source, (n, i));
                lemma_lines_are_parts(source, n + 1);
                lemma_part(source, n, i + 1, source[n].len() as int);
                assert(source[n].skip(i + 1) == source[n].subrange(
                    i + 1,
                    source[n].len() as int,
                ));
                lemma_kept_are_parts(rest, false);
                lemma_parts_of_parts(kept_lines(rest, false), rest, source);
            }
        }
    }
}

/// Of a source without carriage returns, what remains are the lines that are kept, and nothing is
/// added to them: each is a line of the source, or a part of one.
pub proof fn law_only_declarations_are_stripped(src: Seq<char>)
    requires
        forall|i: int| 0 <= i < src.len() ==> src[i] != '\r',
    ensures
        ({
            let kept = lines(without_declarations(lines(src)));
            &&& kept == kept_lines(lines(src), false)
            &&& forall|k: int| 0 <= k < kept.len() ==> is_part_of(#[trigger] kept[k], lines(src))
        }),
{
    let source = lines(src);
    let kept = kept_lines(source, false);
    lemma_lines_are_plain(src);
    lemma_kept_are_parts(source, false);
    assert forall|k: int| 0 <= k < kept.len() implies is_plain_line(#[trigger] kept[k]) by {
        assert(is_part_of(kept[k], source));
        let (i, from, to) = choose|i: int, from: int, to: int|
            0 <= i < source.len() && 0 <= from <= to <= source[i].len() && kept[k]
                == #[trigger] source[i].subrange(from, to);
        assert(is_plain_line(source[i]));
    }
    lemma_joined_lines(kept);
}

} // verus!
