//! What stripping declarations does to a source, line by line.
//!
//! The laws speak of the characters of the lines: of the words they begin with, and of where their
//! semicolons and comments are.

use vstd::prelude::*;

use crate::render_helpers::shaders::declarations::{
    begins_declaration, begins_with_word, code_from, code_of, comment_end,
    declaration_end, ends_in_semicolon, is_blank, is_directive, kept_lines, scan,
    starts_declaration, Scan,
};
use crate::utils::text::{is_whitespace, trim_start};

verus! {

/// After `n` whitespace characters, the line continues with the text.
pub open spec fn begins_at(line: Seq<char>, n: int, text: Seq<char>) -> bool {
    &&& 0 <= n && n + text.len() <= line.len()
    &&& forall|i: int| 0 <= i < n ==> is_whitespace(#[trigger] line[i])
    &&& forall|i: int| 0 <= i < text.len() ==> #[trigger] line[n + i] == text[i]
}

/// The first characters of the line that are not whitespace are the text.
pub open spec fn begins(line: Seq<char>, text: Seq<char>) -> bool {
    exists|n: int| #[trigger] begins_at(line, n, text)
}

/// The first word of the line is the given one: it stands before whitespace or the end of the line.
pub open spec fn opens_with(line: Seq<char>, word: Seq<char>) -> bool {
    exists|n: int| #[trigger]
        begins_at(line, n, word) && (n + word.len() == line.len() || is_whitespace(
            line[n + word.len()],
        ))
}

/// The first word of the line is `uniform`, `varying` or `precision`.
pub open spec fn opens_declaration(line: Seq<char>) -> bool {
    opens_with(line, "uniform"@) || opens_with(line, "varying"@) || opens_with(line, "precision"@)
}

/// The line begins with `#version` or `#extension`.
pub open spec fn opens_directive(line: Seq<char>) -> bool {
    begins(line, "#version"@) || begins(line, "#extension"@)
}

/// The character is nowhere in the line.
pub open spec fn lacks(line: Seq<char>, c: char) -> bool {
    forall|i: int| 0 <= i < line.len() ==> #[trigger] line[i] != c
}

/// There is nothing but whitespace in the line from an index on.
pub open spec fn blank_from(line: Seq<char>, from: int) -> bool {
    forall|i: int| from <= i < line.len() ==> is_whitespace(#[trigger] line[i])
}

/// The line has no comment, and if it opens a declaration, it ends in a semicolon.
pub open spec fn is_closed_line(line: Seq<char>) -> bool {
    &&& lacks(line, '/')
    &&& opens_declaration(line) ==> exists|k: int|
        0 <= k < line.len() && #[trigger] line[k] == ';' && blank_from(line, k + 1)
}

/// All lines are without comments, and all declarations end on the line that they begin on.
pub open spec fn are_closed_lines(source: Seq<Seq<char>>) -> bool {
    forall|k: int| 0 <= k < source.len() ==> is_closed_line(#[trigger] source[k])
}

/// Where the text of the line begins.
proof fn lemma_trim_start(line: Seq<char>) -> (n: int)
    ensures
        0 <= n <= line.len(),
        trim_start(line) == line.skip(n),
        forall|i: int| 0 <= i < n ==> is_whitespace(#[trigger] line[i]),
        n < line.len() ==> !is_whitespace(line[n]),
    decreases line.len(),
{
    if line.len() > 0 && is_whitespace(line.first()) {
        let rest = line.drop_first();
        let n = lemma_trim_start(rest);
        assert(rest.skip(n) == line.skip(n + 1));
        assert forall|i: int| 0 <= i < n + 1 implies is_whitespace(#[trigger] line[i]) by {
            if i > 0 {
                assert(rest[i - 1] == line[i]);
            }
        }
        if n < rest.len() {
            assert(rest[n] == line[n + 1]);
        }
        n + 1
    } else {
        assert(line.skip(0) == line);
        0
    }
}

/// A line begins with a text exactly if the line without leading whitespace does.
proof fn lemma_begins(line: Seq<char>, text: Seq<char>)
    requires
        text.len() > 0,
        !is_whitespace(text[0]),
    ensures
        begins(line, text) <==> text.is_prefix_of(trim_start(line)),
        opens_with(line, text) <==> begins_with_word(trim_start(line), text),
{
    let n = lemma_trim_start(line);
    let rest = line.skip(n);
    let len = text.len() as int;
    assert forall|m: int| #[trigger] begins_at(line, m, text) implies m == n by {
        assert(line[m + 0] == text[0]);
        if m < n {
            assert(is_whitespace(line[m]));
        }
    }
    if text.is_prefix_of(rest) {
        assert(text == rest.take(len));
        assert forall|i: int| 0 <= i < len implies #[trigger] line[n + i] == text[i] by {
            assert(rest.take(len)[i] == line[n + i]);
        }
        assert(begins_at(line, n, text));
    }
    if begins_at(line, n, text) {
        assert forall|i: int| 0 <= i < len implies rest.take(len)[i] == text[i] by {
            assert(line[n + i] == text[i]);
        }
        assert(text =~= rest.take(len));
        assert(text.is_prefix_of(rest));
    }
    if n + len < line.len() {
        assert(rest[len] == line[n + len]);
    }
}

proof fn lemma_words()
    ensures
        "uniform"@.len() == 7 && "uniform"@[0] == 'u' && "uniform"@[6] == 'm',
        "varying"@.len() == 7 && "varying"@[0] == 'v' && "varying"@[6] == 'g',
        "precision"@.len() == 9 && "precision"@[0] == 'p' && "precision"@[8] == 'n',
        "#version"@.len() == 8 && "#version"@[0] == '#' && lacks("#version"@, '/'),
        "#extension"@.len() == 10 && "#extension"@[0] == '#' && lacks("#extension"@, '/'),
{
    reveal_strlit("uniform");
    reveal_strlit("varying");
    reveal_strlit("precision");
    reveal_strlit("#version");
    reveal_strlit("#extension");
}

proof fn lemma_opens(line: Seq<char>)
    ensures
        opens_declaration(line) <==> begins_declaration(line),
        opens_directive(line) <==> is_directive(line),
{
    lemma_words();
    lemma_begins(line, "uniform"@);
    lemma_begins(line, "varying"@);
    lemma_begins(line, "precision"@);
    lemma_begins(line, "#version"@);
    lemma_begins(line, "#extension"@);
}

proof fn lemma_no_comment_from(line: Seq<char>, from: int)
    requires
        lacks(line, '/'),
        0 <= from <= line.len(),
    ensures
        code_from(line, from, false) == (line.skip(from), false),
    decreases line.len() - from,
{
    if from < line.len() {
        lemma_no_comment_from(line, from + 1);
        assert(line[from] != '/');
        assert(seq![line[from]] + line.skip(from + 1) == line.skip(from));
    } else {
        assert(line.skip(from) == Seq::<char>::empty());
    }
}

/// A line without a slash is all code.
proof fn lemma_no_comment(line: Seq<char>)
    requires
        lacks(line, '/'),
    ensures
        code_of(line, false) == (line, false),
        starts_declaration(line) <==> opens_declaration(line),
        is_directive(line) <==> opens_directive(line),
{
    lemma_no_comment_from(line, 0);
    assert(line.skip(0) == line);
    lemma_opens(line);
}

/// What comes first in a line without comments.
proof fn lemma_scan_plain(line: Seq<char>, from: int)
    requires
        lacks(line, '/'),
        0 <= from <= line.len(),
    ensures
        match scan(line, from, false) {
            Scan::Semicolon(i) => {
                &&& from <= i < line.len() && line[i] == ';'
                &&& forall|j: int| from <= j < i ==> #[trigger] line[j] != ';' && line[j] != '{'
            },
            Scan::Brace => exists|j: int| from <= j < line.len() && #[trigger] line[j] == '{',
            Scan::End(open) => {
                &&& !open
                &&& forall|j: int|
                    from <= j < line.len() ==> #[trigger] line[j] != ';' && line[j] != '{'
            },
        },
    decreases line.len() - from,
{
    if from < line.len() {
        assert(line[from] != '/');
        lemma_scan_plain(line, from + 1);
    }
}

proof fn lemma_blank(line: Seq<char>, from: int)
    requires
        lacks(line, '/'),
        0 <= from <= line.len(),
    ensures
        is_blank(line.skip(from)) <==> blank_from(line, from),
{
    let rest = line.skip(from);
    assert forall|i: int| 0 <= i < rest.len() implies #[trigger] rest[i] != '/' by {
        assert(rest[i] == line[from + i]);
    }
    lemma_no_comment(rest);
    let n = lemma_trim_start(rest);
    if blank_from(line, from) {
        if n < rest.len() {
            assert(rest[n] == line[from + n]);
        }
    }
    if n == rest.len() {
        assert forall|i: int| from <= i < line.len() implies is_whitespace(#[trigger] line[i]) by {
            assert(rest[i - from] == line[i]);
        }
    }
}

/// Lines whose declarations end on them are stripped without regard to what follows.
proof fn lemma_closed_lines(before: Seq<Seq<char>>, tail: Seq<Seq<char>>)
    requires
        are_closed_lines(before),
    ensures
        kept_lines(before + tail, false) == kept_lines(before, false) + kept_lines(tail, false),
    decreases
            before.len(),
            (if before.len() > 0 {
                before.first().len()
            } else {
                0
            }),
{
    let source = before + tail;
    let kept_tail = kept_lines(tail, false);
    if before.len() == 0 {
        assert(source == tail);
        assert(kept_lines(before, false) + kept_tail == kept_tail);
    } else {
        let line = before.first();
        let others = before.drop_first();
        assert(is_closed_line(before[0]));
        assert forall|k: int| 0 <= k < others.len() implies is_closed_line(#[trigger] others[k]) by {
            assert(others[k] == before[k + 1]);
        }
        lemma_no_comment(line);
        lemma_closed_lines(others, tail);
        assert(source.first() == line);
        assert(source.drop_first() == others + tail);
        let kept = kept_lines(others, false);
        assert(seq![line] + (kept + kept_tail) == (seq![line] + kept) + kept_tail);
        if starts_declaration(line) {
            lemma_scan_plain(line, 0);
            let end = choose|k: int|
                0 <= k < line.len() && #[trigger] line[k] == ';' && blank_from(line, k + 1);
            assert(line[end] == ';');
            if let Scan::Semicolon(i) = scan(line, 0, false) {
                let rest = line.skip(i + 1);
                assert(declaration_end(source, false) == Some((0int, i)));
                assert(declaration_end(before, false) == Some((0int, i)));
                assert(source.skip(1) == others + tail);
                assert(before.skip(1) == others);
                if !is_blank(rest) {
                    lemma_blank(line, i + 1);
                    let next = seq![rest] + others;
                    assert(i <= end);
                    if i == end {
                        assert(false);
                    }
                    assert(lacks(rest, '/')) by {
                        assert forall|j: int| 0 <= j < rest.len() implies #[trigger] rest[j]
                            != '/' by {
                            assert(rest[j] == line[i + 1 + j]);
                        }
                    }
                    let k = end - (i + 1);
                    assert(rest[k] == ';');
                    assert(blank_from(rest, k + 1)) by {
                        assert forall|j: int| k + 1 <= j < rest.len() implies is_whitespace(
                            #[trigger] rest[j],
                        ) by {
                            assert(rest[j] == line[i + 1 + j]);
                        }
                    }
                    assert(is_closed_line(rest));
                    assert forall|j: int| 0 <= j < next.len() implies is_closed_line(
                        #[trigger] next[j],
                    ) by {
                        if j > 0 {
                            assert(next[j] == others[j - 1]);
                        }
                    }
                    lemma_closed_lines(next, tail);
                    assert(next + tail == seq![rest] + (others + tail));
                }
            }
        }
    }
}

/// A line is kept, where it stands, unless its first characters are `#version` or `#extension` or
/// its first word is `uniform`, `varying` or `precision`: macros and conditionals, functions, and
/// declarations of every other kind. What stands before and after it is stripped as without it. The
/// lines before it have their declarations on one line each.
pub proof fn law_lines_without_the_words_are_kept(
    before: Seq<Seq<char>>,
    line: Seq<char>,
    after: Seq<Seq<char>>,
)
    requires
        are_closed_lines(before),
        lacks(line, '/'),
        !opens_with(line, "uniform"@),
        !opens_with(line, "varying"@),
        !opens_with(line, "precision"@),
        !begins(line, "#version"@),
        !begins(line, "#extension"@),
    ensures
        kept_lines(before + (seq![line] + after), false) == kept_lines(before, false) + (seq![line]
            + kept_lines(after, false)),
{
    let tail = seq![line] + after;
    lemma_closed_lines(before, tail);
    lemma_no_comment(line);
    assert(tail.first() == line);
    assert(tail.drop_first() == after);
}

/// Version and extension directives are stripped, and nothing else changes.
pub proof fn law_directives_are_stripped(
    before: Seq<Seq<char>>,
    line: Seq<char>,
    after: Seq<Seq<char>>,
)
    requires
        are_closed_lines(before),
        lacks(line, '/'),
        begins(line, "#version"@) || begins(line, "#extension"@),
    ensures
        kept_lines(before + (seq![line] + after), false) == kept_lines(before, false) + kept_lines(
            after,
            false,
        ),
{
    let tail = seq![line] + after;
    lemma_closed_lines(before, tail);
    lemma_no_comment(line);
    assert(tail.first() == line);
    assert(tail.drop_first() == after);
    assert(!opens_declaration(line)) by {
        lemma_words();
        lemma_begins(line, "#version"@);
        lemma_begins(line, "#extension"@);
        lemma_begins(line, "uniform"@);
        lemma_begins(line, "varying"@);
        lemma_begins(line, "precision"@);
        let t = trim_start(line);
        if "#version"@.is_prefix_of(t) {
            assert(t.take(8)[0] == '#');
        } else {
            assert(t.take(10)[0] == '#');
        }
        if opens_with(line, "uniform"@) {
            assert(t.take(7)[0] == 'u');
        }
        if opens_with(line, "varying"@) {
            assert(t.take(7)[0] == 'v');
        }
        if opens_with(line, "precision"@) {
            assert(t.take(9)[0] == 'p');
        }
    }
}

proof fn lemma_declaration_end_plain(open: Seq<Seq<char>>, last: Seq<char>, k: int, after: Seq<Seq<char>>)
    requires
        forall|i: int|
            0 <= i < open.len() ==> lacks(#[trigger] open[i], '/') && lacks(open[i], ';') && lacks(
                open[i],
                '{',
            ),
        lacks(last, '/'),
        0 <= k < last.len(),
        last[k] == ';',
        forall|j: int| 0 <= j < k ==> #[trigger] last[j] != ';' && last[j] != '{',
    ensures
        declaration_end(open + (seq![last] + after), false) == Some((open.len() as int, k)),
    decreases open.len(),
{
    let source = open + (seq![last] + after);
    if open.len() == 0 {
        assert(source == seq![last] + after);
        assert(source.first() == last);
        lemma_first_semicolon(last, 0, k);
    } else {
        let rest = open.drop_first();
        let line = open.first();
        assert(line == open[0]);
        assert(lacks(open[0], '/'));
        lemma_scan_plain(line, 0);
        assert(scan(line, 0, false) == Scan::<int>::End(false));
        assert forall|i: int| 0 <= i < rest.len() implies lacks(#[trigger] rest[i], '/') && lacks(
            rest[i],
            ';',
        ) && lacks(rest[i], '{') by {
            assert(rest[i] == open[i + 1]);
        }
        lemma_declaration_end_plain(rest, last, k, after);
        assert(source.first() == line);
        assert(source.drop_first() == rest + (seq![last] + after));
    }
}

proof fn lemma_first_semicolon(line: Seq<char>, from: int, k: int)
    requires
        0 <= from <= k < line.len(),
        line[k] == ';',
        forall|j: int|
            from <= j < k ==> #[trigger] line[j] != ';' && line[j] != '{' && line[j] != '/',
    ensures
        scan(line, from, false) == Scan::<int>::Semicolon(k),
    decreases k - from,
{
    assert(line[from] != '/');
    if from < k {
        assert(line[from] != ';' && line[from] != '{');
        lemma_first_semicolon(line, from + 1, k);
    }
}

/// A uniform, varying or precision declaration is stripped, from its first word to its semicolon,
/// over as many lines as it takes. `open` are the lines that it goes on over, and `k` is the index
/// of its semicolon in the line `last`. What stands behind the semicolon is treated as a line of its
/// own, unless it is whitespace, and the lines before and after as without the declaration.
pub proof fn law_declarations_are_stripped_up_to_their_semicolon(
    before: Seq<Seq<char>>,
    open: Seq<Seq<char>>,
    last: Seq<char>,
    k: int,
    after: Seq<Seq<char>>,
)
    requires
        are_closed_lines(before),
        opens_declaration((open + seq![last]).first()),
        forall|i: int|
            0 <= i < open.len() ==> lacks(#[trigger] open[i], '/') && lacks(open[i], ';') && lacks(
                open[i],
                '{',
            ),
        lacks(last, '/'),
        0 <= k < last.len(),
        last[k] == ';',
        forall|j: int| 0 <= j < k ==> #[trigger] last[j] != ';' && last[j] != '{',
    ensures
        kept_lines(before + (open + (seq![last] + after)), false) == kept_lines(before, false) + if blank_from(
            last,
            k + 1,
        ) {
            kept_lines(after, false)
        } else {
            kept_lines(seq![last.skip(k + 1)] + after, false)
        },
{
    let source = open + (seq![last] + after);
    lemma_closed_lines(before, source);
    lemma_declaration_end_plain(open, last, k, after);
    let line = source.first();
    assert(line == (open + seq![last]).first());
    if open.len() > 0 {
        assert(line == open[0]);
        assert(lacks(open[0], '/'));
    } else {
        assert(line == last);
    }
    lemma_no_comment(line);
    lemma_blank(last, k + 1);
    let n = open.len() as int;
    assert(source[n] == last);
    assert(source.skip(n + 1) == after);
}

proof fn lemma_line_comment(a: Seq<char>, b: Seq<char>, from: int)
    requires
        lacks(a, '/'),
        0 <= from <= a.len(),
    ensures
        code_from(a + seq!['/', '/'] + b, from, false) == (a.skip(from), false),
    decreases a.len() - from,
{
    let line = a + seq!['/', '/'] + b;
    if from < a.len() {
        lemma_line_comment(a, b, from + 1);
        assert(line[from] == a[from]);
        assert(a[from] != '/');
        assert(seq![line[from]] + a.skip(from + 1) == a.skip(from));
    } else {
        assert(line[from] == '/' && line[from + 1] == '/');
        assert(a.skip(from) == Seq::<char>::empty());
    }
}

proof fn lemma_inside_comment(line: Seq<char>, from: int, end: int)
    requires
        0 <= from <= end,
        end + 1 < line.len(),
        line[end] == '*' && line[end + 1] == '/',
        forall|i: int| from <= i < end ==> #[trigger] line[i] != '*',
    ensures
        code_from(line, from, true) == code_from(line, end + 2, false),
        comment_end(line, from) == Some(end + 2),
    decreases end - from,
{
    if from < end {
        assert(line[from] != '*');
        lemma_inside_comment(line, from + 1, end);
    }
}

proof fn lemma_open_comment(line: Seq<char>, from: int)
    requires
        0 <= from <= line.len(),
        forall|i: int| from <= i < line.len() ==> #[trigger] line[i] != '*',
    ensures
        code_from(line, from, true) == (Seq::<char>::empty(), true),
        comment_end(line, from) is None,
    decreases line.len() - from,
{
    if from < line.len() {
        assert(line[from] != '*');
        lemma_open_comment(line, from + 1);
    }
}

proof fn lemma_before_comment(line: Seq<char>, from: int, start: int)
    requires
        0 <= from <= start,
        start + 1 < line.len(),
        line[start] == '/' && line[start + 1] == '*',
        forall|i: int| from <= i < start ==> #[trigger] line[i] != '/',
    ensures
        code_from(line, from, false).0 == line.subrange(from, start) + seq![' '] + code_from(
            line,
            start + 2,
            true,
        ).0,
        code_from(line, from, false).1 == code_from(line, start + 2, true).1,
    decreases start - from,
{
    let rest = code_from(line, start + 2, true).0;
    if from < start {
        assert(line[from] != '/');
        lemma_before_comment(line, from + 1, start);
        assert(seq![line[from]] + (line.subrange(from + 1, start) + seq![' '] + rest)
            == line.subrange(from, start) + seq![' '] + rest);
    } else {
        assert(seq![' '] + rest == line.subrange(from, start) + seq![' '] + rest);
    }
}

/// Comments are no code: not what stands behind two slashes, and not what stands between the marks
/// of a block comment, which counts as a space. A block comment without an end is open after its
/// line, and stays open over lines without one.
pub proof fn law_comments_are_no_code(a: Seq<char>, b: Seq<char>, c: Seq<char>)
    requires
        lacks(a, '/'),
        lacks(b, '*'),
        lacks(c, '/'),
    ensures
        code_of(a, false) == (a, false),
        code_of(a + seq!['/', '/'] + c, false) == (a, false),
        code_of(a + seq!['/', '*'] + b + seq!['*', '/'] + c, false) == (a + seq![' '] + c, false),
        code_of(a + seq!['/', '*'] + b, false) == (a + seq![' '], true),
        code_of(b, true) == (Seq::<char>::empty(), true),
        code_of(b + seq!['*', '/'] + c, true) == (c, false),
{
    lemma_no_comment(a);
    lemma_line_comment(a, c, 0);
    assert(a.skip(0) == a);

    let line = a + seq!['/', '*'] + b + seq!['*', '/'] + c;
    let start = a.len() as int;
    let end = start + 2 + b.len();
    assert(line[start] == '/' && line[start + 1] == '*');
    assert(line[end] == '*' && line[end + 1] == '/');
    assert forall|i: int| 0 <= i < start implies #[trigger] line[i] != '/' by {
        assert(line[i] == a[i]);
    }
    assert forall|i: int| start + 2 <= i < end implies #[trigger] line[i] != '*' by {
        assert(line[i] == b[i - start - 2]);
    }
    lemma_before_comment(line, 0, start);
    lemma_inside_comment(line, start + 2, end);
    assert(line.skip(end + 2) == c);
    lemma_plain_tail(line, end + 2, c);
    assert(line.subrange(0, start) == a);

    let opened = a + seq!['/', '*'] + b;
    assert(opened[start] == '/' && opened[start + 1] == '*');
    assert forall|i: int| 0 <= i < start implies #[trigger] opened[i] != '/' by {
        assert(opened[i] == a[i]);
    }
    assert forall|i: int| start + 2 <= i < opened.len() implies #[trigger] opened[i] != '*' by {
        assert(opened[i] == b[i - start - 2]);
    }
    lemma_before_comment(opened, 0, start);
    lemma_open_comment(opened, start + 2);
    assert(opened.subrange(0, start) == a);
    assert(a + seq![' '] + Seq::<char>::empty() == a + seq![' ']);

    lemma_open_comment(b, 0);

    let closed = b + seq!['*', '/'] + c;
    let at = b.len() as int;
    assert(closed[at] == '*' && closed[at + 1] == '/');
    assert forall|i: int| 0 <= i < at implies #[trigger] closed[i] != '*' by {
        assert(closed[i] == b[i]);
    }
    lemma_inside_comment(closed, 0, at);
    assert(closed.skip(at + 2) == c);
    lemma_plain_tail(closed, at + 2, c);
}

proof fn lemma_plain_tail(line: Seq<char>, from: int, c: Seq<char>)
    requires
        0 <= from <= line.len(),
        line.skip(from) == c,
        lacks(c, '/'),
    ensures
        code_from(line, from, false) == (c, false),
    decreases line.len() - from,
{
    if from < line.len() {
        assert(line[from] == c[0]);
        let rest = c.drop_first();
        assert(line.skip(from + 1) == rest);
        assert forall|i: int| 0 <= i < rest.len() implies #[trigger] rest[i] != '/' by {
            assert(rest[i] == c[i + 1]);
        }
        lemma_plain_tail(line, from + 1, rest);
        assert(seq![c[0]] + rest == c);
    } else {
        assert(c == Seq::<char>::empty());
    }
}

proof fn lemma_comment_lines(inner: Seq<Seq<char>>, tail: Seq<Seq<char>>)
    requires
        forall|i: int| 0 <= i < inner.len() ==> lacks(#[trigger] inner[i], '*'),
    ensures
        kept_lines(inner + tail, true) == inner + kept_lines(tail, true),
    decreases inner.len(),
{
    let source = inner + tail;
    if inner.len() == 0 {
        assert(source == tail);
        assert(inner + kept_lines(tail, true) == kept_lines(tail, true));
    } else {
        let rest = inner.drop_first();
        let line = inner.first();
        assert(lacks(inner[0], '*'));
        lemma_open_comment(line, 0);
        assert forall|i: int| 0 <= i < rest.len() implies lacks(#[trigger] rest[i], '*') by {
            assert(rest[i] == inner[i + 1]);
        }
        lemma_comment_lines(rest, tail);
        assert(source.first() == line);
        assert(source.drop_first() == rest + tail);
        assert(seq![line] + (rest + kept_lines(tail, true)) == inner + kept_lines(tail, true));
    }
}

/// The text of a block comment is kept, whatever words its lines begin with. The comment begins on
/// the line `a`, `/*`, `b` and ends on the line `c`, `*/`, `d`, with the lines `inner` in between.
/// The code around it begins with none of the words of declarations.
pub proof fn law_comment_text_is_kept(
    before: Seq<Seq<char>>,
    a: Seq<char>,
    b: Seq<char>,
    inner: Seq<Seq<char>>,
    c: Seq<char>,
    d: Seq<char>,
    after: Seq<Seq<char>>,
)
    requires
        are_closed_lines(before),
        lacks(a, '/'),
        !opens_declaration(a),
        lacks(b, '*'),
        forall|i: int| 0 <= i < inner.len() ==> lacks(#[trigger] inner[i], '*'),
        lacks(c, '*'),
        lacks(d, '/'),
        !opens_declaration(d),
    ensures
        ({
            let first = a + seq!['/', '*'] + b;
            let last = c + seq!['*', '/'] + d;
            kept_lines(before + (seq![first] + (inner + (seq![last] + after))), false)
                == kept_lines(before, false) + (seq![first] + (inner + (seq![last] + kept_lines(
                after,
                false,
            ))))
        }),
{
    let first = a + seq!['/', '*'] + b;
    let last = c + seq!['*', '/'] + d;
    let closing = seq![last] + after;
    let source = seq![first] + (inner + closing);
    lemma_closed_lines(before, source);
    law_comments_are_no_code(a, b, d);
    law_comments_are_no_code(a, c, d);
    lemma_comment_lines(inner, closing);

    // The first line: its code is that before the comment.
    assert(source.first() == first);
    assert(source.drop_first() == inner + closing);
    let code = a + seq![' '];
    lemma_opens(a);
    lemma_opens(code);
    lemma_words();
    assert(!opens_declaration(code)) by {
        lemma_opens_with_space(a, "uniform"@);
        lemma_opens_with_space(a, "varying"@);
        lemma_opens_with_space(a, "precision"@);
    }
    assert(!starts_declaration(first));

    // The last line: the code behind the comment starts nothing.
    assert(closing.first() == last);
    assert(closing.drop_first() == after);
    let at = c.len() as int;
    assert(last[at] == '*' && last[at + 1] == '/');
    assert forall|i: int| 0 <= i < at implies #[trigger] last[i] != '*' by {
        assert(last[i] == c[i]);
    }
    lemma_inside_comment(last, 0, at);
    assert(last.skip(at + 2) == d);
    lemma_no_comment(d);
}

proof fn lemma_opens_with_space(a: Seq<char>, word: Seq<char>)
    requires
        word.len() > 0,
        word.last() != ' ',
    ensures
        opens_with(a + seq![' '], word) ==> opens_with(a, word),
{
    let line = a + seq![' '];
    if opens_with(line, word) {
        let n = choose|n: int| #[trigger]
            begins_at(line, n, word) && (n + word.len() == line.len() || is_whitespace(
                line[n + word.len()],
            ));
        let last = word.len() - 1;
        assert(line[n + last] == word[last]);
        assert(n + word.len() <= a.len());
        assert forall|i: int| 0 <= i < n implies is_whitespace(#[trigger] a[i]) by {
            assert(line[i] == a[i]);
        }
        assert forall|i: int| 0 <= i < word.len() implies #[trigger] a[n + i] == word[i] by {
            assert(line[n + i] == a[n + i]);
        }
        assert(begins_at(a, n, word));
    }
}

/// A line begins with a text exactly if what stands before its first slash does.
proof fn lemma_begins_before_slash(a: Seq<char>, rest: Seq<char>, text: Seq<char>)
    requires
        lacks(text, '/'),
        rest.len() > 0,
        rest[0] == '/',
    ensures
        begins(a + rest, text) ==> begins(a, text),
{
    let line = a + rest;
    if begins(line, text) {
        let n = choose|n: int| #[trigger] begins_at(line, n, text);
        let at = a.len() as int;
        assert(line[at] == '/');
        if n + text.len() > at {
            if n > at {
                assert(is_whitespace(line[at]));
            } else {
                assert(line[n + (at - n)] == text[at - n]);
            }
        }
        assert forall|i: int| 0 <= i < n implies is_whitespace(#[trigger] a[i]) by {
            assert(line[i] == a[i]);
        }
        assert forall|i: int| 0 <= i < text.len() implies #[trigger] a[n + i] == text[i] by {
            assert(line[n + i] == a[n + i]);
        }
        assert(begins_at(a, n, text));
    }
}

/// A line is kept with its comment, behind two slashes or between the marks of a block comment,
/// unless it is a directive or its code begins a declaration.
pub proof fn law_lines_are_kept_with_their_comments(
    before: Seq<Seq<char>>,
    a: Seq<char>,
    b: Seq<char>,
    c: Seq<char>,
    after: Seq<Seq<char>>,
)
    requires
        are_closed_lines(before),
        lacks(a, '/'),
        !begins(a, "#version"@),
        !begins(a, "#extension"@),
    ensures
        ({
            let line = a + seq!['/', '/'] + b;
            !opens_declaration(a) ==> kept_lines(before + (seq![line] + after), false)
                == kept_lines(before, false) + (seq![line] + kept_lines(after, false))
        }),
        ({
            let line = a + seq!['/', '*'] + b + seq!['*', '/'] + c;
            lacks(b, '*') && lacks(c, '/') && !opens_declaration(a + seq![' '] + c) ==> kept_lines(
                before + (seq![line] + after),
                false,
            ) == kept_lines(before, false) + (seq![line] + kept_lines(after, false))
        }),
{
    lemma_words();
    let behind = a + seq!['/', '/'] + b;
    let rest = seq!['/', '/'] + b;
    assert(behind == a + rest);
    lemma_begins_before_slash(a, rest, "#version"@);
    lemma_begins_before_slash(a, rest, "#extension"@);
    lemma_opens(behind);
    lemma_opens(a);
    lemma_line_comment(a, b, 0);
    assert(a.skip(0) == a);
    let tail = seq![behind] + after;
    lemma_closed_lines(before, tail);
    assert(tail.first() == behind);
    assert(tail.drop_first() == after);

    if lacks(b, '*') && lacks(c, '/') {
        let block = a + seq!['/', '*'] + b + seq!['*', '/'] + c;
        let rest = seq!['/', '*'] + b + seq!['*', '/'] + c;
        assert(block == a + rest);
        lemma_begins_before_slash(a, rest, "#version"@);
        lemma_begins_before_slash(a, rest, "#extension"@);
        lemma_opens(block);
        law_comments_are_no_code(a, b, c);
        lemma_opens(a + seq![' '] + c);
        let tail = seq![block] + after;
        lemma_closed_lines(before, tail);
        assert(tail.first() == block);
        assert(tail.drop_first() == after);
    }
}

/// A declaration is stripped with the comment behind it: the line `code` ends in its semicolon, at
/// `k`, and two slashes and the text `comment` follow.
pub proof fn law_declarations_are_stripped_with_their_comment(
    before: Seq<Seq<char>>,
    code: Seq<char>,
    k: int,
    comment: Seq<char>,
    after: Seq<Seq<char>>,
)
    requires
        are_closed_lines(before),
        lacks(code, '/'),
        opens_declaration(code),
        0 <= k < code.len(),
        code[k] == ';',
        forall|j: int| 0 <= j < k ==> #[trigger] code[j] != ';' && code[j] != '{',
        blank_from(code, k + 1),
    ensures
        kept_lines(before + (seq![code + seq!['/', '/'] + comment] + after), false) == kept_lines(
            before,
            false,
        ) + kept_lines(after, false),
{
    let line = code + seq!['/', '/'] + comment;
    let tail = seq![line] + after;
    lemma_closed_lines(before, tail);
    lemma_line_comment(code, comment, 0);
    assert(code.skip(0) == code);
    lemma_opens(code);
    assert(tail.first() == line);
    assert(tail.drop_first() == after);
    assert forall|j: int| 0 <= j < k implies #[trigger] line[j] != ';' && line[j] != '{' && line[j]
        != '/' by {
        assert(line[j] == code[j]);
    }
    lemma_first_semicolon(line, 0, k);
    assert(declaration_end(tail, false) == Some((0int, k)));
    let rest = code.skip(k + 1);
    assert(line.skip(k + 1) == rest + seq!['/', '/'] + comment);
    assert forall|j: int| 0 <= j < rest.len() implies #[trigger] rest[j] != '/' by {
        assert(rest[j] == code[k + 1 + j]);
    }
    lemma_line_comment(rest, comment, 0);
    assert(rest.skip(0) == rest);
    lemma_blank(code, k + 1);
    lemma_no_comment(rest);
    assert(tail.skip(1) == after);
}

proof fn lemma_spaced_words()
    ensures
        "uniform "@.len() == 8 && "uniform "@[0] == 'u',
        "varying "@.len() == 8 && "varying "@[0] == 'v',
        "precision "@.len() == 10 && "precision "@[0] == 'p',
{
    reveal_strlit("uniform ");
    reveal_strlit("varying ");
    reveal_strlit("precision ");
}

/// Of a declaration without a semicolon, at the end of the source, the line is stripped if it begins
/// with `varying` or `precision` and a space, and kept otherwise.
pub proof fn law_unfinished_declarations(before: Seq<Seq<char>>, line: Seq<char>)
    requires
        are_closed_lines(before),
        lacks(line, '/'),
        lacks(line, ';'),
        lacks(line, '{'),
        opens_declaration(line),
    ensures
        kept_lines(before + seq![line], false) == kept_lines(before, false) + if begins(
            line,
            "varying "@,
        ) || begins(line, "precision "@) {
            Seq::empty()
        } else {
            seq![line]
        },
{
    let tail = seq![line];
    lemma_closed_lines(before, tail);
    lemma_no_comment(line);
    lemma_scan_plain(line, 0);
    lemma_spaced_words();
    lemma_begins(line, "varying "@);
    lemma_begins(line, "precision "@);
    assert(tail.first() == line);
    assert(tail.drop_first() == Seq::<Seq<char>>::empty());
    assert(scan(line, 0, false) == Scan::<int>::End(false));
    assert(declaration_end(Seq::empty(), false) is None);
    assert(declaration_end(tail, false) is None);
    lemma_no_semicolon_at_end(line);
    assert(seq![line] + kept_lines(Seq::empty(), false) == seq![line]);
}

proof fn lemma_no_semicolon_at_end(line: Seq<char>)
    requires
        lacks(line, ';'),
    ensures
        !ends_in_semicolon(line),
    decreases line.len(),
{
    if line.len() > 0 && is_whitespace(line.last()) {
        let shorter = line.drop_last();
        assert forall|i: int| 0 <= i < shorter.len() implies #[trigger] shorter[i] != ';' by {
            assert(shorter[i] == line[i]);
        }
        lemma_no_semicolon_at_end(shorter);
    } else if line.len() > 0 {
        assert(line[line.len() - 1] != ';');
    }
}

proof fn lemma_semicolon_at_end(line: Seq<char>, k: int)
    requires
        0 <= k < line.len(),
        line[k] == ';',
        blank_from(line, k + 1),
    ensures
        ends_in_semicolon(line),
    decreases line.len(),
{
    if k + 1 < line.len() {
        let shorter = line.drop_last();
        assert(is_whitespace(line[line.len() - 1]));
        assert(shorter[k] == ';');
        assert forall|i: int| k + 1 <= i < shorter.len() implies is_whitespace(
            #[trigger] shorter[i],
        ) by {
            assert(shorter[i] == line[i]);
        }
        lemma_semicolon_at_end(shorter, k);
    } else {
        assert(line.last() == ';');
    }
}

/// A uniform block on one line is stripped: it begins with `uniform` and a space, has a brace at `b`
/// before any semicolon, and ends in the semicolon at `k`. One that goes on over more lines is kept,
/// and so are its members.
pub proof fn law_uniform_blocks(
    before: Seq<Seq<char>>,
    line: Seq<char>,
    b: int,
    after: Seq<Seq<char>>,
)
    requires
        are_closed_lines(before),
        lacks(line, '/'),
        begins(line, "uniform "@),
        opens_with(line, "uniform"@),
        0 <= b < line.len(),
        line[b] == '{',
        forall|j: int| 0 <= j < b ==> #[trigger] line[j] != ';',
    ensures
        (exists|k: int| 0 <= k < line.len() && #[trigger] line[k] == ';' && blank_from(line, k + 1))
            ==> kept_lines(before + (seq![line] + after), false) == kept_lines(before, false)
            + kept_lines(after, false),
        lacks(line, ';') ==> kept_lines(before + (seq![line] + after), false) == kept_lines(
            before,
            false,
        ) + (seq![line] + kept_lines(after, false)),
{
    let tail = seq![line] + after;
    lemma_closed_lines(before, tail);
    lemma_no_comment(line);
    lemma_spaced_words();
    lemma_words();
    lemma_begins(line, "uniform "@);
    lemma_begins(line, "uniform"@);
    lemma_begins(line, "varying "@);
    lemma_begins(line, "precision "@);
    assert(tail.first() == line);
    assert(tail.drop_first() == after);
    lemma_first_brace(line, 0, b);
    assert(declaration_end(tail, false) is None);
    let t = trim_start(line);
    assert(t.take(8)[0] == 'u');
    if "varying "@.is_prefix_of(t) {
        assert(t.take(8)[0] == 'v');
    }
    if "precision "@.is_prefix_of(t) {
        assert(t.take(10)[0] == 'p');
    }
    if exists|k: int| 0 <= k < line.len() && #[trigger] line[k] == ';' && blank_from(line, k + 1) {
        let k = choose|k: int|
            0 <= k < line.len() && #[trigger] line[k] == ';' && blank_from(line, k + 1);
        lemma_semicolon_at_end(line, k);
    }
    if lacks(line, ';') {
        lemma_no_semicolon_at_end(line);
    }
}

proof fn lemma_first_brace(line: Seq<char>, from: int, b: int)
    requires
        lacks(line, '/'),
        0 <= from <= b < line.len(),
        line[b] == '{',
        forall|j: int| from <= j < b ==> #[trigger] line[j] != ';',
    ensures
        scan(line, from, false) == Scan::<int>::Brace,
    decreases b - from,
{
    assert(line[from] != '/');
    if from < b {
        assert(line[from] != ';');
        if line[from] != '{' {
            lemma_first_brace(line, from + 1, b);
        }
    }
}

/// A declaration that follows the end of a block comment is treated as if it began a line of its
/// own, and the text of the comment is kept. The comment begins on the line `a`, `/*`, `b` and ends
/// on the line `c`, `*/`, `d`, with the lines `inner` in between.
pub proof fn law_declarations_may_follow_a_comment(
    before: Seq<Seq<char>>,
    a: Seq<char>,
    b: Seq<char>,
    inner: Seq<Seq<char>>,
    c: Seq<char>,
    d: Seq<char>,
    after: Seq<Seq<char>>,
)
    requires
        are_closed_lines(before),
        lacks(a, '/'),
        !opens_declaration(a),
        lacks(b, '*'),
        forall|i: int| 0 <= i < inner.len() ==> lacks(#[trigger] inner[i], '*'),
        lacks(c, '*'),
        lacks(d, '/'),
        opens_declaration(d),
    ensures
        ({
            let first = a + seq!['/', '*'] + b;
            let last = c + seq!['*', '/'] + d;
            kept_lines(before + (seq![first] + (inner + (seq![last] + after))), false)
                == kept_lines(before, false) + (seq![first] + (inner + (seq![
                c + seq!['*', '/'],
            ] + kept_lines(seq![d] + after, false))))
        }),
{
    let first = a + seq!['/', '*'] + b;
    let last = c + seq!['*', '/'] + d;
    let closing = seq![last] + after;
    let source = seq![first] + (inner + closing);
    lemma_closed_lines(before, source);
    law_comments_are_no_code(a, b, d);
    lemma_comment_lines(inner, closing);
    assert(source.first() == first);
    assert(source.drop_first() == inner + closing);
    let code = a + seq![' '];
    lemma_opens(a);
    lemma_opens(code);
    lemma_words();
    assert(!opens_declaration(code)) by {
        lemma_opens_with_space(a, "uniform"@);
        lemma_opens_with_space(a, "varying"@);
        lemma_opens_with_space(a, "precision"@);
    }
    assert(closing.first() == last);
    assert(closing.drop_first() == after);
    let at = c.len() as int;
    assert(last[at] == '*' && last[at + 1] == '/');
    assert forall|i: int| 0 <= i < at implies #[trigger] last[i] != '*' by {
        assert(last[i] == c[i]);
    }
    lemma_inside_comment(last, 0, at);
    assert(last.skip(at + 2) == d);
    assert(last.take(at + 2) == c + seq!['*', '/']);
    lemma_no_comment(d);
}

proof fn lemma_scan_before_line_comment(a: Seq<char>, b: Seq<char>, from: int)
    requires
        lacks(a, '/'),
        lacks(a, ';'),
        lacks(a, '{'),
        0 <= from <= a.len(),
    ensures
        scan(a + seq!['/', '/'] + b, from, false) == Scan::<int>::End(false),
    decreases a.len() - from,
{
    let line = a + seq!['/', '/'] + b;
    if from < a.len() {
        assert(line[from] == a[from]);
        assert(a[from] != '/' && a[from] != ';' && a[from] != '{');
        lemma_scan_before_line_comment(a, b, from + 1);
    } else {
        assert(line[from] == '/' && line[from + 1] == '/');
    }
}

proof fn lemma_scan_before_comment(line: Seq<char>, from: int, start: int)
    requires
        0 <= from <= start,
        start + 1 < line.len(),
        line[start] == '/' && line[start + 1] == '*',
        forall|i: int|
            from <= i < start ==> #[trigger] line[i] != '/' && line[i] != ';' && line[i] != '{',
    ensures
        scan(line, from, false) == scan(line, start + 2, true),
    decreases start - from,
{
    if from < start {
        assert(line[from] != '/' && line[from] != ';' && line[from] != '{');
        lemma_scan_before_comment(line, from + 1, start);
    }
}

proof fn lemma_scan_inside_comment(line: Seq<char>, from: int, end: int)
    requires
        0 <= from <= end,
        end + 1 < line.len(),
        line[end] == '*' && line[end + 1] == '/',
        forall|i: int| from <= i < end ==> #[trigger] line[i] != '*',
    ensures
        scan(line, from, true) == scan(line, end + 2, false),
    decreases end - from,
{
    if from < end {
        assert(line[from] != '*');
        lemma_scan_inside_comment(line, from + 1, end);
    }
}

/// What stands in a comment does not end a declaration, not even a semicolon. The declaration goes
/// on from the line `a`, behind which two slashes and the text `b` stand, to the semicolon at `k` in
/// the line `last`.
pub proof fn law_semicolons_in_line_comments_end_nothing(
    before: Seq<Seq<char>>,
    a: Seq<char>,
    b: Seq<char>,
    last: Seq<char>,
    k: int,
    after: Seq<Seq<char>>,
)
    requires
        are_closed_lines(before),
        opens_declaration(a),
        lacks(a, '/'),
        lacks(a, ';'),
        lacks(a, '{'),
        lacks(last, '/'),
        0 <= k < last.len(),
        last[k] == ';',
        forall|j: int| 0 <= j < k ==> #[trigger] last[j] != ';' && last[j] != '{',
    ensures
        kept_lines(before + (seq![a + seq!['/', '/'] + b] + (seq![last] + after)), false)
            == kept_lines(before, false) + if blank_from(last, k + 1) {
            kept_lines(after, false)
        } else {
            kept_lines(seq![last.skip(k + 1)] + after, false)
        },
{
    let line = a + seq!['/', '/'] + b;
    let others = seq![last] + after;
    let source = seq![line] + others;
    lemma_closed_lines(before, source);
    lemma_line_comment(a, b, 0);
    assert(a.skip(0) == a);
    lemma_opens(a);
    lemma_scan_before_line_comment(a, b, 0);
    assert(source.first() == line);
    assert(source.drop_first() == others);
    assert(others.first() == last);
    lemma_first_semicolon(last, 0, k);
    assert(declaration_end(others, false) == Some((0int, k)));
    assert(declaration_end(source, false) == Some((1int, k)));
    assert(source[1] == last);
    assert(source.skip(2) == after);
    lemma_blank(last, k + 1);
}

/// A block comment in a declaration is stripped with it, and does not end it: the declaration is the
/// line `a`, `/*`, `b`, `*/`, `c` up to the semicolon at `k` in `c`. The comment separates words as a
/// space does.
pub proof fn law_declarations_are_stripped_with_comments_inside(
    before: Seq<Seq<char>>,
    a: Seq<char>,
    b: Seq<char>,
    c: Seq<char>,
    k: int,
    after: Seq<Seq<char>>,
)
    requires
        are_closed_lines(before),
        opens_declaration(a + seq![' '] + c),
        lacks(a, '/'),
        lacks(a, ';'),
        lacks(a, '{'),
        lacks(b, '*'),
        lacks(c, '/'),
        0 <= k < c.len(),
        c[k] == ';',
        forall|j: int| 0 <= j < k ==> #[trigger] c[j] != ';' && c[j] != '{',
    ensures
        kept_lines(
            before + (seq![a + seq!['/', '*'] + b + seq!['*', '/'] + c] + after),
            false,
        ) == kept_lines(before, false) + if blank_from(c, k + 1) {
            kept_lines(after, false)
        } else {
            kept_lines(seq![c.skip(k + 1)] + after, false)
        },
{
    let line = a + seq!['/', '*'] + b + seq!['*', '/'] + c;
    let source = seq![line] + after;
    lemma_closed_lines(before, source);
    law_comments_are_no_code(a, b, c);
    lemma_opens(a + seq![' '] + c);
    assert(source.first() == line);
    assert(source.drop_first() == after);
    let start = a.len() as int;
    let end = start + 2 + b.len();
    let from = end + 2;
    assert(line[start] == '/' && line[start + 1] == '*');
    assert(line[end] == '*' && line[end + 1] == '/');
    assert forall|i: int| 0 <= i < start implies #[trigger] line[i] != '/' && line[i] != ';'
        && line[i] != '{' by {
        assert(line[i] == a[i]);
        assert(a[i] != '/' && a[i] != ';' && a[i] != '{');
    }
    assert forall|i: int| start + 2 <= i < end implies #[trigger] line[i] != '*' by {
        assert(line[i] == b[i - start - 2]);
    }
    assert forall|i: int| from <= i < from + k implies #[trigger] line[i] != ';' && line[i] != '{'
        && line[i] != '/' by {
        assert(line[i] == c[i - from]);
    }
    assert(line[from + k] == c[k]);
    lemma_scan_before_comment(line, 0, start);
    lemma_scan_inside_comment(line, start + 2, end);
    lemma_first_semicolon(line, from, from + k);
    assert(declaration_end(source, false) == Some((0int, from + k)));
    assert(line.skip(from + k + 1) == c.skip(k + 1));
    assert(source[0] == line);
    assert(source.skip(1) == after);
    lemma_blank(c, k + 1);
}

proof fn lemma_brace_before_comment(a: Seq<char>, rest: Seq<char>, from: int, b: int)
    requires
        lacks(a, '/'),
        0 <= from <= b < a.len(),
        a[b] == '{',
        forall|j: int| from <= j < b ==> #[trigger] a[j] != ';',
    ensures
        scan(a + rest, from, false) == Scan::<int>::Brace,
    decreases b - from,
{
    let line = a + rest;
    assert(line[from] == a[from]);
    assert(a[from] != '/');
    if from < b {
        assert(a[from] != ';');
        if a[from] != '{' {
            lemma_brace_before_comment(a, rest, from + 1, b);
        }
    }
}

proof fn lemma_begins_longer(a: Seq<char>, rest: Seq<char>, text: Seq<char>)
    requires
        begins(a, text),
    ensures
        begins(a + rest, text),
{
    let n = choose|n: int| #[trigger] begins_at(a, n, text);
    let line = a + rest;
    assert forall|i: int| 0 <= i < n implies is_whitespace(#[trigger] line[i]) by {
        assert(line[i] == a[i]);
    }
    assert forall|i: int| 0 <= i < text.len() implies #[trigger] line[n + i] == text[i] by {
        assert(line[n + i] == a[n + i]);
    }
    assert(begins_at(line, n, text));
}

/// A uniform block on one line is stripped with the comment behind it, too: its code begins with
/// `uniform` and a space, has a brace at `b` before any semicolon, and ends in the semicolon at `k`.
pub proof fn law_uniform_blocks_are_stripped_with_their_comment(
    before: Seq<Seq<char>>,
    code: Seq<char>,
    b: int,
    k: int,
    comment: Seq<char>,
    after: Seq<Seq<char>>,
)
    requires
        are_closed_lines(before),
        lacks(code, '/'),
        begins(code, "uniform "@),
        opens_with(code, "uniform"@),
        0 <= b < code.len(),
        code[b] == '{',
        forall|j: int| 0 <= j < b ==> #[trigger] code[j] != ';',
        0 <= k < code.len(),
        code[k] == ';',
        blank_from(code, k + 1),
    ensures
        kept_lines(before + (seq![code + seq!['/', '/'] + comment] + after), false) == kept_lines(
            before,
            false,
        ) + kept_lines(after, false),
{
    let line = code + seq!['/', '/'] + comment;
    let rest = seq!['/', '/'] + comment;
    assert(line == code + rest);
    let source = seq![line] + after;
    lemma_closed_lines(before, source);
    lemma_line_comment(code, comment, 0);
    assert(code.skip(0) == code);
    lemma_opens(code);
    lemma_words();
    lemma_spaced_words();
    assert(source.first() == line);
    assert(source.drop_first() == after);
    lemma_brace_before_comment(code, rest, 0, b);
    assert(declaration_end(source, false) is None);
    lemma_begins_longer(code, rest, "uniform "@);
    lemma_begins(line, "uniform "@);
    lemma_semicolon_at_end(code, k);
}

} // verus!
