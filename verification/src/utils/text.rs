//! Text by characters: lines, whitespace and prefixes.

use vstd::prelude::*;

verus! {

/// The characters with the Unicode `White_Space` property.
pub open spec fn is_whitespace(c: char) -> bool {
    let n = c as u32;
    ||| 0x9 <= n <= 0xd
    ||| n == 0x20
    ||| n == 0x85
    ||| n == 0xa0
    ||| n == 0x1680
    ||| 0x2000 <= n <= 0x200a
    ||| n == 0x2028
    ||| n == 0x2029
    ||| n == 0x202f
    ||| n == 0x205f
    ||| n == 0x3000
}

/// The text without its leading whitespace.
pub open spec fn trim_start(text: Seq<char>) -> Seq<char>
    decreases text.len(),
{
    if text.len() > 0 && is_whitespace(text.first()) {
        trim_start(text.drop_first())
    } else {
        text
    }
}

/// The text without its trailing whitespace.
pub open spec fn trim_end(text: Seq<char>) -> Seq<char>
    decreases text.len(),
{
    if text.len() > 0 && is_whitespace(text.last()) {
        trim_end(text.drop_last())
    } else {
        text
    }
}

/// Length of the first line, without its line feed.
pub open spec fn line_len(text: Seq<char>) -> nat
    decreases text.len(),
{
    if text.len() == 0 || text.first() == '\n' {
        0
    } else {
        1 + line_len(text.drop_first())
    }
}

/// The first line. Its line feed does not belong to it, and neither does a carriage return before
/// the line feed.
pub open spec fn first_line(text: Seq<char>) -> Seq<char> {
    let len = line_len(text) as int;
    if 0 < len < text.len() && text[len - 1] == '\r' {
        text.take(len - 1)
    } else {
        text.take(len)
    }
}

/// What follows the first line and its line feed.
pub open spec fn after_first_line(text: Seq<char>) -> Seq<char> {
    let len = line_len(text) as int;
    if len < text.len() {
        text.skip(len + 1)
    } else {
        Seq::empty()
    }
}

pub proof fn lemma_line_len(text: Seq<char>)
    ensures
        line_len(text) <= text.len(),
        line_len(text) < text.len() ==> text[line_len(text) as int] == '\n',
        forall|i: int| 0 <= i < line_len(text) ==> text[i] != '\n',
    decreases text.len(),
{
    if text.len() > 0 && text.first() != '\n' {
        lemma_line_len(text.drop_first());
        let rest = text.drop_first();
        assert forall|i: int| 0 <= i < line_len(text) implies text[i] != '\n' by {
            if i > 0 {
                assert(rest[i - 1] == text[i]);
            }
        }
        if line_len(text) < text.len() {
            assert(rest[line_len(rest) as int] == text[line_len(text) as int]);
        }
    }
}

/// The lines of a text. A line feed at its very end does not start another line.
pub open spec fn lines(text: Seq<char>) -> Seq<Seq<char>>
    decreases text.len(),
{
    if text.len() == 0 {
        Seq::empty()
    } else {
        proof {
            lemma_line_len(text);
        }
        seq![first_line(text)] + lines(after_first_line(text))
    }
}

pub fn whitespace(c: char) -> (white: bool)
    ensures
        white == is_whitespace(c),
{
    let n: u32 = c as u32;
    (0x9 <= n && n <= 0xd) || n == 0x20 || n == 0x85 || n == 0xa0 || n == 0x1680 || (0x2000 <= n
        && n <= 0x200a) || n == 0x2028 || n == 0x2029 || n == 0x202f || n == 0x205f || n == 0x3000
}

/// The characters of a string.
pub fn to_chars(text: &str) -> (chars: Vec<char>)
    ensures
        chars@ == text@,
{
    broadcast use vstd::string::axiom_spec_iter;

    let mut chars: Vec<char> = Vec::new();
    for c in it: text.chars()
        invariant
            it.seq() == text@,
            chars@ == text@.take(it.index() as int),
    {
        chars.push(c);
    }
    assert(text@.take(text@.len() as int) == text@);
    chars
}

/// Whether the characters from `from` up to `to` start with the prefix.
pub fn starts_with(chars: &Vec<char>, from: usize, to: usize, prefix: &str) -> (starts: bool)
    requires
        from <= to <= chars.len(),
    ensures
        starts == prefix@.is_prefix_of(chars@.subrange(from as int, to as int)),
{
    let len: usize = prefix.unicode_len();
    if len > to - from {
        return false;
    }
    let ghost text = chars@.subrange(from as int, to as int);
    let mut i: usize = 0;
    while i < len
        invariant
            i <= len,
            len == prefix@.len(),
            len <= to - from,
            from <= to <= chars.len(),
            text == chars@.subrange(from as int, to as int),
            forall|k: int| 0 <= k < i ==> prefix@[k] == text[k],
        decreases len - i,
    {
        if prefix.get_char(i) != chars[from + i] {
            assert(prefix@[i as int] != text[i as int]);
            assert(text.take(prefix@.len() as int)[i as int] == text[i as int]);
            return false;
        }
        i = i + 1;
    }
    assert(prefix@ =~= text.take(prefix@.len() as int));
    true
}

/// Index of the first character from `from` up to `to` that is not whitespace.
pub fn skip_whitespace(chars: &Vec<char>, from: usize, to: usize) -> (start: usize)
    requires
        from <= to <= chars.len(),
    ensures
        from <= start <= to,
        chars@.subrange(start as int, to as int) == trim_start(
            chars@.subrange(from as int, to as int),
        ),
{
    let mut start: usize = from;
    while start < to && whitespace(chars[start])
        invariant
            from <= start <= to <= chars.len(),
            trim_start(chars@.subrange(start as int, to as int)) == trim_start(
                chars@.subrange(from as int, to as int),
            ),
        decreases to - start,
    {
        assert(chars@.subrange(start as int, to as int).drop_first() == chars@.subrange(
            start + 1,
            to as int,
        ));
        start = start + 1;
    }
    start
}

/// Index after the last character from `from` up to `to` that is not whitespace.
pub fn drop_whitespace(chars: &Vec<char>, from: usize, to: usize) -> (end: usize)
    requires
        from <= to <= chars.len(),
    ensures
        from <= end <= to,
        chars@.subrange(from as int, end as int) == trim_end(
            chars@.subrange(from as int, to as int),
        ),
{
    let mut end: usize = to;
    while end > from && whitespace(chars[end - 1])
        invariant
            from <= end <= to <= chars.len(),
            trim_end(chars@.subrange(from as int, end as int)) == trim_end(
                chars@.subrange(from as int, to as int),
            ),
        decreases end - from,
    {
        assert(chars@.subrange(from as int, end as int).drop_last() == chars@.subrange(
            from as int,
            end - 1,
        ));
        end = end - 1;
    }
    end
}

/// Index of the first line feed from `from` on, or the end of the text.
pub fn find_line_end(chars: &Vec<char>, from: usize) -> (end: usize)
    requires
        from <= chars.len(),
    ensures
        from <= end <= chars.len(),
        end - from == line_len(chars@.skip(from as int)),
{
    let mut end: usize = from;
    while end < chars.len() && chars[end] != '\n'
        invariant
            from <= end <= chars.len(),
            line_len(chars@.skip(from as int)) == end - from + line_len(chars@.skip(end as int)),
        decreases chars.len() - end,
    {
        assert(chars@.skip(end as int).drop_first() == chars@.skip(end + 1));
        end = end + 1;
    }
    end
}

/// Whether two strings hold the same characters.
pub fn same_text(a: &str, b: &str) -> (same: bool)
    ensures
        same == (a@ == b@),
{
    let len: usize = a.unicode_len();
    if len != b.unicode_len() {
        return false;
    }
    let mut i: usize = 0;
    while i < len
        invariant
            i <= len,
            len == a@.len(),
            len == b@.len(),
            forall|k: int| 0 <= k < i ==> a@[k] == b@[k],
        decreases len - i,
    {
        if a.get_char(i) != b.get_char(i) {
            return false;
        }
        i = i + 1;
    }
    assert(a@ =~= b@);
    true
}

proof fn lemma_line_len_before(line: Seq<char>, rest: Seq<char>)
    requires
        forall|i: int| 0 <= i < line.len() ==> #[trigger] line[i] != '\n',
        rest.len() == 0 || rest[0] == '\n',
    ensures
        line_len(line + rest) == line.len(),
    decreases line.len(),
{
    let text = line + rest;
    if line.len() > 0 {
        let shorter = line.drop_first();
        assert forall|i: int| 0 <= i < shorter.len() implies #[trigger] shorter[i] != '\n' by {
            assert(shorter[i] == line[i + 1]);
        }
        lemma_line_len_before(shorter, rest);
        assert(text.drop_first() == shorter + rest);
        assert(text.first() == line[0]);
    } else {
        assert(text == rest);
    }
}

/// A text is split at its line feeds, with or without a carriage return before them. What follows
/// the last one is a line too, unless it is empty.
pub proof fn law_lines_are_split_at_line_feeds(line: Seq<char>, rest: Seq<char>)
    requires
        forall|i: int| 0 <= i < line.len() ==> #[trigger] line[i] != '\n',
        line.len() > 0 ==> line.last() != '\r',
    ensures
        lines(Seq::empty()) == Seq::<Seq<char>>::empty(),
        line.len() > 0 ==> lines(line) == seq![line],
        lines(line + seq!['\n'] + rest) == seq![line] + lines(rest),
        lines(line + seq!['\r', '\n'] + rest) == seq![line] + lines(rest),
{
    if line.len() > 0 {
        lemma_line_len_before(line, Seq::empty());
        assert(line + Seq::<char>::empty() == line);
        assert(first_line(line) == line);
        assert(seq![line] + lines(Seq::empty()) == seq![line]);
    }
    let text = line + seq!['\n'] + rest;
    assert(text == line + (seq!['\n'] + rest));
    lemma_line_len_before(line, seq!['\n'] + rest);
    assert(first_line(text) == line);
    assert(after_first_line(text) == rest);

    let returned = line.push('\r');
    let text = line + seq!['\r', '\n'] + rest;
    assert(text == returned + (seq!['\n'] + rest));
    lemma_line_len_before(returned, seq!['\n'] + rest);
    assert(text[returned.len() - 1] == '\r');
    assert(first_line(text) == line);
    assert(after_first_line(text) == rest);
}

/// Trimming takes whitespace off one end of a text, and nothing else.
pub proof fn law_trimming_takes_off_whitespace(space: Seq<char>, text: Seq<char>)
    requires
        forall|i: int| 0 <= i < space.len() ==> is_whitespace(#[trigger] space[i]),
    ensures
        text.len() == 0 || !is_whitespace(text.first()) ==> trim_start(space + text) == text,
        text.len() == 0 || !is_whitespace(text.last()) ==> trim_end(text + space) == text,
    decreases space.len(),
{
    if space.len() > 0 {
        let after = space.drop_first();
        assert(is_whitespace(space[0]));
        assert forall|i: int| 0 <= i < after.len() implies is_whitespace(#[trigger] after[i]) by {
            assert(after[i] == space[i + 1]);
        }
        law_trimming_takes_off_whitespace(after, text);
        assert((space + text).drop_first() == after + text);

        let before = space.drop_last();
        assert(is_whitespace(space[space.len() - 1]));
        assert forall|i: int| 0 <= i < before.len() implies is_whitespace(#[trigger] before[i]) by {
            assert(before[i] == space[i]);
        }
        law_trimming_takes_off_whitespace(before, text);
        assert((text + space).drop_last() == text + before);
    } else {
        assert(space + text == text);
        assert(text + space == text);
    }
}

/// Whitespace is what separates words and lines: the ASCII blanks, the no-break and ideographic
/// spaces, the typographic ones, and the line and paragraph separators. Letters, digits, ASCII
/// punctuation and zero-width characters are not.
pub proof fn law_whitespace_characters(c: char)
    ensures
        is_whitespace(' ') && is_whitespace('\t') && is_whitespace('\n') && is_whitespace('\r'),
        is_whitespace('\u{b}') && is_whitespace('\u{c}') && is_whitespace('\u{85}'),
        is_whitespace('\u{a0}') && is_whitespace('\u{1680}') && is_whitespace('\u{3000}'),
        is_whitespace('\u{202f}') && is_whitespace('\u{205f}'),
        is_whitespace('\u{2028}') && is_whitespace('\u{2029}'),
        '\u{2000}' <= c && c <= '\u{200a}' ==> is_whitespace(c),
        '!' <= c && c <= '~' ==> !is_whitespace(c),
        c < '\t' || c == '\u{180e}' || c == '\u{200b}' || c == '\u{2060}' || c == '\u{feff}'
            ==> !is_whitespace(c),
        is_whitespace(c) && c > '\u{a0}' ==> c == '\u{1680}' || '\u{2000}' <= c && c <= '\u{3000}',
{
}

} // verus!
