//! Text as sequences of characters: trimming, and splitting into and joining from lines.
//!
//! Contracts speak of `Seq<char>`, the view of `str` and `String`. The executable
//! functions work on `Vec<char>`, whose view is the same sequence.

use vstd::prelude::*;

verus! {

/// Whether `c` is white space: a character with Unicode's White_Space property. These
/// are the ASCII tab, line feed, vertical tab, form feed, carriage return and space,
/// the next-line control, the no-break space, the ogham space mark, the spaces of
/// fixed width from the en quad to the hair space, the line and the paragraph
/// separator, the narrow no-break space, the medium mathematical space and the
/// ideographic space.
pub open spec fn is_white_space(c: char) -> bool {
    let code = c as u32;
    ||| 0x0009 <= code <= 0x000D
    ||| code == 0x0020
    ||| code == 0x0085
    ||| code == 0x00A0
    ||| code == 0x1680
    ||| 0x2000 <= code <= 0x200A
    ||| code == 0x2028
    ||| code == 0x2029
    ||| code == 0x202F
    ||| code == 0x205F
    ||| code == 0x3000
}

/// `char::is_whitespace` of std, which tells whether a character has Unicode's
/// White_Space property. The contract writes that property out as [`is_white_space`].
pub assume_specification[ char::is_whitespace ](c: char) -> (b: bool)
    ensures
        b == is_white_space(c),
;

/// `String::push` of std, which appends one character to the end of the string.
pub assume_specification[ String::push ](s: &mut String, c: char)
    ensures
        final(s)@ == old(s)@.push(c),
;

/// The line separator.
pub open spec fn newline() -> char {
    '\n'
}

/// `s` without its leading white space.
pub open spec fn trim_start(s: Seq<char>) -> Seq<char>
    decreases s.len(),
{
    if s.len() > 0 && is_white_space(s[0]) {
        trim_start(s.subrange(1, s.len() as int))
    } else {
        s
    }
}

/// `s` without its trailing white space.
pub open spec fn trim_end(s: Seq<char>) -> Seq<char>
    decreases s.len(),
{
    if s.len() > 0 && is_white_space(s.last()) {
        trim_end(s.drop_last())
    } else {
        s
    }
}

/// `s` without white space at either end.
pub open spec fn trim(s: Seq<char>) -> Seq<char> {
    trim_end(trim_start(s))
}

/// The lines of `s`: the pieces between its line separators. There is always at least
/// one line; a text that ends in a separator has an empty last line.
pub open spec fn split_lines(s: Seq<char>) -> Seq<Seq<char>>
    decreases s.len(),
{
    if s.len() == 0 {
        seq![Seq::<char>::empty()]
    } else {
        let before = split_lines(s.drop_last());
        if s.last() == newline() {
            before.push(Seq::<char>::empty())
        } else {
            before.drop_last().push(before.last().push(s.last()))
        }
    }
}

/// The lines written one after another, with a line separator between neighbours.
pub open spec fn join_lines(lines: Seq<Seq<char>>) -> Seq<char>
    decreases lines.len(),
{
    if lines.len() == 0 {
        Seq::<char>::empty()
    } else if lines.len() == 1 {
        lines[0]
    } else {
        join_lines(lines.drop_last()) + seq![newline()] + lines.last()
    }
}

/// Whether a text holds no line separator.
pub open spec fn is_single_line(s: Seq<char>) -> bool {
    forall|i: int| 0 <= i < s.len() ==> s[i] != newline()
}

/// The character sequences held by a list of lines.
pub open spec fn lines_view(lines: Seq<Vec<char>>) -> Seq<Seq<char>> {
    Seq::new(lines.len(), |i: int| lines[i]@)
}

/// The character sequences held by a list of strings.
pub open spec fn strings_view(strings: Seq<String>) -> Seq<Seq<char>> {
    Seq::new(strings.len(), |i: int| strings[i]@)
}

/// The plain content of an optional string.
pub open spec fn optional_view(text: Option<String>) -> Option<Seq<char>> {
    match text {
        Some(text) => Some(text@),
        None => None,
    }
}

/// Splitting never yields an empty list.
pub proof fn lemma_split_lines_nonempty(s: Seq<char>)
    ensures
        split_lines(s).len() >= 1,
    decreases s.len(),
{
    if s.len() > 0 {
        lemma_split_lines_nonempty(s.drop_last());
    }
}

/// No line of a split text holds a line separator.
pub proof fn lemma_split_lines_hold_no_newline(s: Seq<char>)
    ensures
        forall|i: int| 0 <= i < split_lines(s).len() ==> is_single_line(#[trigger] split_lines(s)[i]),
    decreases s.len(),
{
    if s.len() > 0 {
        lemma_split_lines_nonempty(s.drop_last());
        lemma_split_lines_hold_no_newline(s.drop_last());
    }
}

/// Joining the lines of a text gives the text back.
pub proof fn lemma_join_of_split(s: Seq<char>)
    ensures
        join_lines(split_lines(s)) == s,
    decreases s.len(),
{
    if s.len() > 0 {
        let head = s.drop_last();
        let before = split_lines(head);
        lemma_split_lines_nonempty(head);
        lemma_join_of_split(head);
        if s.last() == newline() {
            let lines = before.push(Seq::<char>::empty());
            assert(lines.drop_last() == before);
            assert(join_lines(lines) == join_lines(before) + seq![newline()]
                + Seq::<char>::empty());
            assert(head + seq![newline()] + Seq::<char>::empty() =~= s);
        } else {
            let last = before.last().push(s.last());
            let lines = before.drop_last().push(last);
            assert(lines.drop_last() == before.drop_last());
            if before.len() == 1 {
                assert(join_lines(before) == before[0]);
                assert(join_lines(lines) == last);
                assert(head.push(s.last()) =~= s);
            } else {
                assert(join_lines(before) == join_lines(before.drop_last()) + seq![newline()]
                    + before.last());
                assert(join_lines(lines) == join_lines(before.drop_last()) + seq![newline()]
                    + last);
                assert(join_lines(before.drop_last()) + seq![newline()] + last =~= head.push(
                    s.last(),
                ));
                assert(head.push(s.last()) =~= s);
            }
        }
    }
}

/// Joining one more line appends a separator and the line, unless it is the first.
pub proof fn lemma_join_push(lines: Seq<Seq<char>>, line: Seq<char>)
    ensures
        join_lines(lines.push(line)) == if lines.len() == 0 {
            line
        } else {
            join_lines(lines) + seq![newline()] + line
        },
{
    assert(lines.push(line).drop_last() == lines);
}

/// What is left of a text without its leading white space does not start with white
/// space.
pub proof fn lemma_trim_start_bares_the_front(s: Seq<char>)
    ensures
        trim_start(s).len() > 0 ==> !is_white_space(trim_start(s)[0]),
    decreases s.len(),
{
    if s.len() > 0 && is_white_space(s[0]) {
        lemma_trim_start_bares_the_front(s.subrange(1, s.len() as int));
    }
}

/// A text without its trailing white space is the front part of the text, and does
/// not end in white space.
pub proof fn lemma_trim_end_keeps_the_front(s: Seq<char>)
    ensures
        trim_end(s).len() <= s.len(),
        trim_end(s) == s.take(trim_end(s).len() as int),
        trim_end(s).len() > 0 ==> !is_white_space(trim_end(s).last()),
    decreases s.len(),
{
    if s.len() > 0 && is_white_space(s.last()) {
        lemma_trim_end_keeps_the_front(s.drop_last());
        assert(s.drop_last().take(trim_end(s).len() as int) =~= s.take(trim_end(s).len() as int));
    } else {
        assert(s.take(s.len() as int) =~= s);
    }
}

/// A trimmed text has no white space at either end.
pub proof fn lemma_trim_bares_both_ends(s: Seq<char>)
    ensures
        trim(s).len() > 0 ==> !is_white_space(trim(s)[0]) && !is_white_space(trim(s).last()),
{
    lemma_trim_start_bares_the_front(s);
    lemma_trim_end_keeps_the_front(trim_start(s));
}

/// A text without a line separator is its own only line.
pub proof fn lemma_split_single_line(s: Seq<char>)
    requires
        is_single_line(s),
    ensures
        split_lines(s) == seq![s],
    decreases s.len(),
{
    if s.len() > 0 {
        lemma_split_single_line(s.drop_last());
        assert(s.drop_last().push(s.last()) =~= s);
        assert(seq![s.drop_last()].drop_last().push(s) =~= seq![s]);
    } else {
        assert(s =~= Seq::<char>::empty());
    }
}

/// What stands in front of the first line separator of a text is its first line.
pub proof fn lemma_first_line(first: Seq<char>, rest: Seq<char>)
    requires
        is_single_line(first),
    ensures
        split_lines(first + seq![newline()] + rest).len() >= 2,
        split_lines(first + seq![newline()] + rest)[0] == first,
    decreases rest.len(),
{
    let s = first + seq![newline()] + rest;
    if rest.len() == 0 {
        assert(s.drop_last() =~= first);
        lemma_split_single_line(first);
    } else {
        assert(s.drop_last() =~= first + seq![newline()] + rest.drop_last());
        lemma_first_line(first, rest.drop_last());
    }
}

/// The join of a list of two or more lines starts with the first line and a separator.
pub proof fn lemma_join_first(first: Seq<char>, others: Seq<Seq<char>>)
    requires
        others.len() > 0,
    ensures
        join_lines(seq![first] + others) == first + seq![newline()] + join_lines(others),
    decreases others.len(),
{
    let lines = seq![first] + others;
    assert(lines.drop_last() =~= seq![first] + others.drop_last());
    if others.len() == 1 {
        assert(join_lines(lines.drop_last()) == first);
        assert(join_lines(others) == others[0]);
    } else {
        lemma_join_first(first, others.drop_last());
        assert(first + seq![newline()] + join_lines(others.drop_last()) + seq![newline()]
            + others.last() =~= first + seq![newline()] + (join_lines(others.drop_last())
            + seq![newline()] + others.last()));
    }
}

/// The characters of a string slice.
pub fn chars_of(s: &str) -> (v: Vec<char>)
    ensures
        v@ == s@,
{
    let mut v: Vec<char> = Vec::new();
    for c in it: s.chars()
        invariant
            v@ == it.seq().take(it.index() as int),
            it.seq() == s@,
    {
        v.push(c);
    }
    v
}

/// The string made of the given characters.
pub fn string_of(v: &Vec<char>) -> (s: String)
    ensures
        s@ == v@,
{
    let mut s = String::new();
    let mut i: usize = 0;
    while i < v.len()
        invariant
            i <= v.len(),
            s@ == v@.take(i as int),
        decreases v.len() - i,
    {
        s.push(v[i]);
        i += 1;
    }
    s
}

/// Removes the white space at both ends.
pub fn trimmed(v: &Vec<char>) -> (t: Vec<char>)
    ensures
        t@ == trim(v@),
{
    let mut start: usize = 0;
    assert(v@.subrange(0, v.len() as int) == v@);
    while start < v.len() && v[start].is_whitespace()
        invariant
            start <= v.len(),
            trim_start(v@) == trim_start(v@.subrange(start as int, v.len() as int)),
        decreases v.len() - start,
    {
        assert(v@.subrange(start as int, v.len() as int).subrange(
            1,
            v.len() - start,
        ) == v@.subrange(start + 1, v.len() as int));
        start += 1;
    }
    assert(trim_start(v@) == v@.subrange(start as int, v.len() as int));
    let mut end: usize = v.len();
    while end > start && v[end - 1].is_whitespace()
        invariant
            start <= end <= v.len(),
            trim(v@) == trim_end(v@.subrange(start as int, end as int)),
        decreases end - start,
    {
        assert(v@.subrange(start as int, end as int).drop_last() == v@.subrange(
            start as int,
            end - 1,
        ));
        end -= 1;
    }
    assert(trim(v@) == v@.subrange(start as int, end as int));
    let mut t: Vec<char> = Vec::new();
    let mut i: usize = start;
    while i < end
        invariant
            start <= i <= end <= v.len(),
            t@ == v@.subrange(start as int, i as int),
        decreases end - i,
    {
        t.push(v[i]);
        i += 1;
    }
    t
}

/// Splits a text at its line separators.
pub fn split(v: &Vec<char>) -> (lines: Vec<Vec<char>>)
    ensures
        lines_view(lines@) == split_lines(v@),
        lines.len() >= 1,
{
    let mut lines: Vec<Vec<char>> = Vec::new();
    let mut current: Vec<char> = Vec::new();
    let mut i: usize = 0;
    assert(v@.take(0).len() == 0);
    assert(lines_view(lines@).push(current@) == split_lines(v@.take(0)));
    while i < v.len()
        invariant
            i <= v.len(),
            lines_view(lines@).push(current@) == split_lines(v@.take(i as int)),
        decreases v.len() - i,
    {
        let c = v[i];
        let ghost done = lines_view(lines@);
        let ghost line = current@;
        let ghost next = v@.take(i + 1);
        assert(next.drop_last() == v@.take(i as int));
        assert(next.last() == c);
        if c == '\n' {
            lines.push(current);
            current = Vec::new();
            assert(lines_view(lines@) == done.push(line));
            assert(lines_view(lines@).push(current@) == split_lines(next));
        } else {
            current.push(c);
            assert(done.push(line).drop_last() == done);
            assert(lines_view(lines@).push(current@) == split_lines(next));
        }
        i += 1;
    }
    assert(v@.take(v.len() as int) == v@);
    let ghost done = lines_view(lines@);
    let ghost line = current@;
    lines.push(current);
    assert(lines_view(lines@) == done.push(line));
    lines
}

/// Joins lines into one text, with a line separator between neighbours.
pub fn join(lines: &Vec<Vec<char>>) -> (text: Vec<char>)
    ensures
        text@ == join_lines(lines_view(lines@)),
{
    let mut text: Vec<char> = Vec::new();
    let mut i: usize = 0;
    let ghost all = lines_view(lines@);
    assert(all.take(0).len() == 0);
    while i < lines.len()
        invariant
            i <= lines.len(),
            all == lines_view(lines@),
            text@ == join_lines(all.take(i as int)),
        decreases lines.len() - i,
    {
        let ghost before = text@;
        if i > 0 {
            text.push('\n');
        }
        let ghost start = text@;
        let line = &lines[i];
        let mut j: usize = 0;
        while j < line.len()
            invariant
                j <= line.len(),
                text@ == start + line@.take(j as int),
            decreases line.len() - j,
        {
            text.push(line[j]);
            j += 1;
        }
        assert(line@.take(line.len() as int) == line@);
        proof {
            assert(all.take(i + 1) == all.take(i as int).push(line@));
            lemma_join_push(all.take(i as int), line@);
            if i > 0 {
                assert(start == before + seq![newline()]);
            } else {
                assert(text@ == line@);
            }
        }
        i += 1;
    }
    assert(all.take(lines.len() as int) == all);
    text
}

} // verus!
