//! Text operations over character sequences: splitting into lines, joining,
//! and trimming. Every contract is stated over the `Seq<char>` view of a string.

use vstd::prelude::*;
use vstd::string::StringExecFns;

verus! {

/// `String::push` appends one character to the end of the string.
pub assume_specification[ String::push ](s: &mut String, c: char)
    ensures
        final(s)@ == old(s)@.push(c),
;

/// The views of a list of strings, in order.
pub open spec fn texts(items: Seq<String>) -> Seq<Seq<char>> {
    items.map_values(|s: String| s@)
}

/// The view of an optional string.
pub open spec fn option_text(value: Option<String>) -> Option<Seq<char>> {
    match value {
        Some(text) => Some(text@),
        None => None,
    }
}

/// Whether `s` holds a line feed.
pub open spec fn has_newline(s: Seq<char>) -> bool {
    exists|i: int| 0 <= i < s.len() && s[i] == '\n'
}

/// Where the first line of `s` ends: the index of its first line feed, or
/// `s.len()` when it holds none.
pub open spec fn first_line_end(s: Seq<char>) -> nat
    decreases s.len(),
{
    if s.len() == 0 || s[0] == '\n' {
        0
    } else {
        1 + first_line_end(s.drop_first())
    }
}

/// A line without the carriage return that stood before its line feed.
pub open spec fn without_carriage_return(line: Seq<char>) -> Seq<char> {
    if line.len() > 0 && line.last() == '\r' {
        line.drop_last()
    } else {
        line
    }
}

/// The lines of `s`. A line ends at a line feed, or at a carriage return
/// directly followed by one; the terminator is not part of the line. The last
/// line needs no terminator, so a final terminator opens no further, empty
/// line. A carriage return that no line feed follows belongs to its line.
pub open spec fn lines_of(s: Seq<char>) -> Seq<Seq<char>>
    decreases s.len(),
{
    let end = first_line_end(s);
    if s.len() == 0 {
        Seq::empty()
    } else if end >= s.len() {
        seq![s]
    } else {
        seq![without_carriage_return(s.take(end as int))] + lines_of(s.skip(end as int + 1))
    }
}

/// A text that starts with a part free of line feeds, followed by a line feed,
/// has its first line end right after that part.
pub proof fn lemma_first_line_end_at(head: Seq<char>, tail: Seq<char>)
    requires
        !has_newline(head),
    ensures
        first_line_end(head + seq!['\n'] + tail) == head.len(),
        first_line_end(head) == head.len(),
    decreases head.len(),
{
    if head.len() > 0 {
        let rest = head.drop_first();
        assert forall|i: int| 0 <= i < rest.len() implies rest[i] != '\n' by {}
        lemma_first_line_end_at(rest, tail);
        assert((head + seq!['\n'] + tail).drop_first() =~= rest + seq!['\n'] + tail);
    }
}

/// Splits a text into its lines.
pub fn split_lines(text: &str) -> (lines: Vec<String>)
    ensures
        texts(lines@) == lines_of(text@),
{
    let mut lines: Vec<String> = Vec::new();
    let mut current = String::new();
    // A carriage return is held back until the next character shows whether
    // it belongs to a line terminator.
    let mut held = false;
    let ghost mut pending: Seq<char> = Seq::empty();
    proof {
        assert(pending + text@.skip(0) =~= text@);
    }
    for c in it: text.chars()
        invariant
            it.seq() == text@,
            pending == if held {
                current@.push('\r')
            } else {
                current@
            },
            !has_newline(pending),
            !held ==> current@.len() == 0 || current@.last() != '\r',
            lines_of(text@) == texts(lines@) + lines_of(pending + text@.skip(it.index() as int)),
    {
        let ghost rest = text@.skip(it.index() as int);
        let ghost after = text@.skip(it.index() + 1);
        if c == '\n' {
            proof {
                lemma_first_line_end_at(pending, after);
                let whole = pending + seq!['\n'] + after;
                assert(whole =~= pending + rest);
                assert(whole.take(pending.len() as int) =~= pending);
                assert(whole.skip(pending.len() as int + 1) =~= after);
                assert(without_carriage_return(pending) =~= current@);
            }
            lines.push(current);
            current = String::new();
            held = false;
            proof {
                pending = Seq::empty();
            }
        } else {
            if held {
                current.push('\r');
            }
            if c == '\r' {
                held = true;
            } else {
                current.push(c);
                held = false;
            }
            proof {
                let grown = pending.push(c);
                assert(grown + after =~= pending + rest);
                assert forall|i: int| 0 <= i < grown.len() implies grown[i] != '\n' by {}
                pending = grown;
            }
        }
    }
    if held {
        current.push('\r');
    }
    proof {
        lemma_first_line_end_at(pending, Seq::empty());
    }
    if !current.as_str().is_empty() {
        lines.push(current);
    }
    lines
}

/// The parts in order, with the separator between each two neighbours.
pub open spec fn joined(parts: Seq<Seq<char>>, separator: Seq<char>) -> Seq<char>
    decreases parts.len(),
{
    if parts.len() == 0 {
        Seq::empty()
    } else if parts.len() == 1 {
        parts[0]
    } else {
        parts[0] + separator + joined(parts.drop_first(), separator)
    }
}

/// Joining one more part appends the separator and the part, or the part alone
/// when it is the first.
pub proof fn lemma_joined_push(parts: Seq<Seq<char>>, part: Seq<char>, separator: Seq<char>)
    ensures
        joined(parts.push(part), separator) == if parts.len() == 0 {
            part
        } else {
            joined(parts, separator) + separator + part
        },
    decreases parts.len(),
{
    let all = parts.push(part);
    if parts.len() == 1 {
        assert(all.drop_first() =~= seq![part]);
        assert(joined(seq![part], separator) == part);
    } else if parts.len() > 1 {
        lemma_joined_push(parts.drop_first(), part, separator);
        assert(all.drop_first() =~= parts.drop_first().push(part));
        assert(parts[0] + separator + (joined(parts.drop_first(), separator) + separator + part)
            =~= (parts[0] + separator + joined(parts.drop_first(), separator)) + separator + part);
    }
}

/// Joins the parts, placing the separator between each two neighbours.
pub fn join(parts: &Vec<String>, separator: &str) -> (r: String)
    ensures
        r@ == joined(texts(parts@), separator@),
{
    let mut out = String::new();
    let mut i: usize = 0;
    while i < parts.len()
        invariant
            i <= parts.len(),
            out@ == joined(texts(parts@).take(i as int), separator@),
        decreases parts.len() - i,
    {
        proof {
            let before = texts(parts@).take(i as int);
            lemma_joined_push(before, parts[i as int]@, separator@);
            assert(texts(parts@).take(i + 1) =~= before.push(parts[i as int]@));
        }
        if i > 0 {
            out.append(separator);
        }
        out.append(parts[i].as_str());
        i += 1;
    }
    assert(texts(parts@).take(i as int) =~= texts(parts@));
    out
}

/// What a list of lines must satisfy to be written out with one line feed
/// after each line but the last and read back unchanged: no line holds a line
/// feed, and no line that a line feed follows ends in a carriage return.
pub open spec fn separable_lines(lines: Seq<Seq<char>>) -> bool {
    &&& forall|i: int| 0 <= i < lines.len() ==> !has_newline(#[trigger] lines[i])
    &&& forall|i: int|
        0 <= i < lines.len() - 1 ==> without_carriage_return(#[trigger] lines[i]) == lines[i]
}

/// Lines separated by line feeds, the last of them not blank, are read back as
/// exactly those lines, in the same order.
pub proof fn lemma_lines_of_joined(lines: Seq<Seq<char>>)
    requires
        separable_lines(lines),
        lines.len() > 0 ==> lines.last().len() > 0,
    ensures
        lines_of(joined(lines, seq!['\n'])) == lines,
    decreases lines.len(),
{
    let text = joined(lines, seq!['\n']);
    if lines.len() == 1 {
        lemma_first_line_end_at(lines[0], Seq::empty());
    } else if lines.len() > 1 {
        let rest = lines.drop_first();
        let tail = joined(rest, seq!['\n']);
        assert(separable_lines(rest));
        lemma_lines_of_joined(rest);
        lemma_first_line_end_at(lines[0], tail);
        assert(text.take(lines[0].len() as int) =~= lines[0]);
        assert(text.skip(lines[0].len() as int + 1) =~= tail);
    }
}

/// A blank line at the end of the output stands for the final line feed only:
/// it is not among the lines read back.
pub proof fn lemma_lines_of_joined_with_blank_end(lines: Seq<Seq<char>>)
    requires
        separable_lines(lines.push(Seq::empty())),
    ensures
        lines_of(joined(lines.push(Seq::empty()), seq!['\n'])) == lines,
    decreases lines.len(),
{
    let all = lines.push(Seq::empty());
    let text = joined(all, seq!['\n']);
    if lines.len() > 0 {
        let rest = lines.drop_first();
        let rest_all = rest.push(Seq::empty());
        assert(all.drop_first() =~= rest_all);
        let tail = joined(rest_all, seq!['\n']);
        assert(separable_lines(rest_all));
        lemma_lines_of_joined_with_blank_end(rest);
        lemma_first_line_end_at(lines[0], tail);
        assert(text.take(lines[0].len() as int) =~= lines[0]);
        assert(text.skip(lines[0].len() as int + 1) =~= tail);
    }
}

/// Whether the standard library counts `c` as whitespace.
pub uninterp spec fn white_space(c: char) -> bool;

/// `char::is_whitespace` answers by the Unicode property `White_Space`, so
/// its answer depends on the character alone. Which characters carry the
/// property is not stated here.
pub assume_specification[ char::is_whitespace ](c: char) -> (r: bool)
    ensures
        r == white_space(c),
;

/// Whether every character of `s` is whitespace.
pub open spec fn all_white_space(s: Seq<char>) -> bool {
    forall|i: int| 0 <= i < s.len() ==> white_space(#[trigger] s[i])
}

/// `s` without its leading whitespace.
pub open spec fn trimmed_start(s: Seq<char>) -> Seq<char>
    decreases s.len(),
{
    if s.len() > 0 && white_space(s[0]) {
        trimmed_start(s.drop_first())
    } else {
        s
    }
}

/// `s` without its trailing whitespace.
pub open spec fn trimmed_end(s: Seq<char>) -> Seq<char>
    decreases s.len(),
{
    if s.len() > 0 && white_space(s.last()) {
        trimmed_end(s.drop_last())
    } else {
        s
    }
}

/// `s` without its leading and trailing whitespace.
pub open spec fn trimmed(s: Seq<char>) -> Seq<char> {
    trimmed_end(trimmed_start(s))
}

/// How `trimmed_start` changes when one character is added at the end.
pub proof fn lemma_trimmed_start_push(s: Seq<char>, c: char)
    ensures
        all_white_space(s) <==> trimmed_start(s).len() == 0,
        trimmed_start(s.push(c)) == if !all_white_space(s) {
            trimmed_start(s).push(c)
        } else if white_space(c) {
            Seq::empty()
        } else {
            seq![c]
        },
    decreases s.len(),
{
    let grown = s.push(c);
    if s.len() == 0 {
        assert(grown.drop_first() =~= Seq::<char>::empty());
        assert(trimmed_start(Seq::<char>::empty()) =~= Seq::<char>::empty());
    } else {
        let rest = s.drop_first();
        lemma_trimmed_start_push(rest, c);
        assert(grown.drop_first() =~= rest.push(c));
        if white_space(s[0]) {
            if all_white_space(rest) {
                assert forall|i: int| 0 <= i < s.len() implies white_space(#[trigger] s[i]) by {
                    if i > 0 {
                        assert(s[i] == rest[i - 1]);
                    }
                }
            }
            if all_white_space(s) {
                assert forall|i: int| 0 <= i < rest.len() implies white_space(
                    #[trigger] rest[i],
                ) by {}
            }
        }
    }
}

/// Whitespace after a text that does not end in whitespace is all that
/// `trimmed_end` removes.
pub proof fn lemma_trimmed_end_of_gap(kept: Seq<char>, gap: Seq<char>)
    requires
        all_white_space(gap),
        kept.len() == 0 || !white_space(kept.last()),
    ensures
        trimmed_end(kept + gap) == kept,
    decreases gap.len(),
{
    if gap.len() > 0 {
        let shorter = gap.drop_last();
        assert((kept + gap).drop_last() =~= kept + shorter);
        assert forall|i: int| 0 <= i < shorter.len() implies white_space(
            #[trigger] shorter[i],
        ) by {}
        lemma_trimmed_end_of_gap(kept, shorter);
    }
}

/// Removes leading and trailing whitespace.
pub fn trim(text: &str) -> (r: String)
    ensures
        r@ == trimmed(text@),
{
    let mut kept = String::new();
    // Whitespace seen since the last character that was kept.
    let mut gap = String::new();
    let mut started = false;
    for c in it: text.chars()
        invariant
            it.seq() == text@,
            all_white_space(gap@),
            !started ==> kept@.len() == 0 && gap@.len() == 0 && all_white_space(
                text@.take(it.index() as int),
            ),
            started ==> kept@.len() > 0 && !white_space(kept@.last()) && trimmed_start(
                text@.take(it.index() as int),
            ) == kept@ + gap@,
    {
        let ghost before = text@.take(it.index() as int);
        proof {
            lemma_trimmed_start_push(before, c);
            assert(text@.take(it.index() + 1) =~= before.push(c));
        }
        if c.is_whitespace() {
            if started {
                gap.push(c);
                assert forall|i: int| 0 <= i < gap@.len() implies white_space(
                    #[trigger] gap@[i],
                ) by {}
            } else {
                assert forall|i: int| 0 <= i < before.push(c).len() implies white_space(
                    #[trigger] before.push(c)[i],
                ) by {}
            }
        } else {
            kept.append(gap.as_str());
            kept.push(c);
            gap = String::new();
            started = true;
        }
    }
    proof {
        assert(text@.take(text@.len() as int) =~= text@);
        if started {
            lemma_trimmed_end_of_gap(kept@, gap@);
        } else {
            lemma_trimmed_start_push(text@, ' ');
        }
    }
    kept
}

} // verus!
