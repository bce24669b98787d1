//! Splitting long answers into messages that Discord accepts.

use crate::text::{
    byte_len, char_utf8_len, flatten, from_chars, views, lemma_byte_len_append, lemma_byte_len_empty,
    lemma_byte_len_push, lemma_flatten_append, lemma_flatten_push,
    push_char, to_chars, utf8_len,
};
use vstd::prelude::*;

verus! {

/// The longest message Discord accepts, in bytes.
pub const MAX_MESSAGE_LENGTH: usize = 2000;

/// A line without the `\r` of a `\r\n` ending.
pub open spec fn strip_cr(line: Seq<char>) -> Seq<char> {
    if line.len() > 0 && line.last() == '\r' { line.drop_last() } else { line }
}

/// The finished lines and the line being read, after reading `s`.
pub open spec fn lines_state(s: Seq<char>) -> (Seq<Seq<char>>, Seq<char>)
    decreases s.len(),
{
    if s.len() == 0 {
        (Seq::<Seq<char>>::empty(), Seq::<char>::empty())
    } else {
        let (done, current) = lines_state(s.drop_last());
        if s.last() == '\n' {
            (done.push(strip_cr(current)), Seq::<char>::empty())
        } else {
            (done, current.push(s.last()))
        }
    }
}

/// The lines of a text (`str::lines`): split at `\n` or `\r\n`; a last line ending is optional.
pub open spec fn lines(s: Seq<char>) -> Seq<Seq<char>> {
    let (done, current) = lines_state(s);
    if current.len() > 0 { done.push(current) } else { done }
}

/// The lines of a text; see `lines`.
pub fn text_lines(s: &[char]) -> (r: Vec<Vec<char>>)
    ensures
        r@.len() == lines(s@).len(),
        forall|i: int| 0 <= i < r@.len() ==> #[trigger] r@[i]@ == lines(s@)[i],
{
    let mut done: Vec<Vec<char>> = Vec::new();
    let mut current: Vec<char> = Vec::new();
    let mut i: usize = 0;
    while i < s.len()
        invariant
            i <= s.len(),
            done@.len() == lines_state(s@.subrange(0, i as int)).0.len(),
            forall|k: int| 0 <= k < done@.len() ==> #[trigger] done@[k]@ == lines_state(s@.subrange(0, i as int)).0[k],
            current@ == lines_state(s@.subrange(0, i as int)).1,
        decreases s.len() - i,
    {
        proof {
            assert(s@.subrange(0, i + 1).drop_last() == s@.subrange(0, i as int));
        }
        if s[i] == '\n' {
            if current.len() > 0 && current[current.len() - 1] == '\r' {
                current.pop();
            }
            done.push(current);
            current = Vec::new();
        } else {
            current.push(s[i]);
        }
        i = i + 1;
    }
    proof {
        assert(s@.subrange(0, s@.len() as int) == s@);
    }
    if current.len() > 0 {
        done.push(current);
    }
    done
}

/// The parts already cut off and the part being filled, after reading `line`.
pub open spec fn long_line_state(line: Seq<char>, max_length: nat) -> (Seq<Seq<char>>, Seq<char>)
    decreases line.len(),
{
    if line.len() == 0 {
        (Seq::<Seq<char>>::empty(), Seq::<char>::empty())
    } else {
        let (parts, current) = long_line_state(line.drop_last(), max_length);
        let c = line.last();
        if byte_len(current) + utf8_len(c) > max_length {
            (parts.push(current), seq![c])
        } else {
            (parts, current.push(c))
        }
    }
}

/// A line cut into parts of at most `max_length` bytes, never inside a character:
/// each part takes characters while they fit.
pub open spec fn split_long_line_spec(line: Seq<char>, max_length: nat) -> Seq<Seq<char>> {
    let (parts, current) = long_line_state(line, max_length);
    if current.len() > 0 { parts.push(current) } else { parts }
}

/// Splits a single long line into parts that each fit into `max_length` bytes,
/// without breaking characters; see `split_long_line_spec`.
pub fn split_long_line(line: &str, max_length: usize) -> (parts: Vec<String>)
    ensures
        parts@.len() == split_long_line_spec(line@, max_length as nat).len(),
        forall|i: int| 0 <= i < parts@.len() ==> #[trigger] parts@[i]@ == split_long_line_spec(line@, max_length as nat)[i],
        chars_fit(line@, max_length as nat) ==> {
            &&& flatten(views(parts@)) == line@
            &&& all_fit(views(parts@), max_length as nat)
            &&& takes_while_fits(views(parts@), max_length as nat)
        },
{
    let chars = to_chars(line);
    let mut parts: Vec<String> = Vec::new();
    let mut current: Vec<char> = Vec::new();
    let mut current_len: usize = 0;
    let mut i: usize = 0;
    while i < chars.len()
        invariant
            chars@ == line@,
            i <= chars.len(),
            parts@.len() == long_line_state(line@.subrange(0, i as int), max_length as nat).0.len(),
            forall|k: int| 0 <= k < parts@.len() ==> #[trigger] parts@[k]@ == long_line_state(line@.subrange(0, i as int), max_length as nat).0[k],
            current@ == long_line_state(line@.subrange(0, i as int), max_length as nat).1,
            current_len == byte_len(current@),
            current_len <= max_length || current@.len() == 1,
            current_len <= 4 || current_len <= max_length,
        decreases chars.len() - i,
    {
        proof {
            assert(line@.subrange(0, i + 1).drop_last() == line@.subrange(0, i as int));
        }
        let c = chars[i];
        let n = char_utf8_len(c);
        if n > max_length || current_len > max_length - n {
            parts.push(from_chars(current.as_slice()));
            current = Vec::new();
            current.push(c);
            current_len = n;
            proof {
                assert(current@.drop_last() =~= Seq::<char>::empty());
                assert(byte_len(current@) == byte_len(current@.drop_last()) + utf8_len(c));
            }
        } else {
            current.push(c);
            current_len = current_len + n;
            proof {
                assert(current@.drop_last() == long_line_state(line@.subrange(0, i as int), max_length as nat).1);
                assert(byte_len(current@) == byte_len(current@.drop_last()) + utf8_len(c));
            }
        }
        i = i + 1;
    }
    proof {
        assert(line@.subrange(0, line@.len() as int) == line@);
    }
    if current.len() > 0 {
        parts.push(from_chars(current.as_slice()));
    }
    proof {
        assert(views(parts@) =~= split_long_line_spec(line@, max_length as nat));
        if chars_fit(line@, max_length as nat) {
            lemma_split_long_line(line@, max_length as nat);
            lemma_split_long_line_greedy(line@, max_length as nat);
        }
    }
    parts
}

} // verus!

verus! {

/// Each line with its `\n`.
pub open spec fn lines_with_newlines(ls: Seq<Seq<char>>) -> Seq<Seq<char>> {
    ls.map_values(|l: Seq<char>| l.push('\n'))
}

/// The chunks already finished and the chunk being filled, after the lines `ls`.
pub open spec fn chunks_state(ls: Seq<Seq<char>>, max_length: nat) -> (Seq<Seq<char>>, Seq<char>)
    decreases ls.len(),
{
    if ls.len() == 0 {
        (Seq::<Seq<char>>::empty(), Seq::<char>::empty())
    } else {
        let (chunks, current) = chunks_state(ls.drop_last(), max_length);
        let line = ls.last().push('\n');
        if byte_len(line) > max_length {
            let flushed = if current.len() > 0 { chunks.push(current) } else { chunks };
            (flushed + split_long_line_spec(line, max_length), Seq::<char>::empty())
        } else if byte_len(current) + byte_len(line) > max_length {
            (chunks.push(current), line)
        } else {
            (chunks, current + line)
        }
    }
}

/// A message cut at line breaks into chunks of at most 2000 bytes: lines (each with its
/// `\n`) are gathered while they fit; a line that alone is too long is cut by
/// `split_long_line_spec`.
pub open spec fn split_message_spec(message: Seq<char>) -> Seq<Seq<char>> {
    let (chunks, current) = chunks_state(lines(message), MAX_MESSAGE_LENGTH as nat);
    if current.len() > 0 { chunks.push(current) } else { chunks }
}

/// Splits a message into chunks at line break boundaries, so that no chunk exceeds
/// Discord's limit of 2000 bytes; see `split_message_spec`.
pub fn split_message_at_linebreaks(message: &str) -> (chunks: Vec<String>)
    ensures
        chunks@.len() == split_message_spec(message@).len(),
        forall|i: int| 0 <= i < chunks@.len() ==> #[trigger] chunks@[i]@ == split_message_spec(message@)[i],
        flatten(views(chunks@)) == flatten(lines_with_newlines(lines(message@))),
        all_fit(views(chunks@), MAX_MESSAGE_LENGTH as nat),
{
    let max_length: usize = MAX_MESSAGE_LENGTH;
    let chars = to_chars(message);
    let ls = text_lines(chars.as_slice());
    let ghost all = lines(message@);
    let mut chunks: Vec<String> = Vec::new();
    let mut current: Vec<char> = Vec::new();
    let mut current_len: usize = 0;
    let mut i: usize = 0;
    while i < ls.len()
        invariant
            ls@.len() == all.len(),
            forall|k: int| 0 <= k < ls@.len() ==> #[trigger] ls@[k]@ == all[k],
            all == lines(message@),
            max_length == 2000,
            i <= ls.len(),
            chunks@.len() == chunks_state(all.subrange(0, i as int), 2000).0.len(),
            forall|k: int| 0 <= k < chunks@.len() ==> #[trigger] chunks@[k]@ == chunks_state(all.subrange(0, i as int), 2000).0[k],
            current@ == chunks_state(all.subrange(0, i as int), 2000).1,
            current_len == byte_len(current@),
            current_len <= 2000,
        decreases ls.len() - i,
    {
        proof {
            assert(all.subrange(0, i + 1).drop_last() == all.subrange(0, i as int));
            assert(all.subrange(0, i + 1).last() == all[i as int]);
            lemma_chunks_state_bound(all.subrange(0, i as int), 2000);
        }
        let mut line: Vec<char> = ls[i].clone();
        line.push('\n');
        let mut line_len: usize = 0;
        let mut j: usize = 0;
        while j < line.len()
            invariant
                j <= line.len(),
                line_len == if byte_len(line@.subrange(0, j as int)) <= 2001 {
                    byte_len(line@.subrange(0, j as int))
                } else {
                    2001
                },
            decreases line.len() - j,
        {
            proof {
                assert(line@.subrange(0, j + 1) == line@.subrange(0, j as int).push(line@[j as int]));
                lemma_byte_len_push(line@.subrange(0, j as int), line@[j as int]);
            }
            line_len = line_len + char_utf8_len(line[j]);
            if line_len > 2001 {
                line_len = 2001;
            }
            j = j + 1;
        }
        proof {
            assert(line@.subrange(0, line@.len() as int) == line@);
        }
        if line_len > max_length {
            if current.len() > 0 {
                chunks.push(from_chars(current.as_slice()));
            }
            let line_text = from_chars(line.as_slice());
            let parts = split_long_line(line_text.as_str(), max_length);
            let ghost before = chunks@;
            let mut k: usize = 0;
            while k < parts.len()
                invariant
                    k <= parts.len(),
                    chunks@.len() == before.len() + k,
                    forall|m: int| 0 <= m < before.len() ==> #[trigger] chunks@[m] == before[m],
                    forall|m: int| 0 <= m < k ==> #[trigger] chunks@[before.len() + m]@ == parts@[m]@,
                decreases parts.len() - k,
            {
                chunks.push(parts[k].clone());
                k = k + 1;
            }
            proof {
                let prev = chunks_state(all.subrange(0, i as int), 2000);
                let flushed = if prev.1.len() > 0 { prev.0.push(prev.1) } else { prev.0 };
                let expected = flushed + split_long_line_spec(line@, 2000);
                assert(before.len() == flushed.len());
                assert forall|m: int| 0 <= m < before.len() implies #[trigger] before[m]@ == flushed[m] by {
                }
                assert forall|m: int| 0 <= m < chunks@.len() implies #[trigger] chunks@[m]@ == expected[m] by {
                    if m >= before.len() {
                        assert(chunks@[before.len() + (m - before.len())]@ == parts@[m - before.len()]@);
                    }
                }
            }
            current = Vec::new();
            current_len = 0;
        } else if current_len + line_len > max_length {
            chunks.push(from_chars(current.as_slice()));
            current = line;
            current_len = line_len;
        } else {
            proof {
                lemma_byte_len_append(current@, line@);
            }
            current.append(&mut line);
            current_len = current_len + line_len;
        }
        i = i + 1;
    }
    proof {
        assert(all.subrange(0, all.len() as int) == all);
    }
    if current.len() > 0 {
        chunks.push(from_chars(current.as_slice()));
    }
    proof {
        assert(views(chunks@) =~= split_message_spec(message@));
        law_split_message(message@);
    }
    chunks
}

proof fn lemma_chunks_state_bound(ls: Seq<Seq<char>>, max_length: nat)
    requires
        max_length >= 4,
    ensures
        byte_len(chunks_state(ls, max_length).1) <= max_length,
    decreases ls.len(),
{
    if ls.len() > 0 {
        lemma_chunks_state_bound(ls.drop_last(), max_length);
        let (chunks, current) = chunks_state(ls.drop_last(), max_length);
        let line = ls.last().push('\n');
        if byte_len(line) > max_length {
            lemma_byte_len_empty(Seq::<char>::empty());
        } else if byte_len(current) + byte_len(line) > max_length {
        } else {
            lemma_byte_len_append(current, line);
        }
    }
}

} // verus!

verus! {

/// Whether every character of a text fits into `max_length` bytes on its own.
pub open spec fn chars_fit(line: Seq<char>, max_length: nat) -> bool {
    forall|i: int| 0 <= i < line.len() ==> utf8_len(#[trigger] line[i]) <= max_length
}

proof fn lemma_chars_fit(line: Seq<char>, max_length: nat)
    requires
        max_length >= 4,
    ensures
        chars_fit(line, max_length),
{
}

/// Every part is non-empty and fits into `max_length` bytes.
pub open spec fn all_fit(parts: Seq<Seq<char>>, max_length: nat) -> bool {
    forall|i: int| 0 <= i < parts.len() ==> (#[trigger] parts[i]).len() > 0 && byte_len(parts[i]) <= max_length
}

/// Whether each part but the last took characters while they fit: with the first
/// character of the next part it would not fit into `max_length` bytes.
pub open spec fn takes_while_fits(parts: Seq<Seq<char>>, max_length: nat) -> bool {
    forall|i: int| 0 <= i < parts.len() - 1 ==> byte_len(#[trigger] parts[i]) + utf8_len(parts[i + 1][0]) > max_length
}

proof fn lemma_long_line_greedy(line: Seq<char>, max_length: nat)
    requires
        chars_fit(line, max_length),
    ensures
        ({
            let (parts, current) = long_line_state(line, max_length);
            &&& takes_while_fits(parts, max_length)
            &&& parts.len() > 0 ==> current.len() > 0 && byte_len(parts.last()) + utf8_len(current[0]) > max_length
            &&& parts.len() == 0 ==> current == line
        }),
    decreases line.len(),
{
    if line.len() > 0 {
        assert(chars_fit(line.drop_last(), max_length));
        assert(utf8_len(line.last()) <= max_length);
        lemma_long_line_greedy(line.drop_last(), max_length);
        let (parts, current) = long_line_state(line.drop_last(), max_length);
        let c = line.last();
        lemma_byte_len_empty(Seq::<char>::empty());
        if byte_len(current) + utf8_len(c) > max_length {
            assert(current.len() > 0);
            let np = parts.push(current);
            assert forall|i: int| 0 <= i < np.len() - 1 implies byte_len(#[trigger] np[i]) + utf8_len(np[i + 1][0]) > max_length by {
                if i < parts.len() - 1 {
                    assert(np[i] == parts[i] && np[i + 1] == parts[i + 1]);
                } else {
                    assert(np[i] == parts.last() && np[i + 1] == current);
                }
            }
        } else {
            if parts.len() > 0 {
                assert(current.push(c)[0] == current[0]);
            } else {
                assert(current.push(c) =~= line);
            }
        }
    }
}

proof fn lemma_split_long_line_greedy(line: Seq<char>, max_length: nat)
    requires
        chars_fit(line, max_length),
    ensures
        takes_while_fits(split_long_line_spec(line, max_length), max_length),
{
    lemma_long_line_greedy(line, max_length);
    let (parts, current) = long_line_state(line, max_length);
    if current.len() > 0 {
        let np = parts.push(current);
        assert forall|i: int| 0 <= i < np.len() - 1 implies byte_len(#[trigger] np[i]) + utf8_len(np[i + 1][0]) > max_length by {
            if i < parts.len() - 1 {
                assert(np[i] == parts[i] && np[i + 1] == parts[i + 1]);
            } else {
                assert(np[i] == parts.last() && np[i + 1] == current);
            }
        }
    }
}

proof fn lemma_all_fit_push(parts: Seq<Seq<char>>, p: Seq<char>, max_length: nat)
    requires
        all_fit(parts, max_length),
        p.len() > 0,
        byte_len(p) <= max_length,
    ensures
        all_fit(parts.push(p), max_length),
{
    assert forall|i: int| 0 <= i < parts.push(p).len() implies (#[trigger] parts.push(p)[i]).len() > 0
        && byte_len(parts.push(p)[i]) <= max_length by {
        if i < parts.len() {
            assert(parts.push(p)[i] == parts[i]);
        }
    }
}

proof fn lemma_all_fit_append(a: Seq<Seq<char>>, b: Seq<Seq<char>>, max_length: nat)
    requires
        all_fit(a, max_length),
        all_fit(b, max_length),
    ensures
        all_fit(a + b, max_length),
{
    assert forall|i: int| 0 <= i < (a + b).len() implies (#[trigger] (a + b)[i]).len() > 0
        && byte_len((a + b)[i]) <= max_length by {
        if i < a.len() {
            assert((a + b)[i] == a[i]);
        } else {
            assert((a + b)[i] == b[i - a.len()]);
        }
    }
}

proof fn lemma_long_line_state(line: Seq<char>, max_length: nat)
    requires
        chars_fit(line, max_length),
    ensures
        flatten(long_line_state(line, max_length).0) + long_line_state(line, max_length).1 == line,
        all_fit(long_line_state(line, max_length).0, max_length),
        byte_len(long_line_state(line, max_length).1) <= max_length,
    decreases line.len(),
{
    if line.len() == 0 {
        assert(flatten(Seq::<Seq<char>>::empty()) + Seq::<char>::empty() =~= line);
    } else {
        assert(chars_fit(line.drop_last(), max_length));
        assert(utf8_len(line.last()) <= max_length);
        lemma_long_line_state(line.drop_last(), max_length);
        let (parts, current) = long_line_state(line.drop_last(), max_length);
        let c = line.last();
        lemma_byte_len_push(current, c);
        lemma_byte_len_empty(current);
        lemma_byte_len_push(Seq::<char>::empty(), c);
        lemma_byte_len_empty(Seq::<char>::empty());
        assert(line == line.drop_last().push(c));
        if byte_len(current) + utf8_len(c) > max_length {
            lemma_all_fit_push(parts, current, max_length);
            lemma_flatten_push(parts, current);
            assert(seq![c] == Seq::<char>::empty().push(c));
            assert(flatten(parts.push(current)) + seq![c] =~= line);
        } else {
            assert(flatten(parts) + current.push(c) =~= line);
        }
    }
}

/// The parts of a long line give back the line, and each part is non-empty and fits.
pub proof fn lemma_split_long_line(line: Seq<char>, max_length: nat)
    requires
        chars_fit(line, max_length),
    ensures
        flatten(split_long_line_spec(line, max_length)) == line,
        all_fit(split_long_line_spec(line, max_length), max_length),
{
    lemma_long_line_state(line, max_length);
    let (parts, current) = long_line_state(line, max_length);
    if current.len() > 0 {
        lemma_flatten_push(parts, current);
        lemma_all_fit_push(parts, current, max_length);
    } else {
        assert(flatten(parts) + current =~= flatten(parts));
    }
}

proof fn lemma_chunks_state(ls: Seq<Seq<char>>, max_length: nat)
    requires
        max_length >= 4,
    ensures
        flatten(chunks_state(ls, max_length).0) + chunks_state(ls, max_length).1 == flatten(
            lines_with_newlines(ls),
        ),
        all_fit(chunks_state(ls, max_length).0, max_length),
        byte_len(chunks_state(ls, max_length).1) <= max_length,
    decreases ls.len(),
{
    if ls.len() == 0 {
        assert(lines_with_newlines(ls) =~= Seq::<Seq<char>>::empty());
        assert(flatten(Seq::<Seq<char>>::empty()) + Seq::<char>::empty() =~= Seq::<char>::empty());
    } else {
        lemma_chunks_state(ls.drop_last(), max_length);
        let (chunks, current) = chunks_state(ls.drop_last(), max_length);
        let line = ls.last().push('\n');
        assert(lines_with_newlines(ls) =~= lines_with_newlines(ls.drop_last()).push(line));
        lemma_flatten_push(lines_with_newlines(ls.drop_last()), line);
        let total = flatten(lines_with_newlines(ls));
        lemma_byte_len_empty(current);
        lemma_byte_len_empty(Seq::<char>::empty());
        lemma_byte_len_empty(line);
        if byte_len(line) > max_length {
            let flushed = if current.len() > 0 { chunks.push(current) } else { chunks };
            if current.len() > 0 {
                lemma_all_fit_push(chunks, current, max_length);
                lemma_flatten_push(chunks, current);
            } else {
                assert(flatten(chunks) + current =~= flatten(chunks));
            }
            lemma_chars_fit(line, max_length);
            lemma_split_long_line(line, max_length);
            lemma_all_fit_append(flushed, split_long_line_spec(line, max_length), max_length);
            lemma_flatten_append(flushed, split_long_line_spec(line, max_length));
            assert(flatten(flushed + split_long_line_spec(line, max_length)) + Seq::<char>::empty() =~= total);
        } else if byte_len(current) + byte_len(line) > max_length {
            lemma_all_fit_push(chunks, current, max_length);
            lemma_flatten_push(chunks, current);
            assert(flatten(chunks.push(current)) + line =~= total);
        } else {
            lemma_byte_len_append(current, line);
            assert(flatten(chunks) + (current + line) =~= total);
        }
    }
}

/// Splitting a message loses nothing and keeps every chunk within Discord's limit: the
/// chunks, one after the other, are the message's lines, each ended by `\n`; every chunk
/// is non-empty and at most 2000 bytes long.
pub proof fn law_split_message(message: Seq<char>)
    ensures
        flatten(split_message_spec(message)) == flatten(lines_with_newlines(lines(message))),
        all_fit(split_message_spec(message), MAX_MESSAGE_LENGTH as nat),
{
    let ls = lines(message);
    lemma_chunks_state(ls, 2000);
    let (chunks, current) = chunks_state(ls, 2000);
    if current.len() > 0 {
        lemma_flatten_push(chunks, current);
        lemma_all_fit_push(chunks, current, 2000);
    } else {
        assert(flatten(chunks) + current =~= flatten(chunks));
    }
}

} // verus!

verus! {

/// Whether a character has Unicode's White_Space property (the 25 code points of that
/// fixed list).
pub open spec fn is_white_space(c: char) -> bool {
    let n = c as u32;
    ||| 0x9 <= n <= 0xD
    ||| n == 0x20
    ||| n == 0x85
    ||| n == 0xA0
    ||| n == 0x1680
    ||| 0x2000 <= n <= 0x200A
    ||| n == 0x2028
    ||| n == 0x2029
    ||| n == 0x202F
    ||| n == 0x205F
    ||| n == 0x3000
}

/// Whether a text holds nothing but whitespace, so that `str::trim` leaves nothing of it.
pub open spec fn is_blank(s: Seq<char>) -> bool {
    forall|i: int| 0 <= i < s.len() ==> is_white_space(#[trigger] s[i])
}

/// Whether a character has Unicode's White_Space property.
fn white_space_char(c: char) -> (b: bool)
    ensures
        b == is_white_space(c),
{
    let n = c as u32;
    (0x9 <= n && n <= 0xD) || n == 0x20 || n == 0x85 || n == 0xA0 || n == 0x1680 || (0x2000 <= n && n <= 0x200A)
        || n == 0x2028 || n == 0x2029 || n == 0x202F || n == 0x205F || n == 0x3000
}

/// Whether a text holds nothing but whitespace.
fn blank_text(s: &str) -> (b: bool)
    ensures
        b == is_blank(s@),
{
    let chars = to_chars(s);
    let mut i: usize = 0;
    while i < chars.len()
        invariant
            chars@ == s@,
            i <= chars.len(),
            forall|k: int| 0 <= k < i ==> is_white_space(#[trigger] s@[k]),
        decreases chars.len() - i,
    {
        if !white_space_char(chars[i]) {
            assert(!is_white_space(s@[i as int]));
            return false;
        }
        i = i + 1;
    }
    true
}

/// The line of a character in the roster: its species' emoji (a question mark where the
/// species has none), its name, and the link to its sheet.
pub open spec fn roster_line(emoji: Seq<char>, name: Seq<char>, stat_channel_id: u64) -> Seq<char> {
    (if is_blank(emoji) { "❓ "@ } else { emoji }) + seq![' '] + name + " – "@ + "<#"@
        + crate::text::nat_digits(stat_channel_id as nat) + ">\n"@
}

/// The line of a character in the roster.
pub fn build_roster_line(emoji: &str, name: &str, stat_channel_id: u64) -> (s: String)
    ensures
        s@ == roster_line(emoji@, name@, stat_channel_id),
{
    let mut s = String::new();
    if blank_text(emoji) {
        crate::text::push_str(&mut s, "❓ ");
    } else {
        crate::text::push_str(&mut s, emoji);
    }
    crate::text::push_str(&mut s, " ");
    crate::text::push_str(&mut s, name);
    crate::text::push_str(&mut s, " – ");
    crate::text::push_str(&mut s, "<#");
    crate::text::push_u64(&mut s, stat_channel_id);
    crate::text::push_str(&mut s, ">\n");
    proof {
        reveal_strlit(" ");
    }
    assert(s@ =~= roster_line(emoji@, name@, stat_channel_id));
    s
}

} // verus!
