//! Decoding of the raw debug buffer that contract execution writes.

use vstd::prelude::*;

verus! {

/// The line-feed byte that separates lines of the debug buffer.
pub const LINE_FEED: u8 = 10;

/// The character whose code point is the value of `b`.
pub open spec fn byte_char(b: u8) -> char {
    b as char
}

/// Each byte read as the character with the same code point.
pub open spec fn chars_of(b: Seq<u8>) -> Seq<char> {
    b.map_values(|x: u8| byte_char(x))
}

/// The buffer split at every line-feed byte; empty pieces are kept, and a
/// trailing line feed gives a trailing empty line.
pub open spec fn split_lines(b: Seq<u8>) -> Seq<Seq<u8>>
    decreases b.len(),
{
    if b.len() == 0 {
        seq![Seq::empty()]
    } else {
        let rest = split_lines(b.drop_last());
        if b.last() == LINE_FEED {
            rest.push(Seq::empty())
        } else {
            rest.update(rest.len() - 1, rest.last().push(b.last()))
        }
    }
}

/// The lines of the buffer, each byte read as one character.
pub open spec fn decoded_lines(b: Seq<u8>) -> Seq<Seq<char>> {
    split_lines(b).map_values(|l: Seq<u8>| chars_of(l))
}

/// The number of line-feed bytes in the buffer.
pub open spec fn line_feeds(b: Seq<u8>) -> nat
    decreases b.len(),
{
    if b.len() == 0 {
        0
    } else {
        line_feeds(b.drop_last()) + if b.last() == LINE_FEED { 1nat } else { 0nat }
    }
}

/// A buffer decodes to one more line than it holds line-feed bytes.
pub proof fn lemma_line_count(b: Seq<u8>)
    ensures
        decoded_lines(b).len() == line_feeds(b) + 1,
    decreases b.len(),
{
    if b.len() > 0 {
        lemma_line_count(b.drop_last());
    }
}

/// The lines joined back together, a line feed between each two.
pub open spec fn join_lines(ls: Seq<Seq<u8>>) -> Seq<u8>
    decreases ls.len(),
{
    if ls.len() <= 1 {
        if ls.len() == 0 { Seq::empty() } else { ls[0] }
    } else {
        join_lines(ls.drop_last()) + seq![LINE_FEED] + ls.last()
    }
}

proof fn lemma_join_extend_last(ls: Seq<Seq<u8>>, x: u8)
    requires
        ls.len() >= 1,
    ensures
        join_lines(ls.update(ls.len() - 1, ls.last().push(x))) == join_lines(ls).push(x),
{
    let t = ls.update(ls.len() - 1, ls.last().push(x));
    if ls.len() > 1 {
        assert(t.drop_last() == ls.drop_last());
        assert(join_lines(ls.drop_last()) + seq![LINE_FEED] + ls.last().push(x)
            == (join_lines(ls.drop_last()) + seq![LINE_FEED] + ls.last()).push(x));
    }
}

/// Joining the lines of a buffer with line feeds gives the buffer back.
pub proof fn lemma_split_then_join(b: Seq<u8>)
    ensures
        join_lines(split_lines(b)) == b,
    decreases b.len(),
{
    if b.len() > 0 {
        let rest = split_lines(b.drop_last());
        lemma_split_then_join(b.drop_last());
        lemma_split_lines_nonempty(b.drop_last());
        if b.last() == LINE_FEED {
            let t = rest.push(Seq::<u8>::empty());
            assert(t.drop_last() == rest);
            assert(join_lines(rest) + seq![LINE_FEED] + Seq::<u8>::empty() == b);
        } else {
            lemma_join_extend_last(rest, b.last());
            assert(b.drop_last().push(b.last()) == b);
        }
    }
}

/// Appends a character to a string.
/// Relies on `String::push`, which appends the given character at the end.
#[verifier::external_body]
fn push_char(s: &mut String, c: char)
    ensures
        final(s)@ == old(s)@.push(c),
{
    s.push(c)
}

proof fn lemma_split_lines_nonempty(b: Seq<u8>)
    ensures
        split_lines(b).len() >= 1,
    decreases b.len(),
{
    if b.len() > 0 {
        lemma_split_lines_nonempty(b.drop_last());
    }
}

/// Splits the buffer into lines at line-feed bytes, reading each byte as the
/// character with the same code point.
pub fn decode_debug_buffer(buffer: &[u8]) -> (r: Vec<String>)
    ensures
        r@.len() == decoded_lines(buffer@).len(),
        r@.len() == line_feeds(buffer@) + 1,
        forall|i: int| 0 <= i < r@.len() ==> #[trigger] r@[i]@ == decoded_lines(buffer@)[i],
{
    let mut lines: Vec<String> = Vec::new();
    let mut current = String::new();
    let mut i: usize = 0;
    while i < buffer.len()
        invariant
            i <= buffer@.len(),
            lines@.len() + 1 == split_lines(buffer@.take(i as int)).len(),
            forall|k: int| 0 <= k < lines@.len() ==> #[trigger] lines@[k]@ == chars_of(split_lines(buffer@.take(i as int))[k]),
            current@ == chars_of(split_lines(buffer@.take(i as int)).last()),
        decreases buffer@.len() - i,
    {
        let b = buffer[i];
        proof {
            assert(buffer@.take(i + 1).drop_last() == buffer@.take(i as int));
            lemma_split_lines_nonempty(buffer@.take(i as int));
        }
        if b == LINE_FEED {
            lines.push(current);
            current = String::new();
        } else {
            push_char(&mut current, b as char);
            proof {
                let s = split_lines(buffer@.take(i as int));
                assert(chars_of(s.last().push(b)) == chars_of(s.last()).push(b as char));
            }
        }
        i = i + 1;
    }
    lines.push(current);
    proof {
        assert(buffer@.take(i as int) == buffer@);
        lemma_line_count(buffer@);
    }
    lines
}

} // verus!
