//! The four counters, each a pure function of the buffer.
use vstd::prelude::*;
use vstd::utf8::encode_utf8;

verus! {

broadcast use vstd::slice::group_slice_axioms;

/// Number of newline characters in `s`.
pub open spec fn newline_count(s: Seq<char>) -> nat {
    s.filter(|c: char| c == '\n').len()
}

/// Length in bytes of the UTF-8 encoding of `s`.
pub open spec fn utf8_len(s: Seq<char>) -> nat {
    encode_utf8(s).len()
}

proof fn lemma_newline_count_step(s: Seq<char>, i: int)
    requires
        0 <= i < s.len(),
    ensures
        newline_count(s.take(i + 1)) == newline_count(s.take(i)) + if s[i] == '\n' {
            1int
        } else {
            0int
        },
{
    reveal(Seq::filter);
    assert(s.take(i + 1).drop_last() =~= s.take(i));
}

proof fn lemma_newline_count_le_len(s: Seq<char>)
    ensures
        newline_count(s) <= s.len(),
{
    s.lemma_filter_len(|c: char| c == '\n');
}

/// Every character takes at least one byte, and exactly one only where it
/// is ASCII: the character count equals the byte count exactly for pure
/// ASCII text, and is smaller otherwise.
pub proof fn lemma_chars_le_bytes(s: Seq<char>)
    ensures
        s.len() <= utf8_len(s),
        s.len() == utf8_len(s) <==> (forall|i: int| 0 <= i < s.len() ==> s[i] as u32 <= 0x7f),
    decreases s.len(),
{
    if s.len() > 0 {
        lemma_chars_le_bytes(s.drop_first());
        if forall|i: int| 0 <= i < s.len() ==> s[i] as u32 <= 0x7f {
            assert forall|i: int| 0 <= i < s.drop_first().len() implies s.drop_first()[i] as u32
                <= 0x7f by {
                assert(s.drop_first()[i] == s[i + 1]);
            }
        }
        if exists|i: int| 0 <= i < s.len() && s[i] as u32 > 0x7f {
            let i = choose|i: int| 0 <= i < s.len() && s[i] as u32 > 0x7f;
            if i > 0 {
                assert(s.drop_first()[i - 1] == s[i]);
            }
        }
    }
}

/// Counts the number of newline characters in the given buffer.
pub fn get_line_count(buffer: &String) -> (r: usize)
    ensures
        r == newline_count(buffer@),
{
    let n = get_byte_count(buffer);
    let mut count: usize = 0;
    for c in it: buffer.as_str().chars()
        invariant
            it.seq() == buffer@,
            n == utf8_len(buffer@),
            count == newline_count(buffer@.take(it.index() as int)),
    {
        proof {
            lemma_newline_count_step(buffer@, it.index() as int);
            lemma_newline_count_le_len(buffer@.take(it.index() as int));
            lemma_chars_le_bytes(buffer@);
            assert(c == buffer@[it.index() as int]);
        }
        if c == '\n' {
            count = count + 1;
        }
    }
    proof {
        assert(buffer@.take(buffer@.len() as int) =~= buffer@);
    }
    count
}

/// Get the number of characters (Unicode scalar values) in the buffer.
pub fn get_char_count(buffer: &String) -> (r: usize)
    ensures
        r == buffer@.len(),
{
    let n = get_byte_count(buffer);
    proof {
        lemma_chars_le_bytes(buffer@);
    }
    let mut count: usize = 0;
    for c in it: buffer.as_str().chars()
        invariant
            it.seq() == buffer@,
            buffer@.len() <= n,
            count == it.index(),
    {
        count = count + 1;
    }
    count
}

/// The characters with Unicode's White_Space property, the set that
/// `char::is_whitespace` tests for.
pub open spec fn is_white_space(c: char) -> bool {
    let u = c as u32;
    ||| 0x09 <= u <= 0x0d
    ||| u == 0x20
    ||| u == 0x85
    ||| u == 0xa0
    ||| u == 0x1680
    ||| 0x2000 <= u <= 0x200a
    ||| u == 0x2028
    ||| u == 0x2029
    ||| u == 0x202f
    ||| u == 0x205f
    ||| u == 0x3000
}

/// Whether a word begins at position `i` of `s`: a character that is not
/// white space, first in `s` or right after white space.
pub open spec fn starts_word(s: Seq<char>, i: int) -> bool {
    &&& !is_white_space(s[i])
    &&& (i == 0 || is_white_space(s[i - 1]))
}

/// Number of maximal runs of non-white-space characters in `s`, counted by
/// the positions where such a run begins.
pub open spec fn word_count(s: Seq<char>) -> nat
    decreases s.len(),
{
    if s.len() == 0 {
        0
    } else {
        word_count(s.drop_last()) + if starts_word(s, s.len() - 1) {
            1nat
        } else {
            0nat
        }
    }
}

/// Whether `c` is white space in Unicode's sense.
pub fn is_white_space_char(c: char) -> (r: bool)
    ensures
        r == is_white_space(c),
{
    let u = c as u32;
    (0x09 <= u && u <= 0x0d) || u == 0x20 || u == 0x85 || u == 0xa0 || u == 0x1680 || (0x2000
        <= u && u <= 0x200a) || u == 0x2028 || u == 0x2029 || u == 0x202f || u == 0x205f || u
        == 0x3000
}

proof fn lemma_word_count_le_len(s: Seq<char>)
    ensures
        word_count(s) <= s.len(),
    decreases s.len(),
{
    if s.len() > 0 {
        lemma_word_count_le_len(s.drop_last());
    }
}

/// Get count of whitespace-delimited words in the buffer.
pub fn get_word_count(buffer: &String) -> (r: usize)
    ensures
        r == word_count(buffer@),
{
    let n = get_byte_count(buffer);
    proof {
        lemma_chars_le_bytes(buffer@);
    }
    let mut count: usize = 0;
    let mut after_space: bool = true;
    for c in it: buffer.as_str().chars()
        invariant
            it.seq() == buffer@,
            buffer@.len() <= n,
            count == word_count(buffer@.take(it.index() as int)),
            after_space == (it.index() == 0 || is_white_space(buffer@[it.index() - 1])),
    {
        let i = Ghost(it.index() as int);
        proof {
            let t = buffer@.take(i@ + 1);
            assert(t.drop_last() =~= buffer@.take(i@));
            assert(c == buffer@[i@]);
            assert(starts_word(t, i@) == starts_word(buffer@, i@));
            lemma_word_count_le_len(buffer@.take(i@));
        }
        let space = is_white_space_char(c);
        if !space && after_space {
            count = count + 1;
        }
        after_space = space;
    }
    proof {
        assert(buffer@.take(buffer@.len() as int) =~= buffer@);
    }
    count
}

/// Get the number of bytes contained in the buffer.
pub fn get_byte_count(buffer: &String) -> (r: usize)
    ensures
        r == utf8_len(buffer@),
{
    buffer.as_str().as_bytes().len()
}

} // verus!
