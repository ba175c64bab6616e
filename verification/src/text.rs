use vstd::prelude::*;
use vstd::string::*;
use vstd::utf8::*;

verus! {

/// The texts of a list of borrowed words.
pub open spec fn texts(words: Seq<&str>) -> Seq<Seq<char>> {
    Seq::new(words.len(), |i: int| words[i]@)
}

/// Where the first line feed of `text` stands, or the length of `text`
/// where it has none.
pub open spec fn first_break(text: Seq<char>) -> int
    decreases text.len(),
{
    if text.len() == 0 || text[0] == '\n' {
        0
    } else {
        1 + first_break(text.drop_first())
    }
}

/// `line` without the carriage return at its end, if it has one.
pub open spec fn without_cr(line: Seq<char>) -> Seq<char> {
    if line.len() > 0 && line.last() == '\r' {
        line.drop_last()
    } else {
        line
    }
}

/// The lines of `text`. A line ends at a line feed, or at a carriage return
/// directly followed by one; neither belongs to the line. What follows the
/// last line feed is a line of its own unless it is empty, and it keeps a
/// carriage return at its end.
pub open spec fn lines_of(text: Seq<char>) -> Seq<Seq<char>>
    decreases text.len(),
{
    let n = first_break(text);
    if text.len() == 0 {
        Seq::empty()
    } else if 0 <= n < text.len() {
        seq![without_cr(text.take(n))] + lines_of(text.skip(n + 1))
    } else {
        seq![text]
    }
}

/// `first_break` stays within the text and stops at a line feed, with none
/// before it.
pub proof fn lemma_first_break(text: Seq<char>)
    ensures
        0 <= first_break(text) <= text.len(),
        first_break(text) < text.len() ==> text[first_break(text)] == '\n',
        forall|j: int| 0 <= j < first_break(text) ==> text[j] != '\n',
    decreases text.len(),
{
    if text.len() == 0 || text[0] == '\n' {
    } else {
        let rest = text.drop_first();
        lemma_first_break(rest);
        assert forall|j: int| 0 <= j < first_break(text) implies text[j] != '\n' by {
            if j > 0 {
                assert(text[j] == rest[j - 1]);
            }
        }
    }
}

/// The first line feed is the one that has none before it.
pub proof fn lemma_first_break_at(text: Seq<char>, at: int)
    requires
        0 <= at <= text.len(),
        at < text.len() ==> text[at] == '\n',
        forall|j: int| 0 <= j < at ==> text[j] != '\n',
    ensures
        first_break(text) == at,
{
    lemma_first_break(text);
}

/// The encoding of two texts in a row is the two encodings in a row.
pub proof fn lemma_encode_concat(a: Seq<char>, b: Seq<char>)
    ensures
        encode_utf8(a + b) == encode_utf8(a) + encode_utf8(b),
{
    broadcast use group_utf8_lib;

    let ea = encode_utf8(a);
    let eb = encode_utf8(b);
    let x = ea + eb;
    assert(valid_utf8(x));
    let at = ea.len() as int;
    assert(is_char_boundary(x, at)) by {
        if eb.len() == 0 {
            assert(at == x.len());
        } else {
            assert(valid_first_scalar(eb));
            assert(x[at] == eb[0]);
            is_char_boundary_iff_is_leading_byte(x, at);
        }
    }
    decode_utf8_split(x, at);
    assert(x.subrange(0, at) =~= ea);
    assert(x.subrange(at, x.len() as int) =~= eb);
    assert(decode_utf8(x) =~= a + b);
    decode_utf8_encode_utf8(x);
}

/// A character below 128 is encoded as the one byte of its number.
pub proof fn lemma_encode_ascii(c: char)
    requires
        c <= '\u{7f}',
    ensures
        encode_utf8(seq![c]) == seq![c as u8],
{
    let one = seq![c];
    assert(is_ascii_chars(one));
    is_ascii_chars_encode_utf8(one);
    assert(encode_utf8(one) =~= seq![c as u8]);
}

/// A character below 128 in a text is one byte of the text's encoding, with
/// the encoding of what precedes it before and of what follows it behind.
pub proof fn lemma_char_to_byte(text: Seq<char>, k: int)
    requires
        0 <= k < text.len(),
        text[k] <= '\u{7f}',
    ensures
        encode_utf8(text) == encode_utf8(text.take(k)) + seq![text[k] as u8] + encode_utf8(
            text.skip(k + 1),
        ),
{
    let pre = text.take(k);
    let post = text.skip(k + 1);
    assert(text =~= pre + seq![text[k]] + post);
    lemma_encode_concat(pre + seq![text[k]], post);
    lemma_encode_concat(pre, seq![text[k]]);
    lemma_encode_ascii(text[k]);
}

/// A byte below 128 in well-formed UTF-8 is a character of its own: the
/// bytes may be cut before and behind it, and the text is what precedes it,
/// the character with its number, and what follows.
pub proof fn lemma_byte_to_char(bytes: Seq<u8>, i: int)
    requires
        valid_utf8(bytes),
        0 <= i < bytes.len(),
        bytes[i] <= 0x7f,
    ensures
        is_char_boundary(bytes, i),
        is_char_boundary(bytes.subrange(i, bytes.len() as int), 1),
        valid_utf8(bytes.subrange(0, i)),
        valid_utf8(bytes.subrange(i, bytes.len() as int)),
        valid_utf8(bytes.subrange(i + 1, bytes.len() as int)),
        decode_utf8(bytes) == decode_utf8(bytes.subrange(0, i)) + seq![bytes[i] as char]
            + decode_utf8(bytes.subrange(i + 1, bytes.len() as int)),
{
    let n = bytes.len() as int;
    is_char_boundary_iff_not_is_continuation_byte(bytes, i);
    valid_utf8_split(bytes, i);
    decode_utf8_split(bytes, i);
    let tail = bytes.subrange(i, n);
    let b = bytes[i];
    assert(tail[0] == b);
    assert(is_leading_byte_width_1(b));
    assert(valid_first_scalar(tail));
    assert(length_of_first_scalar(tail) == 1);
    assert(pop_first_scalar(tail) =~= bytes.subrange(i + 1, n));
    assert(is_char_boundary(tail, 1)) by {
        reveal_with_fuel(is_char_boundary, 2);
    }
    assert((b & 0x7f) as u32 == b as u32) by (bit_vector)
        requires
            b <= 0x7f,
    ;
    assert(decode_first_scalar(tail) == b as u32);
    assert(decode_utf8(tail) =~= seq![b as char] + decode_utf8(bytes.subrange(i + 1, n)));
}

/// Where no byte of a text's encoding is `byte`, a number below 128, no
/// character of the text has that number.
pub proof fn lemma_absent_byte(text: Seq<char>, byte: u8)
    requires
        byte <= 0x7f,
        forall|j: int| 0 <= j < encode_utf8(text).len() ==> encode_utf8(text)[j] != byte,
    ensures
        forall|k: int| 0 <= k < text.len() ==> text[k] != byte as char,
{
    assert forall|k: int| 0 <= k < text.len() implies text[k] != byte as char by {
        if text[k] == byte as char {
            lemma_char_to_byte(text, k);
            let at = encode_utf8(text.take(k)).len() as int;
            assert(encode_utf8(text)[at] == byte);
        }
    }
}

/// The index of the first `byte` in `bytes`, or their length where it does
/// not occur.
pub fn first_byte(bytes: &[u8], byte: u8) -> (at: usize)
    ensures
        at <= bytes@.len(),
        at < bytes@.len() ==> bytes@[at as int] == byte,
        forall|j: int| 0 <= j < at ==> bytes@[j] != byte,
{
    let n: usize = bytes.len();
    let mut i: usize = 0;
    while i < n && bytes[i] != byte
        invariant
            n == bytes@.len(),
            i <= n,
            forall|j: int| 0 <= j < i ==> bytes@[j] != byte,
        decreases n - i,
    {
        i = i + 1;
    }
    i
}

/// `line` without the carriage return at its end, if it has one.
pub fn trim_cr<'a>(line: &'a str) -> (out: &'a str)
    ensures
        out@ == without_cr(line@),
{
    broadcast use group_utf8_lib;

    let bytes = line.as_bytes();
    let n: usize = bytes.len();
    if n > 0 && bytes[n - 1] == 13 {
        proof {
            lemma_byte_to_char(bytes@, n - 1);
        }
        let (kept, _) = line.split_at(n - 1);
        proof {
            assert(bytes@.subrange(n as int, n as int) =~= Seq::<u8>::empty());
            assert(decode_utf8(Seq::<u8>::empty()) =~= Seq::<char>::empty());
            assert(kept@ == decode_utf8(bytes@.subrange(0, n - 1)));
            assert(line@ =~= kept@ + seq!['\r']);
            assert(line@.drop_last() =~= kept@);
        }
        kept
    } else {
        proof {
            let held = line@;
            if held.len() > 0 && held.last() == '\r' {
                lemma_char_to_byte(held, held.len() - 1);
                assert(held.skip(held.len() as int) =~= Seq::<char>::empty());
                assert(bytes@.last() == 13);
            }
        }
        line
    }
}

/// The lines of `text`, in order, as slices of it.
pub fn split_lines<'a>(text: &'a str) -> (lines: Vec<&'a str>)
    ensures
        texts(lines@) == lines_of(text@),
{
    let mut lines: Vec<&str> = Vec::new();
    let mut rest: &str = text;
    assert(texts(lines@) + lines_of(rest@) =~= lines_of(text@));
    while !rest.is_empty()
        invariant
            lines_of(text@) == texts(lines@) + lines_of(rest@),
        decreases rest@.len(),
    {
        let bytes = rest.as_bytes();
        let n: usize = bytes.len();
        let i: usize = first_byte(bytes, 10);
        let ghost before = texts(lines@);
        if i == n {
            proof {
                lemma_absent_byte(rest@, 10);
                lemma_first_break_at(rest@, rest@.len() as int);
            }
            lines.push(rest);
            assert(texts(lines@) =~= before + seq![rest@]);
            return lines;
        }
        proof {
            encode_utf8_valid_utf8(rest@);
            lemma_byte_to_char(bytes@, i as int);
        }
        let (head, tail) = rest.split_at(i);
        let (_, after) = tail.split_at(1);
        let line = trim_cr(head);
        proof {
            let at = head@.len() as int;
            assert(tail.spec_bytes().subrange(1, tail.spec_bytes().len() as int) =~= bytes@.subrange(
                i + 1,
                n as int,
            ));
            encode_utf8_decode_utf8(head@);
            encode_utf8_decode_utf8(after@);
            encode_utf8_decode_utf8(rest@);
            assert(rest@ =~= head@ + seq!['\n'] + after@);
            lemma_absent_byte(head@, 10);
            lemma_first_break_at(rest@, at);
            assert(rest@.take(at) =~= head@);
            assert(rest@.skip(at + 1) =~= after@);
        }
        lines.push(line);
        assert(texts(lines@) =~= before + seq![line@]);
        rest = after;
    }
    assert(lines_of(rest@) =~= Seq::<Seq<char>>::empty());
    lines
}

#[verifier::external_type_specification]
#[verifier::external_body]
pub struct ExFromUtf8Error(std::string::FromUtf8Error);

/// Calls `String::from_utf8`. Nothing is proved of it: the contract states
/// what the standard library documents, that the call succeeds exactly on
/// well-formed UTF-8 and that the string then holds the text which the
/// bytes encode.
#[verifier::external_body]
pub(crate) fn from_utf8(bytes: Vec<u8>) -> (r: Result<String, std::string::FromUtf8Error>)
    ensures
        r is Ok <==> valid_utf8(bytes@),
        r is Ok ==> r->Ok_0@ == decode_utf8(bytes@),
{
    String::from_utf8(bytes)
}

} // verus!
