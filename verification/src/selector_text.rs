//! The selector texts that the selector engine compiles.
//!
//! The engine parts a text at `,`, takes the spaces from both ends of each
//! part, and then walks through the part from one `.` or `#` to the next.
//! It finds them by byte offset and then reads the character at the
//! position of that number. On text beyond ASCII the two differ, and the
//! engine stops the program on a part whose first character is longer than
//! one byte, and on a part that holds a `.` or `#` at a byte offset that is
//! no position in it. Every other text it compiles. `engine_takes` tells the
//! two kinds apart, and `selector_engine_takes` decides it.

use vstd::prelude::*;
use vstd::utf8::is_ascii_chars;

verus! {

/// A character that is taken from the ends of a part, as `str::trim` does:
/// one with the Unicode property `White_Space`.
pub open spec fn is_space(c: char) -> bool {
    ||| '\u{9}' <= c <= '\u{d}'
    ||| c == ' '
    ||| c == '\u{85}'
    ||| c == '\u{a0}'
    ||| c == '\u{1680}'
    ||| '\u{2000}' <= c <= '\u{200a}'
    ||| c == '\u{2028}'
    ||| c == '\u{2029}'
    ||| c == '\u{202f}'
    ||| c == '\u{205f}'
    ||| c == '\u{3000}'
}

/// A character at which a new simple selector begins.
pub open spec fn is_mark(c: char) -> bool {
    c == '.' || c == '#'
}

/// How many bytes the character takes in UTF-8.
pub open spec fn utf8_len(c: char) -> nat {
    if c <= '\u{7f}' {
        1
    } else if c <= '\u{7ff}' {
        2
    } else if c <= '\u{ffff}' {
        3
    } else {
        4
    }
}

/// How many bytes the characters take in UTF-8.
pub open spec fn encoded_len(text: Seq<char>) -> nat
    decreases text.len(),
{
    if text.len() == 0 {
        0
    } else {
        encoded_len(text.drop_last()) + utf8_len(text.last())
    }
}

/// The characters from `lo` up to `hi` are one of the parts into which the
/// commas divide `text`. Between two commas that follow each other, before
/// a comma at the start and behind one at the end stands an empty part.
pub open spec fn is_part(text: Seq<char>, lo: int, hi: int) -> bool {
    &&& 0 <= lo <= hi <= text.len()
    &&& lo == 0 || text[lo - 1] == ','
    &&& hi == text.len() || text[hi] == ','
    &&& forall|k: int| lo <= k < hi ==> text[k] != ','
}

/// The characters from `from` up to `to` are what is left of those from
/// `lo` up to `hi` when the spaces are taken from both ends.
pub open spec fn is_trimmed(text: Seq<char>, lo: int, hi: int, from: int, to: int) -> bool {
    &&& lo <= from <= to <= hi
    &&& forall|k: int| lo <= k < from ==> is_space(text[k])
    &&& forall|k: int| to <= k < hi ==> is_space(text[k])
    &&& from < to ==> !is_space(text[from]) && !is_space(text[to - 1])
}

/// The engine stops on the trimmed part `part`: its first character is
/// longer than one byte, or one of its marks stands at a byte offset that
/// is not below the number of its characters.
pub open spec fn part_stops_engine(part: Seq<char>) -> bool {
    &&& part.len() > 0
    &&& utf8_len(part[0]) > 1 || exists|at: int|
        0 <= at < part.len() && is_mark(#[trigger] part[at]) && encoded_len(part.take(at))
            >= part.len()
}

/// The engine compiles `text`: it stops on none of its parts.
pub open spec fn engine_takes(text: Seq<char>) -> bool {
    forall|lo: int, hi: int, from: int, to: int|
        is_part(text, lo, hi) && #[trigger] is_trimmed(text, lo, hi, from, to)
            ==> !part_stops_engine(text.subrange(from, to))
}

/// The bytes up to a position are the bytes up to the position before it
/// and those of the character between.
proof fn lemma_encoded_len_step(text: Seq<char>, at: int)
    requires
        0 <= at < text.len(),
    ensures
        encoded_len(text.take(at + 1)) == encoded_len(text.take(at)) + utf8_len(text[at]),
{
    assert(text.take(at + 1).drop_last() == text.take(at));
}

/// In ASCII text every character is one byte.
proof fn lemma_ascii_encoded_len(text: Seq<char>)
    requires
        is_ascii_chars(text),
    ensures
        encoded_len(text) == text.len(),
    decreases text.len(),
{
    if text.len() > 0 {
        lemma_ascii_encoded_len(text.drop_last());
    }
}

/// The engine compiles every ASCII text.
pub proof fn lemma_engine_takes_ascii(text: Seq<char>)
    requires
        is_ascii_chars(text),
    ensures
        engine_takes(text),
{
    assert forall|lo: int, hi: int, from: int, to: int|
        is_part(text, lo, hi) && #[trigger] is_trimmed(
            text,
            lo,
            hi,
            from,
            to,
        ) implies !part_stops_engine(text.subrange(from, to)) by {
        let part = text.subrange(from, to);
        assert(is_ascii_chars(part));
        assert forall|at: int| 0 <= at < part.len() implies encoded_len(part.take(at))
            < part.len() by {
            assert(is_ascii_chars(part.take(at)));
            lemma_ascii_encoded_len(part.take(at));
        }
    }
}

/// What is left of a part when the spaces are taken from its ends is
/// settled by the part, but for a part of spaces only, of which nothing is
/// left.
proof fn lemma_trimmed_is_settled(
    text: Seq<char>,
    lo: int,
    hi: int,
    from: int,
    to: int,
    other_from: int,
    other_to: int,
)
    requires
        0 <= lo <= hi <= text.len(),
        is_trimmed(text, lo, hi, from, to),
        is_trimmed(text, lo, hi, other_from, other_to),
    ensures
        from == to ==> other_from == other_to,
        from < to ==> other_from == from && other_to == to,
{
    if other_from < other_to {
        assert(!is_space(text[other_from]));
        assert(!is_space(text[other_to - 1]));
    }
    if from < to {
        assert(!is_space(text[from]));
        assert(!is_space(text[to - 1]));
    }
}

/// Two parts of a text lie apart or are the same part.
proof fn lemma_parts_lie_apart(text: Seq<char>, lo: int, hi: int, other_lo: int, other_hi: int)
    requires
        is_part(text, lo, hi),
        is_part(text, other_lo, other_hi),
        lo <= other_hi,
        other_lo <= hi,
    ensures
        lo == other_lo,
        hi == other_hi,
{
    if other_lo < lo {
        assert(text[lo - 1] == ',');
    }
    if lo < other_lo {
        assert(text[other_lo - 1] == ',');
    }
    if other_hi < hi {
        assert(text[other_hi] == ',');
    }
    if hi < other_hi {
        assert(text[hi] == ',');
    }
}

/// Whether the character is a space.
fn is_space_char(c: char) -> (space: bool)
    ensures
        space == is_space(c),
{
    ('\u{9}' <= c && c <= '\u{d}') || c == ' ' || c == '\u{85}' || c == '\u{a0}' || c
        == '\u{1680}' || ('\u{2000}' <= c && c <= '\u{200a}') || c == '\u{2028}' || c
        == '\u{2029}' || c == '\u{202f}' || c == '\u{205f}' || c == '\u{3000}'
}

/// How many bytes the character takes in UTF-8.
fn utf8_len_of(c: char) -> (length: usize)
    ensures
        length == utf8_len(c),
{
    if c <= '\u{7f}' {
        1
    } else if c <= '\u{7ff}' {
        2
    } else if c <= '\u{ffff}' {
        3
    } else {
        4
    }
}

/// The characters of a text, one by one.
fn chars_of(text: &str) -> (chars: Vec<char>)
    ensures
        chars@ == text@,
{
    let mut chars: Vec<char> = Vec::new();
    for c in it: text.chars()
        invariant
            it.seq() == text@,
            chars@ == text@.take(it.index()),
    {
        assert(text@.take(it.index() + 1) == text@.take(it.index()).push(c));
        chars.push(c);
    }
    assert(text@.take(text@.len() as int) == text@);
    chars
}

/// Whether the engine compiles the part from `lo` up to `hi`.
fn part_is_taken(chars: &Vec<char>, lo: usize, hi: usize) -> (taken: bool)
    requires
        lo <= hi <= chars.len(),
    ensures
        taken == (forall|from: int, to: int| #[trigger]
            is_trimmed(chars@, lo as int, hi as int, from, to) ==> !part_stops_engine(
                chars@.subrange(from, to),
            )),
{
    let mut from = lo;
    while from < hi && is_space_char(chars[from])
        invariant
            lo <= from <= hi <= chars.len(),
            forall|k: int| lo <= k < from ==> is_space(chars@[k]),
        decreases hi - from,
    {
        from = from + 1;
    }
    let mut to = hi;
    while to > from && is_space_char(chars[to - 1])
        invariant
            lo <= from <= to <= hi <= chars.len(),
            forall|k: int| to <= k < hi ==> is_space(chars@[k]),
        decreases to - from,
    {
        to = to - 1;
    }
    assert(is_trimmed(chars@, lo as int, hi as int, from as int, to as int));
    let ghost part = chars@.subrange(from as int, to as int);
    proof {
        assert forall|other_from: int, other_to: int| #[trigger]
            is_trimmed(chars@, lo as int, hi as int, other_from, other_to) implies (from == to
            ==> other_from == other_to) && (from < to ==> other_from == from && other_to
            == to) by {
            lemma_trimmed_is_settled(
                chars@,
                lo as int,
                hi as int,
                from as int,
                to as int,
                other_from,
                other_to,
            );
        }
    }
    if from == to {
        return true;
    }
    assert(part[0] == chars@[from as int]);
    if utf8_len_of(chars[from]) > 1 {
        assert(part_stops_engine(part));
        return false;
    }
    let length = to - from;
    // The byte offset of the character at `at`, counted no further than `length`.
    let mut offset: usize = 0;
    let mut at = from;
    while at < to
        invariant
            from <= at <= to <= chars.len(),
            from < to,
            is_trimmed(chars@, lo as int, hi as int, from as int, to as int),
            length == to - from,
            part == chars@.subrange(from as int, to as int),
            offset <= length,
            offset < length ==> offset == encoded_len(part.take(at - from)),
            offset == length ==> encoded_len(part.take(at - from)) >= length,
            forall|before: int|
                0 <= before < at - from && is_mark(#[trigger] part[before]) ==> encoded_len(
                    part.take(before),
                ) < length,
        decreases to - at,
    {
        let c = chars[at];
        assert(part[at - from] == c);
        if (c == '.' || c == '#') && offset >= length {
            assert(part_stops_engine(part));
            return false;
        }
        proof {
            lemma_encoded_len_step(part, at - from);
        }
        let bytes = utf8_len_of(c);
        if length - offset <= bytes {
            offset = length;
        } else {
            offset = offset + bytes;
        }
        at = at + 1;
    }
    assert(!part_stops_engine(part));
    true
}

/// Decides `engine_takes`.
pub fn selector_engine_takes(text: &str) -> (takes: bool)
    ensures
        takes == engine_takes(text@),
{
    let chars = chars_of(text);
    let mut lo: usize = 0;
    let mut hi: usize = 0;
    loop
        invariant
            chars@ == text@,
            lo <= hi <= chars.len(),
            lo == 0 || chars@[lo - 1] == ',',
            forall|k: int| lo <= k < hi ==> chars@[k] != ',',
            forall|part_lo: int, part_hi: int, from: int, to: int|
                is_part(chars@, part_lo, part_hi) && part_hi < lo && #[trigger] is_trimmed(
                    chars@,
                    part_lo,
                    part_hi,
                    from,
                    to,
                ) ==> !part_stops_engine(chars@.subrange(from, to)),
        decreases chars.len() - hi,
    {
        if hi == chars.len() || chars[hi] == ',' {
            assert(is_part(chars@, lo as int, hi as int));
            let taken = part_is_taken(&chars, lo, hi);
            if !taken {
                return false;
            }
            proof {
                assert forall|part_lo: int, part_hi: int, from: int, to: int|
                    is_part(chars@, part_lo, part_hi) && part_hi <= hi && #[trigger] is_trimmed(
                        chars@,
                        part_lo,
                        part_hi,
                        from,
                        to,
                    ) implies !part_stops_engine(chars@.subrange(from, to)) by {
                    if part_hi >= lo {
                        lemma_parts_lie_apart(chars@, lo as int, hi as int, part_lo, part_hi);
                    }
                }
            }
            if hi == chars.len() {
                return true;
            }
            lo = hi + 1;
        }
        hi = hi + 1;
    }
}

} // verus!
