use vstd::prelude::*;
use vstd::string::StrSliceExecFns;
use vstd::string::StringExecFns;

verus! {

/// Whether a character beyond ASCII has the Unicode property White_Space, as
/// `char::is_whitespace` reports it.
pub uninterp spec fn wide_white_space(c: char) -> bool;

/// The lowercase equivalent of a text that is not all ASCII, as
/// `str::to_lowercase` gives it.
pub uninterp spec fn wide_lowercase(s: Seq<char>) -> Seq<char>;

/// Whether a character is one of the first 128, the ASCII characters.
pub open spec fn is_ascii_char(c: char) -> bool {
    (c as u32) < 0x80
}

/// Whether every character of a text is an ASCII character.
pub open spec fn is_ascii_text(s: Seq<char>) -> bool {
    forall|i: int| 0 <= i < s.len() ==> is_ascii_char(#[trigger] s[i])
}

/// Whether a character has the Unicode property White_Space. Among the
/// ASCII characters these are the space and the five from U+0009 to U+000D
/// (tab, line feed, vertical tab, form feed, carriage return).
pub open spec fn white_space(c: char) -> bool {
    if is_ascii_char(c) {
        c == ' ' || 0x09 <= (c as u32) <= 0x0d
    } else {
        wide_white_space(c)
    }
}

/// The lowercase form of one ASCII character: the capital letters `A` to `Z`
/// become `a` to `z`, every other character stays.
pub open spec fn ascii_lowercase(c: char) -> char {
    if 'A' <= c <= 'Z' {
        ((c as u8) + 32u8) as char
    } else {
        c
    }
}

/// The lowercase equivalent of a text. A text of ASCII characters is
/// lowered character by character.
pub open spec fn lowercase_of(s: Seq<char>) -> Seq<char> {
    if is_ascii_text(s) {
        s.map_values(|c: char| ascii_lowercase(c))
    } else {
        wide_lowercase(s)
    }
}

/// `char::is_whitespace`: the answer depends on the character alone. For an
/// ASCII character it is fixed: true for the space and for U+0009 to U+000D,
/// false for every other. Beyond ASCII it is whatever the Unicode property
/// White_Space says, which contracts call `wide_white_space`.
pub assume_specification[ char::is_whitespace ](c: char) -> (r: bool)
    ensures
        is_ascii_char(c) ==> r == (c == ' ' || 0x09 <= (c as u32) <= 0x0d),
        !is_ascii_char(c) ==> r == wide_white_space(c),
;

/// `str::to_lowercase`: the result depends on the text alone. For a text of
/// ASCII characters it is fixed: the same characters with `A` to `Z` turned
/// into `a` to `z`. For any other text it is whatever the Unicode lowercase
/// mapping gives, which contracts call `wide_lowercase`.
pub assume_specification[ str::to_lowercase ](s: &str) -> (r: String)
    ensures
        is_ascii_text(s@) ==> r@ == s@.map_values(|c: char| ascii_lowercase(c)),
        !is_ascii_text(s@) ==> r@ == wide_lowercase(s@),
;

/// A text without its leading white space.
pub open spec fn trim_start_of(s: Seq<char>) -> Seq<char>
    decreases s.len(),
{
    if s.len() > 0 && white_space(s[0]) {
        trim_start_of(s.skip(1))
    } else {
        s
    }
}

/// A text without its trailing white space.
pub open spec fn trim_end_of(s: Seq<char>) -> Seq<char>
    decreases s.len(),
{
    if s.len() > 0 && white_space(s.last()) {
        trim_end_of(s.drop_last())
    } else {
        s
    }
}

/// A text without its leading and trailing white space.
pub open spec fn trimmed(s: Seq<char>) -> Seq<char> {
    trim_end_of(trim_start_of(s))
}

/// The part of `s` that is left when leading and trailing white space is
/// taken away.
pub fn trim(s: &str) -> (r: &str)
    ensures
        r@ == trimmed(s@),
{
    let n = s.unicode_len();
    let mut lo: usize = 0;
    assert(s@.subrange(0, n as int) =~= s@);
    while lo < n && s.get_char(lo).is_whitespace()
        invariant
            n == s@.len(),
            lo <= n,
            trim_start_of(s@) == trim_start_of(s@.subrange(lo as int, n as int)),
        decreases n - lo,
    {
        assert(s@.subrange(lo as int, n as int).skip(1) =~= s@.subrange(lo + 1, n as int));
        lo += 1;
    }
    assert(trim_start_of(s@) == s@.subrange(lo as int, n as int));
    let mut hi: usize = n;
    while hi > lo && s.get_char(hi - 1).is_whitespace()
        invariant
            n == s@.len(),
            lo <= hi <= n,
            trimmed(s@) == trim_end_of(s@.subrange(lo as int, hi as int)),
        decreases hi - lo,
    {
        assert(s@.subrange(lo as int, hi as int).drop_last() =~= s@.subrange(
            lo as int,
            hi - 1,
        ));
        hi -= 1;
    }
    s.substring_char(lo, hi)
}

/// The position of the first space in `s`, or the length of `s` where it
/// holds none.
pub open spec fn first_space(s: Seq<char>) -> int
    decreases s.len(),
{
    if s.len() == 0 || s[0] == ' ' {
        0
    } else {
        1 + first_space(s.skip(1))
    }
}

/// The pieces of `s` between its spaces, in order. Every single space
/// separates two pieces, so two spaces in a row enclose an empty piece, and
/// a text without a space is one piece.
pub open spec fn split_on_space(s: Seq<char>) -> Seq<Seq<char>>
    decreases s.len(),
{
    let at = first_space(s);
    if 0 <= at < s.len() {
        seq![s.subrange(0, at)] + split_on_space(s.subrange(at + 1, s.len() as int))
    } else {
        seq![s]
    }
}

/// The texts that a sequence of strings holds.
pub open spec fn texts(v: Seq<String>) -> Seq<Seq<char>> {
    v.map_values(|s: String| s@)
}

/// `first_space` is the one position before which no space stands and at
/// which a space stands or the text ends.
pub proof fn lemma_first_space(s: Seq<char>, at: int)
    requires
        0 <= at <= s.len(),
        forall|k: int| 0 <= k < at ==> s[k] != ' ',
        at < s.len() ==> s[at] == ' ',
    ensures
        first_space(s) == at,
    decreases s.len(),
{
    if s.len() > 0 && s[0] != ' ' {
        lemma_first_space(s.skip(1), at - 1);
    }
}

/// Splits a line into its tokens at every single space.
pub fn split(line: &str) -> (tokens: Vec<String>)
    ensures
        texts(tokens@) == split_on_space(line@),
        tokens@.len() >= 1,
{
    let n = line.unicode_len();
    let mut tokens: Vec<String> = Vec::new();
    let mut start: usize = 0;
    let mut i: usize = 0;
    assert(line@.subrange(0, n as int) =~= line@);
    assert(texts(tokens@) =~= Seq::<Seq<char>>::empty());
    while i < n
        invariant
            n == line@.len(),
            start <= i <= n,
            forall|k: int| start <= k < i ==> line@[k] != ' ',
            split_on_space(line@) == texts(tokens@) + split_on_space(
                line@.subrange(start as int, n as int),
            ),
        decreases n - i,
    {
        if line.get_char(i) == ' ' {
            let piece = String::from_str(line.substring_char(start, i));
            proof {
                let tail = line@.subrange(start as int, n as int);
                lemma_first_space(tail, i - start);
                assert(tail.subrange(0, i - start) =~= line@.subrange(start as int, i as int));
                assert(tail.subrange(i - start + 1, tail.len() as int) =~= line@.subrange(
                    i + 1,
                    n as int,
                ));
                assert(texts(tokens@.push(piece)) =~= texts(tokens@) + seq![piece@]);
            }
            tokens.push(piece);
            start = i + 1;
        }
        i += 1;
    }
    let piece = String::from_str(line.substring_char(start, n));
    proof {
        let tail = line@.subrange(start as int, n as int);
        lemma_first_space(tail, n - start);
        assert(texts(tokens@.push(piece)) =~= texts(tokens@) + seq![piece@]);
    }
    tokens.push(piece);
    tokens
}

} // verus!
