//! Text helpers: the terminator check that every string handed to the toolkit
//! must pass, and decimal rendering of positions.

use vstd::prelude::*;
use vstd::string::*;
use vstd::utf8::encode_utf8;

verus! {

/// The bytes of `s` in UTF-8 hold a zero byte, which the toolkit's string
/// convention reserves as the terminator.
pub open spec fn contains_nul(s: Seq<char>) -> bool {
    exists|i: int| 0 <= i < encode_utf8(s).len() && encode_utf8(s)[i] == 0u8
}

/// `p` is the place of the first zero byte among the UTF-8 bytes of `s`.
pub open spec fn first_nul_at(s: Seq<char>, p: int) -> bool {
    &&& 0 <= p < encode_utf8(s).len()
    &&& encode_utf8(s)[p] == 0u8
    &&& forall|j: int| 0 <= j < p ==> encode_utf8(s)[j] != 0u8
}

/// The empty text holds no terminator.
pub proof fn lemma_empty_has_no_nul()
    ensures
        !contains_nul(Seq::<char>::empty()),
{
    assert(encode_utf8(Seq::<char>::empty()).len() == 0);
}

/// Finds the first embedded terminator of `s`, counted in bytes.
pub fn find_nul(s: &str) -> (r: Option<usize>)
    ensures
        r is None <==> !contains_nul(s@),
        r matches Some(p) ==> first_nul_at(s@, p as int),
{
    let bytes = s.as_bytes();
    let n = bytes.len();
    let mut i: usize = 0;
    while i < n
        invariant
            bytes@ == encode_utf8(s@),
            n == bytes@.len(),
            i <= n,
            forall|j: int| 0 <= j < i ==> bytes@[j] != 0u8,
        decreases n - i,
    {
        if bytes[i] == 0 {
            return Some(i);
        }
        i += 1;
    }
    None
}

/// The character that stands for the digit `d`.
pub open spec fn digit_char(d: nat) -> char {
    if d == 0 {
        '0'
    } else if d == 1 {
        '1'
    } else if d == 2 {
        '2'
    } else if d == 3 {
        '3'
    } else if d == 4 {
        '4'
    } else if d == 5 {
        '5'
    } else if d == 6 {
        '6'
    } else if d == 7 {
        '7'
    } else if d == 8 {
        '8'
    } else {
        '9'
    }
}

/// `n` written in base ten, most significant digit first, without padding.
pub open spec fn decimal_text(n: nat) -> Seq<char>
    decreases n,
{
    if n < 10 {
        seq![digit_char(n)]
    } else {
        decimal_text(n / 10).push(digit_char(n % 10))
    }
}

fn digit_str(d: usize) -> (s: &'static str)
    requires
        d < 10,
    ensures
        s@ == seq![digit_char(d as nat)],
{
    proof {
        reveal_strlit("0");
        reveal_strlit("1");
        reveal_strlit("2");
        reveal_strlit("3");
        reveal_strlit("4");
        reveal_strlit("5");
        reveal_strlit("6");
        reveal_strlit("7");
        reveal_strlit("8");
        reveal_strlit("9");
    }
    let s = match d {
        0 => "0",
        1 => "1",
        2 => "2",
        3 => "3",
        4 => "4",
        5 => "5",
        6 => "6",
        7 => "7",
        8 => "8",
        _ => "9",
    };
    assert(s@ =~= seq![digit_char(d as nat)]);
    s
}

/// Renders `n` in base ten.
pub fn decimal(n: usize) -> (s: String)
    ensures
        s@ == decimal_text(n as nat),
    decreases n,
{
    if n < 10 {
        String::from_str(digit_str(n))
    } else {
        let mut s = decimal(n / 10);
        s.append(digit_str(n % 10));
        assert(s@ =~= decimal_text(n as nat));
        s
    }
}

/// How many characters `s` holds.
pub fn char_len(s: &str) -> (n: usize)
    ensures
        n == s@.len(),
{
    s.unicode_len()
}

/// `s` with the characters from `lo` up to `hi` replaced by `t`.
pub fn splice(s: &str, lo: usize, hi: usize, t: &str) -> (r: String)
    requires
        lo <= hi <= s@.len(),
    ensures
        r@ == s@.subrange(0, lo as int) + t@ + s@.subrange(hi as int, s@.len() as int),
{
    let n = s.unicode_len();
    let mut r = String::from_str(s.substring_char(0, lo));
    r.append(t);
    r.append(s.substring_char(hi, n));
    r
}

/// The first `n` characters of `s`, or all of `s` where it holds fewer.
pub fn prefix(s: &str, n: usize) -> (r: &str)
    ensures
        r@ == s@.subrange(0, if n < s@.len() { n as int } else { s@.len() as int }),
{
    let len = s.unicode_len();
    if n < len {
        s.substring_char(0, n)
    } else {
        proof {
            assert(s@.subrange(0, s@.len() as int) =~= s@);
        }
        s
    }
}

/// The lines of `s` from the place `i` on, where the line that holds `i`
/// begins at `start`. A line ends before each line feed and at the end of the
/// text, so the last line may be empty.
pub open spec fn split_from(s: Seq<char>, start: int, i: int) -> Seq<Seq<char>>
    decreases s.len() - i,
{
    if i >= s.len() {
        seq![s.subrange(start, s.len() as int)]
    } else if s[i] == '\n' {
        seq![s.subrange(start, i)] + split_from(s, i + 1, i + 1)
    } else {
        split_from(s, start, i + 1)
    }
}

/// The lines of `s`, without their line feeds. A text without a line feed is
/// one line; a text that ends in a line feed ends in an empty line.
pub open spec fn lines_of(s: Seq<char>) -> Seq<Seq<char>> {
    split_from(s, 0, 0)
}

/// The views of the strings `texts`, in order.
pub open spec fn texts_of(texts: Seq<String>) -> Seq<Seq<char>> {
    Seq::new(texts.len(), |i: int| texts[i]@)
}

/// Splits `text` into its lines.
pub fn split_lines(text: &str) -> (r: Vec<String>)
    ensures
        texts_of(r@) == lines_of(text@),
{
    let n = text.unicode_len();
    let mut out: Vec<String> = Vec::new();
    let mut start: usize = 0;
    let mut i: usize = 0;
    while i < n
        invariant
            n == text@.len(),
            start <= i <= n,
            texts_of(out@) + split_from(text@, start as int, i as int) == lines_of(text@),
        decreases n - i,
    {
        let ghost done = texts_of(out@);
        if text.get_char(i) == '\n' {
            let line = String::from_str(text.substring_char(start, i));
            out.push(line);
            proof {
                assert(texts_of(out@) =~= done.push(text@.subrange(start as int, i as int)));
                assert(done + split_from(text@, start as int, i as int) =~= texts_of(out@)
                    + split_from(text@, i + 1, i + 1));
            }
            start = i + 1;
        }
        i += 1;
    }
    let ghost done = texts_of(out@);
    let line = String::from_str(text.substring_char(start, n));
    out.push(line);
    proof {
        assert(texts_of(out@) =~= done.push(text@.subrange(start as int, n as int)));
        assert(texts_of(out@) =~= done + split_from(text@, start as int, n as int));
    }
    out
}

} // verus!
