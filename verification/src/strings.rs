//! Text operations of the `[var system=...]` variants: UTF-8 byte lengths
//! and byte offsets, searching, slicing by bytes or characters, splitting,
//! and URL encoding.
use crate::text::{chars_of, push_char, string_from};
use vstd::prelude::*;
use vstd::utf8::{encode_scalar, encode_utf8};

verus! {

// ---------------------------------------------------------------------
// UTF-8 byte lengths
// ---------------------------------------------------------------------

/// Number of bytes of `c` in UTF-8 (`char::len_utf8`).
pub open spec fn char_width(c: char) -> nat {
    if (c as u32) <= 0x7F {
        1
    } else if (c as u32) <= 0x7FF {
        2
    } else if (c as u32) <= 0xFFFF {
        3
    } else {
        4
    }
}

/// Number of bytes of `s` in UTF-8 (`str::len`).
pub open spec fn byte_len(s: Seq<char>) -> nat
    decreases s.len(),
{
    if s.len() == 0 {
        0
    } else {
        char_width(s[0]) + byte_len(s.drop_first())
    }
}

/// The UTF-8 form of a character has `char_width` bytes.
proof fn lemma_width_encode(c: char)
    ensures
        encode_scalar(c as u32).len() == char_width(c),
{
    vstd::utf8::char_is_scalar(c);
}

/// `byte_len` is the length of the UTF-8 form.
pub proof fn lemma_byte_len_encode(s: Seq<char>)
    ensures
        byte_len(s) == encode_utf8(s).len(),
    decreases s.len(),
{
    if s.len() > 0 {
        lemma_width_encode(s[0]);
        lemma_byte_len_encode(s.drop_first());
    }
}

/// The byte length of a concatenation is the sum of the byte lengths.
pub proof fn lemma_byte_len_concat(a: Seq<char>, b: Seq<char>)
    ensures
        byte_len(a + b) == byte_len(a) + byte_len(b),
    decreases a.len(),
{
    if a.len() == 0 {
        assert(a + b =~= b);
    } else {
        assert((a + b).drop_first() =~= a.drop_first() + b);
        lemma_byte_len_concat(a.drop_first(), b);
    }
}

/// Adding a character adds its width.
pub proof fn lemma_byte_len_push(a: Seq<char>, c: char)
    ensures
        byte_len(a.push(c)) == byte_len(a) + char_width(c),
{
    lemma_byte_len_concat(a, seq![c]);
    assert(a + seq![c] =~= a.push(c));
    assert(seq![c].drop_first() =~= Seq::<char>::empty());
    assert(byte_len(Seq::<char>::empty()) == 0);
    assert(byte_len(seq![c]) == char_width(seq![c][0]) + byte_len(seq![c].drop_first()));
}

/// A prefix has at most the bytes of the whole.
pub proof fn lemma_prefix_bytes(s: Seq<char>, i: int)
    requires
        0 <= i <= s.len(),
    ensures
        byte_len(s.take(i)) <= byte_len(s),
{
    assert(s.take(i) + s.skip(i) =~= s);
    lemma_byte_len_concat(s.take(i), s.skip(i));
}

/// The UTF-8 width of `c`.
pub fn char_len(c: char) -> (n: usize)
    ensures
        n == char_width(c),
{
    let v = c as u32;
    if v <= 0x7F {
        1
    } else if v <= 0x7FF {
        2
    } else if v <= 0xFFFF {
        3
    } else {
        4
    }
}

/// The number of bytes of `s` in UTF-8.
pub fn byte_length(s: &str) -> (n: usize)
    ensures
        n == byte_len(s@),
{
    let bytes = s.as_bytes();
    let n = bytes.len();
    proof {
        lemma_byte_len_encode(s@);
    }
    n
}

/// The byte offset of character `i` of `v`, given the byte length of `v`.
pub fn byte_offset(v: &[char], i: usize, total: usize) -> (r: usize)
    requires
        i <= v@.len(),
        total == byte_len(v@),
    ensures
        r == byte_len(v@.take(i as int)),
{
    let mut k: usize = 0;
    let mut acc: usize = 0;
    assert(v@.take(0) =~= Seq::<char>::empty());
    while k < i
        invariant
            k <= i <= v@.len(),
            total == byte_len(v@),
            acc == byte_len(v@.take(k as int)),
        decreases i - k,
    {
        proof {
            lemma_byte_len_push(v@.take(k as int), v@[k as int]);
            assert(v@.take(k as int).push(v@[k as int]) =~= v@.take(k + 1));
            lemma_prefix_bytes(v@, k + 1);
        }
        acc = acc + char_len(v[k]);
        k = k + 1;
    }
    acc
}

// ---------------------------------------------------------------------
// Searching
// ---------------------------------------------------------------------

/// The first index at or after `i` where `n` occurs in `h`.
pub open spec fn first_match_from(h: Seq<char>, n: Seq<char>, i: int) -> Option<int>
    decreases h.len() + 1 - i,
{
    if i < 0 || i + n.len() > h.len() {
        None
    } else if h.subrange(i, i + n.len()) == n {
        Some(i)
    } else {
        first_match_from(h, n, i + 1)
    }
}

/// The first index where `n` occurs in `h` (`str::find`, counted in
/// characters).
pub open spec fn first_match(h: Seq<char>, n: Seq<char>) -> Option<int> {
    first_match_from(h, n, 0)
}

/// A match lies within the text.
pub proof fn lemma_first_match_range(h: Seq<char>, n: Seq<char>, i: int)
    ensures
        first_match_from(h, n, i) matches Some(k) ==> i <= k && k + n.len() <= h.len()
            && h.subrange(k, k + n.len()) == n,
    decreases h.len() + 1 - i,
{
    if !(i < 0 || i + n.len() > h.len()) && h.subrange(i, i + n.len()) != n {
        lemma_first_match_range(h, n, i + 1);
    }
}

/// Whether `n` occurs in `h` at index `i`.
fn matches_at(h: &[char], n: &[char], i: usize) -> (r: bool)
    requires
        i + n@.len() <= h@.len(),
    ensures
        r == (h@.subrange(i as int, i + n@.len()) == n@),
{
    let _hl = h.len();
    let mut k: usize = 0;
    while k < n.len()
        invariant
            k <= n@.len(),
            h@.len() <= usize::MAX,
            i + n@.len() <= h@.len(),
            forall|m: int| 0 <= m < k ==> h@[i + m] == n@[m],
        decreases n.len() - k,
    {
        if h[i + k] != n[k] {
            assert(h@.subrange(i as int, i + n@.len())[k as int] != n@[k as int]);
            return false;
        }
        k = k + 1;
    }
    assert(h@.subrange(i as int, i + n@.len()) =~= n@);
    true
}

/// The first character index where `n` occurs in `h`.
pub fn find_chars(h: &[char], n: &[char]) -> (r: Option<usize>)
    ensures
        match first_match(h@, n@) {
            Some(k) => r == Some(k as usize) && 0 <= k && k + n@.len() <= h@.len() <= usize::MAX,
            None => r is None,
        },
{
    proof {
        lemma_first_match_range(h@, n@, 0);
    }
    let _hl = h.len();
    if n.len() > h.len() {
        return None;
    }
    let last = h.len() - n.len();
    let mut i: usize = 0;
    while i <= last
        invariant
            last + n@.len() == h@.len(),
            h@.len() <= usize::MAX,
            first_match_from(h@, n@, i as int) == first_match(h@, n@),
        decreases last + 1 - i,
    {
        if matches_at(h, n, i) {
            return Some(i);
        }
        if i == last {
            assert(first_match_from(h@, n@, i + 1) is None);
            return None;
        }
        i = i + 1;
    }
    None
}

// ---------------------------------------------------------------------
// Slicing by bytes
// ---------------------------------------------------------------------

/// The first character index at or after `i` whose byte offset is `b`.
pub open spec fn byte_index_from(s: Seq<char>, b: int, i: int) -> Option<int>
    decreases s.len() + 1 - i,
{
    if i < 0 || i > s.len() {
        None
    } else if byte_len(s.take(i)) == b {
        Some(i)
    } else {
        byte_index_from(s, b, i + 1)
    }
}

/// The character index at byte offset `b`, when `b` is a character
/// boundary.
pub open spec fn byte_index(s: Seq<char>, b: int) -> Option<int> {
    byte_index_from(s, b, 0)
}

/// The characters between byte offsets `a` and `b` (`str::get(a..b)`):
/// present when both are character boundaries and `a <= b`.
pub open spec fn byte_slice(s: Seq<char>, a: int, b: int) -> Option<Seq<char>> {
    match (byte_index(s, a), byte_index(s, b)) {
        (Some(i), Some(j)) => if i <= j {
            Some(s.subrange(i, j))
        } else {
            None
        },
        _ => None,
    }
}

/// A found character index lies within the text.
pub proof fn lemma_byte_index_range(s: Seq<char>, b: int, i: int)
    ensures
        byte_index_from(s, b, i) matches Some(k) ==> i <= k <= s.len() && byte_len(s.take(k)) == b,
    decreases s.len() + 1 - i,
{
    if 0 <= i <= s.len() && byte_len(s.take(i)) != b {
        lemma_byte_index_range(s, b, i + 1);
    }
}

/// The character index of byte offset `b`, searching from index 0.
fn find_byte_index(v: &[char], b: usize, total: usize) -> (r: Option<usize>)
    requires
        total == byte_len(v@),
    ensures
        match byte_index(v@, b as int) {
            Some(k) => r == Some(k as usize) && 0 <= k <= v@.len(),
            None => r is None,
        },
{
    proof {
        lemma_byte_index_range(v@, b as int, 0);
    }
    let mut i: usize = 0;
    let mut off: usize = 0;
    assert(v@.take(0) =~= Seq::<char>::empty());
    loop
        invariant
            i <= v@.len(),
            total == byte_len(v@),
            off == byte_len(v@.take(i as int)),
            byte_index_from(v@, b as int, i as int) == byte_index(v@, b as int),
        decreases v@.len() + 1 - i,
    {
        if off == b {
            return Some(i);
        }
        if i == v.len() {
            assert(byte_index_from(v@, b as int, i + 1) is None);
            return None;
        }
        proof {
            lemma_byte_len_push(v@.take(i as int), v@[i as int]);
            assert(v@.take(i as int).push(v@[i as int]) =~= v@.take(i + 1));
            lemma_prefix_bytes(v@, i + 1);
        }
        off = off + char_len(v[i]);
        i = i + 1;
    }
}

/// The characters of `s` between byte offsets `a` and `b`, or `None` when
/// `a > b` or either is not a character boundary.
pub fn slice_bytes(s: &str, a: usize, b: usize) -> (r: Option<String>)
    ensures
        match byte_slice(s@, a as int, b as int) {
            Some(t) => r matches Some(x) && x@ == t,
            None => r is None,
        },
{
    let v = chars_of(s);
    let total = byte_length(s);
    let _count = v.len();
    match (find_byte_index(v.as_slice(), a, total), find_byte_index(v.as_slice(), b, total)) {
        (Some(i), Some(j)) => if i <= j {
            Some(string_from(v.as_slice(), i, j))
        } else {
            None
        },
        _ => None,
    }
}

// ---------------------------------------------------------------------
// Slicing by characters
// ---------------------------------------------------------------------

/// The characters that `chars().skip(p).take(l)` yields.
pub open spec fn char_slice(s: Seq<char>, p: int, l: int) -> Seq<char> {
    let lo = if p < s.len() { p } else { s.len() as int };
    let hi = if l < s.len() - lo { lo + l } else { s.len() as int };
    s.subrange(lo, hi)
}

/// `s.chars().skip(p).take(l)` collected into a `String`.
pub fn slice_chars(s: &str, p: usize, l: usize) -> (r: String)
    ensures
        r@ == char_slice(s@, p as int, l as int),
{
    let v = chars_of(s);
    let n = v.len();
    let lo = if p < n {
        p
    } else {
        n
    };
    let hi = if l < n - lo {
        lo + l
    } else {
        n
    };
    string_from(v.as_slice(), lo, hi)
}

/// A copy of `v[lo..hi]`.
fn copy_range(v: &[char], lo: usize, hi: usize) -> (r: Vec<char>)
    requires
        lo <= hi <= v@.len(),
    ensures
        r@ == v@.subrange(lo as int, hi as int),
{
    let mut r: Vec<char> = Vec::new();
    let mut i = lo;
    while i < hi
        invariant
            lo <= i <= hi <= v@.len(),
            r@ == v@.subrange(lo as int, i as int),
        decreases hi - i,
    {
        r.push(v[i]);
        i = i + 1;
        assert(r@ =~= v@.subrange(lo as int, i as int));
    }
    r
}

// ---------------------------------------------------------------------
// Splitting
// ---------------------------------------------------------------------

/// The pieces of `s` between the occurrences of a non-empty `d`, found
/// left to right without overlap.
pub open spec fn split_on(s: Seq<char>, d: Seq<char>) -> Seq<Seq<char>>
    decreases s.len(),
{
    if d.len() == 0 {
        seq![s]
    } else {
        match first_match(s, d) {
            Some(k) => {
                proof {
                    lemma_first_match_range(s, d, 0);
                }
                seq![s.take(k)] + split_on(s.skip(k + d.len()), d)
            },
            None => seq![s],
        }
    }
}

/// The pieces that `str::split` gives: between the occurrences of `d`, or
/// for an empty `d` an empty piece, each character, and an empty piece.
pub open spec fn split_pieces(s: Seq<char>, d: Seq<char>) -> Seq<Seq<char>> {
    if d.len() == 0 {
        seq![Seq::<char>::empty()] + Seq::new(s.len(), |i: int| seq![s[i]]) + seq![Seq::<char>::empty()]
    } else {
        split_on(s, d)
    }
}

/// The views of a vector of strings.
pub open spec fn string_views(v: Seq<String>) -> Seq<Seq<char>> {
    Seq::new(v.len(), |i: int| v[i]@)
}

/// `s.split(d)`, collected.
pub fn split_text(s: &str, d: &str) -> (r: Vec<String>)
    ensures
        string_views(r@) == split_pieces(s@, d@),
{
    let v = chars_of(s);
    let dv = chars_of(d);
    let mut out: Vec<String> = Vec::new();
    if dv.len() == 0 {
        out.push(String::new());
        let mut i: usize = 0;
        while i < v.len()
            invariant
                i <= v@.len(),
                string_views(out@) == seq![Seq::<char>::empty()] + Seq::new(i as nat, |k: int| seq![v@[k]]),
            decreases v.len() - i,
        {
            let piece = string_from(v.as_slice(), i, i + 1);
            assert(v@.subrange(i as int, i + 1) =~= seq![v@[i as int]]);
            let ghost before = string_views(out@);
            out.push(piece);
            assert(string_views(out@) =~= before.push(seq![v@[i as int]]));
            i = i + 1;
            assert(string_views(out@) =~= seq![Seq::<char>::empty()] + Seq::new(i as nat, |k: int| seq![v@[k]]));
        }
        out.push(String::new());
        assert(string_views(out@) =~= split_pieces(s@, d@));
        return out;
    }
    let mut start: usize = 0;
    assert(v@.skip(0) =~= v@);
    assert(string_views(out@) =~= Seq::<Seq<char>>::empty());
    loop
        invariant
            start <= v@.len(),
            v@ == s@,
            dv@ == d@,
            dv@.len() > 0,
            split_on(v@, dv@) == string_views(out@) + split_on(v@.skip(start as int), dv@),
        decreases v@.len() - start,
    {
        let rest = copy_range(v.as_slice(), start, v.len());
        assert(rest@ =~= v@.skip(start as int));
        match find_chars(rest.as_slice(), dv.as_slice()) {
            Some(k) => {
                let piece = string_from(rest.as_slice(), 0, k);
                assert(rest@.subrange(0, k as int) =~= rest@.take(k as int));
                let next = start + k + dv.len();
                assert(rest@.skip(k + dv@.len()) =~= v@.skip(next as int));
                let ghost before = string_views(out@);
                out.push(piece);
                assert(string_views(out@) =~= before.push(rest@.take(k as int)));
                assert(split_on(rest@, dv@) == seq![rest@.take(k as int)] + split_on(v@.skip(next as int), dv@));
                assert(string_views(out@) + split_on(v@.skip(next as int), dv@) =~= before + (seq![rest@.take(k as int)] + split_on(v@.skip(next as int), dv@)));
                start = next;
            },
            None => {
                let piece = string_from(rest.as_slice(), 0, rest.len());
                assert(rest@.subrange(0, rest@.len() as int) =~= rest@);
                let ghost before = string_views(out@);
                out.push(piece);
                assert(string_views(out@) =~= before.push(rest@));
                assert(string_views(out@) =~= before + split_on(rest@, dv@));
                return out;
            },
        }
    }
}

// ---------------------------------------------------------------------
// URL encoding
// ---------------------------------------------------------------------

/// Characters that URL encoding keeps as they are: ASCII letters and
/// digits, and `-`, `_`, `.`, `~`.
pub open spec fn is_unreserved(c: char) -> bool {
    ||| ('0' <= c && c <= '9')
    ||| ('a' <= c && c <= 'z')
    ||| ('A' <= c && c <= 'Z')
    ||| c == '-'
    ||| c == '_'
    ||| c == '.'
    ||| c == '~'
}

/// The upper-case hexadecimal digit of `d` (below 16).
pub open spec fn hex_digit(d: nat) -> char {
    seq!['0', '1', '2', '3', '4', '5', '6', '7', '8', '9', 'A', 'B', 'C', 'D', 'E', 'F'][d as int]
}

/// One character URL-encoded: kept, or `%` and two hexadecimal digits of
/// its code truncated to a byte.
pub open spec fn encode_char(c: char) -> Seq<char> {
    if is_unreserved(c) {
        seq![c]
    } else {
        let b = (c as u32 as nat) % 256;
        seq!['%', hex_digit(b / 16), hex_digit(b % 16)]
    }
}

/// A text URL-encoded character by character.
pub open spec fn url_encoded(s: Seq<char>) -> Seq<char>
    decreases s.len(),
{
    if s.len() == 0 {
        Seq::empty()
    } else {
        url_encoded(s.drop_last()) + encode_char(s.last())
    }
}

fn hex_char(d: u32) -> (c: char)
    requires
        d < 16,
    ensures
        c == hex_digit(d as nat),
{
    if d == 0 { '0' } else if d == 1 { '1' } else if d == 2 { '2' } else if d == 3 { '3' }
    else if d == 4 { '4' } else if d == 5 { '5' } else if d == 6 { '6' } else if d == 7 { '7' }
    else if d == 8 { '8' } else if d == 9 { '9' } else if d == 10 { 'A' } else if d == 11 { 'B' }
    else if d == 12 { 'C' } else if d == 13 { 'D' } else if d == 14 { 'E' } else { 'F' }
}

/// `s` URL-encoded.
pub fn url_encode(s: &str) -> (r: String)
    ensures
        r@ == url_encoded(s@),
{
    let v = chars_of(s);
    let mut out = String::new();
    let mut i: usize = 0;
    assert(v@.take(0) =~= Seq::<char>::empty());
    while i < v.len()
        invariant
            i <= v@.len(),
            out@ == url_encoded(v@.take(i as int)),
        decreases v.len() - i,
    {
        let c = v[i];
        let ghost before = out@;
        if ('0' <= c && c <= '9') || ('a' <= c && c <= 'z') || ('A' <= c && c <= 'Z') || c == '-' || c == '_'
            || c == '.' || c == '~' {
            push_char(&mut out, c);
        } else {
            let b = (c as u32) % 256;
            push_char(&mut out, '%');
            push_char(&mut out, hex_char(b / 16));
            push_char(&mut out, hex_char(b % 16));
        }
        assert(v@.take(i + 1).drop_last() =~= v@.take(i as int));
        assert(v@.take(i + 1).last() == c);
        assert(out@ =~= before + encode_char(c));
        i = i + 1;
    }
    assert(v@.take(v@.len() as int) =~= v@);
    out
}

/// The value of a hexadecimal digit (either case).
pub open spec fn hex_value(c: char) -> Option<nat> {
    if '0' <= c && c <= '9' {
        Some((c as u32 - '0' as u32) as nat)
    } else if 'a' <= c && c <= 'f' {
        Some((c as u32 - 'a' as u32 + 10) as nat)
    } else if 'A' <= c && c <= 'F' {
        Some((c as u32 - 'A' as u32 + 10) as nat)
    } else {
        None
    }
}

/// `u8::from_str_radix(h, 16)` for a text of at most two characters: an
/// optional `+`, then one or two hexadecimal digits.
pub open spec fn parse_hex_byte(h: Seq<char>) -> Option<nat> {
    let d = if h.len() > 0 && h[0] == '+' {
        h.drop_first()
    } else {
        h
    };
    if d.len() == 1 {
        hex_value(d[0])
    } else if d.len() == 2 {
        match (hex_value(d[0]), hex_value(d[1])) {
            (Some(a), Some(b)) => Some(a * 16 + b),
            _ => None,
        }
    } else {
        None
    }
}

/// A URL-encoded text decoded: `%` takes the next two characters (fewer at
/// the end) as a hexadecimal byte, dropped when they do not read as one; `+`
/// is a space.
pub open spec fn url_decoded(s: Seq<char>) -> Seq<char>
    decreases s.len(),
{
    if s.len() == 0 {
        Seq::empty()
    } else if s[0] == '%' {
        let end = if s.len() < 3 {
            s.len() as int
        } else {
            3
        };
        let byte = match parse_hex_byte(s.subrange(1, end)) {
            Some(b) => seq![(b as u8) as char],
            None => Seq::empty(),
        };
        byte + url_decoded(s.skip(end))
    } else if s[0] == '+' {
        seq![' '] + url_decoded(s.drop_first())
    } else {
        seq![s[0]] + url_decoded(s.drop_first())
    }
}

fn hex_value_of(c: char) -> (r: Option<u32>)
    ensures
        match hex_value(c) {
            Some(v) => r == Some(v as u32) && v < 16,
            None => r is None,
        },
{
    if '0' <= c && c <= '9' {
        Some(c as u32 - '0' as u32)
    } else if 'a' <= c && c <= 'f' {
        Some(c as u32 - 'a' as u32 + 10)
    } else if 'A' <= c && c <= 'F' {
        Some(c as u32 - 'A' as u32 + 10)
    } else {
        None
    }
}

/// `u8::from_str_radix` on `v[lo..hi]`, at most two characters.
fn parse_hex_range(v: &[char], lo: usize, hi: usize) -> (r: Option<u8>)
    requires
        lo <= hi <= v@.len(),
        hi - lo <= 2,
    ensures
        match parse_hex_byte(v@.subrange(lo as int, hi as int)) {
            Some(b) => r == Some(b as u8) && b < 256,
            None => r is None,
        },
{
    let ghost h = v@.subrange(lo as int, hi as int);
    let mut a = lo;
    if a < hi && v[a] == '+' {
        a = a + 1;
    }
    assert(h.len() > 0 && h[0] == '+' ==> h.drop_first() =~= v@.subrange(a as int, hi as int));
    assert(!(h.len() > 0 && h[0] == '+') ==> h =~= v@.subrange(a as int, hi as int));
    if hi - a == 1 {
        match hex_value_of(v[a]) {
            Some(x) => Some(x as u8),
            None => None,
        }
    } else if hi - a == 2 {
        match (hex_value_of(v[a]), hex_value_of(v[a + 1])) {
            (Some(x), Some(y)) => Some((x * 16 + y) as u8),
            _ => None,
        }
    } else {
        None
    }
}

/// `s` URL-decoded.
pub fn url_decode(s: &str) -> (r: String)
    ensures
        r@ == url_decoded(s@),
{
    let v = chars_of(s);
    let n = v.len();
    let mut out = String::new();
    let mut i: usize = 0;
    assert(v@.skip(0) =~= v@);
    while i < n
        invariant
            i <= n == v@.len(),
            url_decoded(v@) == out@ + url_decoded(v@.skip(i as int)),
        decreases n - i,
    {
        let ghost rest = v@.skip(i as int);
        let ghost before = out@;
        let c = v[i];
        assert(rest[0] == c);
        if c == '%' {
            let end = if n - i < 3 {
                n
            } else {
                i + 3
            };
            assert(rest.subrange(1, (end - i) as int) =~= v@.subrange(i + 1, end as int));
            assert(rest.skip((end - i) as int) =~= v@.skip(end as int));
            match parse_hex_range(v.as_slice(), i + 1, end) {
                Some(b) => {
                    push_char(&mut out, b as char);
                },
                None => {},
            }
            assert(out@ + url_decoded(v@.skip(end as int)) =~= before + url_decoded(rest));
            i = end;
        } else if c == '+' {
            push_char(&mut out, ' ');
            assert(rest.drop_first() =~= v@.skip(i + 1));
            assert(out@ + url_decoded(v@.skip(i + 1)) =~= before + url_decoded(rest));
            i = i + 1;
        } else {
            push_char(&mut out, c);
            assert(rest.drop_first() =~= v@.skip(i + 1));
            assert(out@ + url_decoded(v@.skip(i + 1)) =~= before + url_decoded(rest));
            i = i + 1;
        }
    }
    assert(v@.skip(n as int) =~= Seq::<char>::empty());
    assert(out@ + Seq::<char>::empty() =~= out@);
    out
}

/// Encoding a non-empty text starts with its first character encoded.
proof fn lemma_encoded_front(s: Seq<char>)
    requires
        s.len() > 0,
    ensures
        url_encoded(s) == encode_char(s[0]) + url_encoded(s.drop_first()),
    decreases s.len(),
{
    if s.len() == 1 {
        assert(s.drop_last() =~= Seq::<char>::empty());
        assert(s.drop_first() =~= Seq::<char>::empty());
        assert(url_encoded(s) =~= encode_char(s[0]) + url_encoded(s.drop_first()));
    } else {
        let a = s.drop_last();
        let t = s.drop_first();
        lemma_encoded_front(a);
        assert(a.drop_first() =~= t.drop_last());
        assert(t.last() == s.last());
        assert(url_encoded(t) == url_encoded(t.drop_last()) + encode_char(t.last()));
        assert((encode_char(s[0]) + url_encoded(a.drop_first())) + encode_char(s.last())
            =~= encode_char(s[0]) + (url_encoded(a.drop_first()) + encode_char(s.last())));
    }
}

/// Each hexadecimal digit reads back as its value.
proof fn lemma_hex_digit_value(d: nat)
    requires
        d < 16,
    ensures
        hex_value(hex_digit(d)) == Some(d),
        hex_digit(d) != '+',
{
    let digits = seq!['0', '1', '2', '3', '4', '5', '6', '7', '8', '9', 'A', 'B', 'C', 'D', 'E', 'F'];
    assert(hex_digit(d) == digits[d as int]);
    if d < 10 {
        assert(digits[d as int] as u32 == '0' as u32 + d);
    } else {
        assert(digits[d as int] as u32 == 'A' as u32 + (d - 10));
    }
}

/// URL decoding gives back what URL encoding was given, for every text
/// whose characters all have codes below 256 (encoding keeps only the low
/// byte of a code).
pub proof fn law_url_decode_undoes_encode(s: Seq<char>)
    requires
        forall|i: int| 0 <= i < s.len() ==> (s[i] as u32) < 256,
    ensures
        url_decoded(url_encoded(s)) == s,
    decreases s.len(),
{
    if s.len() == 0 {
        assert(url_encoded(s) =~= Seq::<char>::empty());
    } else {
        let c = s[0];
        let t = s.drop_first();
        lemma_encoded_front(s);
        law_url_decode_undoes_encode(t);
        let rest = url_encoded(t);
        let e = encode_char(c) + rest;
        if is_unreserved(c) {
            assert(e[0] == c);
            assert(e.drop_first() =~= rest);
        } else {
            let b = (c as u32 as nat) % 256;
            assert(b == c as u32);
            lemma_hex_digit_value(b / 16);
            lemma_hex_digit_value(b % 16);
            assert(e[0] == '%');
            assert(e.subrange(1, 3) =~= seq![hex_digit(b / 16), hex_digit(b % 16)]);
            assert(e.skip(3) =~= rest);
            assert(parse_hex_byte(e.subrange(1, 3)) == Some((b / 16) * 16 + b % 16));
            assert((b / 16) * 16 + b % 16 == b);
            vstd::utf8::char_u32_cast(c, c as u32);
            assert((b as u8) as u32 == c as u32);
            assert((b as u8) as char == (c as u32) as char);
        }
        assert(seq![c] + t =~= s);
    }
}

// ---------------------------------------------------------------------
// Prefixes and suffixes
// ---------------------------------------------------------------------

/// Whether `s` starts with `p` (`str::starts_with`).
pub fn has_prefix(s: &str, p: &str) -> (r: bool)
    ensures
        r == crate::strmap::starts_with(s@, p@),
{
    let sv = chars_of(s);
    let pv = chars_of(p);
    if pv.len() > sv.len() {
        return false;
    }
    let mut j: usize = 0;
    while j < pv.len()
        invariant
            j <= pv@.len() <= sv@.len(),
            sv@ == s@,
            pv@ == p@,
            sv@.subrange(0, j as int) == pv@.subrange(0, j as int),
        decreases pv.len() - j,
    {
        if sv[j] != pv[j] {
            assert(sv@.subrange(0, pv@.len() as int)[j as int] != pv@[j as int]);
            return false;
        }
        j = j + 1;
        assert(sv@.subrange(0, j as int) =~= pv@.subrange(0, j as int));
    }
    assert(pv@.subrange(0, pv@.len() as int) =~= pv@);
    true
}

/// Whether `f`, with ASCII letters lower-cased, ends in `.exe`.
pub open spec fn ends_with_exe(f: Seq<char>) -> bool {
    &&& f.len() >= 4
    &&& f[f.len() - 4] == '.'
    &&& (f[f.len() - 3] == 'e' || f[f.len() - 3] == 'E')
    &&& (f[f.len() - 2] == 'x' || f[f.len() - 2] == 'X')
    &&& (f[f.len() - 1] == 'e' || f[f.len() - 1] == 'E')
}

/// Whether `f`, with ASCII letters lower-cased, ends in `.exe`.
pub fn is_exe_name(f: &str) -> (r: bool)
    ensures
        r == ends_with_exe(f@),
{
    let v = chars_of(f);
    let n = v.len();
    n >= 4 && v[n - 4] == '.' && (v[n - 3] == 'e' || v[n - 3] == 'E') && (v[n - 2] == 'x' || v[n - 2] == 'X')
        && (v[n - 1] == 'e' || v[n - 1] == 'E')
}

/// `name` without a final `.check`.
pub open spec fn without_check(name: Seq<char>) -> Seq<char> {
    if name.len() >= 6 && name.skip(name.len() - 6) == ".check"@ {
        name.take(name.len() - 6)
    } else {
        name
    }
}

/// `name.strip_suffix(".check").unwrap_or(name)`.
pub fn strip_check(name: &str) -> (r: String)
    ensures
        r@ == without_check(name@),
{
    proof {
        reveal_strlit(".check");
    }
    let v = chars_of(name);
    let n = v.len();
    if n >= 6 && v[n - 6] == '.' && v[n - 5] == 'c' && v[n - 4] == 'h' && v[n - 3] == 'e' && v[n - 2] == 'c'
        && v[n - 1] == 'k' {
        assert(v@.skip(n - 6) =~= ".check"@);
        let r = string_from(v.as_slice(), 0, n - 6);
        assert(v@.subrange(0, n - 6) =~= v@.take(n - 6));
        r
    } else {
        proof {
            if n >= 6 && v@.skip(n - 6) == ".check"@ {
                assert(v@.skip(n - 6)[0] == v@[n - 6]);
                assert(v@.skip(n - 6)[1] == v@[n - 5]);
                assert(v@.skip(n - 6)[2] == v@[n - 4]);
                assert(v@.skip(n - 6)[3] == v@[n - 3]);
                assert(v@.skip(n - 6)[4] == v@[n - 2]);
                assert(v@.skip(n - 6)[5] == v@[n - 1]);
            }
        }
        let r = string_from(v.as_slice(), 0, n);
        assert(v@.subrange(0, n as int) =~= v@);
        r
    }
}

} // verus!
