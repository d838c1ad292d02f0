//! Verified string utilities: UTF-8-safe truncation, substring search,
//! first-occurrence replacement, decimal rendering and blank detection.

use vstd::prelude::*;
use vstd::string::*;
use vstd::utf8::*;

verus! {

broadcast use vstd::string::group_string_axioms, vstd::utf8::group_utf8_lib,
    vstd::slice::group_slice_axioms;

/// The largest index not beyond `max` that falls on a character boundary
/// of `bytes`.
pub open spec fn boundary_at_most(bytes: Seq<u8>, max: int) -> int
    decreases max,
{
    if max <= 0 {
        0
    } else if is_char_boundary(bytes, max) {
        max
    } else {
        boundary_at_most(bytes, max - 1)
    }
}

/// Number of bytes that `safe_truncate` keeps: the whole string when it
/// fits, else the largest character boundary not beyond `max`.
pub open spec fn truncated_len(bytes: Seq<u8>, max: int) -> int {
    if bytes.len() <= max {
        bytes.len() as int
    } else {
        boundary_at_most(bytes, max)
    }
}

/// The boundary found by the backward scan lies between zero and the
/// cap.
pub proof fn lemma_boundary_at_most_bounds(bytes: Seq<u8>, max: int)
    ensures
        0 <= boundary_at_most(bytes, max),
        max >= 0 ==> boundary_at_most(bytes, max) <= max,
    decreases max,
{
    if max > 0 && !is_char_boundary(bytes, max) {
        lemma_boundary_at_most_bounds(bytes, max - 1);
    }
}

/// The kept byte count lies between zero and the length of the bytes.
pub proof fn lemma_truncated_len_bounds(bytes: Seq<u8>, max: int)
    requires
        max >= 0,
    ensures
        0 <= truncated_len(bytes, max) <= bytes.len(),
{
    if bytes.len() > max {
        lemma_boundary_at_most_bounds(bytes, max);
    }
}

/// Truncate a string to at most `max_bytes` bytes without splitting a
/// multi-byte character: the result is the longest prefix of `s` whose
/// UTF-8 encoding fits in `max_bytes`.
pub fn safe_truncate<'a>(s: &'a str, max_bytes: usize) -> (r: &'a str)
    ensures
        r.spec_bytes() == s.spec_bytes().take(truncated_len(s.spec_bytes(), max_bytes as int)),
        r.spec_bytes().len() <= max_bytes,
        r@ == s@.take(r@.len() as int),
        r@.len() <= s@.len(),
        s.spec_bytes().len() <= max_bytes ==> r@ == s@,
{
    let byte_len = s.as_bytes().len();
    if byte_len <= max_bytes {
        proof {
            assert(s.spec_bytes().take(s.spec_bytes().len() as int) =~= s.spec_bytes());
            assert(s@.take(s@.len() as int) =~= s@);
        }
        return s;
    }
    let ghost bytes = s.spec_bytes();
    let mut boundary: usize = max_bytes;
    while boundary > 0 && !s.is_char_boundary(boundary)
        invariant
            boundary <= max_bytes,
            max_bytes < s.spec_bytes().len(),
            bytes == s.spec_bytes(),
            boundary_at_most(bytes, max_bytes as int) == boundary_at_most(bytes, boundary as int),
        decreases boundary,
    {
        boundary = boundary - 1;
    }
    proof {
        assert(is_char_boundary(bytes, boundary as int));
        assert(boundary_at_most(bytes, boundary as int) == boundary as int);
    }
    let (pre, _) = s.split_at(boundary);
    proof {
        assert(pre.spec_bytes() =~= bytes.take(boundary as int));
        // Relate the byte-level split back to the character views.
        let tl = boundary as int;
        decode_utf8_split(bytes, tl);
        encode_utf8_decode_utf8(s@);
        encode_utf8_decode_utf8(pre@);
        assert(decode_utf8(bytes) == s@);
        assert(pre.spec_bytes() == encode_utf8(pre@));
        assert(decode_utf8(bytes.subrange(0, tl)) == pre@);
        assert(s@ =~= pre@ + decode_utf8(bytes.subrange(tl, bytes.len() as int)));
        assert(pre@.len() <= s@.len());
        assert(pre@ =~= s@.take(pre@.len() as int));
    }
    pre
}

/// Character-for-character equality of two string slices.
pub fn str_eq(a: &str, b: &str) -> (r: bool)
    ensures
        r <==> a@ == b@,
{
    let alen = a.unicode_len();
    let blen = b.unicode_len();
    if alen != blen {
        return false;
    }
    let mut i: usize = 0;
    while i < alen
        invariant
            i <= alen,
            alen == a@.len(),
            alen == b@.len(),
            forall|j: int| 0 <= j < i ==> a@[j] == b@[j],
        decreases alen - i,
    {
        if a.get_char(i) != b.get_char(i) {
            return false;
        }
        i = i + 1;
    }
    proof {
        assert(a@ =~= b@);
    }
    true
}

/// `needle` occurs in `hay` starting at position `i`.
pub open spec fn is_match_at(hay: Seq<char>, needle: Seq<char>, i: int) -> bool {
    0 <= i && i + needle.len() <= hay.len() && hay.subrange(i, i + needle.len()) == needle
}

/// `needle` occurs somewhere in `hay` at or after position `from`.
pub open spec fn has_sub_from(hay: Seq<char>, needle: Seq<char>, from: int) -> bool {
    exists|i: int| from <= i && is_match_at(hay, needle, i)
}

/// `needle` occurs somewhere in `hay`.
pub open spec fn has_sub(hay: Seq<char>, needle: Seq<char>) -> bool {
    has_sub_from(hay, needle, 0)
}

/// Does `needle` match `hay` at exactly position `i`?
fn match_at(hay: &str, needle: &str, i: usize) -> (r: bool)
    requires
        i + needle@.len() <= hay@.len(),
        hay@.len() <= usize::MAX,
    ensures
        r <==> is_match_at(hay@, needle@, i as int),
{
    let nlen = needle.unicode_len();
    let mut k: usize = 0;
    while k < nlen
        invariant
            k <= nlen,
            nlen == needle@.len(),
            i + nlen <= hay@.len(),
            hay@.len() <= usize::MAX,
            forall|j: int| 0 <= j < k ==> hay@[i + j] == needle@[j],
        decreases nlen - k,
    {
        if hay.get_char(i + k) != needle.get_char(k) {
            assert(!is_match_at(hay@, needle@, i as int)) by {
                assert(hay@.subrange(i as int, i + needle@.len())[k as int] == hay@[i + k]);
            }
            return false;
        }
        k = k + 1;
    }
    proof {
        assert(hay@.subrange(i as int, i + needle@.len()) =~= needle@);
    }
    true
}

/// Find the first occurrence of `needle` in `hay` at or after `from`,
/// as a character index.
pub fn find_sub_from(hay: &str, needle: &str, from: usize) -> (r: Option<usize>)
    ensures
        match r {
            Some(i) => {
                &&& from <= i
                &&& is_match_at(hay@, needle@, i as int)
                &&& forall|j: int| from <= j < i ==> !is_match_at(hay@, needle@, j)
            },
            None => !has_sub_from(hay@, needle@, from as int),
        },
{
    let hlen = hay.unicode_len();
    let nlen = needle.unicode_len();
    if nlen > hlen {
        return None;
    }
    let limit = hlen - nlen;
    let mut i: usize = from;
    while i <= limit
        invariant
            from <= i,
            hlen == hay@.len(),
            nlen == needle@.len(),
            nlen <= hlen,
            limit == hlen - nlen,
            forall|j: int| from <= j < i ==> !is_match_at(hay@, needle@, j),
        decreases limit + 1 - i,
    {
        if match_at(hay, needle, i) {
            return Some(i);
        }
        proof {
            // An empty needle matches everywhere, so a failed match means
            // the needle is non-empty and the next index still fits.
            if needle@.len() == 0 {
                assert(hay@.subrange(i as int, i as int) =~= needle@);
                assert(false);
            }
        }
        i = i + 1;
    }
    proof {
        assert forall|j: int| from <= j implies !is_match_at(hay@, needle@, j) by {
            if j < i {
            } else {
                assert(j + needle@.len() > hay@.len());
            }
        }
    }
    None
}

/// Does `needle` occur anywhere in `hay`?
pub fn contains_sub(hay: &str, needle: &str) -> (r: bool)
    ensures
        r == has_sub(hay@, needle@),
{
    match find_sub_from(hay, needle, 0) {
        Some(_) => true,
        None => false,
    }
}

/// Does `hay` begin with `needle`?
pub fn starts_with_sub(hay: &str, needle: &str) -> (r: bool)
    ensures
        r <==> is_match_at(hay@, needle@, 0),
{
    if needle.unicode_len() > hay.unicode_len() {
        return false;
    }
    match_at(hay, needle, 0)
}

/// Replace the first occurrence of `old_text` in `content` with
/// `new_text`. Returns `None` when `old_text` does not occur.
pub fn replace_first(content: &str, old_text: &str, new_text: &str) -> (r: Option<String>)
    ensures
        r is None <==> !has_sub(content@, old_text@),
        match r {
            Some(out) => exists|i: int|
                {
                    &&& #[trigger] is_match_at(content@, old_text@, i)
                    &&& (forall|j: int| 0 <= j < i ==> !is_match_at(content@, old_text@, j))
                    &&& out@ == content@.take(i) + new_text@ + content@.skip(i + old_text@.len())
                },
            None => true,
        },
{
    match find_sub_from(content, old_text, 0) {
        Some(i) => {
            let hlen = content.unicode_len();
            let olen = old_text.unicode_len();
            let mut out = String::from_str(content.substring_char(0, i));
            out.append(new_text);
            out.append(content.substring_char(i + olen, hlen));
            proof {
                assert(content@.subrange(0, i as int) == content@.take(i as int));
                assert(content@.subrange(i + old_text@.len(), content@.len() as int)
                    == content@.skip(i + old_text@.len()));
            }
            Some(out)
        },
        None => None,
    }
}

/// The character for one decimal digit.
pub open spec fn dec_digit(d: int) -> char {
    if d == 0 {
        '0'
    } else if d == 1 {
        '1'
    } else if d == 2 {
        '2'
    } else if d == 3 {
        '3'
    } else if d == 4 {
        '4'
    } else if d == 5 {
        '5'
    } else if d == 6 {
        '6'
    } else if d == 7 {
        '7'
    } else if d == 8 {
        '8'
    } else {
        '9'
    }
}

/// Decimal representation of a natural number, most significant digit
/// first, without leading zeros (except for zero itself).
pub open spec fn dec_rep(n: nat) -> Seq<char>
    decreases n,
{
    if n < 10 {
        seq![dec_digit(n as int)]
    } else {
        dec_rep(n / 10).push(dec_digit((n % 10) as int))
    }
}

/// One decimal digit as a string slice.
fn digit_str(d: u64) -> (r: &'static str)
    requires
        d < 10,
    ensures
        r@ == seq![dec_digit(d as int)],
{
    proof {
        reveal_strlit("0");
        reveal_strlit("1");
        reveal_strlit("2");
        reveal_strlit("3");
        reveal_strlit("4");
        reveal_strlit("5");
        reveal_strlit("6");
        reveal_strlit("7");
        reveal_strlit("8");
        reveal_strlit("9");
    }
    let r = if d == 0 {
        "0"
    } else if d == 1 {
        "1"
    } else if d == 2 {
        "2"
    } else if d == 3 {
        "3"
    } else if d == 4 {
        "4"
    } else if d == 5 {
        "5"
    } else if d == 6 {
        "6"
    } else if d == 7 {
        "7"
    } else if d == 8 {
        "8"
    } else {
        "9"
    };
    proof {
        assert(r@ =~= seq![dec_digit(d as int)]);
    }
    r
}

/// Render a number in decimal.
pub fn u64_to_string(n: u64) -> (r: String)
    ensures
        r@ == dec_rep(n as nat),
    decreases n,
{
    if n < 10 {
        String::from_str(digit_str(n))
    } else {
        let mut s = u64_to_string(n / 10);
        s.append(digit_str(n % 10));
        proof {
            assert(s@ =~= dec_rep((n / 10) as nat).push(dec_digit((n % 10) as int)));
        }
        s
    }
}

/// The Unicode white-space characters, as `char::is_whitespace` counts
/// them.
pub open spec fn is_space_char(c: char) -> bool {
    let u = c as u32;
    ||| u == 0x20
    ||| (0x09 <= u && u <= 0x0D)
    ||| u == 0x85
    ||| u == 0xA0
    ||| u == 0x1680
    ||| (0x2000 <= u && u <= 0x200A)
    ||| u == 0x2028
    ||| u == 0x2029
    ||| u == 0x202F
    ||| u == 0x205F
    ||| u == 0x3000
}

/// Every character of `s` is white space.
pub open spec fn all_blank(s: Seq<char>) -> bool {
    forall|i: int| 0 <= i < s.len() ==> is_space_char(#[trigger] s[i])
}

/// Is the string empty or made of white space only (that is, would
/// trimming leave nothing)?
pub fn is_blank(s: &str) -> (r: bool)
    ensures
        r == all_blank(s@),
{
    let len = s.unicode_len();
    let mut i: usize = 0;
    while i < len
        invariant
            i <= len,
            len == s@.len(),
            forall|j: int| 0 <= j < i ==> is_space_char(#[trigger] s@[j]),
        decreases len - i,
    {
        let c = s.get_char(i);
        let u = c as u32;
        let space = u == 0x20 || (0x09 <= u && u <= 0x0D) || u == 0x85 || u == 0xA0 || u == 0x1680
            || (0x2000 <= u && u <= 0x200A) || u == 0x2028 || u == 0x2029 || u == 0x202F
            || u == 0x205F || u == 0x3000;
        if !space {
            return false;
        }
        i = i + 1;
    }
    true
}

} // verus!

verus! {

/// First index at or after `from` where `c` occurs, or the length of
/// `s` when it does not.
pub open spec fn find_char_from(s: Seq<char>, c: char, from: int) -> int
    decreases s.len() - from,
    when 0 <= from <= s.len()
{
    if from >= s.len() {
        s.len() as int
    } else if s[from] == c {
        from
    } else {
        find_char_from(s, c, from + 1)
    }
}

/// Find the first occurrence of the character `c` at or after `from`.
pub fn find_char(s: &str, c: char, from: usize) -> (r: usize)
    requires
        from <= s@.len(),
    ensures
        r == find_char_from(s@, c, from as int),
        from <= r <= s@.len(),
        r < s@.len() ==> s@[r as int] == c,
        forall|j: int| from <= j < r ==> s@[j] != c,
    decreases s@.len() - from,
{
    let len = s.unicode_len();
    let mut i: usize = from;
    while i < len
        invariant
            from <= i <= len,
            len == s@.len(),
            find_char_from(s@, c, from as int) == find_char_from(s@, c, i as int),
            forall|j: int| from <= j < i ==> s@[j] != c,
        decreases len - i,
    {
        if s.get_char(i) == c {
            return i;
        }
        i = i + 1;
    }
    len
}

/// Index of the first character that is not white space, or the length
/// of `s` when all are.
pub open spec fn start_of_content(s: Seq<char>, from: int) -> int
    decreases s.len() - from,
    when 0 <= from <= s.len()
{
    if from >= s.len() {
        s.len() as int
    } else if is_space_char(s[from]) {
        start_of_content(s, from + 1)
    } else {
        from
    }
}

/// One past the index of the last character that is not white space,
/// or zero when all are.
pub open spec fn end_of_content(s: Seq<char>) -> int
    decreases s.len(),
{
    if s.len() == 0 {
        0
    } else if is_space_char(s.last()) {
        end_of_content(s.drop_last())
    } else {
        s.len() as int
    }
}

/// `s` with white space removed from both ends.
pub open spec fn trim_spec(s: Seq<char>) -> Seq<char> {
    if start_of_content(s, 0) <= end_of_content(s) {
        s.subrange(start_of_content(s, 0), end_of_content(s))
    } else {
        Seq::empty()
    }
}

/// Remove white space from both ends of `s`.
pub fn trim_str<'a>(s: &'a str) -> (r: &'a str)
    ensures
        r@ == trim_spec(s@),
{
    let len = s.unicode_len();
    let mut a: usize = 0;
    while a < len
        invariant
            a <= len,
            len == s@.len(),
            start_of_content(s@, 0) == start_of_content(s@, a as int),
        ensures
            a <= len,
            len == s@.len(),
            start_of_content(s@, 0) == a as int,
        decreases len - a,
    {
        let c = s.get_char(a);
        let u = c as u32;
        let space = u == 0x20 || (0x09 <= u && u <= 0x0D) || u == 0x85 || u == 0xA0 || u == 0x1680
            || (0x2000 <= u && u <= 0x200A) || u == 0x2028 || u == 0x2029 || u == 0x202F
            || u == 0x205F || u == 0x3000;
        if !space {
            proof {
                assert(start_of_content(s@, a as int) == a as int);
            }
            break;
        }
        a = a + 1;
    }
    let mut b: usize = len;
    proof {
        assert(s@.take(len as int) =~= s@);
        if a < len {
            lemma_start_of_content_bounds(s@, 0);
        }
    }
    while b > a
        invariant
            a <= b <= len,
            len == s@.len(),
            a == start_of_content(s@, 0),
            a < len ==> !is_space_char(s@[a as int]),
            a as int == s@.len() || a < b,
            end_of_content(s@.take(b as int)) == end_of_content(s@),
        ensures
            a <= b <= len,
            len == s@.len(),
            a == start_of_content(s@, 0),
            b > a ==> end_of_content(s@) == b as int,
            b == a ==> a == s@.len(),
        decreases b,
    {
        let c = s.get_char(b - 1);
        let u = c as u32;
        let space = u == 0x20 || (0x09 <= u && u <= 0x0D) || u == 0x85 || u == 0xA0 || u == 0x1680
            || (0x2000 <= u && u <= 0x200A) || u == 0x2028 || u == 0x2029 || u == 0x202F
            || u == 0x205F || u == 0x3000;
        if !space {
            proof {
                assert(s@.take(b as int).last() == s@[b - 1]);
                assert(end_of_content(s@.take(b as int)) == b as int);
            }
            break;
        }
        proof {
            assert(s@.take(b as int).last() == s@[b - 1]);
            assert(s@.take(b as int).drop_last() =~= s@.take(b - 1));
        }
        proof {
            // The character before the cursor is white space, so the
            // cursor cannot land on the start of content.
            if b - 1 == a && a < len {
                assert(false);
            }
        }
        b = b - 1;
    }
    proof {
        if b > a {
            assert(a < len);
            assert(trim_spec(s@) == s@.subrange(a as int, b as int));
        } else {
            assert(a == len);
            assert forall|i: int| 0 <= i < s@.len() implies is_space_char(#[trigger] s@[i]) by {
                lemma_start_of_content_min_contra(s@, i);
            }
            lemma_end_all_blank(s@);
            assert(trim_spec(s@) =~= s@.subrange(a as int, b as int));
        }
    }
    s.substring_char(a, b)
}

/// If the start-of-content scan reaches the end, every character is
/// white space.
proof fn lemma_start_of_content_min_contra(s: Seq<char>, i: int)
    requires
        0 <= i < s.len(),
        start_of_content(s, 0) == s.len(),
    ensures
        is_space_char(s[i]),
{
    if !is_space_char(s[i]) {
        lemma_start_of_content_min(s, 0, i);
    }
}

/// The character before `end_of_content` is not white space.
proof fn lemma_end_of_content_last(s: Seq<char>)
    requires
        end_of_content(s) > 0,
    ensures
        end_of_content(s) <= s.len(),
        !is_space_char(s[end_of_content(s) - 1]),
    decreases s.len(),
{
    if s.len() == 0 {
    } else if is_space_char(s.last()) {
        lemma_end_of_content_last(s.drop_last());
    }
}

/// Characters between the trim bounds: start never exceeds end unless
/// the string is all white space.
proof fn lemma_start_end_of_content(s: Seq<char>)
    ensures
        0 <= start_of_content(s, 0),
        end_of_content(s) <= s.len(),
        !all_blank(s) ==> start_of_content(s, 0) < end_of_content(s),
        all_blank(s) ==> start_of_content(s, 0) == s.len() && end_of_content(s) == 0,
    decreases s.len(),
{
    lemma_start_of_content_bounds(s, 0);
    lemma_end_of_content_bounds(s);
    if !all_blank(s) {
        let w = choose|i: int| 0 <= i < s.len() && !is_space_char(#[trigger] s[i]);
        lemma_start_of_content_min(s, 0, w);
        lemma_end_of_content_min(s, w);
    } else {
        lemma_start_all_blank(s, 0);
        lemma_end_all_blank(s);
    }
}

proof fn lemma_start_of_content_bounds(s: Seq<char>, from: int)
    requires
        0 <= from <= s.len(),
    ensures
        from <= start_of_content(s, from) <= s.len(),
        start_of_content(s, from) < s.len() ==> !is_space_char(s[start_of_content(s, from)]),
    decreases s.len() - from,
{
    if from < s.len() && is_space_char(s[from]) {
        lemma_start_of_content_bounds(s, from + 1);
    }
}

proof fn lemma_end_of_content_bounds(s: Seq<char>)
    ensures
        0 <= end_of_content(s) <= s.len(),
    decreases s.len(),
{
    if s.len() > 0 && is_space_char(s.last()) {
        lemma_end_of_content_bounds(s.drop_last());
    }
}

proof fn lemma_start_of_content_min(s: Seq<char>, from: int, w: int)
    requires
        0 <= from <= s.len(),
        from <= w < s.len(),
        !is_space_char(s[w]),
    ensures
        start_of_content(s, from) <= w,
    decreases s.len() - from,
{
    if from < s.len() && is_space_char(s[from]) {
        lemma_start_of_content_min(s, from + 1, w);
    }
}

proof fn lemma_end_of_content_min(s: Seq<char>, w: int)
    requires
        0 <= w < s.len(),
        !is_space_char(s[w]),
    ensures
        end_of_content(s) > w,
    decreases s.len(),
{
    if s.len() > 0 && is_space_char(s.last()) {
        lemma_end_of_content_min(s.drop_last(), w);
    }
}

proof fn lemma_start_all_blank(s: Seq<char>, from: int)
    requires
        0 <= from <= s.len(),
        all_blank(s),
    ensures
        start_of_content(s, from) == s.len(),
    decreases s.len() - from,
{
    if from < s.len() {
        lemma_start_all_blank(s, from + 1);
    }
}

proof fn lemma_end_all_blank(s: Seq<char>)
    requires
        all_blank(s),
    ensures
        end_of_content(s) == 0,
    decreases s.len(),
{
    if s.len() > 0 {
        assert(all_blank(s.drop_last()));
        lemma_end_all_blank(s.drop_last());
    }
}

} // verus!

verus! {

/// A single or double quote.
pub open spec fn is_quote_char(c: char) -> bool {
    c == '"' || c == '\''
}

/// Index of the first character that is not a quote, or the length of
/// `s` when all are.
pub open spec fn quote_start(s: Seq<char>, from: int) -> int
    decreases s.len() - from,
    when 0 <= from <= s.len()
{
    if from >= s.len() {
        s.len() as int
    } else if is_quote_char(s[from]) {
        quote_start(s, from + 1)
    } else {
        from
    }
}

/// One past the index of the last character that is not a quote, or
/// zero when all are.
pub open spec fn quote_end(s: Seq<char>) -> int
    decreases s.len(),
{
    if s.len() == 0 {
        0
    } else if is_quote_char(s.last()) {
        quote_end(s.drop_last())
    } else {
        s.len() as int
    }
}

/// `s` with quotes removed from both ends.
pub open spec fn strip_quotes_spec(s: Seq<char>) -> Seq<char> {
    if quote_start(s, 0) <= quote_end(s) {
        s.subrange(quote_start(s, 0), quote_end(s))
    } else {
        Seq::empty()
    }
}

proof fn lemma_quote_start_bounds(s: Seq<char>, from: int)
    requires
        0 <= from <= s.len(),
    ensures
        from <= quote_start(s, from) <= s.len(),
        quote_start(s, from) < s.len() ==> !is_quote_char(s[quote_start(s, from)]),
    decreases s.len() - from,
{
    if from < s.len() && is_quote_char(s[from]) {
        lemma_quote_start_bounds(s, from + 1);
    }
}

proof fn lemma_quote_start_min(s: Seq<char>, from: int, w: int)
    requires
        0 <= from <= s.len(),
        from <= w < s.len(),
        !is_quote_char(s[w]),
    ensures
        quote_start(s, from) <= w,
    decreases s.len() - from,
{
    if from < s.len() && is_quote_char(s[from]) {
        lemma_quote_start_min(s, from + 1, w);
    }
}

proof fn lemma_quote_end_all(s: Seq<char>)
    requires
        forall|i: int| 0 <= i < s.len() ==> is_quote_char(#[trigger] s[i]),
    ensures
        quote_end(s) == 0,
    decreases s.len(),
{
    if s.len() > 0 {
        lemma_quote_end_all(s.drop_last());
    }
}

/// Remove quotes from both ends of `s`, as many as there are.
pub fn strip_quotes<'a>(s: &'a str) -> (r: &'a str)
    ensures
        r@ == strip_quotes_spec(s@),
{
    let len = s.unicode_len();
    let mut a: usize = 0;
    while a < len
        invariant
            a <= len,
            len == s@.len(),
            quote_start(s@, 0) == quote_start(s@, a as int),
        ensures
            a <= len,
            len == s@.len(),
            quote_start(s@, 0) == a as int,
        decreases len - a,
    {
        let c = s.get_char(a);
        if !(c == '"' || c == '\'') {
            proof {
                assert(quote_start(s@, a as int) == a as int);
            }
            break;
        }
        a = a + 1;
    }
    let mut b: usize = len;
    proof {
        assert(s@.take(len as int) =~= s@);
        if a < len {
            lemma_quote_start_bounds(s@, 0);
        }
    }
    while b > a
        invariant
            a <= b <= len,
            len == s@.len(),
            a == quote_start(s@, 0),
            a < len ==> !is_quote_char(s@[a as int]),
            a as int == s@.len() || a < b,
            quote_end(s@.take(b as int)) == quote_end(s@),
        ensures
            a <= b <= len,
            len == s@.len(),
            a == quote_start(s@, 0),
            b > a ==> quote_end(s@) == b as int,
            b == a ==> a == s@.len(),
        decreases b,
    {
        let c = s.get_char(b - 1);
        if !(c == '"' || c == '\'') {
            proof {
                assert(s@.take(b as int).last() == s@[b - 1]);
                assert(quote_end(s@.take(b as int)) == b as int);
            }
            break;
        }
        proof {
            assert(s@.take(b as int).last() == s@[b - 1]);
            assert(s@.take(b as int).drop_last() =~= s@.take(b - 1));
            if b - 1 == a && a < len {
                assert(false);
            }
        }
        b = b - 1;
    }
    proof {
        if b > a {
            assert(strip_quotes_spec(s@) == s@.subrange(a as int, b as int));
        } else {
            assert(a == len);
            assert forall|i: int| 0 <= i < s@.len() implies is_quote_char(#[trigger] s@[i]) by {
                if !is_quote_char(s@[i]) {
                    lemma_quote_start_min(s@, 0, i);
                }
            }
            lemma_quote_end_all(s@);
            assert(strip_quotes_spec(s@) =~= s@.subrange(a as int, b as int));
        }
    }
    s.substring_char(a, b)
}

/// The lines of `s` from position `pos` on, split at newlines: every
/// newline ends a line, and the text after the last newline is the
/// final line (possibly empty).
pub open spec fn lines_from(s: Seq<char>, pos: int) -> Seq<Seq<char>>
    decreases s.len() - pos,
    when 0 <= pos <= s.len()
{
    let k = find_char_from(s, '\n', pos);
    if pos <= k < s.len() {
        seq![s.subrange(pos, k)] + lines_from(s, k + 1)
    } else {
        seq![s.subrange(pos, s.len() as int)]
    }
}

/// The lines of `s`.
pub open spec fn lines_of(s: Seq<char>) -> Seq<Seq<char>> {
    lines_from(s, 0)
}

/// Split `s` at newlines. The result always has at least one element,
/// and joining it back with newlines gives `s` again.
pub fn split_newlines(s: &str) -> (r: Vec<String>)
    ensures
        r.deep_view() == lines_of(s@),
        r@.len() >= 1,
{
    let len = s.unicode_len();
    let mut out: Vec<String> = Vec::new();
    let mut pos: usize = 0;
    loop
        invariant_except_break
            pos <= len,
            len == s@.len(),
            lines_from(s@, 0) =~= out.deep_view() + lines_from(s@, pos as int),
        ensures
            out.deep_view() =~= lines_of(s@),
            out@.len() >= 1,
        decreases len - pos,
    {
        let k = find_char(s, '\n', pos);
        let line = String::from_str(s.substring_char(pos, k));
        let ghost before = out.deep_view();
        out.push(line);
        proof {
            assert(out.deep_view() =~= before.push(s@.subrange(pos as int, k as int)));
        }
        if k >= len {
            proof {
                assert(lines_from(s@, pos as int) =~= seq![s@.subrange(pos as int, len as int)]);
                assert(out.deep_view() =~= lines_from(s@, 0));
            }
            break;
        }
        proof {
            assert(lines_from(s@, pos as int) =~= seq![s@.subrange(pos as int, k as int)]
                + lines_from(s@, k + 1));
            assert(lines_from(s@, 0) =~= out.deep_view() + lines_from(s@, k + 1));
        }
        pos = k + 1;
    }
    out
}

/// The elements of `ls` joined with `sep` between each pair.
pub open spec fn join_sep(ls: Seq<Seq<char>>, sep: Seq<char>) -> Seq<char>
    decreases ls.len(),
{
    if ls.len() == 0 {
        Seq::empty()
    } else if ls.len() == 1 {
        ls[0]
    } else {
        join_sep(ls.drop_last(), sep) + sep + ls.last()
    }
}

/// Join strings with a separator between each pair.
pub fn join_strings(items: &Vec<String>, sep: &str) -> (r: String)
    ensures
        r@ == join_sep(items.deep_view(), sep@),
{
    let ghost dv = items.deep_view();
    let n = items.len();
    let mut out = String::new();
    let mut i: usize = 0;
    while i < n
        invariant
            i <= n,
            n == items@.len(),
            dv == items.deep_view(),
            out@ == join_sep(dv.take(i as int), sep@),
        decreases n - i,
    {
        if i > 0 {
            out.append(sep);
        }
        out.append(items[i].as_str());
        proof {
            assert(dv.take(i + 1).drop_last() =~= dv.take(i as int));
            assert(dv.take(i + 1).last() == dv[i as int]);
            if i == 0 {
                assert(out@ =~= join_sep(dv.take(1), sep@));
            } else {
                assert(out@ =~= join_sep(dv.take(i + 1), sep@));
            }
        }
        i = i + 1;
    }
    proof {
        assert(dv.take(n as int) =~= dv);
    }
    out
}

/// Copy the elements of `v` between `from` and `to` into a new vector.
pub fn subvec_strings(v: &Vec<String>, from: usize, to: usize) -> (r: Vec<String>)
    requires
        from <= to <= v@.len(),
    ensures
        r.deep_view() == v.deep_view().subrange(from as int, to as int),
{
    let mut out: Vec<String> = Vec::new();
    let mut i: usize = from;
    while i < to
        invariant
            from <= i <= to <= v@.len(),
            out.deep_view() =~= v.deep_view().subrange(from as int, i as int),
        decreases to - i,
    {
        let ghost before = out.deep_view();
        out.push(v[i].clone());
        proof {
            assert(out.deep_view() =~= before.push(v.deep_view()[i as int]));
            assert(out.deep_view() =~= v.deep_view().subrange(from as int, i + 1));
        }
        i = i + 1;
    }
    out
}

} // verus!
