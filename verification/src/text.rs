//! Character-sequence helpers shared by the parsers and formatters of the crate.
use vstd::prelude::*;

verus! {

/// Whether `needle` occurs in `hay` starting at index `i`.
pub open spec fn occurs_at(hay: Seq<char>, needle: Seq<char>, i: int) -> bool {
    0 <= i && i + needle.len() <= hay.len() && hay.subrange(i, i + needle.len()) == needle
}

/// The first index, not below `from`, at which `needle` occurs in `hay`.
pub open spec fn find_from(hay: Seq<char>, needle: Seq<char>, from: int) -> Option<int>
    decreases hay.len() + 1 - from,
{
    if from < 0 || from + needle.len() > hay.len() {
        None
    } else if occurs_at(hay, needle, from) {
        Some(from)
    } else {
        find_from(hay, needle, from + 1)
    }
}

/// The first index at which `needle` occurs in `hay`.
pub open spec fn find_first(hay: Seq<char>, needle: Seq<char>) -> Option<int> {
    find_from(hay, needle, 0)
}

/// The last index below `end` that holds `c`.
pub open spec fn rfind_char_before(hay: Seq<char>, c: char, end: int) -> Option<int>
    decreases end,
{
    if end <= 0 || end > hay.len() {
        None
    } else if hay[end - 1] == c {
        Some(end - 1)
    } else {
        rfind_char_before(hay, c, end - 1)
    }
}

/// Whether `needle` occurs anywhere in `hay`.
pub open spec fn contains_seq(hay: Seq<char>, needle: Seq<char>) -> bool {
    find_first(hay, needle) is Some
}

pub proof fn lemma_find_from_bounds(hay: Seq<char>, needle: Seq<char>, from: int)
    ensures
        find_from(hay, needle, from) matches Some(i) ==> from <= i && occurs_at(hay, needle, i),
    decreases hay.len() + 1 - from,
{
    if from < 0 || from + needle.len() > hay.len() {
    } else if occurs_at(hay, needle, from) {
    } else {
        lemma_find_from_bounds(hay, needle, from + 1);
    }
}

/// `find_from` finds something exactly when `needle` occurs somewhere from `from` on.
pub proof fn lemma_find_from_some(hay: Seq<char>, needle: Seq<char>, from: int)
    requires
        from >= 0,
    ensures
        find_from(hay, needle, from) is Some <==> exists|i: int| from <= i && #[trigger] occurs_at(
            hay,
            needle,
            i,
        ),
    decreases hay.len() + 1 - from,
{
    if from + needle.len() > hay.len() {
        assert forall|i: int| from <= i implies !#[trigger] occurs_at(hay, needle, i) by {}
    } else if occurs_at(hay, needle, from) {
    } else {
        lemma_find_from_some(hay, needle, from + 1);
        if exists|i: int| from <= i && #[trigger] occurs_at(hay, needle, i) {
            let i = choose|i: int| from <= i && #[trigger] occurs_at(hay, needle, i);
            assert(i != from);
            assert(from + 1 <= i && occurs_at(hay, needle, i));
        }
    }
}

/// What `find_from` finds is the first occurrence from `from` on: `needle` occurs at no index
/// between `from` and it (and nowhere from `from` on when nothing is found).
pub proof fn lemma_find_from_first(hay: Seq<char>, needle: Seq<char>, from: int)
    requires
        from >= 0,
    ensures
        forall|k: int|
            from <= k && (match find_from(hay, needle, from) {
                Some(i) => k < i,
                None => true,
            }) ==> !#[trigger] occurs_at(hay, needle, k),
    decreases hay.len() + 1 - from,
{
    if from + needle.len() > hay.len() {
    } else if occurs_at(hay, needle, from) {
    } else {
        lemma_find_from_first(hay, needle, from + 1);
    }
}

/// `needle` is contained in `hay` exactly when it occurs in it at some index.
pub proof fn lemma_contains_seq_occurs(hay: Seq<char>, needle: Seq<char>)
    ensures
        contains_seq(hay, needle) <==> exists|i: int| #[trigger] occurs_at(hay, needle, i),
{
    lemma_find_from_some(hay, needle, 0);
}

pub proof fn lemma_rfind_bounds(hay: Seq<char>, c: char, end: int)
    ensures
        rfind_char_before(hay, c, end) matches Some(i) ==> 0 <= i < end && i < hay.len()
            && hay[i] == c,
    decreases end,
{
    if end <= 0 || end > hay.len() {
    } else if hay[end - 1] == c {
    } else {
        lemma_rfind_bounds(hay, c, end - 1);
    }
}

/// The characters of `s`, in order.
pub fn chars_of(s: &str) -> (v: Vec<char>)
    ensures
        v@ == s@,
{
    let mut v: Vec<char> = Vec::new();
    for c in it: s.chars()
        invariant
            v@ == it.seq().take(it.index() as int),
    {
        v.push(c);
    }
    v
}

/// A `String` made of the characters in `v` (std's `FromIterator<char>` for `String`).
#[verifier::external_body]
pub(crate) fn string_of(v: &[char]) -> (s: String)
    ensures
        s@ == v@,
{
    v.iter().collect()
}

/// The characters of `v` from index `start` up to, not including, `end`.
pub fn sub_chars(v: &[char], start: usize, end: usize) -> (r: Vec<char>)
    requires
        start <= end <= v@.len(),
    ensures
        r@ == v@.subrange(start as int, end as int),
{
    let mut r: Vec<char> = Vec::new();
    let mut i = start;
    while i < end
        invariant
            start <= i <= end <= v@.len(),
            r@ == v@.subrange(start as int, i as int),
        decreases end - i,
    {
        r.push(v[i]);
        i += 1;
        assert(r@ =~= v@.subrange(start as int, i as int));
    }
    r
}

/// The first `n` bytes of `b`.
pub fn byte_prefix(b: &[u8], n: usize) -> (r: Vec<u8>)
    requires
        n <= b@.len(),
    ensures
        r@ == b@.subrange(0, n as int),
{
    let mut r: Vec<u8> = Vec::new();
    let mut i: usize = 0;
    while i < n
        invariant
            i <= n <= b@.len(),
            r@ == b@.subrange(0, i as int),
        decreases n - i,
    {
        r.push(b[i]);
        i += 1;
        assert(r@ =~= b@.subrange(0, i as int));
    }
    r
}

/// The string made of `v[start..end]`.
pub fn substring_of(v: &[char], start: usize, end: usize) -> (s: String)
    requires
        start <= end <= v@.len(),
    ensures
        s@ == v@.subrange(start as int, end as int),
{
    let r = sub_chars(v, start, end);
    string_of(r.as_slice())
}

/// Whether two strings hold the same characters.
pub fn str_eq(a: &str, b: &str) -> (r: bool)
    ensures
        r == (a@ == b@),
{
    let x = a.to_owned();
    let y = b.to_owned();
    x == y
}

/// Whether `needle` occurs in `hay` at index `i`.
pub fn occurs_at_exec(hay: &[char], needle: &[char], i: usize) -> (r: bool)
    ensures
        r == occurs_at(hay@, needle@, i as int),
{
    if needle.len() > hay.len() || i > hay.len() - needle.len() {
        return false;
    }
    let mut j: usize = 0;
    let n = needle.len();
    let hl = hay.len();
    while j < n
        invariant
            n == needle@.len(),
            hl == hay@.len(),
            i + n <= hl,
            j <= needle@.len(),
            i + needle@.len() <= hay@.len(),
            forall|k: int| 0 <= k < j ==> hay@[i + k] == needle@[k],
        decreases n - j,
    {
        if hay[i + j] != needle[j] {
            assert(hay@.subrange(i as int, i + needle@.len())[j as int] != needle@[j as int]);
            return false;
        }
        j += 1;
    }
    assert(hay@.subrange(i as int, i + needle@.len()) =~= needle@);
    true
}

/// The first index, not below `from`, at which `needle` occurs in `hay`.
pub fn find_chars(hay: &[char], needle: &[char], from: usize) -> (r: Option<usize>)
    ensures
        r == (match find_from(hay@, needle@, from as int) {
            Some(i) => Some(i as usize),
            None => None,
        }),
        r matches Some(i) ==> from <= i && occurs_at(hay@, needle@, i as int),
{
    proof {
        lemma_find_from_bounds(hay@, needle@, from as int);
    }
    if needle.len() == 0 {
        if from <= hay.len() {
            assert(hay@.subrange(from as int, from as int) =~= needle@);
            return Some(from);
        } else {
            return None;
        }
    }
    let mut i = from;
    while needle.len() <= hay.len() && i <= hay.len() - needle.len()
        invariant
            from <= i,
            needle@.len() > 0,
            find_from(hay@, needle@, from as int) == find_from(hay@, needle@, i as int),
        decreases hay.len() - i,
    {
        if occurs_at_exec(hay, needle, i) {
            return Some(i);
        }
        i += 1;
    }
    None
}

/// The last index below `end` that holds `c`.
pub fn rfind_char(hay: &[char], c: char, end: usize) -> (r: Option<usize>)
    ensures
        r == (match rfind_char_before(hay@, c, end as int) {
            Some(i) => Some(i as usize),
            None => None,
        }),
        r matches Some(i) ==> i < end && i < hay@.len() && hay@[i as int] == c,
{
    proof {
        lemma_rfind_bounds(hay@, c, end as int);
    }
    if end > hay.len() {
        return None;
    }
    let mut e = end;
    while e > 0
        invariant
            e <= end <= hay@.len(),
            rfind_char_before(hay@, c, end as int) == rfind_char_before(hay@, c, e as int),
        decreases e,
    {
        if hay[e - 1] == c {
            return Some(e - 1);
        }
        e -= 1;
    }
    None
}


/// Unicode `White_Space` characters (what `char::is_whitespace` accepts).
pub open spec fn is_white(c: char) -> bool {
    let u = c as u32;
    (0x09 <= u <= 0x0D) || u == 0x20 || u == 0x85 || u == 0xA0 || u == 0x1680 || (0x2000 <= u
        <= 0x200A) || u == 0x2028 || u == 0x2029 || u == 0x202F || u == 0x205F || u == 0x3000
}

pub fn is_white_exec(c: char) -> (r: bool)
    ensures
        r == is_white(c),
{
    let u = c as u32;
    (0x09 <= u && u <= 0x0D) || u == 0x20 || u == 0x85 || u == 0xA0 || u == 0x1680 || (0x2000 <= u
        && u <= 0x200A) || u == 0x2028 || u == 0x2029 || u == 0x202F || u == 0x205F || u == 0x3000
}

/// `s` without its leading white space.
pub open spec fn trim_start(s: Seq<char>) -> Seq<char>
    decreases s.len(),
{
    if s.len() > 0 && is_white(s[0]) {
        trim_start(s.drop_first())
    } else {
        s
    }
}

/// `s` without its trailing white space.
pub open spec fn trim_end(s: Seq<char>) -> Seq<char>
    decreases s.len(),
{
    if s.len() > 0 && is_white(s.last()) {
        trim_end(s.drop_last())
    } else {
        s
    }
}

/// `s` without leading and trailing white space (what `str::trim` gives).
pub open spec fn trim(s: Seq<char>) -> Seq<char> {
    trim_end(trim_start(s))
}

/// The index of the first character of `s` from `i` on that is not white space.
pub fn skip_white(s: &[char], i: usize) -> (r: usize)
    requires
        i <= s@.len(),
    ensures
        i <= r <= s@.len(),
        trim_start(s@.skip(i as int)) == s@.skip(r as int),
{
    let mut k = i;
    while k < s.len() && is_white_exec(s[k])
        invariant
            i <= k <= s@.len(),
            trim_start(s@.skip(i as int)) == trim_start(s@.skip(k as int)),
        decreases s.len() - k,
    {
        assert(s@.skip(k as int).drop_first() =~= s@.skip(k + 1));
        k += 1;
    }
    if k < s.len() {
        assert(s@.skip(k as int)[0] == s@[k as int]);
    }
    k
}

/// The index just past the last character of `s[start..end]` that is not white space.
pub fn back_white(s: &[char], start: usize, end: usize) -> (r: usize)
    requires
        start <= end <= s@.len(),
    ensures
        start <= r <= end,
        trim_end(s@.subrange(start as int, end as int)) == s@.subrange(start as int, r as int),
{
    let mut k = end;
    while k > start && is_white_exec(s[k - 1])
        invariant
            start <= k <= end <= s@.len(),
            trim_end(s@.subrange(start as int, end as int)) == trim_end(
                s@.subrange(start as int, k as int),
            ),
        decreases k,
    {
        assert(s@.subrange(start as int, k as int).drop_last() =~= s@.subrange(
            start as int,
            k - 1,
        ));
        k -= 1;
    }
    k
}

/// `s` without leading and trailing white space.
pub fn trim_chars(s: &[char]) -> (r: Vec<char>)
    ensures
        r@ == trim(s@),
{
    let a = skip_white(s, 0);
    assert(s@.skip(0) =~= s@);
    let b = back_white(s, a, s.len());
    assert(s@.skip(a as int) =~= s@.subrange(a as int, s@.len() as int));
    sub_chars(s, a, b)
}

/// `s` without the leading copies of `c`.
pub open spec fn drop_leading(s: Seq<char>, c: char) -> Seq<char>
    decreases s.len(),
{
    if s.len() > 0 && s[0] == c {
        drop_leading(s.drop_first(), c)
    } else {
        s
    }
}

/// Whether `s` begins with `p`.
pub open spec fn starts_with(s: Seq<char>, p: Seq<char>) -> bool {
    p.len() <= s.len() && s.subrange(0, p.len() as int) == p
}

pub fn starts_with_exec(s: &[char], p: &[char]) -> (r: bool)
    ensures
        r == starts_with(s@, p@),
{
    occurs_at_exec(s, p, 0)
}


/// The decimal digits of `n`, without leading zeros.
pub open spec fn decimal(n: nat) -> Seq<char>
    decreases n,
{
    if n < 10 {
        seq![(n + 48) as char]
    } else {
        decimal(n / 10).push(((n % 10) + 48) as char)
    }
}

fn decimal_chars(n: u64) -> (r: Vec<char>)
    ensures
        r@ == decimal(n as nat),
    decreases n,
{
    let c = char_of_digit((n % 10) as u32);
    if n < 10 {
        let mut v: Vec<char> = Vec::new();
        v.push(c);
        assert(v@ =~= decimal(n as nat));
        v
    } else {
        let mut v = decimal_chars(n / 10);
        v.push(c);
        v
    }
}

/// `n` written in decimal.
pub fn decimal_text(n: u64) -> (r: String)
    ensures
        r@ == decimal(n as nat),
{
    let v = decimal_chars(n);
    string_of(v.as_slice())
}

fn char_of_digit(d: u32) -> (c: char)
    requires
        d < 10,
    ensures
        c == ((d + 48) as char),
{
    if d == 0 { '0' } else if d == 1 { '1' } else if d == 2 { '2' } else if d == 3 { '3' }
    else if d == 4 { '4' } else if d == 5 { '5' } else if d == 6 { '6' } else if d == 7 { '7' }
    else if d == 8 { '8' } else { '9' }
}

} // verus!
