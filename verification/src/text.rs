//! Verified text utilities: building strings from characters, decimal
//! rendering of integers, comparison and search over string slices.
use vstd::prelude::*;
use vstd::string::StrSliceExecFns;

verus! {

/// Relies on String::push: appends one character at the end of the string.
#[verifier::external_body]
pub(crate) fn push_char(s: &mut String, c: char)
    ensures
        final(s)@ == old(s)@.push(c),
{
    s.push(c);
}

/// Relies on String::push_str: appends a whole string slice at the end.
#[verifier::external_body]
pub(crate) fn append_str(s: &mut String, t: &str)
    ensures
        final(s)@ == old(s)@ + t@,
{
    s.push_str(t);
}

/// The decimal digit character for a value below ten.
pub open spec fn digit_of(d: nat) -> char {
    if d == 0 {
        '0'
    } else if d == 1 {
        '1'
    } else if d == 2 {
        '2'
    } else if d == 3 {
        '3'
    } else if d == 4 {
        '4'
    } else if d == 5 {
        '5'
    } else if d == 6 {
        '6'
    } else if d == 7 {
        '7'
    } else if d == 8 {
        '8'
    } else {
        '9'
    }
}

/// The decimal digit characters of a natural number, most significant first.
pub open spec fn dec_chars(n: nat) -> Seq<char>
    decreases n,
{
    if n < 10 {
        seq![digit_of(n)]
    } else {
        dec_chars(n / 10).push(digit_of(n % 10))
    }
}

/// The decimal rendering of an integer, with a leading minus sign when negative.
pub open spec fn int_chars(i: int) -> Seq<char> {
    if i >= 0 {
        dec_chars(i as nat)
    } else {
        seq!['-'] + dec_chars((-i) as nat)
    }
}

fn digit_char(d: u64) -> (c: char)
    requires
        d < 10,
    ensures
        c == digit_of(d as nat),
{
    if d == 0 {
        '0'
    } else if d == 1 {
        '1'
    } else if d == 2 {
        '2'
    } else if d == 3 {
        '3'
    } else if d == 4 {
        '4'
    } else if d == 5 {
        '5'
    } else if d == 6 {
        '6'
    } else if d == 7 {
        '7'
    } else if d == 8 {
        '8'
    } else {
        '9'
    }
}

fn u64_dec_digits(n: u64) -> (v: Vec<char>)
    ensures
        v@ == dec_chars(n as nat),
{
    let mut v: Vec<char> = Vec::new();
    let mut cur: u64 = n;
    while cur >= 10
        invariant
            dec_chars(n as nat) =~= dec_chars(cur as nat) + v@,
        decreases cur,
    {
        let d = digit_char(cur % 10);
        v.insert(0, d);
        proof {
            assert(dec_chars(cur as nat) =~= dec_chars((cur as nat) / 10) + seq![
                digit_of((cur as nat) % 10),
            ]);
        }
        cur = cur / 10;
    }
    let d = digit_char(cur);
    v.insert(0, d);
    proof {
        assert(dec_chars(cur as nat) =~= seq![digit_of(cur as nat)]);
        assert(v@ =~= dec_chars(n as nat));
    }
    v
}

/// Builds a string holding exactly the given characters.
pub fn string_from_chars(v: &Vec<char>) -> (s: String)
    ensures
        s@ == v@,
{
    let mut s = String::new();
    let mut i: usize = 0;
    while i < v.len()
        invariant
            i <= v.len(),
            s@ == v@.subrange(0, i as int),
        decreases v.len() - i,
    {
        push_char(&mut s, v[i]);
        i = i + 1;
        proof {
            assert(s@ =~= v@.subrange(0, i as int));
        }
    }
    proof {
        assert(s@ =~= v@);
    }
    s
}

/// Renders an unsigned number in decimal.
pub fn u64_to_string(n: u64) -> (s: String)
    ensures
        s@ == dec_chars(n as nat),
{
    let v = u64_dec_digits(n);
    string_from_chars(&v)
}

/// Renders an unsigned number in decimal.
pub fn u32_to_string(n: u32) -> (s: String)
    ensures
        s@ == dec_chars(n as nat),
{
    u64_to_string(n as u64)
}

/// Renders a usize in decimal.
pub fn usize_to_string(n: usize) -> (s: String)
    ensures
        s@ == dec_chars(n as nat),
{
    u64_to_string(n as u64)
}

/// Renders a signed number in decimal, with a minus sign when negative.
pub fn i64_to_string(n: i64) -> (s: String)
    ensures
        s@ == int_chars(n as int),
{
    if n >= 0 {
        u64_to_string(n as u64)
    } else {
        let mag: u64 = ((-(n + 1)) as u64) + 1;
        assert(mag as nat == -(n as int));
        let mut s = String::new();
        push_char(&mut s, '-');
        let v = u64_dec_digits(mag);
        let tail = string_from_chars(&v);
        append_str(&mut s, tail.as_str());
        proof {
            assert(s@ =~= int_chars(n as int));
        }
        s
    }
}

/// A run of space characters.
pub open spec fn spaces(n: nat) -> Seq<char> {
    Seq::new(n, |i: int| ' ')
}

/// The characters padded with spaces on the right up to the given width.
pub open spec fn left_just(s: Seq<char>, w: nat) -> Seq<char> {
    if s.len() >= w {
        s
    } else {
        s + spaces((w - s.len()) as nat)
    }
}

/// The characters padded with spaces on the left up to the given width.
pub open spec fn right_just(s: Seq<char>, w: nat) -> Seq<char> {
    if s.len() >= w {
        s
    } else {
        spaces((w - s.len()) as nat) + s
    }
}

fn spaces_string(n: usize) -> (s: String)
    ensures
        s@ == spaces(n as nat),
{
    let mut s = String::new();
    let mut i: usize = 0;
    while i < n
        invariant
            i <= n,
            s@ =~= spaces(i as nat),
        decreases n - i,
    {
        push_char(&mut s, ' ');
        i = i + 1;
        proof {
            assert(s@ =~= spaces(i as nat));
        }
    }
    s
}

/// Pads with spaces on the right up to the given width.
pub fn left_justify(s: &str, w: usize) -> (r: String)
    ensures
        r@ == left_just(s@, w as nat),
{
    let n = s.unicode_len();
    let mut r = s.to_owned();
    if n < w {
        let pad = spaces_string(w - n);
        append_str(&mut r, pad.as_str());
    }
    r
}

/// Pads with spaces on the left up to the given width.
pub fn right_justify(s: &str, w: usize) -> (r: String)
    ensures
        r@ == right_just(s@, w as nat),
{
    let n = s.unicode_len();
    if n < w {
        let mut r = spaces_string(w - n);
        append_str(&mut r, s);
        r
    } else {
        s.to_owned()
    }
}

/// Whether two string slices hold the same characters.
pub fn str_eq(a: &str, b: &str) -> (r: bool)
    ensures
        r == (a@ == b@),
{
    let n = a.unicode_len();
    let m = b.unicode_len();
    if n != m {
        return false;
    }
    let mut i: usize = 0;
    while i < n
        invariant
            i <= n,
            n == a@.len(),
            n == b@.len(),
            forall|j: int| 0 <= j < i ==> a@[j] == b@[j],
        decreases n - i,
    {
        if a.get_char(i) != b.get_char(i) {
            return false;
        }
        i = i + 1;
    }
    proof {
        assert(a@ =~= b@);
    }
    true
}

/// Whether the slice starts with the given prefix.
pub open spec fn has_prefix(s: Seq<char>, p: Seq<char>) -> bool {
    s.len() >= p.len() && s.subrange(0, p.len() as int) == p
}

/// Whether the slice holds the given characters anywhere inside it.
pub open spec fn contains_seq(s: Seq<char>, p: Seq<char>) -> bool {
    exists|i: int| 0 <= i && i + p.len() <= s.len() && #[trigger] s.subrange(i, i + p.len() as int)
        == p
}

/// Whether the string starts with the given prefix.
pub fn starts_with_str(s: &str, p: &str) -> (r: bool)
    ensures
        r == has_prefix(s@, p@),
{
    let n = s.unicode_len();
    let m = p.unicode_len();
    if n < m {
        return false;
    }
    let mut i: usize = 0;
    while i < m
        invariant
            i <= m,
            m <= n,
            n == s@.len(),
            m == p@.len(),
            forall|j: int| 0 <= j < i ==> s@[j] == p@[j],
        decreases m - i,
    {
        if s.get_char(i) != p.get_char(i) {
            proof {
                assert(s@.subrange(0, m as int)[i as int] != p@[i as int]);
            }
            return false;
        }
        i = i + 1;
    }
    proof {
        assert(s@.subrange(0, m as int) =~= p@);
    }
    true
}

fn match_at(s: &str, p: &str, at: usize) -> (r: bool)
    requires
        at + p@.len() <= s@.len(),
    ensures
        r == (s@.subrange(at as int, at + p@.len()) == p@),
{
    let n = s.unicode_len();
    let m = p.unicode_len();
    let mut i: usize = 0;
    while i < m
        invariant
            i <= m,
            m == p@.len(),
            n == s@.len(),
            at + m <= n,
            forall|j: int| 0 <= j < i ==> s@[at + j] == p@[j],
        decreases m - i,
    {
        if s.get_char(at + i) != p.get_char(i) {
            proof {
                assert(s@.subrange(at as int, at + p@.len())[i as int] != p@[i as int]);
            }
            return false;
        }
        i = i + 1;
    }
    proof {
        assert(s@.subrange(at as int, at + p@.len()) =~= p@);
    }
    true
}

/// Whether the string holds the given pattern anywhere inside it.
pub fn contains_str(s: &str, p: &str) -> (r: bool)
    ensures
        r == contains_seq(s@, p@),
{
    let n = s.unicode_len();
    let m = p.unicode_len();
    if m > n {
        return false;
    }
    if m == 0 {
        proof {
            assert(s@.subrange(0, 0 + p@.len() as int) =~= p@);
        }
        return true;
    }
    let mut i: usize = 0;
    while i <= n - m
        invariant
            0 < m <= n,
            n == s@.len(),
            m == p@.len(),
            i <= n - m + 1,
            forall|k: int| 0 <= k < i ==> #[trigger] s@.subrange(k, k + p@.len()) != p@,
        decreases n - i,
    {
        if match_at(s, p, i) {
            return true;
        }
        i = i + 1;
    }
    false
}

/// Finds the first occurrence of a character at or after the given index.
pub fn find_char(s: &str, c: char, from: usize) -> (r: Option<usize>)
    requires
        from <= s@.len(),
    ensures
        match r {
            Some(i) => from <= i < s@.len() && s@[i as int] == c && forall|j: int|
                from <= j < i ==> s@[j] != c,
            None => forall|j: int| from <= j < s@.len() ==> s@[j] != c,
        },
{
    let n = s.unicode_len();
    let mut i: usize = from;
    while i < n
        invariant
            from <= i <= n,
            n == s@.len(),
            forall|j: int| from <= j < i ==> s@[j] != c,
        decreases n - i,
    {
        if s.get_char(i) == c {
            return Some(i);
        }
        i = i + 1;
    }
    None
}

} // verus!
