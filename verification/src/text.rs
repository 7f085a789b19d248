//! Text helpers: whitespace trimming as `str::trim` does it, and the
//! character-prefix of a string that fits in a given number of UTF-8 bytes.

use vstd::prelude::*;

verus! {

/// Unicode `White_Space`, the property that `char::is_whitespace` and
/// `str::trim` go by.
pub open spec fn is_white_space(c: char) -> bool {
    let u = c as u32;
    ||| 0x09 <= u <= 0x0d
    ||| u == 0x20
    ||| u == 0x85
    ||| u == 0xa0
    ||| u == 0x1680
    ||| 0x2000 <= u <= 0x200a
    ||| u == 0x2028
    ||| u == 0x2029
    ||| u == 0x202f
    ||| u == 0x205f
    ||| u == 0x3000
}

/// `s` without its leading white space.
pub open spec fn trim_start(s: Seq<char>) -> Seq<char>
    decreases s.len(),
{
    if s.len() > 0 && is_white_space(s[0]) {
        trim_start(s.drop_first())
    } else {
        s
    }
}

/// `s` without its trailing white space.
pub open spec fn trim_end(s: Seq<char>) -> Seq<char>
    decreases s.len(),
{
    if s.len() > 0 && is_white_space(s.last()) {
        trim_end(s.drop_last())
    } else {
        s
    }
}

/// `s` without leading and trailing white space.
pub open spec fn trim(s: Seq<char>) -> Seq<char> {
    trim_end(trim_start(s))
}

/// What `trim_start` leaves is a suffix of `s` that does not begin with
/// white space.
pub proof fn lemma_trim_start_shape(s: Seq<char>)
    ensures
        trim_start(s).len() <= s.len(),
        trim_start(s) == s.skip(s.len() - trim_start(s).len()),
        trim_start(s).len() > 0 ==> !is_white_space(trim_start(s)[0]),
    decreases s.len(),
{
    if s.len() > 0 && is_white_space(s[0]) {
        lemma_trim_start_shape(s.drop_first());
        assert(s.drop_first().skip(s.drop_first().len() - trim_start(s).len()) =~= s.skip(
            s.len() - trim_start(s).len(),
        ));
    } else {
        assert(s.skip(0) =~= s);
    }
}

/// What `trim_end` leaves is a prefix of `s` that does not end with white
/// space.
pub proof fn lemma_trim_end_shape(s: Seq<char>)
    ensures
        trim_end(s).len() <= s.len(),
        trim_end(s) == s.take(trim_end(s).len() as int),
        trim_end(s).len() > 0 ==> !is_white_space(trim_end(s).last()),
    decreases s.len(),
{
    if s.len() > 0 && is_white_space(s.last()) {
        lemma_trim_end_shape(s.drop_last());
        assert(s.drop_last().take(trim_end(s).len() as int) =~= s.take(trim_end(s).len() as int));
    } else {
        assert(s.take(s.len() as int) =~= s);
    }
}

/// A text without white space at either end is its own trim.
pub proof fn lemma_trim_of_trimmed_edges(s: Seq<char>)
    requires
        s.len() > 0 ==> !is_white_space(s[0]) && !is_white_space(s.last()),
    ensures
        trim(s) == s,
{
}

/// Trimming twice is trimming once.
pub proof fn lemma_trim_idempotent(s: Seq<char>)
    ensures
        trim(trim(s)) == trim(s),
{
    let u = trim_start(s);
    let t = trim_end(u);
    lemma_trim_start_shape(s);
    lemma_trim_end_shape(u);
    if t.len() > 0 {
        assert(t[0] == u[0]);
    }
    lemma_trim_of_trimmed_edges(t);
}

/// Decides `is_white_space`.
pub fn char_is_white_space(c: char) -> (b: bool)
    ensures
        b == is_white_space(c),
{
    let u = c as u32;
    (0x09 <= u && u <= 0x0d) || u == 0x20 || u == 0x85 || u == 0xa0 || u == 0x1680 || (0x2000
        <= u && u <= 0x200a) || u == 0x2028 || u == 0x2029 || u == 0x202f || u == 0x205f || u
        == 0x3000
}

/// The copy of `s` without leading and trailing white space.
pub fn trimmed(s: &str) -> (res: String)
    ensures
        res@ == trim(s@),
{
    let n = s.unicode_len();
    let mut a: usize = 0;
    assert(s@.subrange(0, n as int) =~= s@);
    while a < n && char_is_white_space(s.get_char(a))
        invariant
            n == s@.len(),
            a <= n,
            trim_start(s@) == trim_start(s@.subrange(a as int, n as int)),
        decreases n - a,
    {
        let ghost rest = s@.subrange(a as int, n as int);
        assert(rest.drop_first() =~= s@.subrange(a + 1, n as int));
        a = a + 1;
    }
    assert(trim_start(s@) == s@.subrange(a as int, n as int)) by {
        let rest = s@.subrange(a as int, n as int);
        if a < n {
            assert(rest[0] == s@[a as int]);
        }
    }
    let mut b: usize = n;
    while b > a && char_is_white_space(s.get_char(b - 1))
        invariant
            n == s@.len(),
            a <= b <= n,
            trim(s@) == trim_end(s@.subrange(a as int, b as int)),
        decreases b - a,
    {
        let ghost part = s@.subrange(a as int, b as int);
        assert(part.drop_last() =~= s@.subrange(a as int, b - 1));
        b = b - 1;
    }
    assert(trim(s@) == s@.subrange(a as int, b as int)) by {
        let part = s@.subrange(a as int, b as int);
        if b > a {
            assert(part.last() == s@[b - 1]);
        }
    }
    s.substring_char(a, b).to_owned()
}

/// Number of bytes in the UTF-8 encoding of `c`.
pub open spec fn char_utf8_len(c: char) -> nat {
    let u = c as u32;
    if u < 0x80 {
        1
    } else if u < 0x800 {
        2
    } else if u < 0x10000 {
        3
    } else {
        4
    }
}

/// Number of bytes in the UTF-8 encoding of `s`.
pub open spec fn utf8_len(s: Seq<char>) -> nat
    decreases s.len(),
{
    if s.len() == 0 {
        0
    } else {
        char_utf8_len(s[0]) + utf8_len(s.drop_first())
    }
}

/// How many leading characters of `s` fit in `room` bytes of UTF-8.
pub open spec fn fitting_chars(s: Seq<char>, room: nat) -> nat
    decreases s.len(),
{
    if s.len() > 0 && char_utf8_len(s[0]) <= room {
        1 + fitting_chars(s.drop_first(), (room - char_utf8_len(s[0])) as nat)
    } else {
        0
    }
}

/// The longest character prefix of `s` whose UTF-8 encoding has at most
/// `room` bytes.
pub open spec fn byte_prefix(s: Seq<char>, room: nat) -> Seq<char> {
    s.take(fitting_chars(s, room) as int)
}

/// The prefix that fits in `room` bytes takes at most `room` bytes.
pub proof fn lemma_byte_prefix_len(s: Seq<char>, room: nat)
    ensures
        utf8_len(byte_prefix(s, room)) <= room,
        fitting_chars(s, room) <= s.len(),
    decreases s.len(),
{
    if s.len() > 0 && char_utf8_len(s[0]) <= room {
        let r = (room - char_utf8_len(s[0])) as nat;
        lemma_byte_prefix_len(s.drop_first(), r);
        let p = byte_prefix(s, room);
        assert(p.drop_first() =~= byte_prefix(s.drop_first(), r));
        assert(p[0] == s[0]);
    } else {
        assert(byte_prefix(s, room) =~= Seq::<char>::empty());
    }
}

/// `char::len_utf8`.
pub fn char_utf8_width(c: char) -> (w: usize)
    ensures
        w == char_utf8_len(c),
{
    let u = c as u32;
    if u < 0x80 {
        1
    } else if u < 0x800 {
        2
    } else if u < 0x10000 {
        3
    } else {
        4
    }
}

/// The longest character prefix of `s` that fits in `room` bytes of UTF-8.
pub fn utf8_prefix(s: &str, room: usize) -> (res: String)
    ensures
        res@ == byte_prefix(s@, room as nat),
{
    let n = s.unicode_len();
    let mut i: usize = 0;
    let mut left: usize = room;
    assert(s@.skip(0) =~= s@);
    while i < n
        invariant_except_break
            i <= n,
        invariant
            n == s@.len(),
            left <= room,
            fitting_chars(s@, room as nat) == i + fitting_chars(s@.skip(i as int), left as nat),
        ensures
            i <= n,
            fitting_chars(s@, room as nat) == i,
        decreases n - i,
    {
        let c = s.get_char(i);
        let w = char_utf8_width(c);
        assert(s@.skip(i as int)[0] == c);
        if w > left {
            break;
        }
        assert(s@.skip(i as int).drop_first() =~= s@.skip(i + 1));
        left = left - w;
        i = i + 1;
    }
    s.substring_char(0, i).to_owned()
}

/// The smaller of `utf8_len(s)` and `cap`.
pub open spec fn utf8_len_capped(s: Seq<char>, cap: nat) -> nat {
    if utf8_len(s) < cap {
        utf8_len(s)
    } else {
        cap
    }
}

/// Computes `utf8_len_capped`, reading no further than needed.
pub fn utf8_len_up_to(s: &str, cap: usize) -> (n: usize)
    ensures
        n == utf8_len_capped(s@, cap as nat),
{
    let len = s.unicode_len();
    let mut i: usize = 0;
    let mut acc: usize = 0;
    assert(s@.skip(0) =~= s@);
    while i < len && acc < cap
        invariant
            len == s@.len(),
            i <= len,
            utf8_len(s@) == acc + utf8_len(s@.skip(i as int)),
        decreases len - i,
    {
        let w = char_utf8_width(s.get_char(i));
        assert(s@.skip(i as int)[0] == s@[i as int]);
        assert(s@.skip(i as int).drop_first() =~= s@.skip(i + 1));
        acc = if w > cap - acc {
            cap
        } else {
            acc + w
        };
        if acc == cap {
            return cap;
        }
        i = i + 1;
    }
    if acc >= cap {
        cap
    } else {
        acc
    }
}

} // verus!
