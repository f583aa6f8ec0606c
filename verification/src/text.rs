//! Character-level string helpers shared by the parsers and formatters.

use vstd::prelude::*;
use vstd::string::StringSliceAdditionalSpecFns;

verus! {

/// Unicode `White_Space` property: the characters that `char::is_whitespace`
/// accepts and that `str::trim` removes.
pub open spec fn is_white_space(c: char) -> bool {
    let u = c as u32;
    ||| 0x09 <= u <= 0x0D
    ||| u == 0x20
    ||| u == 0x85
    ||| u == 0xA0
    ||| u == 0x1680
    ||| 0x2000 <= u <= 0x200A
    ||| u == 0x2028
    ||| u == 0x2029
    ||| u == 0x202F
    ||| u == 0x205F
    ||| u == 0x3000
}

/// `s` without its leading white space.
pub open spec fn trim_start(s: Seq<char>) -> Seq<char>
    decreases s.len(),
{
    if s.len() > 0 && is_white_space(s[0]) {
        trim_start(s.drop_first())
    } else {
        s
    }
}

/// `s` without its trailing white space.
pub open spec fn trim_end(s: Seq<char>) -> Seq<char>
    decreases s.len(),
{
    if s.len() > 0 && is_white_space(s.last()) {
        trim_end(s.drop_last())
    } else {
        s
    }
}

/// `s` without leading and trailing white space (what `str::trim` returns).
pub open spec fn trim(s: Seq<char>) -> Seq<char> {
    trim_end(trim_start(s))
}

/// The pieces of `s` between occurrences of `sep` (what `str::split` with a
/// `char` pattern yields): always at least one piece.
pub open spec fn split_on(s: Seq<char>, sep: char) -> Seq<Seq<char>>
    decreases s.len(),
{
    if s.len() == 0 {
        seq![Seq::<char>::empty()]
    } else {
        let p = split_on(s.drop_last(), sep);
        if s.last() == sep {
            p.push(Seq::<char>::empty())
        } else {
            p.update(p.len() - 1, p.last().push(s.last()))
        }
    }
}

/// Whether every character is ASCII.
pub open spec fn is_ascii(s: Seq<char>) -> bool {
    forall|i: int| 0 <= i < s.len() ==> (#[trigger] s[i] as u32) < 128
}

/// `c` with an ASCII capital letter turned into its small letter.
pub open spec fn ascii_lower_char(c: char) -> char {
    if 'A' <= c && c <= 'Z' {
        ((c as u32) + 32) as char
    } else {
        c
    }
}

/// `s` with its ASCII capital letters turned into small letters.
pub open spec fn ascii_lowercase(s: Seq<char>) -> Seq<char> {
    s.map_values(|c: char| ascii_lower_char(c))
}

/// The result of `str::to_lowercase` on a string with the given characters.
pub uninterp spec fn spec_to_lowercase(s: Seq<char>) -> Seq<char>;

/// Calls `str::to_lowercase`. Its result is named `spec_to_lowercase` of the
/// argument's characters: Unicode lowercasing is a function of the string
/// alone (no locale), and its table is not restated here, except for ASCII
/// text, where Unicode lowercasing turns `A`–`Z` into `a`–`z` and leaves
/// every other character as it is.
#[verifier::external_body]
pub(crate) fn to_lowercase(s: &str) -> (r: String)
    ensures
        r@ == spec_to_lowercase(s@),
        is_ascii(s@) ==> r@ == ascii_lowercase(s@),
{
    s.to_lowercase()
}

/// Calls `String::push`, which appends one character.
#[verifier::external_body]
pub(crate) fn push_char(s: &mut String, c: char)
    ensures
        final(s)@ == old(s)@.push(c),
{
    s.push(c)
}

/// Appends the characters of `t` to `s`.
pub fn push_str(s: &mut String, t: &str)
    ensures
        final(s)@ == old(s)@ + t@,
{
    let n = t.unicode_len();
    let mut i: usize = 0;
    while i < n
        invariant
            n == t@.len(),
            i <= n,
            s@ == old(s)@ + t@.take(i as int),
        decreases n - i,
    {
        let c = t.get_char(i);
        push_char(s, c);
        assert(t@.take(i + 1) == t@.take(i as int).push(c));
        i = i + 1;
    }
    assert(t@.take(n as int) == t@);
}

/// Appends the given characters to `s`.
pub fn push_chars(s: &mut String, t: &[char])
    ensures
        final(s)@ == old(s)@ + t@,
{
    let mut i: usize = 0;
    while i < t.len()
        invariant
            i <= t@.len(),
            s@ == old(s)@ + t@.take(i as int),
        decreases t@.len() - i,
    {
        push_char(s, t[i]);
        assert(t@.take(i + 1) == t@.take(i as int).push(t@[i as int]));
        i = i + 1;
    }
    assert(t@.take(t@.len() as int) == t@);
}

/// A new `String` holding the characters of `t`.
pub fn string_of(t: &str) -> (r: String)
    ensures
        r@ == t@,
{
    broadcast use vstd::string::to_string_from_display_ensures_for_str;

    t.to_string()
}

/// The characters of `s`, in order.
pub fn chars_of(s: &str) -> (v: Vec<char>)
    ensures
        v@ == s@,
{
    let n = s.unicode_len();
    let mut v: Vec<char> = Vec::new();
    let mut i: usize = 0;
    while i < n
        invariant
            n == s@.len(),
            i <= n,
            v@ == s@.take(i as int),
        decreases n - i,
    {
        v.push(s.get_char(i));
        assert(s@.take(i + 1) == s@.take(i as int).push(s@[i as int]));
        i = i + 1;
    }
    assert(s@.take(n as int) == s@);
    v
}

/// Whether `c` is Unicode white space (`char::is_whitespace`).
pub fn is_whitespace(c: char) -> (r: bool)
    ensures
        r == is_white_space(c),
{
    let u = c as u32;
    (0x09 <= u && u <= 0x0D) || u == 0x20 || u == 0x85 || u == 0xA0 || u == 0x1680 || (0x2000
        <= u && u <= 0x200A) || u == 0x2028 || u == 0x2029 || u == 0x202F || u == 0x205F || u
        == 0x3000
}

/// The bounds `lo..hi` of the trimmed part of `s[start..end]`.
pub fn trim_bounds(s: &[char], start: usize, end: usize) -> (r: (usize, usize))
    requires
        start <= end <= s@.len(),
    ensures
        start <= r.0 <= r.1 <= end,
        s@.subrange(r.0 as int, r.1 as int) == trim(s@.subrange(start as int, end as int)),
{
    let mut lo = start;
    while lo < end && is_whitespace(s[lo])
        invariant
            start <= lo <= end <= s@.len(),
            trim_start(s@.subrange(start as int, end as int)) == trim_start(
                s@.subrange(lo as int, end as int),
            ),
        decreases end - lo,
    {
        assert(s@.subrange(lo as int, end as int).drop_first() == s@.subrange(
            lo + 1,
            end as int,
        ));
        lo = lo + 1;
    }
    assert(trim_start(s@.subrange(lo as int, end as int)) == s@.subrange(lo as int, end as int));
    let mut hi = end;
    while hi > lo && is_whitespace(s[hi - 1])
        invariant
            start <= lo <= hi <= end <= s@.len(),
            trim_end(s@.subrange(lo as int, end as int)) == trim_end(
                s@.subrange(lo as int, hi as int),
            ),
        decreases hi - lo,
    {
        assert(s@.subrange(lo as int, hi as int).drop_last() == s@.subrange(
            lo as int,
            hi - 1,
        ));
        hi = hi - 1;
    }
    assert(trim_end(s@.subrange(lo as int, hi as int)) == s@.subrange(lo as int, hi as int));
    (lo, hi)
}

/// Whether two character sequences are equal.
pub fn chars_eq(a: &[char], b: &[char]) -> (r: bool)
    ensures
        r == (a@ == b@),
{
    if a.len() != b.len() {
        return false;
    }
    let mut i: usize = 0;
    while i < a.len()
        invariant
            a@.len() == b@.len(),
            i <= a@.len(),
            forall|j: int| 0 <= j < i ==> a@[j] == b@[j],
        decreases a@.len() - i,
    {
        if a[i] != b[i] {
            return false;
        }
        i = i + 1;
    }
    assert(a@ == b@);
    true
}

/// Whether two strings hold the same characters.
pub fn str_eq(a: &str, b: &str) -> (r: bool)
    ensures
        r == (a@ == b@),
{
    let av = chars_of(a);
    let bv = chars_of(b);
    chars_eq(av.as_slice(), bv.as_slice())
}

/// The decimal digit character of a value below ten.
pub open spec fn digit_char(d: nat) -> char {
    if d == 0 {
        '0'
    } else if d == 1 {
        '1'
    } else if d == 2 {
        '2'
    } else if d == 3 {
        '3'
    } else if d == 4 {
        '4'
    } else if d == 5 {
        '5'
    } else if d == 6 {
        '6'
    } else if d == 7 {
        '7'
    } else if d == 8 {
        '8'
    } else {
        '9'
    }
}

/// The decimal representation of `n` (no sign, no leading zeros).
pub open spec fn decimal(n: nat) -> Seq<char>
    decreases n,
{
    if n < 10 {
        seq![digit_char(n)]
    } else {
        decimal(n / 10).push(digit_char(n % 10))
    }
}

fn digit(d: u128) -> (c: char)
    requires
        d < 10,
    ensures
        c == digit_char(d as nat),
{
    if d == 0 {
        '0'
    } else if d == 1 {
        '1'
    } else if d == 2 {
        '2'
    } else if d == 3 {
        '3'
    } else if d == 4 {
        '4'
    } else if d == 5 {
        '5'
    } else if d == 6 {
        '6'
    } else if d == 7 {
        '7'
    } else if d == 8 {
        '8'
    } else {
        '9'
    }
}

/// Appends the decimal representation of `n` (`{}` on an integer).
pub fn push_decimal(s: &mut String, n: u128)
    ensures
        final(s)@ == old(s)@ + decimal(n as nat),
    decreases n,
{
    if n < 10 {
        push_char(s, digit(n));
    } else {
        push_decimal(s, n / 10);
        push_char(s, digit(n % 10));
    }
}

/// The lowercase hexadecimal digit character of a value below sixteen.
pub open spec fn hex_char(d: nat) -> char {
    if d < 10 {
        digit_char(d)
    } else if d == 10 {
        'a'
    } else if d == 11 {
        'b'
    } else if d == 12 {
        'c'
    } else if d == 13 {
        'd'
    } else if d == 14 {
        'e'
    } else {
        'f'
    }
}

/// The lowercase hexadecimal representation of `n` (`{:x}`: no prefix, no
/// leading zeros).
pub open spec fn hex_lower(n: nat) -> Seq<char>
    decreases n,
{
    if n < 16 {
        seq![hex_char(n)]
    } else {
        hex_lower(n / 16).push(hex_char(n % 16))
    }
}

fn hex_digit_exec(d: u128) -> (c: char)
    requires
        d < 16,
    ensures
        c == hex_char(d as nat),
{
    if d < 10 {
        digit(d)
    } else if d == 10 {
        'a'
    } else if d == 11 {
        'b'
    } else if d == 12 {
        'c'
    } else if d == 13 {
        'd'
    } else if d == 14 {
        'e'
    } else {
        'f'
    }
}

/// Appends the lowercase hexadecimal representation of `n` (`{:x}`).
pub fn push_hex(s: &mut String, n: u128)
    ensures
        final(s)@ == old(s)@ + hex_lower(n as nat),
    decreases n,
{
    if n < 16 {
        push_char(s, hex_digit_exec(n));
    } else {
        push_hex(s, n / 16);
        push_char(s, hex_digit_exec(n % 16));
    }
}

/// `s` right-aligned in a field of `width` characters (`{:>width}`).
pub open spec fn right_aligned(s: Seq<char>, width: nat) -> Seq<char> {
    if s.len() >= width {
        s
    } else {
        Seq::new((width - s.len()) as nat, |i: int| ' ') + s
    }
}

/// `s` padded on the left with zeros to `width` characters (`{:0width}`).
pub open spec fn zero_padded(s: Seq<char>, width: nat) -> Seq<char> {
    if s.len() >= width {
        s
    } else {
        Seq::new((width - s.len()) as nat, |i: int| '0') + s
    }
}

/// The decimal representation of `n` as a `String`.
pub fn decimal_string(n: u128) -> (r: String)
    ensures
        r@ == decimal(n as nat),
{
    let mut r = String::new();
    push_decimal(&mut r, n);
    r
}

/// Appends `t` padded on the left with `fill` to `width` characters.
pub fn push_left_filled(s: &mut String, t: &str, fill: char, width: usize)
    ensures
        final(s)@ == old(s)@ + (if t@.len() >= width {
            t@
        } else {
            Seq::new((width - t@.len()) as nat, |i: int| fill) + t@
        }),
{
    let n = t.unicode_len();
    if n < width {
        let mut k: usize = 0;
        while k < width - n
            invariant
                n == t@.len(),
                n < width,
                k <= width - n,
                s@ == old(s)@ + Seq::new(k as nat, |i: int| fill),
            decreases width - n - k,
        {
            push_char(s, fill);
            assert(Seq::new((k + 1) as nat, |i: int| fill) == Seq::new(k as nat, |i: int| fill).push(
                fill,
            ));
            k = k + 1;
        }
        push_str(s, t);
        assert(old(s)@ + Seq::new((width - n) as nat, |i: int| fill) + t@ == old(s)@ + (Seq::new(
            (width - n) as nat,
            |i: int| fill,
        ) + t@));
    } else {
        push_str(s, t);
    }
}

/// How many bytes of `s` a C buffer of `buf_size` bytes receives: as many
/// as fit before the terminating NUL, without splitting a character. The
/// result is the largest character boundary not above the limit.
pub fn cstr_copy_len(s: &str, buf_size: i32) -> (r: usize)
    requires
        buf_size >= 1,
        s.spec_bytes().len() <= usize::MAX,
    ensures
        r as int <= s.spec_bytes().len(),
        r as int <= buf_size - 1,
        vstd::utf8::is_char_boundary(s.spec_bytes(), r as int),
        forall|m: int|
            r < m <= (if s.spec_bytes().len() <= buf_size - 1 {
                s.spec_bytes().len() as int
            } else {
                buf_size - 1
            }) ==> !vstd::utf8::is_char_boundary(s.spec_bytes(), m),
{
    proof {
        vstd::utf8::encode_utf8_valid_utf8(s@);
    }
    let max: usize = (buf_size - 1) as usize;
    let len = s.len();
    let limit = if len < max {
        len
    } else {
        max
    };
    let mut copy_len = limit;
    while copy_len > 0 && !s.is_char_boundary(copy_len)
        invariant
            copy_len <= limit,
            limit as int <= s.spec_bytes().len(),
            limit as int <= buf_size - 1,
            limit as int == (if s.spec_bytes().len() <= buf_size - 1 {
                s.spec_bytes().len() as int
            } else {
                buf_size - 1
            }),
            forall|m: int| copy_len < m <= limit ==> !vstd::utf8::is_char_boundary(s.spec_bytes(), m),
        decreases copy_len,
    {
        copy_len = copy_len - 1;
    }
    copy_len
}


/// ASCII lowercasing never turns a character into white space or out of it.
pub proof fn lemma_lower_keeps_white_space(c: char)
    ensures
        is_white_space(ascii_lower_char(c)) == is_white_space(c),
        (ascii_lower_char(c) == '+') == (c == '+'),
{
    if 'A' <= c && c <= 'Z' {
        assert(65 <= c as u32 <= 90);
        assert((((c as u32) + 32) as char) as u32 == (c as u32) + 32);
    }
}

proof fn lemma_lower_trim_start(s: Seq<char>)
    ensures
        ascii_lowercase(trim_start(s)) == trim_start(ascii_lowercase(s)),
    decreases s.len(),
{
    if s.len() > 0 {
        lemma_lower_keeps_white_space(s[0]);
        assert(ascii_lowercase(s).drop_first() == ascii_lowercase(s.drop_first()));
        lemma_lower_trim_start(s.drop_first());
    }
}

proof fn lemma_lower_trim_end(s: Seq<char>)
    ensures
        ascii_lowercase(trim_end(s)) == trim_end(ascii_lowercase(s)),
    decreases s.len(),
{
    if s.len() > 0 {
        lemma_lower_keeps_white_space(s.last());
        assert(ascii_lowercase(s).drop_last() == ascii_lowercase(s.drop_last()));
        lemma_lower_trim_end(s.drop_last());
    }
}

/// Trimming and ASCII lowercasing commute.
pub proof fn lemma_lower_trim(s: Seq<char>)
    ensures
        ascii_lowercase(trim(s)) == trim(ascii_lowercase(s)),
{
    lemma_lower_trim_start(s);
    lemma_lower_trim_end(trim_start(s));
}

/// Splitting at `+` and ASCII lowercasing commute.
pub proof fn lemma_lower_split(s: Seq<char>)
    ensures
        split_on(ascii_lowercase(s), '+') == split_on(s, '+').map_values(
            |t: Seq<char>| ascii_lowercase(t),
        ),
    decreases s.len(),
{
    if s.len() == 0 {
        assert(ascii_lowercase(s) == Seq::<char>::empty());
        assert(ascii_lowercase(Seq::<char>::empty()) == Seq::<char>::empty());
        assert(split_on(s, '+').map_values(|t: Seq<char>| ascii_lowercase(t)) == seq![
            Seq::<char>::empty(),
        ]);
    } else {
        let l = ascii_lowercase(s);
        assert(l.drop_last() == ascii_lowercase(s.drop_last()));
        assert(l.last() == ascii_lower_char(s.last()));
        lemma_lower_keeps_white_space(s.last());
        lemma_lower_split(s.drop_last());
        let p = split_on(s.drop_last(), '+');
        lemma_split_nonempty(s.drop_last());
        let pl = p.map_values(|t: Seq<char>| ascii_lowercase(t));
        if s.last() == '+' {
            assert(ascii_lowercase(Seq::<char>::empty()) =~= Seq::<char>::empty());
            assert(split_on(s, '+') == p.push(Seq::<char>::empty()));
            assert(p.push(Seq::<char>::empty()).map_values(|t: Seq<char>| ascii_lowercase(t))
                =~= pl.push(Seq::<char>::empty()));
        } else {
            assert(ascii_lowercase(p.last().push(s.last())) == ascii_lowercase(p.last()).push(
                ascii_lower_char(s.last()),
            ));
            assert(split_on(s, '+').map_values(|t: Seq<char>| ascii_lowercase(t)) == pl.update(
                pl.len() - 1,
                pl.last().push(l.last()),
            ));
        }
    }
}

/// Splitting always yields at least one piece.
pub proof fn lemma_split_nonempty(s: Seq<char>)
    ensures
        split_on(s, '+').len() >= 1,
    decreases s.len(),
{
    if s.len() > 0 {
        lemma_split_nonempty(s.drop_last());
    }
}

} // verus!
