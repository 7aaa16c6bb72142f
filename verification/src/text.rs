//! Character-level text helpers: the views of paths and messages are `Seq<char>`,
//! and every string this library builds is assembled here from such sequences.
use vstd::prelude::*;

verus! {

/// ASCII lower-casing of one character, as `char::to_ascii_lowercase` does it.
pub open spec fn ascii_lower(c: char) -> char {
    if 'A' <= c && c <= 'Z' {
        ((c as u32) + 32) as char
    } else {
        c
    }
}

/// ASCII lower-casing of a whole text (non-ASCII characters are kept).
pub open spec fn lowercase(s: Seq<char>) -> Seq<char> {
    s.map_values(|c: char| ascii_lower(c))
}

/// `p` occurs in `h` starting at index `i`.
pub open spec fn matches_at(h: Seq<char>, p: Seq<char>, i: int) -> bool {
    &&& 0 <= i
    &&& i + p.len() <= h.len()
    &&& h.subrange(i, i + p.len()) == p
}

/// `p` occurs somewhere in `h` (the meaning of `str::contains` with a text pattern).
pub open spec fn has_infix(h: Seq<char>, p: Seq<char>) -> bool {
    exists|i: int| #[trigger] matches_at(h, p, i)
}

/// The character of a decimal digit.
pub open spec fn digit_char(d: int) -> char {
    (48 + d) as char
}

/// The upper-case hexadecimal digit of `n` (for `0 <= n < 16`).
pub open spec fn hex_digit(n: int) -> char {
    if n < 10 {
        (48 + n) as char
    } else {
        (55 + n) as char
    }
}

/// Two upper-case hexadecimal digits, as `{:02X}` prints a byte.
pub open spec fn hex_byte(b: u8) -> Seq<char> {
    seq![hex_digit((b / 16) as int), hex_digit((b % 16) as int)]
}

/// Four upper-case hexadecimal digits, as `{:04X}` prints a `u16`.
pub open spec fn hex_word(w: u16) -> Seq<char> {
    hex_byte((w / 256) as u8) + hex_byte((w % 256) as u8)
}

/// The decimal digits of `n`, without leading zeros, as `{}` prints an integer.
pub open spec fn decimal(n: nat) -> Seq<char>
    decreases n,
{
    if n < 10 {
        seq![digit_char(n as int)]
    } else {
        decimal(n / 10).push(digit_char((n % 10) as int))
    }
}

/// The parts joined with `sep` between each two of them, as `[T]::join` does.
pub open spec fn join(parts: Seq<Seq<char>>, sep: Seq<char>) -> Seq<char>
    decreases parts.len(),
{
    if parts.len() == 0 {
        Seq::empty()
    } else if parts.len() == 1 {
        parts[0]
    } else {
        join(parts.drop_last(), sep) + sep + parts.last()
    }
}

/// The views of a sequence of strings.
pub open spec fn views(parts: Seq<String>) -> Seq<Seq<char>> {
    parts.map_values(|s: String| s@)
}

/// The characters of `s`, in order.
pub fn chars_of(s: &str) -> (out: Vec<char>)
    ensures
        out@ == s@,
{
    let mut out: Vec<char> = Vec::new();
    for c in it: s.chars()
        invariant
            it.seq() == s@,
            out@ == it.seq().take(it.index() as int),
    {
        out.push(c);
    }
    out
}

/// `String::push` (std): the contract claims that the character is appended
/// at the end of the text and nothing else changes.
#[verifier::external_body]
pub(crate) fn push_char(s: &mut String, c: char)
    ensures
        final(s)@ == old(s)@.push(c),
{
    s.push(c);
}

/// Appends the characters of `t` to `s`.
pub fn push_str(s: &mut String, t: &str)
    ensures
        final(s)@ == old(s)@ + t@,
{
    let ghost start = s@;
    for c in it: t.chars()
        invariant
            it.seq() == t@,
            s@ == start + it.seq().take(it.index() as int),
    {
        push_char(s, c);
        proof {
            assert(it.seq().take(it.index() + 1) =~= it.seq().take(it.index() as int).push(c));
        }
    }
    assert(t@.take(t@.len() as int) =~= t@);
}

/// Appends the characters of `v` to `s`.
pub fn push_chars(s: &mut String, v: &Vec<char>)
    ensures
        final(s)@ == old(s)@ + v@,
{
    let ghost start = s@;
    let mut i: usize = 0;
    while i < v.len()
        invariant
            i <= v.len(),
            s@ == start + v@.take(i as int),
        decreases v.len() - i,
    {
        push_char(s, v[i]);
        assert(v@.take(i + 1) =~= v@.take(i as int).push(v@[i as int]));
        i = i + 1;
    }
    assert(v@.take(v@.len() as int) =~= v@);
}

/// A new `String` holding the characters of `t`.
pub fn owned(t: &str) -> (s: String)
    ensures
        s@ == t@,
{
    t.to_owned()
}

/// ASCII lower-casing of one character.
pub fn lower_char(c: char) -> (r: char)
    ensures
        r == ascii_lower(c),
{
    if c >= 'A' && c <= 'Z' {
        let b: u8 = (c as u8) + 32;
        b as char
    } else {
        c
    }
}

/// The characters of `s`, ASCII lower-cased (`str::to_ascii_lowercase`).
pub fn to_ascii_lowercase(s: &str) -> (out: Vec<char>)
    ensures
        out@ == lowercase(s@),
{
    let mut out: Vec<char> = Vec::new();
    for c in it: s.chars()
        invariant
            it.seq() == s@,
            out@ == lowercase(it.seq().take(it.index() as int)),
    {
        let l = lower_char(c);
        out.push(l);
        proof {
            assert(lowercase(it.seq().take(it.index() + 1)) =~= lowercase(
                it.seq().take(it.index() as int),
            ).push(l));
        }
    }
    assert(s@.take(s@.len() as int) =~= s@);
    out
}

/// Whether `p` occurs in `h` at index `i`.
fn matches_at_exec(h: &Vec<char>, p: &Vec<char>, i: usize) -> (r: bool)
    requires
        i + p.len() <= h.len(),
    ensures
        r == matches_at(h@, p@, i as int),
{
    let mut j: usize = 0;
    while j < p.len()
        invariant
            j <= p.len(),
            i + p.len() <= h.len(),
            forall|k: int| 0 <= k < j ==> h@[i + k] == p@[k],
        decreases p.len() - j,
    {
        if h[i + j] != p[j] {
            assert(h@.subrange(i as int, i + p.len())[j as int] != p@[j as int]);
            return false;
        }
        j = j + 1;
    }
    assert(h@.subrange(i as int, i + p.len()) =~= p@);
    true
}

/// Whether `pat` occurs in `h` (`str::contains`).
pub fn contains(h: &Vec<char>, pat: &str) -> (r: bool)
    ensures
        r == has_infix(h@, pat@),
{
    let p = chars_of(pat);
    if p.len() > h.len() {
        assert(forall|i: int| !#[trigger] matches_at(h@, p@, i));
        return false;
    }
    let last = h.len() - p.len();
    let mut i: usize = 0;
    while i < last
        invariant
            last == h.len() - p.len(),
            p.len() <= h.len(),
            i <= last,
            p@ == pat@,
            forall|k: int| 0 <= k < i ==> !#[trigger] matches_at(h@, p@, k),
        decreases last - i,
    {
        if matches_at_exec(h, &p, i) {
            return true;
        }
        i = i + 1;
    }
    if matches_at_exec(h, &p, last) {
        return true;
    }
    assert(forall|k: int| !#[trigger] matches_at(h@, p@, k));
    false
}

/// The upper-case hexadecimal digit of `n`.
fn hex_digit_char(n: u8) -> (r: char)
    requires
        n < 16,
    ensures
        r == hex_digit(n as int),
{
    if n < 10 {
        (48u8 + n) as char
    } else {
        (55u8 + n) as char
    }
}

/// Appends `b` as two upper-case hexadecimal digits (`{:02X}`).
pub fn push_hex_byte(s: &mut String, b: u8)
    ensures
        final(s)@ == old(s)@ + hex_byte(b),
{
    push_char(s, hex_digit_char(b / 16));
    push_char(s, hex_digit_char(b % 16));
    assert(s@ =~= old(s)@ + hex_byte(b));
}

/// Appends `w` as four upper-case hexadecimal digits (`{:04X}`).
pub fn push_hex_word(s: &mut String, w: u16)
    ensures
        final(s)@ == old(s)@ + hex_word(w),
{
    push_hex_byte(s, (w / 256) as u8);
    push_hex_byte(s, (w % 256) as u8);
    assert(s@ =~= old(s)@ + hex_word(w));
}

/// Appends the decimal digits of `n` (`{}`).
pub fn push_decimal(s: &mut String, n: u8)
    ensures
        final(s)@ == old(s)@ + decimal(n as nat),
{
    let ghost start = s@;
    if n >= 100 {
        push_char(s, ((n / 100) + 48) as char);
    }
    if n >= 10 {
        push_char(s, (((n / 10) % 10) + 48) as char);
    }
    push_char(s, ((n % 10) + 48) as char);
    proof {
        let m = n as nat;
        if m >= 100 {
            assert(decimal(m / 100) =~= seq![digit_char((m / 100) as int)]);
            assert(decimal(m / 10) =~= decimal(m / 10 / 10).push(digit_char((m / 10 % 10) as int)));
            assert(m / 10 / 10 == m / 100);
            assert(decimal(m) =~= decimal(m / 10).push(digit_char((m % 10) as int)));
        } else if m >= 10 {
            assert(decimal(m / 10) =~= seq![digit_char((m / 10) as int)]);
            assert(m / 10 % 10 == m / 10);
            assert(decimal(m) =~= decimal(m / 10).push(digit_char((m % 10) as int)));
        } else {
            assert(decimal(m) =~= seq![digit_char(m as int)]);
        }
        assert(s@ =~= start + decimal(m));
    }
}

/// The strings joined with `sep` between each two of them.
pub fn join_strings(parts: &Vec<String>, sep: &str) -> (out: String)
    ensures
        out@ == join(views(parts@), sep@),
{
    let mut out = String::new();
    let mut i: usize = 0;
    while i < parts.len()
        invariant
            i <= parts.len(),
            out@ == join(views(parts@).take(i as int), sep@),
        decreases parts.len() - i,
    {
        let ghost before = views(parts@).take(i as int);
        if i > 0 {
            push_str(&mut out, sep);
        }
        push_str(&mut out, parts[i].as_str());
        proof {
            let now = views(parts@).take(i + 1);
            assert(now.drop_last() =~= before);
            assert(now.last() == parts@[i as int]@);
            if i == 0 {
                assert(join(before, sep@) =~= Seq::<char>::empty());
                assert(out@ =~= join(now, sep@));
            } else {
                assert(out@ =~= join(now, sep@));
            }
        }
        i = i + 1;
    }
    assert(views(parts@).take(parts@.len() as int) =~= views(parts@));
    out
}

/// `s` with every `from` replaced by `to` (`str::replace` with a character pattern).
pub open spec fn replace_char(s: Seq<char>, from: char, to: Seq<char>) -> Seq<char>
    decreases s.len(),
{
    if s.len() == 0 {
        Seq::empty()
    } else {
        replace_char(s.drop_last(), from, to) + if s.last() == from {
            to
        } else {
            seq![s.last()]
        }
    }
}

/// `s` without the copies of `c` at its end (`str::trim_end_matches` with a character).
pub open spec fn trim_end(s: Seq<char>, c: char) -> Seq<char>
    decreases s.len(),
{
    if s.len() > 0 && s.last() == c {
        trim_end(s.drop_last(), c)
    } else {
        s
    }
}

/// `s` with every `from` replaced by `to`.
pub fn replace_char_exec(s: &str, from: char, to: &str) -> (out: String)
    ensures
        out@ == replace_char(s@, from, to@),
{
    let mut out = String::new();
    for c in it: s.chars()
        invariant
            it.seq() == s@,
            out@ == replace_char(it.seq().take(it.index() as int), from, to@),
    {
        proof {
            let next = it.seq().take(it.index() + 1);
            assert(next.drop_last() =~= it.seq().take(it.index() as int));
            assert(next.last() == c);
        }
        if c == from {
            push_str(&mut out, to);
        } else {
            push_char(&mut out, c);
            assert(seq![c] =~= Seq::<char>::empty().push(c));
        }
        assert(out@ =~= replace_char(it.seq().take(it.index() + 1), from, to@));
    }
    assert(s@.take(s@.len() as int) =~= s@);
    out
}

/// Whether two character vectors are equal.
pub fn equal_chars(a: &Vec<char>, b: &Vec<char>) -> (r: bool)
    ensures
        r == (a@ == b@),
{
    if a.len() != b.len() {
        return false;
    }
    let mut i: usize = 0;
    while i < a.len()
        invariant
            i <= a.len(),
            a.len() == b.len(),
            forall|k: int| 0 <= k < i ==> a@[k] == b@[k],
        decreases a.len() - i,
    {
        if a[i] != b[i] {
            return false;
        }
        i = i + 1;
    }
    assert(a@ =~= b@);
    true
}

/// Whether two texts are equal.
pub fn same_text(a: &str, b: &str) -> (r: bool)
    ensures
        r == (a@ == b@),
{
    let x = chars_of(a);
    let y = chars_of(b);
    equal_chars(&x, &y)
}

/// The message of an empty number (as `ParseIntError` shows it).
pub open spec fn empty_number_message() -> Seq<char> {
    "cannot parse integer from empty string"@
}

/// The message of a number with a character that is not a digit.
pub open spec fn invalid_digit_message() -> Seq<char> {
    "invalid digit found in string"@
}

/// The message of a number too large for its type.
pub open spec fn too_large_message() -> Seq<char> {
    "number too large to fit in target type"@
}

/// The decimal digits `s`, read from the left onto `acc`: the first
/// character that is not a digit, or the first digit that takes the value
/// past `u32::MAX`, is the error.
pub open spec fn parse_digits(s: Seq<char>, acc: int) -> Result<u32, Seq<char>>
    decreases s.len(),
{
    if s.len() == 0 {
        Ok(acc as u32)
    } else if !('0' <= s[0] && s[0] <= '9') {
        Err(invalid_digit_message())
    } else if acc * 10 + (s[0] as int - 48) > u32::MAX {
        Err(too_large_message())
    } else {
        parse_digits(s.drop_first(), acc * 10 + (s[0] as int - 48))
    }
}

/// A `u32` written in decimal, with an optional leading `+`, as
/// `str::parse::<u32>` reads it.
pub open spec fn spec_parse_u32(s: Seq<char>) -> Result<u32, Seq<char>> {
    if s.len() == 0 {
        Err(empty_number_message())
    } else if s.len() == 1 && (s[0] == '+' || s[0] == '-') {
        Err(invalid_digit_message())
    } else if s[0] == '+' {
        parse_digits(s.drop_first(), 0)
    } else {
        parse_digits(s, 0)
    }
}

/// Reads a `u32` written in decimal (`str::parse::<u32>`), or gives the
/// message of the error.
pub fn parse_u32(text: &str) -> (r: Result<u32, String>)
    ensures
        match r {
            Ok(n) => spec_parse_u32(text@) == Ok::<u32, Seq<char>>(n),
            Err(m) => spec_parse_u32(text@) == Err::<u32, Seq<char>>(m@),
        },
{
    let chars = chars_of(text);
    if chars.len() == 0 {
        return Err(owned("cannot parse integer from empty string"));
    }
    if chars.len() == 1 && (chars[0] == '+' || chars[0] == '-') {
        return Err(owned("invalid digit found in string"));
    }
    let mut i: usize = if chars[0] == '+' {
        1
    } else {
        0
    };
    assert(chars@.skip(i as int) == if chars@[0] == '+' {
        chars@.drop_first()
    } else {
        chars@
    });
    let mut acc: u64 = 0;
    while i < chars.len()
        invariant
            i <= chars.len(),
            acc <= u32::MAX,
            spec_parse_u32(text@) == parse_digits(chars@.skip(i as int), acc as int),
            chars@ == text@,
            chars@.len() > 0,
        decreases chars.len() - i,
    {
        let c = chars[i];
        assert(chars@.skip(i as int)[0] == c);
        if !(c >= '0' && c <= '9') {
            return Err(owned("invalid digit found in string"));
        }
        let d = (c as u64) - 48;
        let next = acc * 10 + d;
        if next > 4294967295u64 {
            return Err(owned("number too large to fit in target type"));
        }
        assert(chars@.skip(i as int).drop_first() =~= chars@.skip(i + 1));
        acc = next;
        i = i + 1;
    }
    Ok(acc as u32)
}


/// Reading one more character after `s` goes on from where `s` left off.
pub proof fn lemma_parse_digits_push(s: Seq<char>, c: char, acc: int)
    requires
        0 <= acc <= u32::MAX,
    ensures
        parse_digits(s.push(c), acc) == match parse_digits(s, acc) {
            Ok(v) => if !('0' <= c && c <= '9') {
                Err(invalid_digit_message())
            } else if v * 10 + (c as int - 48) > u32::MAX {
                Err(too_large_message())
            } else {
                Ok((v * 10 + (c as int - 48)) as u32)
            },
            Err(e) => Err(e),
        },
    decreases s.len(),
{
    if s.len() == 0 {
        let t = s.push(c);
        assert(t.drop_first() =~= Seq::<char>::empty());
        assert(t[0] == c);
        assert(parse_digits(s, acc) == Ok::<u32, Seq<char>>(acc as u32));
        if '0' <= c && c <= '9' && acc * 10 + (c as int - 48) <= u32::MAX {
            let next = acc * 10 + (c as int - 48);
            assert(parse_digits(t.drop_first(), next) == Ok::<u32, Seq<char>>(next as u32));
        }
    } else {
        assert(s.push(c).drop_first() =~= s.drop_first().push(c));
        assert(s.push(c)[0] == s[0]);
        if '0' <= s[0] && s[0] <= '9' && acc * 10 + (s[0] as int - 48) <= u32::MAX {
            lemma_parse_digits_push(s.drop_first(), c, acc * 10 + (s[0] as int - 48));
        }
    }
}

/// The decimal digits of a number read back as that number (`{}` and
/// `str::parse` agree).
pub proof fn lemma_decimal_reads_back(n: nat)
    requires
        n <= u32::MAX,
    ensures
        decimal(n).len() > 0,
        '0' <= decimal(n)[0] && decimal(n)[0] <= '9',
        parse_digits(decimal(n), 0) == Ok::<u32, Seq<char>>(n as u32),
        spec_parse_u32(decimal(n)) == Ok::<u32, Seq<char>>(n as u32),
    decreases n,
{
    if n < 10 {
        let s = decimal(n);
        assert(s =~= seq![digit_char(n as int)]);
        assert(s.drop_first() =~= Seq::<char>::empty());
        assert(digit_char(n as int) as int == 48 + n);
        assert(s[0] == digit_char(n as int));
        assert(parse_digits(s.drop_first(), n as int) == Ok::<u32, Seq<char>>(n as u32));
        assert(parse_digits(s, 0) == parse_digits(s.drop_first(), n as int));
    } else {
        lemma_decimal_reads_back(n / 10);
        let d = digit_char((n % 10) as int);
        assert(d as int == 48 + n % 10);
        lemma_parse_digits_push(decimal(n / 10), d, 0);
        assert(decimal(n) == decimal(n / 10).push(d));
        assert((n / 10) * 10 + n % 10 == n);
        assert(decimal(n)[0] == decimal(n / 10)[0]);
    }
}

} // verus!
