use vstd::prelude::*;
use vstd::string::StringExecFns;
use vstd::utf8::{valid_utf8, decode_utf8};

verus! {

/// Relies on String::push: appends exactly the given character.
#[verifier::external_body]
pub fn push_char(s: &mut String, c: char)
    ensures
        final(s)@ == old(s)@.push(c),
{
    s.push(c)
}

/// Relies on String::from_utf8: succeeds exactly on valid UTF-8 input and
/// yields the string whose characters are the decoding of those bytes.
#[verifier::external_body]
pub fn utf8_to_string(b: &Vec<u8>) -> (r: Option<String>)
    ensures
        r matches Some(s) ==> valid_utf8(b@) && s@ == decode_utf8(b@),
        r is None ==> !valid_utf8(b@),
{
    match String::from_utf8(b.clone()) {
        Ok(s) => Some(s),
        Err(_) => None,
    }
}

/// Whether two text slices hold the same characters.
pub fn str_eq(a: &str, b: &str) -> (r: bool)
    ensures
        r == (a@ == b@),
{
    let sa = a.to_owned();
    let sb = b.to_owned();
    sa == sb
}

/// The lower-case hexadecimal digit for a value below 16; values 10 to 15
/// use 'a' to 'f'.
pub open spec fn hex_digit_char(d: u8) -> char {
    if d < 10 {
        (0x30 + d) as char
    } else {
        (0x57 + d) as char
    }
}

pub fn hex_digit(d: u8) -> (r: char)
    requires
        d < 16,
    ensures
        r == hex_digit_char(d),
{
    if d < 10 {
        (0x30 + d) as char
    } else {
        (0x57 + d) as char
    }
}

/// How one byte appears in the reversible rendering of binary data:
/// printable ASCII other than the backslash stands for itself, every
/// other byte becomes a four-character `\xhh` escape.
pub open spec fn escape_byte_chars(b: u8) -> Seq<char> {
    if 0x20 <= b && b <= 0x7e && b != 0x5c {
        seq![b as char]
    } else {
        seq!['\\', 'x', hex_digit_char(b / 16), hex_digit_char(b % 16)]
    }
}

/// The reversible rendering of a whole byte string.
pub open spec fn escape_chars(bs: Seq<u8>) -> Seq<char>
    decreases bs.len(),
{
    if bs.len() == 0 {
        Seq::empty()
    } else {
        escape_byte_chars(bs[0]) + escape_chars(bs.drop_first())
    }
}

pub proof fn lemma_escape_chars_concat(a: Seq<u8>, b: Seq<u8>)
    ensures
        escape_chars(a + b) == escape_chars(a) + escape_chars(b),
    decreases a.len(),
{
    if a.len() == 0 {
        assert(a + b =~= b);
        assert(escape_chars(a) + escape_chars(b) =~= escape_chars(b));
    } else {
        assert((a + b).drop_first() =~= a.drop_first() + b);
        lemma_escape_chars_concat(a.drop_first(), b);
        assert(escape_chars(a + b) =~= escape_chars(a) + escape_chars(b));
    }
}

/// The byte a lower-case hexadecimal digit denotes.
pub open spec fn hex_val(c: char) -> Option<u8> {
    if '0' <= c && c <= '9' {
        Some((c as u8 - 0x30) as u8)
    } else if 'a' <= c && c <= 'f' {
        Some((c as u8 - 0x57) as u8)
    } else {
        None
    }
}

/// Reads the rendering of a byte string back: a printable character other
/// than the backslash stands for itself, a `\xhh` escape for its byte; any
/// other text is not a rendering.
pub open spec fn unescape_chars(cs: Seq<char>) -> Option<Seq<u8>>
    decreases cs.len(),
{
    if cs.len() == 0 {
        Some(Seq::empty())
    } else if cs[0] == '\\' {
        if cs.len() >= 4 && cs[1] == 'x' && hex_val(cs[2]) is Some && hex_val(cs[3]) is Some {
            match unescape_chars(cs.skip(4)) {
                Some(rest) => Some(
                    seq![(hex_val(cs[2])->0 * 16 + hex_val(cs[3])->0) as u8] + rest,
                ),
                None => None,
            }
        } else {
            None
        }
    } else if ' ' <= cs[0] && cs[0] <= '~' {
        match unescape_chars(cs.skip(1)) {
            Some(rest) => Some(seq![cs[0] as u8] + rest),
            None => None,
        }
    } else {
        None
    }
}

pub proof fn lemma_hex_val(d: u8)
    requires
        d < 16,
    ensures
        hex_val(hex_digit_char(d)) == Some(d),
{
}

/// The rendering of binary data is reversible: reading it back recovers the
/// bytes exactly, whatever they were.
pub proof fn lemma_escape_reversible(bs: Seq<u8>)
    ensures
        unescape_chars(escape_chars(bs)) == Some(bs),
    decreases bs.len(),
{
    if bs.len() > 0 {
        let b = bs[0];
        let e = escape_chars(bs);
        let tail = escape_chars(bs.drop_first());
        lemma_escape_reversible(bs.drop_first());
        if 0x20 <= b && b <= 0x7e && b != 0x5c {
            assert(e =~= seq![b as char] + tail);
            assert(e[0] == b as char);
            assert((b as char) as u8 == b);
            assert((b as char) != '\\');
            assert(' ' <= (b as char) && (b as char) <= '~');
            assert(e.skip(1) =~= tail);
            assert(seq![b] + bs.drop_first() =~= bs);
        } else {
            assert(e =~= seq!['\\', 'x', hex_digit_char(b / 16), hex_digit_char(b % 16)] + tail);
            lemma_hex_val(b / 16);
            lemma_hex_val(b % 16);
            assert(e.skip(4) =~= tail);
            assert(((b / 16) * 16 + b % 16) as u8 == b);
            assert(seq![b] + bs.drop_first() =~= bs);
        }
    }
}

/// Appends the reversible rendering of `bs` to `out`.
pub fn push_escaped(out: &mut String, bs: &Vec<u8>)
    ensures
        final(out)@ == old(out)@ + escape_chars(bs@),
{
    let mut i: usize = 0;
    while i < bs.len()
        invariant
            i <= bs.len(),
            out@ == old(out)@ + escape_chars(bs@.take(i as int)),
        decreases bs.len() - i,
    {
        let b = bs[i];
        if 0x20 <= b && b <= 0x7e && b != 0x5c {
            push_char(out, b as char);
        } else {
            push_char(out, '\\');
            push_char(out, 'x');
            push_char(out, hex_digit(b / 16));
            push_char(out, hex_digit(b % 16));
        }
        proof {
            let s1 = seq![bs@[i as int]];
            assert(bs@.take(i + 1) =~= bs@.take(i as int) + s1);
            lemma_escape_chars_concat(bs@.take(i as int), s1);
            assert(s1.drop_first() =~= Seq::<u8>::empty());
            assert(escape_chars(s1.drop_first()) =~= Seq::<char>::empty());
            assert(escape_chars(s1) == escape_byte_chars(s1[0]) + escape_chars(s1.drop_first()));
            assert(escape_chars(s1) =~= escape_byte_chars(bs@[i as int]));
            assert(out@ =~= old(out)@ + escape_chars(bs@.take(i + 1)));
        }
        i = i + 1;
    }
    proof {
        assert(bs@.take(bs@.len() as int) =~= bs@);
    }
}

/// The reversible rendering of a byte string, as its own string.
pub fn binary_to_redis_str(bs: &Vec<u8>) -> (r: String)
    ensures
        r@ == escape_chars(bs@),
{
    let mut out = String::new();
    push_escaped(&mut out, bs);
    out
}

/// The decimal digits of a natural number, most significant first.
pub open spec fn dec_chars(n: nat) -> Seq<char>
    decreases n,
{
    if n < 10 {
        seq![hex_digit_char(n as u8)]
    } else {
        dec_chars(n / 10) + seq![hex_digit_char((n % 10) as u8)]
    }
}

/// Appends the decimal rendering of `n` to `out`.
pub fn push_dec_u64(out: &mut String, n: u64)
    ensures
        final(out)@ == old(out)@ + dec_chars(n as nat),
    decreases n,
{
    if n < 10 {
        push_char(out, hex_digit(n as u8));
        proof {
            assert(old(out)@.push(hex_digit_char(n as u8)) =~= old(out)@ + dec_chars(n as nat));
        }
    } else {
        push_dec_u64(out, n / 10);
        push_char(out, hex_digit((n % 10) as u8));
        proof {
            assert(out@ =~= old(out)@ + dec_chars(n as nat));
        }
    }
}

/// The decimal rendering of a signed number: a minus sign, if negative,
/// then the digits of its magnitude.
pub open spec fn dec_chars_i64(n: int) -> Seq<char> {
    if n < 0 {
        seq!['-'] + dec_chars((-n) as nat)
    } else {
        dec_chars(n as nat)
    }
}

/// Appends the decimal rendering of a signed number to `out`.
pub fn push_dec_i64(out: &mut String, n: i64)
    ensures
        final(out)@ == old(out)@ + dec_chars_i64(n as int),
{
    if n < 0 {
        push_char(out, '-');
        let m: u64 = if n == i64::MIN {
            9223372036854775808u64
        } else {
            (-n) as u64
        };
        assert(m == -(n as int));
        push_dec_u64(out, m);
        proof {
            assert(out@ =~= old(out)@ + dec_chars_i64(n as int));
        }
    } else {
        push_dec_u64(out, n as u64);
    }
}

/// The decimal rendering of a signed number, as its own string.
pub fn i64_to_string(n: i64) -> (r: String)
    ensures
        r@ == dec_chars_i64(n as int),
{
    let mut out = String::new();
    push_dec_i64(&mut out, n);
    out
}

/// True when the two byte strings agree letter for letter once ASCII
/// capitals are folded to lower case.
pub open spec fn ascii_lower(b: u8) -> u8 {
    if 0x41 <= b && b <= 0x5a {
        (b + 0x20) as u8
    } else {
        b
    }
}

pub open spec fn eq_ignore_ascii_case_spec(a: Seq<u8>, b: Seq<u8>) -> bool {
    a.len() == b.len() && forall|i: int| 0 <= i < a.len() ==> ascii_lower(a[i]) == ascii_lower(b[i])
}

pub fn eq_ignore_ascii_case_bytes(a: &[u8], b: &[u8]) -> (r: bool)
    ensures
        r == eq_ignore_ascii_case_spec(a@, b@),
{
    if a.len() != b.len() {
        return false;
    }
    let mut i: usize = 0;
    while i < a.len()
        invariant
            i <= a.len(),
            a@.len() == b@.len(),
            forall|j: int| 0 <= j < i ==> ascii_lower(a@[j]) == ascii_lower(b@[j]),
        decreases a.len() - i,
    {
        let x = a[i];
        let y = b[i];
        let xl = if 0x41 <= x && x <= 0x5a { x + 0x20 } else { x };
        let yl = if 0x41 <= y && y <= 0x5a { y + 0x20 } else { y };
        if xl != yl {
            return false;
        }
        i = i + 1;
    }
    true
}

}
