//! Text helpers: decimal and hexadecimal digits, digit grouping, and
//! filtering to ASCII letters and digits.
use vstd::prelude::*;

verus! {

/// Relies on `String::push`, which appends one character to the string.
pub assume_specification[ String::push ](s: &mut String, ch: char)
    ensures
        final(s)@ == old(s)@.push(ch),
;

/// The ASCII character of a decimal digit.
pub open spec fn digit_char(d: int) -> char {
    ((d + 48) as u8) as char
}

/// The lowercase ASCII character of a hexadecimal digit.
pub open spec fn hex_char(d: int) -> char {
    if d < 10 {
        ((d + 48) as u8) as char
    } else {
        ((d + 87) as u8) as char
    }
}

/// The decimal digits of `n`, most significant first, without leading zeros.
pub open spec fn decimal(n: nat) -> Seq<char>
    decreases n,
{
    if n < 10 {
        seq![digit_char(n as int)]
    } else {
        decimal(n / 10).push(digit_char((n % 10) as int))
    }
}

/// Two lowercase hexadecimal digits of a byte.
pub open spec fn hex_byte(b: u8) -> Seq<char> {
    seq![hex_char(b as int / 16), hex_char(b as int % 16)]
}

/// Appends the decimal digits of `n`.
pub fn push_decimal(s: &mut String, n: u64)
    ensures
        final(s)@ == old(s)@ + decimal(n as nat),
    decreases n,
{
    if n >= 10 {
        push_decimal(s, n / 10);
    }
    let d: u8 = (n % 10) as u8;
    s.push((d + 48) as char);
    proof {
        assert(final(s)@ =~= old(s)@ + decimal(n as nat));
    }
}

/// Appends two lowercase hexadecimal digits of `b`.
pub fn push_hex_byte(s: &mut String, b: u8)
    ensures
        final(s)@ == old(s)@ + hex_byte(b),
{
    let hi: u8 = b / 16;
    let lo: u8 = b % 16;
    s.push(if hi < 10 { (hi + 48) as char } else { (hi + 87) as char });
    s.push(if lo < 10 { (lo + 48) as char } else { (lo + 87) as char });
    proof {
        assert(final(s)@ =~= old(s)@ + hex_byte(b));
    }
}


/// The characters of `s`, in order.
pub fn chars_of(s: &str) -> (v: Vec<char>)
    ensures
        v@ == s@,
{
    let mut v: Vec<char> = Vec::new();
    for c in it: s.chars()
        invariant
            it.seq() == s@,
            v@ == it.seq().take(it.index() as int),
    {
        v.push(c);
        proof {
            assert(v@ =~= it.seq().take(it.index() as int + 1));
        }
    }
    proof {
        assert(v@ =~= s@);
    }
    v
}

/// `s` with `delimiter` inserted before each character that has a positive
/// multiple of `frequency` characters from it to the end, except before the
/// first: the digit groups are counted from the right.
pub open spec fn delimited(s: Seq<char>, delimiter: char, frequency: nat) -> Seq<char>
    decreases s.len(),
{
    if s.len() <= 1 {
        s
    } else {
        let sep = if (s.len() - 1) as int % frequency as int == 0 {
            seq![delimiter]
        } else {
            Seq::<char>::empty()
        };
        seq![s[0]] + sep + delimited(s.drop_first(), delimiter, frequency)
    }
}

/// Adds a delimiter to a number string at a given frequency, counting the
/// groups from the right (`"1234567"` with `','` every 3 gives
/// `"1,234,567"`).
pub fn add_number_delimiters(number_str: String, delimiter: char, frequency: usize) -> (r: String)
    requires
        frequency > 0 || number_str@.len() <= 1,
    ensures
        r@ == delimited(number_str@, delimiter, frequency as nat),
{
    let cs = chars_of(number_str.as_str());
    let n: usize = cs.len();
    let mut out = String::new();
    let mut j: usize = 0;
    proof {
        assert(cs@.subrange(0, n as int) =~= cs@);
        assert(out@ + delimited(cs@, delimiter, frequency as nat) =~= delimited(
            cs@,
            delimiter,
            frequency as nat,
        ));
    }
    while j < n
        invariant
            cs@ == number_str@,
            n == cs@.len(),
            j <= n,
            frequency > 0 || n <= 1,
            out@ + delimited(cs@.subrange(j as int, n as int), delimiter, frequency as nat)
                == delimited(cs@, delimiter, frequency as nat),
        decreases n - j,
    {
        let ghost rest = cs@.subrange(j as int, n as int);
        let ghost prev = out@;
        out.push(cs[j]);
        if j + 1 < n && (n - j - 1) % frequency == 0 {
            out.push(delimiter);
        }
        proof {
            let next = cs@.subrange(j as int + 1, n as int);
            assert(rest.drop_first() =~= next);
            if rest.len() <= 1 {
                assert(next =~= Seq::<char>::empty());
                assert(out@ + delimited(next, delimiter, frequency as nat) =~= prev + rest);
            } else {
                assert(out@ + delimited(next, delimiter, frequency as nat) =~= prev + delimited(
                    rest,
                    delimiter,
                    frequency as nat,
                ));
            }
        }
        j = j + 1;
    }
    proof {
        assert(cs@.subrange(n as int, n as int) =~= Seq::<char>::empty());
        assert(out@ =~= out@ + Seq::<char>::empty());
    }
    out
}

/// Whether `c` is an ASCII letter or digit.
pub open spec fn is_ascii_alnum(c: char) -> bool {
    ('0' <= c && c <= '9') || ('a' <= c && c <= 'z') || ('A' <= c && c <= 'Z')
}

fn ascii_alnum(c: char) -> (r: bool)
    ensures
        r == is_ascii_alnum(c),
{
    ('0' <= c && c <= '9') || ('a' <= c && c <= 'z') || ('A' <= c && c <= 'Z')
}

/// Removes all non-alphanumeric characters from a string.
pub fn sanitize_string(string: String) -> (r: String)
    ensures
        r@ == string@.filter(|c: char| is_ascii_alnum(c)),
{
    let cs = chars_of(string.as_str());
    let mut out = String::new();
    let mut j: usize = 0;
    while j < cs.len()
        invariant
            cs@ == string@,
            j <= cs@.len(),
            out@ == cs@.take(j as int).filter(|c: char| is_ascii_alnum(c)),
        decreases cs.len() - j,
    {
        let c = cs[j];
        if ascii_alnum(c) {
            out.push(c);
        }
        proof {
            reveal(Seq::filter);
            assert(cs@.take(j as int + 1).drop_last() =~= cs@.take(j as int));
        }
        j = j + 1;
    }
    proof {
        assert(cs@.take(j as int) =~= cs@);
    }
    out
}

} // verus!
