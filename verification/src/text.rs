//! Byte-level text building blocks: JSON string escaping, decimal rendering,
//! and literal-to-byte conversion. All protocol text is produced as UTF-8
//! bytes so that the frame codec can carry it unchanged.

use vstd::prelude::*;
use vstd::string::StringSliceAdditionalSpecFns;

verus! {

/// Lowercase hex digit for a nibble.
pub open spec fn spec_hex_digit(n: u8) -> u8 {
    if n < 10 {
        (0x30 + n) as u8
    } else {
        (0x57 + n) as u8
    }
}

/// How one byte appears inside a JSON string literal: quote and backslash
/// are escaped, common control bytes get their short escapes, other control
/// bytes get a `\u00XX` escape, and everything else (including UTF-8
/// continuation bytes) passes through unchanged.
pub open spec fn spec_escape_byte(b: u8) -> Seq<u8> {
    if b == 0x22 {
        seq![0x5cu8, 0x22u8]
    } else if b == 0x5c {
        seq![0x5cu8, 0x5cu8]
    } else if b == 0x0a {
        seq![0x5cu8, 0x6eu8]
    } else if b == 0x0d {
        seq![0x5cu8, 0x72u8]
    } else if b == 0x09 {
        seq![0x5cu8, 0x74u8]
    } else if b < 0x20 {
        seq![0x5cu8, 0x75u8, 0x30u8, 0x30u8, spec_hex_digit(b / 16), spec_hex_digit(b % 16)]
    } else {
        seq![b]
    }
}

/// A whole byte sequence, escaped for a JSON string literal.
pub open spec fn spec_escape(s: Seq<u8>) -> Seq<u8>
    decreases s.len(),
{
    if s.len() == 0 {
        Seq::empty()
    } else {
        spec_escape_byte(s[0]) + spec_escape(s.drop_first())
    }
}

/// `s` escaped and wrapped in double quotes: a complete JSON string literal.
pub open spec fn spec_quoted(s: Seq<u8>) -> Seq<u8> {
    seq![0x22u8] + spec_escape(s) + seq![0x22u8]
}

proof fn lemma_escape_snoc(s: Seq<u8>, b: u8)
    ensures
        spec_escape(s.push(b)) == spec_escape(s) + spec_escape_byte(b),
    decreases s.len(),
{
    if s.len() == 0 {
        assert(s.push(b).drop_first() =~= s);
        assert(spec_escape(s.push(b)) =~= spec_escape(s) + spec_escape_byte(b));
    } else {
        assert(s.push(b).drop_first() =~= s.drop_first().push(b));
        lemma_escape_snoc(s.drop_first(), b);
        assert(spec_escape(s.push(b)) =~= spec_escape(s) + spec_escape_byte(b));
    }
}

/// Append the escape of one byte to `out`.
fn push_escaped_byte(out: &mut Vec<u8>, b: u8)
    ensures
        final(out)@ == old(out)@ + spec_escape_byte(b),
{
    if b == 0x22 {
        out.push(0x5c);
        out.push(0x22);
    } else if b == 0x5c {
        out.push(0x5c);
        out.push(0x5c);
    } else if b == 0x0a {
        out.push(0x5c);
        out.push(0x6e);
    } else if b == 0x0d {
        out.push(0x5c);
        out.push(0x72);
    } else if b == 0x09 {
        out.push(0x5c);
        out.push(0x74);
    } else if b < 0x20 {
        out.push(0x5c);
        out.push(0x75);
        out.push(0x30);
        out.push(0x30);
        out.push(if b / 16 < 10 { 0x30 + b / 16 } else { 0x57 + b / 16 });
        out.push(if b % 16 < 10 { 0x30 + b % 16 } else { 0x57 + b % 16 });
    } else {
        out.push(b);
    }
    proof {
        assert(final(out)@ =~= old(out)@ + spec_escape_byte(b));
    }
}

/// Append the escaped form of `s` to `out`.
pub fn push_escaped(out: &mut Vec<u8>, s: &Vec<u8>)
    ensures
        final(out)@ == old(out)@ + spec_escape(s@),
{
    let mut i: usize = 0;
    while i < s.len()
        invariant
            i <= s@.len(),
            out@ == old(out)@ + spec_escape(s@.subrange(0, i as int)),
        decreases s@.len() - i,
    {
        push_escaped_byte(out, s[i]);
        i = i + 1;
        proof {
            assert(s@.subrange(0, i as int) =~= s@.subrange(0, i - 1).push(s@[i - 1]));
            lemma_escape_snoc(s@.subrange(0, i - 1), s@[i - 1]);
        }
    }
    proof {
        assert(s@.subrange(0, s@.len() as int) =~= s@);
    }
}

/// Append `s` escaped and double-quoted: a JSON string literal.
pub fn push_quoted(out: &mut Vec<u8>, s: &Vec<u8>)
    ensures
        final(out)@ == old(out)@ + spec_quoted(s@),
{
    out.push(0x22);
    push_escaped(out, s);
    out.push(0x22);
    proof {
        assert(final(out)@ =~= old(out)@ + spec_quoted(s@));
    }
}

/// The decimal digits of `n`, most significant first.
pub open spec fn spec_udec(n: nat) -> Seq<u8>
    decreases n,
{
    if n < 10 {
        seq![(0x30 + n) as u8]
    } else {
        spec_udec(n / 10).push((0x30 + n % 10) as u8)
    }
}

/// The decimal rendering of a possibly negative integer.
pub open spec fn spec_idec(n: int) -> Seq<u8> {
    if n < 0 {
        seq![0x2du8] + spec_udec((-n) as nat)
    } else {
        spec_udec(n as nat)
    }
}

/// Append the decimal digits of `n` to `out`.
pub fn push_u64_dec(out: &mut Vec<u8>, n: u64)
    ensures
        final(out)@ == old(out)@ + spec_udec(n as nat),
    decreases n,
{
    if n < 10 {
        out.push(0x30 + (n as u8));
        proof {
            assert(final(out)@ =~= old(out)@ + spec_udec(n as nat));
        }
    } else {
        assert(n / 10 < n && n as nat / 10 == (n / 10) as nat) by (nonlinear_arith)
            requires n >= 10;
        push_u64_dec(out, n / 10);
        out.push(0x30 + ((n % 10) as u8));
        proof {
            assert(final(out)@ =~= old(out)@ + spec_udec(n as nat));
        }
    }
}

/// Append the decimal rendering of `n`, with a leading minus when negative.
pub fn push_i64_dec(out: &mut Vec<u8>, n: i64)
    ensures
        final(out)@ == old(out)@ + spec_idec(n as int),
{
    if n < 0 {
        out.push(0x2d);
        let mag: u64 = ((n as i128) * -1) as u64;
        assert(mag == -(n as int)) by (bit_vector)
            requires n < 0 && mag == ((n as i128) * -1) as u64;
        push_u64_dec(out, mag);
        proof {
            assert(final(out)@ =~= old(out)@ + spec_idec(n as int));
        }
    } else {
        push_u64_dec(out, n as u64);
    }
}

/// The UTF-8 bytes of `s`: shorthand used throughout the protocol specs.
pub open spec fn lit(s: &str) -> Seq<u8> {
    s.spec_bytes()
}

/// Whether two string slices hold the same characters.
pub fn str_eq(a: &str, b: &str) -> (r: bool)
    ensures
        r == (a@ == b@),
{
    let sa: String = a.to_owned();
    let sb: String = b.to_owned();
    sa == sb
}

/// Copy a byte slice into a fresh vector.
///
/// Relies on `<[u8]>::to_vec`: the vector holds exactly the slice's bytes.
#[verifier::external_body]
pub fn slice_to_vec(s: &[u8]) -> (r: Vec<u8>)
    ensures
        r@ == s@,
{
    s.to_vec()
}

/// The UTF-8 bytes of a string slice, as a fresh vector.
pub fn str_to_bytes(s: &str) -> (r: Vec<u8>)
    ensures
        r@ == lit(s),
{
    slice_to_vec(s.as_bytes())
}

/// Append the UTF-8 bytes of `s` to `out`.
pub fn push_lit(out: &mut Vec<u8>, s: &str)
    ensures
        final(out)@ == old(out)@ + lit(s),
{
    let mut piece = str_to_bytes(s);
    out.append(&mut piece);
}

} // verus!
