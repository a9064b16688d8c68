//! Small helpers shared by the roles: building strings character by
//! character, decimal rendering, lossy decoding of bytes received from the
//! wire, and random alphanumeric strings.

use vstd::prelude::*;

verus! {

/// The text that lossy UTF-8 decoding yields for a byte sequence: the decoded
/// characters, with each malformed part replaced by U+FFFD.
pub uninterp spec fn lossy_text(bytes: Seq<u8>) -> Seq<char>;

/// Calls `String::from_utf8_lossy`. Nothing is proved of it: its result, which
/// depends on the bytes alone, is named `lossy_text`.
#[verifier::external_body]
pub(crate) fn decode_lossy(bytes: &[u8]) -> (s: String)
    ensures
        s@ == lossy_text(bytes@),
{
    String::from_utf8_lossy(bytes).into_owned()
}

/// Calls `String::push`: the string grows by exactly the given character.
#[verifier::external_body]
pub(crate) fn push_char(s: &mut String, c: char)
    ensures
        final(s)@ == old(s)@.push(c),
{
    s.push(c)
}

/// The character that stands for a decimal digit.
pub open spec fn digit(d: nat) -> char
    recommends
        d < 10,
{
    ((48 + d) as u8) as char
}

/// The decimal rendering of a number, without sign or leading zeros.
pub open spec fn decimal(n: nat) -> Seq<char>
    decreases n,
{
    if n < 10 {
        seq![digit(n)]
    } else {
        decimal(n / 10).push(digit(n % 10))
    }
}

/// Appends the decimal rendering of `n` to `out`.
pub fn push_decimal(out: &mut String, n: u16)
    ensures
        final(out)@ == old(out)@ + decimal(n as nat),
    decreases n,
{
    if n >= 10 {
        push_decimal(out, n / 10);
    }
    let d: u8 = (n % 10) as u8;
    let c: char = (48u8 + d) as char;
    push_char(out, c);
}

/// Appends every character of `tail` to `out`.
pub fn push_text(out: &mut String, tail: &str)
    ensures
        final(out)@ == old(out)@ + tail@,
{
    out.append(tail);
}

/// Whether a character is an ASCII letter or digit.
pub open spec fn is_alphanumeric(c: char) -> bool {
    let v = c as u32;
    (48 <= v <= 57) || (65 <= v <= 90) || (97 <= v <= 122)
}

/// Whether a text could have come out of `generate_random_string(len)`.
pub open spec fn is_random_string(text: Seq<char>, len: nat) -> bool {
    &&& text.len() == len
    &&& forall|i: int| 0 <= i < text.len() ==> is_alphanumeric(#[trigger] text[i])
}

/// Draws one byte from `rand`'s `Alphanumeric` distribution with the
/// thread-local generator, which the operating system seeds. Which byte comes
/// is left open; it is taken to be an ASCII letter or digit, as the
/// distribution's character table shows.
#[verifier::external_body]
fn random_alphanumeric() -> (b: u8)
    ensures
        is_alphanumeric(b as char),
{
    rand::distributions::Distribution::sample(
        &rand::distributions::Alphanumeric,
        &mut rand::thread_rng(),
    )
}

/// A string of `len` random ASCII letters and digits.
pub fn generate_random_string(len: usize) -> (text: String)
    ensures
        is_random_string(text@, len as nat),
{
    let mut text = String::new();
    let mut i: usize = 0;
    while i < len
        invariant
            i <= len,
            is_random_string(text@, i as nat),
        decreases len - i,
    {
        let b: u8 = random_alphanumeric();
        push_char(&mut text, b as char);
        i += 1;
    }
    text
}

} // verus!
