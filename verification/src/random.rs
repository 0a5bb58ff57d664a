//! Random filler: strings of letters and digits that vary the canned
//! responses from one call to the next.

use vstd::prelude::*;

verus! {

/// The filler alphabet: the ASCII letters of both cases and the digits.
pub open spec fn is_filler_byte(b: u8) -> bool {
    ||| 0x30 <= b <= 0x39
    ||| 0x41 <= b <= 0x5a
    ||| 0x61 <= b <= 0x7a
}

/// A character of the filler alphabet.
pub open spec fn is_filler_char(c: char) -> bool {
    exists|b: u8| is_filler_byte(b) && c == #[trigger] (b as char)
}

/// A string of exactly `len` characters of the filler alphabet.
pub open spec fn is_filler(s: Seq<char>, len: nat) -> bool {
    &&& s.len() == len
    &&& forall|i: int| 0 <= i < s.len() ==> is_filler_char(#[trigger] s[i])
}

/// Some filler of every length exists: the string of that many zeros.
pub proof fn filler_exists(len: nat)
    ensures
        is_filler(Seq::new(len, |i: int| '0'), len),
{
    assert(is_filler_byte(0x30u8) && '0' == (0x30u8 as char));
    assert(is_filler_char('0'));
}

/// `String::push` of std appends the one character to the string.
pub assume_specification[ String::push ](s: &mut String, c: char)
    ensures
        final(s)@ == old(s)@.push(c),
;

/// Draws one byte with `rand::Rng::sample` from `rand::thread_rng()` under the
/// distribution `rand::distributions::Alphanumeric`. Which byte comes is left
/// open; it is one of the 62 letters and digits that the distribution picks
/// from.
#[verifier::external_body]
fn sample_alphanumeric() -> (b: u8)
    ensures
        is_filler_byte(b),
{
    rand::Rng::sample(&mut rand::thread_rng(), rand::distributions::Alphanumeric)
}

/// Builds a random string of `len` characters of the filler alphabet.
pub fn get_rand_string(len: usize) -> (s: String)
    ensures
        is_filler(s@, len as nat),
{
    let mut s = String::new();
    let mut i: usize = 0;
    while i < len
        invariant
            i <= len,
            is_filler(s@, i as nat),
        decreases len - i,
    {
        let b: u8 = sample_alphanumeric();
        s.push(b as char);
        i += 1;
    }
    s
}

/// Tells whether `s` is a string of exactly `len` filler characters.
pub fn is_filler_text(s: &str, len: usize) -> (ok: bool)
    ensures
        ok == is_filler(s@, len as nat),
{
    if s.unicode_len() != len {
        return false;
    }
    let mut i: usize = 0;
    while i < len
        invariant
            i <= len,
            s@.len() == len,
            forall|j: int| 0 <= j < i ==> is_filler_char(#[trigger] s@[j]),
        decreases len - i,
    {
        let c: char = s.get_char(i);
        let ok = ('0' <= c && c <= '9') || ('A' <= c && c <= 'Z') || ('a' <= c && c <= 'z');
        if !ok {
            assert(!is_filler_char(s@[i as int]));
            return false;
        }
        assert(is_filler_char(c)) by {
            assert(c == ((c as u8) as char));
            assert(is_filler_byte(c as u8));
        }
        i += 1;
    }
    true
}

} // verus!
