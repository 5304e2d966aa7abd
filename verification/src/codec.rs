//! Byte-level text handling: line-terminator trimming and UTF-8 decoding.

use vstd::prelude::*;

verus! {

pub const LF: u8 = 10;

pub const CR: u8 = 13;

/// A byte sequence with exactly one trailing line feed, or one trailing
/// carriage-return/line-feed pair, removed; anything else is unchanged.
pub open spec fn spec_strip_terminator(s: Seq<u8>) -> Seq<u8> {
    if s.len() >= 2 && s[s.len() - 2] == CR && s[s.len() - 1] == LF {
        s.subrange(0, s.len() - 2)
    } else if s.len() >= 1 && s[s.len() - 1] == LF {
        s.subrange(0, s.len() - 1)
    } else {
        s
    }
}

/// Removes at most one trailing line terminator (`\n` or `\r\n`) in place.
pub fn strip_terminator(bytes: &mut Vec<u8>)
    ensures
        final(bytes)@ == spec_strip_terminator(old(bytes)@),
{
    let n = bytes.len();
    if n >= 2 && bytes[n - 2] == CR && bytes[n - 1] == LF {
        bytes.pop();
        bytes.pop();
        assert(bytes@ =~= spec_strip_terminator(old(bytes)@));
    } else if n >= 1 && bytes[n - 1] == LF {
        bytes.pop();
        assert(bytes@ =~= spec_strip_terminator(old(bytes)@));
    }
}

/// A byte sequence with every trailing line feed removed, then every
/// trailing carriage return: how interactively entered secrets are
/// normalized before being stored.
pub open spec fn spec_trim_newlines(s: Seq<u8>) -> Seq<u8>
    decreases s.len(),
{
    if s.len() >= 1 && s[s.len() - 1] == LF {
        spec_trim_newlines(s.subrange(0, s.len() - 1))
    } else {
        spec_trim_returns(s)
    }
}

pub open spec fn spec_trim_returns(s: Seq<u8>) -> Seq<u8>
    decreases s.len(),
{
    if s.len() >= 1 && s[s.len() - 1] == CR {
        spec_trim_returns(s.subrange(0, s.len() - 1))
    } else {
        s
    }
}

/// Removes all trailing line feeds, then all trailing carriage returns.
pub fn trim_newlines(bytes: &mut Vec<u8>)
    ensures
        final(bytes)@ == spec_trim_newlines(old(bytes)@),
{
    while bytes.len() >= 1 && bytes[bytes.len() - 1] == LF
        invariant
            spec_trim_newlines(bytes@) == spec_trim_newlines(old(bytes)@),
        decreases bytes@.len(),
    {
        let ghost pre = bytes@;
        bytes.pop();
        assert(bytes@ =~= pre.subrange(0, pre.len() - 1));
    }
    while bytes.len() >= 1 && bytes[bytes.len() - 1] == CR
        invariant
            spec_trim_returns(bytes@) == spec_trim_newlines(old(bytes)@),
        decreases bytes@.len(),
    {
        let ghost pre = bytes@;
        bytes.pop();
        assert(bytes@ =~= pre.subrange(0, pre.len() - 1));
    }
    assert(spec_trim_returns(bytes@) == bytes@);
}

/// The characters that `b` decodes to when it is valid UTF-8, `None`
/// otherwise. The decoding itself is `String::from_utf8`'s.
pub uninterp spec fn utf8_decode(b: Seq<u8>) -> Option<Seq<char>>;

/// Relies on `String::from_utf8`: succeeds exactly on valid UTF-8 input,
/// whose decoding depends on the bytes alone, and an empty input decodes
/// to the empty string.
#[verifier::external_body]
pub fn decode_utf8(bytes: Vec<u8>) -> (r: Result<String, ()>)
    ensures
        r is Ok <==> utf8_decode(bytes@) is Some,
        r matches Ok(s) ==> utf8_decode(bytes@) == Some(s@),
        r matches Ok(s) ==> (bytes@.len() == 0 ==> s@.len() == 0),
{
    match String::from_utf8(bytes) {
        Ok(s) => Ok(s),
        Err(_) => Err(()),
    }
}

/// The characters that `b` decodes to under lossy UTF-8 decoding, which
/// replaces each invalid sequence with a replacement character.
pub uninterp spec fn lossy_utf8(b: Seq<u8>) -> Seq<char>;

/// Relies on `String::from_utf8_lossy`: the result depends on the bytes
/// alone, and it is empty exactly when the input is empty.
#[verifier::external_body]
pub fn decode_utf8_lossy(bytes: &Vec<u8>) -> (r: String)
    ensures
        r@ == lossy_utf8(bytes@),
        bytes@.len() == 0 ==> r@.len() == 0,
        bytes@.len() > 0 ==> r@.len() > 0,
{
    String::from_utf8_lossy(bytes.as_slice()).into_owned()
}

/// Writing a secret through an external command appends nothing, and a
/// well-behaved `get` command prints the secret either bare or with one
/// trailing newline: in both cases stripping one terminator gives the
/// secret back unchanged, provided it does not itself end in a carriage
/// return or line feed.
pub proof fn lemma_terminator_round_trip(s: Seq<u8>)
    requires
        s.len() == 0 || (s[s.len() - 1] != LF && s[s.len() - 1] != CR),
    ensures
        spec_strip_terminator(s) == s,
        spec_strip_terminator(s.push(LF)) == s,
        spec_strip_terminator(s.push(CR).push(LF)) == s,
{
    assert(spec_strip_terminator(s.push(LF)) =~= s);
    assert(spec_strip_terminator(s.push(CR).push(LF)) =~= s);
}

} // verus!
