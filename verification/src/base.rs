//! The bases of the multibase table, as plain values: each with its code
//! character, its name and its place in the table.
use vstd::prelude::*;

verus! {

/// The bases of the multibase table, in the order of the table (which is
/// increasing size of the symbol space after `Identity`).
#[derive(Clone, Copy, Debug, PartialEq, Eq, Hash)]
pub enum Base {
    /// 8-bit binary (data kept unmodified).
    Identity,
    /// Base2 (alphabet: 01).
    Base2,
    /// Base8 (alphabet: 01234567).
    Base8,
    /// Base10 (alphabet: 0123456789).
    Base10,
    /// Base16 lower hexadecimal.
    Base16Lower,
    /// Base16 upper hexadecimal.
    Base16Upper,
    /// Base32, rfc4648 no padding, lower case.
    Base32Lower,
    /// Base32, rfc4648 no padding, upper case.
    Base32Upper,
    /// Base32, rfc4648 with padding, lower case.
    Base32PadLower,
    /// Base32, rfc4648 with padding, upper case.
    Base32PadUpper,
    /// Base32hex, rfc4648 no padding, lower case.
    Base32HexLower,
    /// Base32hex, rfc4648 no padding, upper case.
    Base32HexUpper,
    /// Base32hex, rfc4648 with padding, lower case.
    Base32HexPadLower,
    /// Base32hex, rfc4648 with padding, upper case.
    Base32HexPadUpper,
    /// z-base-32.
    Base32Z,
    /// Base36, [0-9a-z].
    Base36Lower,
    /// Base36, [0-9A-Z].
    Base36Upper,
    /// Base58 flickr.
    Base58Flickr,
    /// Base58 bitcoin.
    Base58Btc,
    /// Base64, rfc4648 no padding.
    Base64,
    /// Base64, rfc4648 with padding.
    Base64Pad,
    /// Base64 url, rfc4648 no padding.
    Base64Url,
    /// Base64 url, rfc4648 with padding.
    Base64UrlPad,
    /// Base256 emoji.
    Base256Emoji,
}

/// Number of bases in the table.
pub open spec fn base_count() -> nat {
    24
}

impl Base {
    /// The multibase code character that prefixes values in this base.
    pub open spec fn spec_code(self) -> char {
        match self {
            Base::Identity => '\x00',
            Base::Base2 => '0',
            Base::Base8 => '7',
            Base::Base10 => '9',
            Base::Base16Lower => 'f',
            Base::Base16Upper => 'F',
            Base::Base32Lower => 'b',
            Base::Base32Upper => 'B',
            Base::Base32PadLower => 'c',
            Base::Base32PadUpper => 'C',
            Base::Base32HexLower => 'v',
            Base::Base32HexUpper => 'V',
            Base::Base32HexPadLower => 't',
            Base::Base32HexPadUpper => 'T',
            Base::Base32Z => 'h',
            Base::Base36Lower => 'k',
            Base::Base36Upper => 'K',
            Base::Base58Flickr => 'Z',
            Base::Base58Btc => 'z',
            Base::Base64 => 'm',
            Base::Base64Pad => 'M',
            Base::Base64Url => 'u',
            Base::Base64UrlPad => 'U',
            Base::Base256Emoji => '🚀',
        }
    }

    /// Place of the base in the table.
    pub open spec fn index(self) -> nat {
        match self {
            Base::Identity => 0,
            Base::Base2 => 1,
            Base::Base8 => 2,
            Base::Base10 => 3,
            Base::Base16Lower => 4,
            Base::Base16Upper => 5,
            Base::Base32Lower => 6,
            Base::Base32Upper => 7,
            Base::Base32PadLower => 8,
            Base::Base32PadUpper => 9,
            Base::Base32HexLower => 10,
            Base::Base32HexUpper => 11,
            Base::Base32HexPadLower => 12,
            Base::Base32HexPadUpper => 13,
            Base::Base32Z => 14,
            Base::Base36Lower => 15,
            Base::Base36Upper => 16,
            Base::Base58Flickr => 17,
            Base::Base58Btc => 18,
            Base::Base64 => 19,
            Base::Base64Pad => 20,
            Base::Base64Url => 21,
            Base::Base64UrlPad => 22,
            Base::Base256Emoji => 23,
        }
    }

    /// The name of the base.
    pub open spec fn spec_name(self) -> Seq<char> {
        match self {
            Base::Identity => "Identity"@,
            Base::Base2 => "Base2"@,
            Base::Base8 => "Base8"@,
            Base::Base10 => "Base10"@,
            Base::Base16Lower => "Base16Lower"@,
            Base::Base16Upper => "Base16Upper"@,
            Base::Base32Lower => "Base32Lower"@,
            Base::Base32Upper => "Base32Upper"@,
            Base::Base32PadLower => "Base32PadLower"@,
            Base::Base32PadUpper => "Base32PadUpper"@,
            Base::Base32HexLower => "Base32HexLower"@,
            Base::Base32HexUpper => "Base32HexUpper"@,
            Base::Base32HexPadLower => "Base32HexPadLower"@,
            Base::Base32HexPadUpper => "Base32HexPadUpper"@,
            Base::Base32Z => "Base32Z"@,
            Base::Base36Lower => "Base36Lower"@,
            Base::Base36Upper => "Base36Upper"@,
            Base::Base58Flickr => "Base58Flickr"@,
            Base::Base58Btc => "Base58Btc"@,
            Base::Base64 => "Base64"@,
            Base::Base64Pad => "Base64Pad"@,
            Base::Base64Url => "Base64Url"@,
            Base::Base64UrlPad => "Base64UrlPad"@,
            Base::Base256Emoji => "Base256Emoji"@,
        }
    }

    /// The multibase code character of this base.
    pub fn code(&self) -> (c: char)
        ensures
            c == self.spec_code(),
    {
        match self {
            Base::Identity => '\x00',
            Base::Base2 => '0',
            Base::Base8 => '7',
            Base::Base10 => '9',
            Base::Base16Lower => 'f',
            Base::Base16Upper => 'F',
            Base::Base32Lower => 'b',
            Base::Base32Upper => 'B',
            Base::Base32PadLower => 'c',
            Base::Base32PadUpper => 'C',
            Base::Base32HexLower => 'v',
            Base::Base32HexUpper => 'V',
            Base::Base32HexPadLower => 't',
            Base::Base32HexPadUpper => 'T',
            Base::Base32Z => 'h',
            Base::Base36Lower => 'k',
            Base::Base36Upper => 'K',
            Base::Base58Flickr => 'Z',
            Base::Base58Btc => 'z',
            Base::Base64 => 'm',
            Base::Base64Pad => 'M',
            Base::Base64Url => 'u',
            Base::Base64UrlPad => 'U',
            Base::Base256Emoji => '🚀',
        }
    }

    /// The name of this base.
    pub fn name(&self) -> (s: &'static str)
        ensures
            s@ == self.spec_name(),
    {
        match self {
            Base::Identity => "Identity",
            Base::Base2 => "Base2",
            Base::Base8 => "Base8",
            Base::Base10 => "Base10",
            Base::Base16Lower => "Base16Lower",
            Base::Base16Upper => "Base16Upper",
            Base::Base32Lower => "Base32Lower",
            Base::Base32Upper => "Base32Upper",
            Base::Base32PadLower => "Base32PadLower",
            Base::Base32PadUpper => "Base32PadUpper",
            Base::Base32HexLower => "Base32HexLower",
            Base::Base32HexUpper => "Base32HexUpper",
            Base::Base32HexPadLower => "Base32HexPadLower",
            Base::Base32HexPadUpper => "Base32HexPadUpper",
            Base::Base32Z => "Base32Z",
            Base::Base36Lower => "Base36Lower",
            Base::Base36Upper => "Base36Upper",
            Base::Base58Flickr => "Base58Flickr",
            Base::Base58Btc => "Base58Btc",
            Base::Base64 => "Base64",
            Base::Base64Pad => "Base64Pad",
            Base::Base64Url => "Base64Url",
            Base::Base64UrlPad => "Base64UrlPad",
            Base::Base256Emoji => "Base256Emoji",
        }
    }

    /// The base that follows this one in the table, if any.
    pub fn successor(&self) -> (r: Option<Base>)
        ensures
            match r {
                Some(b) => self.index() + 1 < base_count() && b.index() == self.index() + 1,
                None => self.index() + 1 == base_count(),
            },
    {
        match self {
            Base::Identity => Some(Base::Base2),
            Base::Base2 => Some(Base::Base8),
            Base::Base8 => Some(Base::Base10),
            Base::Base10 => Some(Base::Base16Lower),
            Base::Base16Lower => Some(Base::Base16Upper),
            Base::Base16Upper => Some(Base::Base32Lower),
            Base::Base32Lower => Some(Base::Base32Upper),
            Base::Base32Upper => Some(Base::Base32PadLower),
            Base::Base32PadLower => Some(Base::Base32PadUpper),
            Base::Base32PadUpper => Some(Base::Base32HexLower),
            Base::Base32HexLower => Some(Base::Base32HexUpper),
            Base::Base32HexUpper => Some(Base::Base32HexPadLower),
            Base::Base32HexPadLower => Some(Base::Base32HexPadUpper),
            Base::Base32HexPadUpper => Some(Base::Base32Z),
            Base::Base32Z => Some(Base::Base36Lower),
            Base::Base36Lower => Some(Base::Base36Upper),
            Base::Base36Upper => Some(Base::Base58Flickr),
            Base::Base58Flickr => Some(Base::Base58Btc),
            Base::Base58Btc => Some(Base::Base64),
            Base::Base64 => Some(Base::Base64Pad),
            Base::Base64Pad => Some(Base::Base64Url),
            Base::Base64Url => Some(Base::Base64UrlPad),
            Base::Base64UrlPad => Some(Base::Base256Emoji),
            Base::Base256Emoji => None,
        }
    }

    /// The base whose code character is `c`, if any.
    pub fn from_code(c: char) -> (r: Option<Base>)
        ensures
            r == base_of_code(c),
    {
        match c {
            '\x00' => Some(Base::Identity),
            '0' => Some(Base::Base2),
            '7' => Some(Base::Base8),
            '9' => Some(Base::Base10),
            'f' => Some(Base::Base16Lower),
            'F' => Some(Base::Base16Upper),
            'b' => Some(Base::Base32Lower),
            'B' => Some(Base::Base32Upper),
            'c' => Some(Base::Base32PadLower),
            'C' => Some(Base::Base32PadUpper),
            'v' => Some(Base::Base32HexLower),
            'V' => Some(Base::Base32HexUpper),
            't' => Some(Base::Base32HexPadLower),
            'T' => Some(Base::Base32HexPadUpper),
            'h' => Some(Base::Base32Z),
            'k' => Some(Base::Base36Lower),
            'K' => Some(Base::Base36Upper),
            'Z' => Some(Base::Base58Flickr),
            'z' => Some(Base::Base58Btc),
            'm' => Some(Base::Base64),
            'M' => Some(Base::Base64Pad),
            'u' => Some(Base::Base64Url),
            'U' => Some(Base::Base64UrlPad),
            '🚀' => Some(Base::Base256Emoji),
            _ => None,
        }
    }
}

/// The base whose code character is `c`, if any.
pub open spec fn base_of_code(c: char) -> Option<Base> {
    if c == '\x00' {
        Some(Base::Identity)
    } else if c == '0' {
        Some(Base::Base2)
    } else if c == '7' {
        Some(Base::Base8)
    } else if c == '9' {
        Some(Base::Base10)
    } else if c == 'f' {
        Some(Base::Base16Lower)
    } else if c == 'F' {
        Some(Base::Base16Upper)
    } else if c == 'b' {
        Some(Base::Base32Lower)
    } else if c == 'B' {
        Some(Base::Base32Upper)
    } else if c == 'c' {
        Some(Base::Base32PadLower)
    } else if c == 'C' {
        Some(Base::Base32PadUpper)
    } else if c == 'v' {
        Some(Base::Base32HexLower)
    } else if c == 'V' {
        Some(Base::Base32HexUpper)
    } else if c == 't' {
        Some(Base::Base32HexPadLower)
    } else if c == 'T' {
        Some(Base::Base32HexPadUpper)
    } else if c == 'h' {
        Some(Base::Base32Z)
    } else if c == 'k' {
        Some(Base::Base36Lower)
    } else if c == 'K' {
        Some(Base::Base36Upper)
    } else if c == 'Z' {
        Some(Base::Base58Flickr)
    } else if c == 'z' {
        Some(Base::Base58Btc)
    } else if c == 'm' {
        Some(Base::Base64)
    } else if c == 'M' {
        Some(Base::Base64Pad)
    } else if c == 'u' {
        Some(Base::Base64Url)
    } else if c == 'U' {
        Some(Base::Base64UrlPad)
    } else if c == '🚀' {
        Some(Base::Base256Emoji)
    } else {
        None
    }
}

/// The base at place `i` of the table.
pub open spec fn base_at(i: nat) -> Base
    recommends
        i < base_count(),
{
    if i == 0 {
        Base::Identity
    } else if i == 1 {
        Base::Base2
    } else if i == 2 {
        Base::Base8
    } else if i == 3 {
        Base::Base10
    } else if i == 4 {
        Base::Base16Lower
    } else if i == 5 {
        Base::Base16Upper
    } else if i == 6 {
        Base::Base32Lower
    } else if i == 7 {
        Base::Base32Upper
    } else if i == 8 {
        Base::Base32PadLower
    } else if i == 9 {
        Base::Base32PadUpper
    } else if i == 10 {
        Base::Base32HexLower
    } else if i == 11 {
        Base::Base32HexUpper
    } else if i == 12 {
        Base::Base32HexPadLower
    } else if i == 13 {
        Base::Base32HexPadUpper
    } else if i == 14 {
        Base::Base32Z
    } else if i == 15 {
        Base::Base36Lower
    } else if i == 16 {
        Base::Base36Upper
    } else if i == 17 {
        Base::Base58Flickr
    } else if i == 18 {
        Base::Base58Btc
    } else if i == 19 {
        Base::Base64
    } else if i == 20 {
        Base::Base64Pad
    } else if i == 21 {
        Base::Base64Url
    } else if i == 22 {
        Base::Base64UrlPad
    } else {
        Base::Base256Emoji
    }
}

/// Whether `c` is the code character of some base.
pub open spec fn is_base_code(c: char) -> bool {
    base_of_code(c) is Some
}

/// A code character names its base, and only the base that carries it:
/// reading a base's code back gives that base.
pub proof fn lemma_code_roundtrip(b: Base, c: char)
    ensures
        base_of_code(b.spec_code()) == Some(b),
        base_of_code(c) matches Some(b2) ==> b2.spec_code() == c,
{
}

/// The table places each base once: `base_at` inverts `index`.
pub proof fn lemma_index_roundtrip(b: Base)
    ensures
        b.index() < base_count(),
        base_at(b.index()) == b,
{
}

/// The multibase table: the place, the code character and the name of every
/// base, as the multibase standard lists them.
pub proof fn lemma_multibase_table()
    ensures
        base_at(0) == Base::Identity && Base::Identity.spec_code() == '\x00' && Base::Identity.spec_name() == "Identity"@,
        base_at(1) == Base::Base2 && Base::Base2.spec_code() == '0' && Base::Base2.spec_name() == "Base2"@,
        base_at(2) == Base::Base8 && Base::Base8.spec_code() == '7' && Base::Base8.spec_name() == "Base8"@,
        base_at(3) == Base::Base10 && Base::Base10.spec_code() == '9' && Base::Base10.spec_name() == "Base10"@,
        base_at(4) == Base::Base16Lower && Base::Base16Lower.spec_code() == 'f' && Base::Base16Lower.spec_name() == "Base16Lower"@,
        base_at(5) == Base::Base16Upper && Base::Base16Upper.spec_code() == 'F' && Base::Base16Upper.spec_name() == "Base16Upper"@,
        base_at(6) == Base::Base32Lower && Base::Base32Lower.spec_code() == 'b' && Base::Base32Lower.spec_name() == "Base32Lower"@,
        base_at(7) == Base::Base32Upper && Base::Base32Upper.spec_code() == 'B' && Base::Base32Upper.spec_name() == "Base32Upper"@,
        base_at(8) == Base::Base32PadLower && Base::Base32PadLower.spec_code() == 'c' && Base::Base32PadLower.spec_name() == "Base32PadLower"@,
        base_at(9) == Base::Base32PadUpper && Base::Base32PadUpper.spec_code() == 'C' && Base::Base32PadUpper.spec_name() == "Base32PadUpper"@,
        base_at(10) == Base::Base32HexLower && Base::Base32HexLower.spec_code() == 'v' && Base::Base32HexLower.spec_name() == "Base32HexLower"@,
        base_at(11) == Base::Base32HexUpper && Base::Base32HexUpper.spec_code() == 'V' && Base::Base32HexUpper.spec_name() == "Base32HexUpper"@,
        base_at(12) == Base::Base32HexPadLower && Base::Base32HexPadLower.spec_code() == 't' && Base::Base32HexPadLower.spec_name() == "Base32HexPadLower"@,
        base_at(13) == Base::Base32HexPadUpper && Base::Base32HexPadUpper.spec_code() == 'T' && Base::Base32HexPadUpper.spec_name() == "Base32HexPadUpper"@,
        base_at(14) == Base::Base32Z && Base::Base32Z.spec_code() == 'h' && Base::Base32Z.spec_name() == "Base32Z"@,
        base_at(15) == Base::Base36Lower && Base::Base36Lower.spec_code() == 'k' && Base::Base36Lower.spec_name() == "Base36Lower"@,
        base_at(16) == Base::Base36Upper && Base::Base36Upper.spec_code() == 'K' && Base::Base36Upper.spec_name() == "Base36Upper"@,
        base_at(17) == Base::Base58Flickr && Base::Base58Flickr.spec_code() == 'Z' && Base::Base58Flickr.spec_name() == "Base58Flickr"@,
        base_at(18) == Base::Base58Btc && Base::Base58Btc.spec_code() == 'z' && Base::Base58Btc.spec_name() == "Base58Btc"@,
        base_at(19) == Base::Base64 && Base::Base64.spec_code() == 'm' && Base::Base64.spec_name() == "Base64"@,
        base_at(20) == Base::Base64Pad && Base::Base64Pad.spec_code() == 'M' && Base::Base64Pad.spec_name() == "Base64Pad"@,
        base_at(21) == Base::Base64Url && Base::Base64Url.spec_code() == 'u' && Base::Base64Url.spec_name() == "Base64Url"@,
        base_at(22) == Base::Base64UrlPad && Base::Base64UrlPad.spec_code() == 'U' && Base::Base64UrlPad.spec_name() == "Base64UrlPad"@,
        base_at(23) == Base::Base256Emoji && Base::Base256Emoji.spec_code() == '🚀' && Base::Base256Emoji.spec_name() == "Base256Emoji"@,
{
}

} // verus!
