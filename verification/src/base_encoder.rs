//! Base encoders: how a value's bytes are turned into text and back.
use vstd::prelude::*;

use crate::base::{base_at, base_count, base_of_code, lemma_code_roundtrip, Base};
use crate::error::{BaseEncodedError, BaseEncoderError, Error};
use crate::multibase::{
    base_decode, base_decoding, base_encode, base_encoding, multibase_decode,
    multibase_decoding, multibase_encode, multibase_encoding,
};

verus! {

/// a trait for base encoding implementations
///
/// Each encoder names what its operations compute, and promises that text it
/// writes in a base where `spec_reversible` holds reads back as that base's
/// preferred encoding and the same bytes.
pub trait BaseEncoder {
    /// The text `to_base_encoded` writes for `b` in `base`.
    spec fn spec_encoded(base: Base, b: Seq<u8>) -> Seq<char>;

    /// The first (preferred) reading `from_base_encoded` gives for `s`: a
    /// base and bytes, or `None` when it refuses `s`.
    spec fn spec_decoded(s: Seq<char>) -> Option<(Base, Seq<u8>)>;

    /// The text `debug_string` gives for `base`.
    spec fn spec_debug(base: Base) -> Seq<char>;

    /// The base `preferred_encoding` gives for `base`.
    spec fn spec_preferred(base: Base) -> Base;

    /// Whether text written in `base` reads back.
    spec fn spec_reversible(base: Base) -> bool;

    /// convert a &[u8] to a base encoded value
    fn to_base_encoded(base: Base, b: &[u8]) -> (r: String)
        ensures
            r@ == Self::spec_encoded(base, b@),
            Self::spec_reversible(base) ==> Self::spec_decoded(r@) == Some(
                (Self::spec_preferred(base), b@),
            ),
    ;

    /// convert a base encoded value to a `Vec<u8>`: the possible readings,
    /// the first being the encoder's preferred one.
    fn from_base_encoded(s: &str) -> (r: Result<Vec<(Base, Vec<u8>)>, Error>)
        ensures
            match r {
                Ok(v) => Self::spec_decoded(s@) matches Some((base, data)) && is_first_decoding(
                    v,
                    base,
                    data,
                ),
                Err(_) => Self::spec_decoded(s@) is None,
            },
    ;

    /// get the debug string for the given base
    fn debug_string(base: Base) -> (r: String)
        ensures
            r@ == Self::spec_debug(base),
    ;

    /// get the preferred base encoding for this encoder
    fn preferred_encoding(base: Base) -> (r: Base)
        ensures
            r == Self::spec_preferred(base),
    ;
}

/// `v` holds at least one decoding, and its first is the bytes `data` in the
/// base `base`.
pub open spec fn is_first_decoding(v: Vec<(Base, Vec<u8>)>, base: Base, data: Seq<u8>) -> bool {
    &&& v@.len() >= 1
    &&& v@[0].0 == base
    &&& v@[0].1@ == data
}

/// The debug text of a base: its name, then its code character in quotes and
/// parentheses.
pub open spec fn base_label(base: Base) -> Seq<char> {
    base.spec_name() + seq![' ', '(', '\'', base.spec_code(), '\'', ')']
}

/// The first base at place `i` or later in the table that strictly decodes
/// the unprefixed `text`, with the bytes it gives.
pub open spec fn naked_decoding(text: Seq<char>, i: nat) -> Option<(Base, Seq<u8>)>
    decreases base_count() - i,
{
    if i >= base_count() {
        None
    } else {
        match base_decoding(base_at(i).spec_code(), text, true) {
            Ok(data) => Some((base_at(i), data)),
            Err(_) => naked_decoding(text, i + 1),
        }
    }
}

/// What the detecting decoder reads from `text`: the permissive multibase
/// reading when there is one, else the first base after `Identity` in the
/// table that strictly decodes the whole text.
pub open spec fn detected_decoding(text: Seq<char>) -> Option<(Base, Seq<u8>)> {
    match multibase_reading(text) {
        Some(found) => Some(found),
        None => naked_decoding(text, 1),
    }
}

/// `format!` of a base's name and code character, as `name ('c')`.
#[verifier::external_body]
fn label_text(name: &str, code: char) -> (r: String)
    ensures
        r@ == name@ + seq![' ', '(', '\'', code, '\'', ')'],
{
    format!("{name} ('{code}')")
}

/// The debug text of `base`.
fn label(base: Base) -> (r: String)
    ensures
        r@ == base_label(base),
{
    label_text(base.name(), base.code())
}

/// a multibase encoder implementation for use as the default encoder
#[derive(Clone, Debug, Eq, PartialEq)]
pub struct MultibaseEncoder {}

/// What the multibase encoders read from `s`: the base its first character
/// names and the rest decoded permissively in that base.
pub open spec fn multibase_reading(s: Seq<char>) -> Option<(Base, Seq<u8>)> {
    match multibase_decoding(s, false) {
        Some((c, data)) => Some((base_of_code(c).unwrap(), data)),
        None => None,
    }
}

/// Multibase text written in any base but `Identity` reads back as that base
/// and the same bytes.
proof fn lemma_multibase_text_reads_back(base: Base, b: Seq<u8>, r: Seq<char>)
    requires
        base != Base::Identity,
        r == multibase_encoding(base.spec_code(), b),
        base_decoding(base.spec_code(), r.drop_first(), false) == Ok::<Seq<u8>, Seq<char>>(b),
    ensures
        multibase_reading(r) == Some((base, b)),
{
    lemma_code_roundtrip(base, base.spec_code());
    lemma_code_roundtrip(Base::Identity, base.spec_code());
}

impl BaseEncoder for MultibaseEncoder {
    open spec fn spec_encoded(base: Base, b: Seq<u8>) -> Seq<char> {
        multibase_encoding(base.spec_code(), b)
    }

    open spec fn spec_decoded(s: Seq<char>) -> Option<(Base, Seq<u8>)> {
        multibase_reading(s)
    }

    open spec fn spec_debug(base: Base) -> Seq<char> {
        base_label(base)
    }

    open spec fn spec_preferred(base: Base) -> Base {
        base
    }

    open spec fn spec_reversible(base: Base) -> bool {
        base != Base::Identity
    }

    fn to_base_encoded(base: Base, b: &[u8]) -> (r: String) {
        let r = multibase_encode(base.code(), b);
        proof {
            if base != Base::Identity {
                lemma_code_roundtrip(Base::Identity, base.spec_code());
                lemma_multibase_text_reads_back(base, b@, r@);
            }
        }
        r
    }

    fn from_base_encoded(s: &str) -> (r: Result<Vec<(Base, Vec<u8>)>, Error>)
        ensures
            r matches Ok(v) ==> v@.len() == 1,
            r is Err ==> r == Err::<Vec<(Base, Vec<u8>)>, Error>(
                Error::BaseEncoded(BaseEncodedError::ValueFailed),
            ),
    {
        // try permissive multibase decoding
        match multibase_decode(s, false) {
            Ok((c, data)) => match Base::from_code(c) {
                Some(base) => Ok(vec![(base, data)]),
                None => Err(Error::BaseEncoded(BaseEncodedError::ValueFailed)),
            },
            Err(_) => Err(Error::BaseEncoded(BaseEncodedError::ValueFailed)),
        }
    }

    fn debug_string(base: Base) -> (r: String) {
        label(base)
    }

    fn preferred_encoding(base: Base) -> (r: Base) {
        base
    }
}

/// a bare `Base58Btc` encoder implementation for use with legacy CIDs
#[derive(Clone, Debug, Eq, PartialEq)]
pub struct Base58Encoder {}

impl BaseEncoder for Base58Encoder {
    open spec fn spec_encoded(base: Base, b: Seq<u8>) -> Seq<char> {
        base_encoding('z', b)
    }

    open spec fn spec_decoded(s: Seq<char>) -> Option<(Base, Seq<u8>)> {
        match base_decoding('z', s, true) {
            Ok(data) => Some((Base::Base58Btc, data)),
            Err(_) => None,
        }
    }

    open spec fn spec_debug(base: Base) -> Seq<char> {
        base_label(Base::Base58Btc)
    }

    open spec fn spec_preferred(base: Base) -> Base {
        Base::Base58Btc
    }

    open spec fn spec_reversible(base: Base) -> bool {
        true
    }

    fn to_base_encoded(_base: Base, b: &[u8]) -> (r: String) {
        base_encode(Base::Base58Btc.code(), b)
    }

    fn from_base_encoded(s: &str) -> (r: Result<Vec<(Base, Vec<u8>)>, Error>)
        ensures
            r matches Ok(v) ==> v@.len() == 1,
            r matches Err(e) ==> base_decoding('z', s@, true) matches Err(t) && e matches Error::BaseEncoder(
                BaseEncoderError::Base58(text),
            ) && text@ == t,
    {
        // try strict Base58Btc decoding
        match base_decode(Base::Base58Btc.code(), s, true) {
            Ok(v) => Ok(vec![(Base::Base58Btc, v)]),
            Err(text) => Err(Error::BaseEncoder(BaseEncoderError::Base58(text))),
        }
    }

    fn debug_string(_base: Base) -> (r: String) {
        label(Base::Base58Btc)
    }

    fn preferred_encoding(_base: Base) -> (r: Base) {
        Base::Base58Btc
    }
}

/// A speculative encoder that tries to detect the correct encoding and decode it.
///
/// Encoding is always done using multibase so this does not support symmetric
/// decode/encode round trips. This is useful for decoding CIDs that might be
/// base58 encoded "legacy" CIDs but also may be multibase encoded CIDs.
#[derive(Clone, Debug, Eq, PartialEq)]
pub struct DetectedEncoder {}

impl Default for DetectedEncoder {
    fn default() -> (r: Self)
        ensures
            r == (DetectedEncoder {}),
    {
        DetectedEncoder {}
    }
}

impl BaseEncoder for DetectedEncoder {
    open spec fn spec_encoded(base: Base, b: Seq<u8>) -> Seq<char> {
        multibase_encoding(base.spec_code(), b)
    }

    open spec fn spec_decoded(s: Seq<char>) -> Option<(Base, Seq<u8>)> {
        detected_decoding(s)
    }

    open spec fn spec_debug(base: Base) -> Seq<char> {
        base_label(base)
    }

    open spec fn spec_preferred(base: Base) -> Base {
        base
    }

    open spec fn spec_reversible(base: Base) -> bool {
        base != Base::Identity
    }

    fn to_base_encoded(base: Base, b: &[u8]) -> (r: String) {
        let r = multibase_encode(base.code(), b);
        proof {
            if base != Base::Identity {
                lemma_code_roundtrip(Base::Identity, base.spec_code());
                lemma_multibase_text_reads_back(base, b@, r@);
            }
        }
        r
    }

    fn from_base_encoded(s: &str) -> (r: Result<Vec<(Base, Vec<u8>)>, Error>)
        ensures
            r matches Ok(v) ==> v@.len() == 1,
            r is Err ==> r == Err::<Vec<(Base, Vec<u8>)>, Error>(
                Error::BaseEncoded(BaseEncodedError::ValueFailed),
            ),
    {
        // First try permissive multibase decoding (prefix-based).
        if let Ok((c, data)) = multibase_decode(s, false) {
            if let Some(base) = Base::from_code(c) {
                return Ok(vec![(base, data)]);
            }
        }
        // Try "naked" encoding in increasing symbol-space size order,
        // starting after the Identity base. Use strict decoding and bail on
        // the first success to avoid false positives from bases with
        // overlapping alphabets.
        let mut current = Base::Identity;
        loop
            invariant
                multibase_decoding(s@, false) is None,
                current.index() < base_count(),
                naked_decoding(s@, 1) == naked_decoding(s@, current.index() + 1),
            ensures
                detected_decoding(s@) is None,
            decreases base_count() - current.index(),
        {
            match current.successor() {
                None => {
                    break;
                },
                Some(encoding) => {
                    proof {
                        crate::base::lemma_index_roundtrip(encoding);
                    }
                    if let Ok(data) = base_decode(encoding.code(), s, true) {
                        return Ok(vec![(encoding, data)]);
                    }
                    current = encoding;
                },
            }
        }
        Err(Error::BaseEncoded(BaseEncodedError::ValueFailed))
    }

    fn debug_string(base: Base) -> (r: String) {
        label(base)
    }

    fn preferred_encoding(base: Base) -> (r: Base) {
        base
    }
}

/// The detecting decoder accepts every string that the multibase decoder
/// accepts, and reads the same base and bytes from it.
pub proof fn lemma_detected_extends_multibase(text: Seq<char>)
    ensures
        multibase_reading(text) is Some ==> detected_decoding(text) == multibase_reading(text),
{
}

/// Whether the base at place `j` of the table refuses `text` in strict mode.
pub open spec fn strictly_refuses(text: Seq<char>, j: nat) -> bool {
    base_decoding(base_at(j).spec_code(), text, true) is Err
}

/// Resumed at place `j`, the naked search reaches place `i` when every base
/// from `j` up to (not including) `i` refuses the text.
proof fn lemma_naked_skips_refusals(text: Seq<char>, j: nat, i: nat)
    requires
        j <= i < base_count(),
        forall|m: nat| j <= m < i ==> #[trigger] strictly_refuses(text, m),
    ensures
        naked_decoding(text, j) == naked_decoding(text, i),
    decreases i - j,
{
    if j < i {
        assert(strictly_refuses(text, j));
        lemma_naked_skips_refusals(text, j + 1, i);
    }
}

/// The detecting decoder, when no multibase reading exists, tries every base
/// after `Identity` in table order and takes the first that strictly decodes
/// the text: if the bases at places `1..i` refuse it and the base at place
/// `i` decodes it to `data`, the reading is that base with `data`.
pub proof fn lemma_detected_first_strict_base(text: Seq<char>, i: nat, data: Seq<u8>)
    requires
        1 <= i < base_count(),
        multibase_reading(text) is None,
        forall|m: nat| 1 <= m < i ==> #[trigger] strictly_refuses(text, m),
        base_decoding(base_at(i).spec_code(), text, true) == Ok::<Seq<u8>, Seq<char>>(data),
    ensures
        detected_decoding(text) == Some((base_at(i), data)),
{
    lemma_naked_skips_refusals(text, 1, i);
}

/// When there is no multibase reading and every base after `Identity`
/// refuses the text, the detecting decoder refuses it.
pub proof fn lemma_detected_refuses_when_all_refuse(text: Seq<char>)
    requires
        multibase_reading(text) is None,
        forall|m: nat| 1 <= m < base_count() ==> #[trigger] strictly_refuses(text, m),
    ensures
        detected_decoding(text) is None,
{
    lemma_naked_skips_refusals(text, 1, 23);
    assert(strictly_refuses(text, 23));
    assert(naked_decoding(text, 24) is None);
    assert(naked_decoding(text, 23) == naked_decoding(text, 24));
}

} // verus!
