//! The calls into `multi_base`: encoding and decoding in one base, with and
//! without the multibase code prefix.
use multi_base::Error as MultibaseError;
use vstd::prelude::*;

use crate::base::is_base_code;

verus! {

/// The error that `multi_base` gives when a string does not decode; it is
/// carried through as an opaque value.
#[verifier::external_type_specification]
#[verifier::external_body]
pub struct ExMultibaseError(MultibaseError);

/// The code character of the `Identity` base, the one base whose encoding
/// loses data (bytes that are not UTF-8 are replaced on encoding).
pub open spec fn identity_code() -> char {
    '\x00'
}

/// The text that `multi_base::Base::encode` gives for `data` in the base with
/// code character `code` (without the code prefix).
pub uninterp spec fn base_encoding(code: char, data: Seq<u8>) -> Seq<char>;

/// What `multi_base::Base::decode` gives for `text` (without the code
/// prefix) in the base with code character `code`, in strict or permissive
/// mode: the bytes, or the `Debug` text of the error when it refuses the
/// text.
pub uninterp spec fn base_decoding(code: char, text: Seq<char>, strict: bool) -> Result<Seq<u8>, Seq<char>>;

/// Whether a decoding gave exactly the bytes `data`.
pub open spec fn decodes_to(res: Result<Seq<u8>, Seq<char>>, data: Seq<u8>) -> bool {
    res == Ok::<Seq<u8>, Seq<char>>(data)
}

/// Whether a decoding was refused with the error text `text`.
pub open spec fn refused_with(res: Result<Seq<u8>, Seq<char>>, text: Seq<char>) -> bool {
    res == Err::<Seq<u8>, Seq<char>>(text)
}

/// A multibase string: the code character of the base, then the data in
/// that base.
pub open spec fn multibase_encoding(code: char, data: Seq<u8>) -> Seq<char> {
    seq![code] + base_encoding(code, data)
}

/// Reading a multibase string: its first character names the base, and the
/// rest is decoded in that base. Gives the code character and the bytes.
pub open spec fn multibase_decoding(text: Seq<char>, strict: bool) -> Option<(char, Seq<u8>)> {
    if text.len() == 0 || !is_base_code(text[0]) {
        None
    } else {
        match base_decoding(text[0], text.drop_first(), strict) {
            Ok(data) => Some((text[0], data)),
            Err(_) => None,
        }
    }
}

/// `multi_base::encode`: claims that the result is the code character of the
/// base followed by what `Base::encode` gives, as its source builds it, and
/// that for every base but `Identity` the text after the code decodes back to
/// `data`, strictly and permissively (the crate's round-trip tests). The base
/// is passed as its code character and looked up with `Base::from_code`,
/// which the `requires` makes succeed.
#[verifier::external_body]
pub(crate) fn multibase_encode(code: char, data: &[u8]) -> (r: String)
    requires
        is_base_code(code),
    ensures
        r@ == multibase_encoding(code, data@),
        code != identity_code() ==> decodes_to(base_decoding(code, r@.drop_first(), true), data@),
        code != identity_code() ==> decodes_to(base_decoding(code, r@.drop_first(), false), data@),
{
    match multi_base::Base::from_code(code) {
        Ok(base) => multi_base::encode(base, data),
        Err(_) => String::new(),
    }
}

/// `multi_base::Base::encode`: the data in the base with code character
/// `code`, without prefix. Claims, for every base but `Identity`, that the
/// text decodes back to `data`, strictly and permissively (the crate's
/// round-trip tests); nothing else is claimed of the text beyond its name.
#[verifier::external_body]
pub(crate) fn base_encode(code: char, data: &[u8]) -> (r: String)
    requires
        is_base_code(code),
    ensures
        r@ == base_encoding(code, data@),
        code != identity_code() ==> decodes_to(base_decoding(code, r@, true), data@),
        code != identity_code() ==> decodes_to(base_decoding(code, r@, false), data@),
{
    match multi_base::Base::from_code(code) {
        Ok(base) => base.encode(data),
        Err(_) => String::new(),
    }
}

/// `multi_base::decode`: claims that the call reads the first character as
/// the base code and decodes the rest in that base, as its source does; the
/// base found is handed back as its code character.
#[verifier::external_body]
pub(crate) fn multibase_decode(text: &str, strict: bool) -> (r: Result<(char, Vec<u8>), MultibaseError>)
    ensures
        match r {
            Ok((c, data)) => multibase_decoding(text@, strict) == Some((c, data@)),
            Err(_) => multibase_decoding(text@, strict) is None,
        },
{
    match multi_base::decode(text, strict) {
        Ok((base, data)) => Ok((base.code(), data)),
        Err(e) => Err(e),
    }
}

/// `multi_base::Base::decode`: the text (without prefix) decoded in the base
/// with code character `code`; a refusal is handed back as the `Debug` text
/// of the error. Nothing is claimed of either beyond their name.
#[verifier::external_body]
pub(crate) fn base_decode(code: char, text: &str, strict: bool) -> (r: Result<Vec<u8>, String>)
    requires
        is_base_code(code),
    ensures
        match r {
            Ok(data) => decodes_to(base_decoding(code, text@, strict), data@),
            Err(t) => refused_with(base_decoding(code, text@, strict), t@),
        },
{
    match multi_base::Base::from_code(code) {
        Ok(base) => match base.decode(text, strict) {
            Ok(data) => Ok(data),
            Err(e) => Err(format!("{e:?}")),
        },
        Err(e) => Err(format!("{e:?}")),
    }
}

/// Decoding a multibase string made by `multibase_encoding` gives back the
/// base and the data whenever the base's own decoding inverts its encoding.
pub proof fn lemma_multibase_roundtrip(code: char, data: Seq<u8>, strict: bool)
    requires
        is_base_code(code),
        decodes_to(base_decoding(code, base_encoding(code, data), strict), data),
    ensures
        multibase_decoding(multibase_encoding(code, data), strict) == Some((code, data)),
{
    assert(multibase_encoding(code, data).drop_first() =~= base_encoding(code, data));
}

} // verus!
