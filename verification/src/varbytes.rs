//! `Varbytes`: a byte string that travels as a varint length followed by
//! that many bytes.
use vstd::prelude::*;

use crate::base::Base;
use crate::error::Error;
use crate::varuint::{
    decode_usize, encode_usize, lemma_varuint_decoding_reads_some, lemma_varuint_roundtrip,
    varuint_decoding, varuint_encoding,
};

verus! {

/// A wrapper type to handle serde of byte arrays as bytes
#[derive(Clone, PartialEq, Eq)]
pub struct Varbytes(Vec<u8>);

/// Maximum number of bytes a single [`Varbytes`] value will allocate when
/// decoded from untrusted wire data (16 MiB).
pub const MAX_DECODED_SIZE: usize = 16 * 1024 * 1024;

/// The default decoded-size cap (16 MiB), the cap of [`Varbytes`].
pub const DEFAULT_MAX: usize = MAX_DECODED_SIZE;

impl View for Varbytes {
    type V = Seq<u8>;

    closed spec fn view(&self) -> Seq<u8> {
        self.0@
    }
}

/// The wire form of the bytes `data`: the varint of its length, then `data`.
pub open spec fn varbytes_encoding(data: Seq<u8>) -> Seq<u8> {
    varuint_encoding(data.len()) + data
}

/// What decoding `bytes` with the cap `max` yields when it succeeds: the
/// payload and the bytes after it. `None` when the length prefix does not
/// decode, claims more than `max`, or claims more than the buffer holds.
pub open spec fn varbytes_decoding(bytes: Seq<u8>, max: nat) -> Option<(Seq<u8>, Seq<u8>)> {
    match varuint_decoding(bytes) {
        None => None,
        Some((len, k)) => {
            let ptr = bytes.skip(k as int);
            if len <= max && len <= ptr.len() {
                Some((ptr.take(len as int), ptr.skip(len as int)))
            } else {
                None
            }
        },
    }
}

/// The error that a decoding of `bytes` with the cap `max` must give when it
/// fails: the varint's own error, then a length over the cap, then a length
/// over what remains in the buffer.
pub open spec fn is_varbytes_error(e: Error, bytes: Seq<u8>, max: usize) -> bool {
    match varuint_decoding(bytes) {
        None => e is Multitrait,
        Some((len, k)) => if len > max {
            e == (Error::InputTooLarge { claimed: len, max })
        } else {
            e == (Error::InsufficientData { expected: len, actual: (bytes.len() - k) as usize })
        },
    }
}

impl Varbytes {
    /// Create a new Varbytes from a `Vec<u8>`
    pub fn new(data: Vec<u8>) -> (r: Self)
        ensures
            r@ == data@,
    {
        Varbytes(data)
    }

    /// Get a reference to the inner byte slice
    pub fn as_bytes(&self) -> (r: &[u8])
        ensures
            r@ == self@,
    {
        self.0.as_slice()
    }

    /// Get a mutable reference to the inner byte vector
    pub fn as_bytes_mut(&mut self) -> (r: &mut Vec<u8>)
        ensures
            r@ == old(self)@,
            final(self)@ == final(r)@,
    {
        &mut self.0
    }

    /// consume self and return inner vec
    pub fn to_inner(self) -> (r: Vec<u8>)
        ensures
            r@ == self@,
    {
        self.0
    }

    /// The wire form: the varint of the length, then the bytes.
    pub fn encode_into(&self) -> (r: Vec<u8>)
        ensures
            r@ == varbytes_encoding(self@),
    {
        let mut v = encode_usize(self.0.len());
        v.extend_from_slice(self.0.as_slice());
        assert(v@ =~= varbytes_encoding(self@));
        v
    }

    /// Take the payload of a claimed length `len` from the front of `ptr`,
    /// the bytes that follow a decoded length prefix. A claim over `max` is
    /// refused before a claim over the bytes at hand.
    pub fn split_payload<'a>(len: usize, ptr: &'a [u8], max: usize) -> (r: Result<(Varbytes, &'a [u8]), Error>)
        ensures
            match r {
                Ok((v, rest)) => {
                    &&& len <= max
                    &&& len <= ptr@.len()
                    &&& v@ == ptr@.take(len as int)
                    &&& rest@ == ptr@.skip(len as int)
                },
                Err(e) => if len > max {
                    e == (Error::InputTooLarge { claimed: len, max })
                } else {
                    &&& len > ptr@.len()
                    &&& e == (Error::InsufficientData { expected: len, actual: ptr@.len() as usize })
                },
            },
    {
        if len > max {
            return Err(Error::InputTooLarge { claimed: len, max });
        }
        if len > ptr.len() {
            return Err(Error::InsufficientData { expected: len, actual: ptr.len() });
        }
        let (head, rest) = ptr.split_at(len);
        let v = vstd::slice::slice_to_vec(head);
        assert(v@ =~= ptr@.take(len as int));
        assert(rest@ =~= ptr@.skip(len as int));
        Ok((Varbytes(v), rest))
    }

    /// Decode a varbytes from the front of `bytes` with the decoded-size cap
    /// `max`, giving the value and the bytes after it.
    pub fn try_decode_with_max(bytes: &[u8], max: usize) -> (r: Result<(Varbytes, &[u8]), Error>)
        ensures
            match r {
                Ok((v, rest)) => varbytes_decoding(bytes@, max as nat) == Some((v@, rest@)),
                Err(e) => {
                    &&& varbytes_decoding(bytes@, max as nat) is None
                    &&& is_varbytes_error(e, bytes@, max)
                },
            },
    {
        match decode_usize(bytes) {
            Err(e) => Err(Error::Multitrait(e)),
            Ok((len, ptr)) => Self::split_payload(len, ptr, max),
        }
    }

    /// Decode a varbytes from the front of `bytes` under the default cap
    /// [`MAX_DECODED_SIZE`], giving the value and the bytes after it.
    pub fn try_decode_from(bytes: &[u8]) -> (r: Result<(Varbytes, &[u8]), Error>)
        ensures
            match r {
                Ok((v, rest)) => varbytes_decoding(bytes@, MAX_DECODED_SIZE as nat) == Some((v@, rest@)),
                Err(e) => {
                    &&& varbytes_decoding(bytes@, MAX_DECODED_SIZE as nat) is None
                    &&& is_varbytes_error(e, bytes@, MAX_DECODED_SIZE)
                },
            },
    {
        Self::try_decode_with_max(bytes, MAX_DECODED_SIZE)
    }
}

/// The decimal digit character of `d`.
pub open spec fn digit_char(d: nat) -> char {
    if d == 0 {
        '0'
    } else if d == 1 {
        '1'
    } else if d == 2 {
        '2'
    } else if d == 3 {
        '3'
    } else if d == 4 {
        '4'
    } else if d == 5 {
        '5'
    } else if d == 6 {
        '6'
    } else if d == 7 {
        '7'
    } else if d == 8 {
        '8'
    } else {
        '9'
    }
}

/// The decimal text of `n`, without leading zeros.
pub open spec fn decimal_text(n: nat) -> Seq<char>
    decreases n,
{
    if n < 10 {
        seq![digit_char(n)]
    } else {
        decimal_text(n / 10) + seq![digit_char(n % 10)]
    }
}

/// The decimal texts of `bytes`, separated by `", "`.
pub open spec fn byte_items_text(bytes: Seq<u8>) -> Seq<char>
    decreases bytes.len(),
{
    if bytes.len() == 0 {
        Seq::empty()
    } else if bytes.len() == 1 {
        decimal_text(bytes[0] as nat)
    } else {
        byte_items_text(bytes.drop_last()) + seq![',', ' '] + decimal_text(bytes.last() as nat)
    }
}

/// The `Debug` text of a list of bytes, as `std` writes it: `[3, 1, 2]`.
pub open spec fn byte_list_text(bytes: Seq<u8>) -> Seq<char> {
    seq!['['] + byte_items_text(bytes) + seq![']']
}

/// The one-character text of the decimal digit `d`.
fn digit_str(d: u8) -> (r: &'static str)
    requires
        d < 10,
    ensures
        r@ == seq![digit_char(d as nat)],
{
    proof {
        reveal_strlit("0");
        reveal_strlit("1");
        reveal_strlit("2");
        reveal_strlit("3");
        reveal_strlit("4");
        reveal_strlit("5");
        reveal_strlit("6");
        reveal_strlit("7");
        reveal_strlit("8");
        reveal_strlit("9");
    }
    match d {
        0 => "0",
        1 => "1",
        2 => "2",
        3 => "3",
        4 => "4",
        5 => "5",
        6 => "6",
        7 => "7",
        8 => "8",
        _ => "9",
    }
}

/// Append the decimal text of `n` to `s`.
fn push_decimal(s: &mut String, n: u8)
    ensures
        final(s)@ == old(s)@ + decimal_text(n as nat),
{
    proof {
        reveal_with_fuel(decimal_text, 3);
    }
    if n >= 100 {
        s.append(digit_str(n / 100));
        s.append(digit_str((n / 10) % 10));
        s.append(digit_str(n % 10));
        assert(decimal_text(n as nat) =~= seq![
            digit_char((n / 100) as nat),
            digit_char(((n / 10) % 10) as nat),
            digit_char((n % 10) as nat),
        ]);
    } else if n >= 10 {
        s.append(digit_str(n / 10));
        s.append(digit_str(n % 10));
        assert(decimal_text(n as nat) =~= seq![digit_char((n / 10) as nat), digit_char((n % 10) as nat)]);
    } else {
        s.append(digit_str(n));
    }
}

/// The `Debug` text of a byte slice: the decimal bytes, separated by `", "`,
/// in square brackets.
fn debug_bytes(bytes: &[u8]) -> (r: String)
    ensures
        r@ == byte_list_text(bytes@),
{
    proof {
        reveal_strlit("[");
        reveal_strlit("]");
    }
    let mut s = String::from_str("[");
    let mut i: usize = 0;
    while i < bytes.len()
        invariant
            i <= bytes@.len(),
            s@ == seq!['['] + byte_items_text(bytes@.take(i as int)),
        decreases bytes@.len() - i,
    {
        proof {
            reveal_strlit(", ");
        }
        if i > 0 {
            s.append(", ");
        }
        push_decimal(&mut s, bytes[i]);
        let ghost next = bytes@.take(i + 1);
        assert(next.drop_last() =~= bytes@.take(i as int));
        assert(next.last() == bytes@[i as int]);
        if i == 0 {
            assert(byte_items_text(next) == decimal_text(next[0] as nat));
        } else {
            assert(byte_items_text(next) == byte_items_text(next.drop_last()) + seq![',', ' ']
                + decimal_text(next.last() as nat));
        }
        assert(s@ =~= seq!['['] + byte_items_text(next));
        i = i + 1;
    }
    s.append("]");
    assert(bytes@.take(bytes@.len() as int) =~= bytes@);
    s
}

/// Information about the base encoding a type prefers.
pub trait EncodingInfo {
    /// Return the preferred encoding for the type.
    fn preferred_encoding() -> Base;

    /// Return the encoding of this value.
    fn encoding(&self) -> Base;
}

impl EncodingInfo for Varbytes {
    fn preferred_encoding() -> (r: Base)
        ensures
            r == Base::Base16Lower,
    {
        Base::Base16Lower
    }

    fn encoding(&self) -> (r: Base)
        ensures
            r == Base::Base16Lower,
    {
        Base::Base16Lower
    }
}

impl Varbytes {
    /// The debug text of the value: the list of its wire-form bytes.
    pub fn to_debug_string(&self) -> (r: String)
        ensures
            r@ == byte_list_text(varbytes_encoding(self@)),
    {
        let v = self.encode_into();
        debug_bytes(v.as_slice())
    }
}

/// A varbytes whose decoded size is capped at `MAX` bytes at the type level.
#[derive(Clone, PartialEq, Eq)]
pub struct VarbytesMax<const MAX: usize>(Varbytes);

impl<const MAX: usize> View for VarbytesMax<MAX> {
    type V = Seq<u8>;

    closed spec fn view(&self) -> Seq<u8> {
        self.0@
    }
}

impl<const MAX: usize> VarbytesMax<MAX> {
    /// Create a new value from a `Vec<u8>`.
    pub fn new(data: Vec<u8>) -> (r: Self)
        ensures
            r@ == data@,
    {
        VarbytesMax(Varbytes::new(data))
    }

    /// The bytes as a plain [`Varbytes`].
    pub fn into_varbytes(self) -> (r: Varbytes)
        ensures
            r@ == self@,
    {
        self.0
    }

    /// Get a reference to the inner byte slice
    pub fn as_bytes(&self) -> (r: &[u8])
        ensures
            r@ == self@,
    {
        self.0.as_bytes()
    }

    /// The wire form: the varint of the length, then the bytes.
    pub fn encode_into(&self) -> (r: Vec<u8>)
        ensures
            r@ == varbytes_encoding(self@),
    {
        self.0.encode_into()
    }

    /// Decode from the front of `bytes` under the cap `MAX`, giving the value
    /// and the bytes after it.
    pub fn try_decode_from(bytes: &[u8]) -> (r: Result<(Self, &[u8]), Error>)
        ensures
            match r {
                Ok((v, rest)) => varbytes_decoding(bytes@, MAX as nat) == Some((v@, rest@)),
                Err(e) => {
                    &&& varbytes_decoding(bytes@, MAX as nat) is None
                    &&& is_varbytes_error(e, bytes@, MAX)
                },
            },
    {
        match Varbytes::try_decode_with_max(bytes, MAX) {
            Ok((v, rest)) => Ok((VarbytesMax(v), rest)),
            Err(e) => Err(e),
        }
    }
}

/// Decode the payload of a varbytes with a caller-supplied maximum decoded
/// size; the bytes after the payload are dropped.
pub fn decode_varbytes(input: &[u8], max: usize) -> (r: Result<Vec<u8>, Error>)
    ensures
        match r {
            Ok(v) => varbytes_decoding(input@, max as nat) matches Some((data, _)) && v@ == data,
            Err(e) => {
                &&& varbytes_decoding(input@, max as nat) is None
                &&& is_varbytes_error(e, input@, max)
            },
        },
{
    match Varbytes::try_decode_with_max(input, max) {
        Ok((v, _)) => Ok(v.to_inner()),
        Err(e) => Err(e),
    }
}

/// Decoding the wire form of `data`, followed by any bytes, gives back
/// `data` and those bytes, whenever `data` is within the cap.
pub proof fn lemma_varbytes_roundtrip(data: Seq<u8>, tail: Seq<u8>, max: nat)
    requires
        data.len() <= max,
        data.len() <= usize::MAX,
    ensures
        varbytes_decoding(varbytes_encoding(data) + tail, max) == Some((data, tail)),
{
    let n = data.len() as usize;
    let enc = varuint_encoding(n as nat);
    let bytes = varbytes_encoding(data) + tail;
    assert(bytes =~= enc + (data + tail));
    lemma_varuint_roundtrip(n, data + tail);
    assert(bytes.skip(enc.len() as int) =~= data + tail);
    assert((data + tail).take(n as int) =~= data);
    assert((data + tail).skip(n as int) =~= tail);
}

/// A decoded payload never holds more bytes than the cap allows.
pub proof fn lemma_decoded_within_cap(bytes: Seq<u8>, max: nat)
    ensures
        varbytes_decoding(bytes, max) matches Some((data, _)) ==> data.len() <= max,
{
}

/// A decoding only reads inside the input: the payload and the bytes after
/// it are, together, what follows the length prefix at the end of `bytes`.
pub proof fn lemma_decoding_within_input(bytes: Seq<u8>, max: nat)
    ensures
        varbytes_decoding(bytes, max) matches Some((data, rest)) ==> {
            &&& data.len() + rest.len() < bytes.len()
            &&& bytes.skip(bytes.len() - data.len() - rest.len()) == data + rest
        },
{
    if let Some((data, rest)) = varbytes_decoding(bytes, max) {
        let (len, k) = varuint_decoding(bytes).unwrap();
        lemma_varuint_decoding_reads_some(bytes);
        let ptr = bytes.skip(k as int);
        assert(ptr =~= data + rest);
        assert(bytes.skip(bytes.len() - data.len() - rest.len()) =~= ptr);
    }
}

/// A decoding succeeds only with exactly the payload the length prefix
/// claims: the prefix decodes to a length within the cap, the payload has
/// that length, and the input is the prefix, the payload and the rest, in
/// that order. So a prefix claiming more bytes than follow it never decodes.
pub proof fn lemma_decoding_takes_claimed_length(bytes: Seq<u8>, max: nat)
    ensures
        varbytes_decoding(bytes, max) matches Some((data, rest)) ==> {
            &&& varuint_decoding(bytes) matches Some((len, k)) && {
                &&& data.len() == len
                &&& len <= max
                &&& k + len <= bytes.len()
                &&& bytes == bytes.take(k as int) + data + rest
            }
        },
        varuint_decoding(bytes) matches Some((len, k)) && k + len > bytes.len() ==> varbytes_decoding(
            bytes,
            max,
        ) is None,
{
    lemma_varuint_decoding_reads_some(bytes);
    if let Some((data, rest)) = varbytes_decoding(bytes, max) {
        let (len, k) = varuint_decoding(bytes).unwrap();
        assert(bytes =~= bytes.take(k as int) + data + rest);
    }
}

/// The numeric value of a text of decimal digits.
pub open spec fn decimal_value(text: Seq<char>) -> int
    decreases text.len(),
{
    if text.len() == 0 {
        0
    } else {
        decimal_value(text.drop_last()) * 10 + (text.last() as int - '0' as int)
    }
}

/// Whether every character of `text` is one of the ten ASCII digits.
pub open spec fn all_decimal_digits(text: Seq<char>) -> bool {
    forall|i: int| 0 <= i < text.len() ==> '0' <= #[trigger] text[i] <= '9'
}

/// The digit character of `d` is the ASCII digit `'0' + d`.
proof fn lemma_digit_char_value(d: nat)
    requires
        d < 10,
    ensures
        digit_char(d) as int == '0' as int + d,
        '0' <= digit_char(d) <= '9',
{
}

/// The decimal text of `n` is the ordinary one: ASCII digits only, no
/// leading zero, and reading it as a decimal number gives back `n`.
pub proof fn lemma_decimal_text_reads_back(n: nat)
    ensures
        all_decimal_digits(decimal_text(n)),
        decimal_value(decimal_text(n)) == n,
        decimal_text(n).len() > 0,
        decimal_text(n)[0] == '0' ==> n == 0,
    decreases n,
{
    if n < 10 {
        lemma_digit_char_value(n);
        assert(decimal_text(n) =~= seq![digit_char(n)]);
        assert(decimal_text(n).drop_last() =~= Seq::<char>::empty());
        assert(decimal_value(Seq::<char>::empty()) == 0);
        assert(decimal_value(decimal_text(n)) == decimal_value(decimal_text(n).drop_last()) * 10 + (
        digit_char(n) as int - '0' as int));
    } else {
        lemma_decimal_text_reads_back(n / 10);
        let prefix = decimal_text(n / 10);
        let d = n % 10;
        lemma_digit_char_value(d);
        assert(decimal_text(n) == prefix + seq![digit_char(d)]);
        assert((prefix + seq![digit_char(d)]).drop_last() =~= prefix);
        assert(n == (n / 10) * 10 + d);
        assert((prefix + seq![digit_char(d)])[0] == prefix[0]);
        assert(decimal_value(decimal_text(n)) == decimal_value(prefix) * 10 + (digit_char(d) as int
            - '0' as int));
    }
}

impl Default for Varbytes {
    fn default() -> (r: Self)
        ensures
            r@ == Seq::<u8>::empty(),
    {
        Varbytes(Vec::new())
    }
}

impl core::ops::Deref for Varbytes {
    type Target = Vec<u8>;

    fn deref(&self) -> (r: &Vec<u8>)
        ensures
            r@ == self@,
    {
        &self.0
    }
}

impl AsRef<[u8]> for Varbytes {
    fn as_ref(&self) -> (r: &[u8])
        ensures
            r@ == self@,
    {
        self.0.as_slice()
    }
}

impl From<Varbytes> for Vec<u8> {
    fn from(vb: Varbytes) -> (r: Vec<u8>)
        ensures
            r@ == varbytes_encoding(vb@),
    {
        vb.encode_into()
    }
}

/// `from_spec` is a vector holding the wire form; since a `Vec` is not
/// determined by its view, the conversion does not promise to be that very
/// vector, and its `ensures` states the wire form instead.
impl vstd::std_specs::convert::FromSpecImpl<Varbytes> for Vec<u8> {
    open spec fn obeys_from_spec() -> bool {
        false
    }

    open spec fn from_spec(vb: Varbytes) -> Vec<u8> {
        choose|v: Vec<u8>| v@ == varbytes_encoding(vb@)
    }
}

/// Whether `r` is what reading a varbytes payload from the front of `bytes`
/// under the default cap may give.
pub open spec fn is_varbytes_reading(r: Result<Varbytes, Error>, bytes: Seq<u8>) -> bool {
    match r {
        Ok(v) => varbytes_decoding(bytes, MAX_DECODED_SIZE as nat) matches Some((data, _)) && v@ == data,
        Err(e) => {
            &&& varbytes_decoding(bytes, MAX_DECODED_SIZE as nat) is None
            &&& is_varbytes_error(e, bytes, MAX_DECODED_SIZE)
        },
    }
}

/// `try_from_spec` is a result of the kind the `ensures` of `try_from`
/// describes; since neither the payload vector nor the varint error is
/// determined by the input, the conversion does not promise to be that very
/// value, and its `ensures` states the result instead.
impl<'a> vstd::std_specs::convert::TryFromSpecImpl<&'a [u8]> for Varbytes {
    open spec fn obeys_try_from_spec() -> bool {
        false
    }

    open spec fn try_from_spec(s: &'a [u8]) -> Result<Varbytes, Error> {
        choose|r: Result<Varbytes, Error>| #[trigger] is_varbytes_reading(r, s@)
    }
}

impl<'a> TryFrom<&'a [u8]> for Varbytes {
    type Error = Error;

    fn try_from(s: &'a [u8]) -> (r: Result<Varbytes, Error>)
        ensures
            is_varbytes_reading(r, s@),
    {
        match Varbytes::try_decode_from(s) {
            Ok((v, _)) => Ok(v),
            Err(e) => Err(e),
        }
    }
}

} // verus!
